//! Record rendering: list lines, list joins, detail views, titles, and
//! the small text utilities underneath them.

use void_relay::directory::{resolve_user_name, NameLookup};
use void_relay::ident::PlayerIdentifier;
use void_relay::records::{
    ban_info_title, ban_not_found_message, bans_list_title, format_admin_note, format_ban_summary,
    format_bans_list, format_notes_list, format_short_ban_summary, format_short_note_summary,
    note_not_found_message, note_title, notes_list_title, AdminNote, AdminNoteShort, ServerBan,
    ServerBanShort,
};
use void_relay::commands::whitelist::{whitelist_add_response, whitelist_rm_response, WhitelistAddOutcome};
use void_relay::text::{render_i32, render_i64, render_u64, str_eq};

const U1: &str = "11111111-2222-3333-4444-555555555555";
const A1: &str = "aaaaaaaa-bbbb-cccc-dddd-eeee00000001";

#[test]
fn short_summaries_keep_short_text_whole() {
    let ban = ServerBanShort {
        server_ban_id: 3,
        reason: "griefing".to_string(),
    };
    assert_eq!(format_short_ban_summary(&ban), "**3**. griefing");
    let note = AdminNoteShort {
        admin_notes_id: 12,
        message: "be nice".to_string(),
    };
    assert_eq!(format_short_note_summary(&note), "**12**. be nice");
}

#[test]
fn short_summaries_cut_at_fifty_characters() {
    let fifty: String = "x".repeat(50);
    let ban = ServerBanShort {
        server_ban_id: 1,
        reason: fifty.clone(),
    };
    assert_eq!(format_short_ban_summary(&ban), format!("**1**. {}", fifty));
    let long: String = "y".repeat(51);
    let ban = ServerBanShort {
        server_ban_id: 1,
        reason: long,
    };
    assert_eq!(
        format_short_ban_summary(&ban),
        format!("**1**. {}...", "y".repeat(50))
    );
}

#[test]
fn list_views_join_lines_with_newlines() {
    let bans = vec![
        ServerBanShort {
            server_ban_id: 1,
            reason: "a".to_string(),
        },
        ServerBanShort {
            server_ban_id: 2,
            reason: "b".to_string(),
        },
    ];
    assert_eq!(format_bans_list(&bans), "**1**. a\n**2**. b");
    assert_eq!(format_bans_list(&vec![]), "");
    let notes = vec![AdminNoteShort {
        admin_notes_id: 4,
        message: "m".to_string(),
    }];
    assert_eq!(format_notes_list(&notes), "**4**. m");
}

#[test]
fn ban_detail_view_renders_every_present_field() {
    let ban = ServerBan {
        server_ban_id: 77,
        player_user_id: PlayerIdentifier::parse(U1).unwrap(),
        address: "10.0.0.1".to_string(),
        ban_time: "2024-05-01 12:00:00 UTC".to_string(),
        expiration_time: Some("2024-06-01 12:00:00 UTC".to_string()),
        reason: "griefing".to_string(),
        banning_admin: PlayerIdentifier::parse(A1).unwrap(),
        hwid: Some("HWID0".to_string()),
        auto_delete: true,
        last_edited_at: Some("2024-05-02 08:00:00 UTC".to_string()),
        last_edited_by_id: Some(PlayerIdentifier::parse(A1).unwrap()),
        round_id: Some(900),
    };
    let text = format_ban_summary(&ban, "Mod1", Some("Mod2".to_string()));
    let expected = "\u{1f512} **Ban ID:** 77\n\
                    \u{1f4c5} **Ban Time:** 2024-05-01 12:00:00 UTC\n\
                    \u{1f4cd} **Address:** 10.0.0.1\n\
                    \u{270d}\u{fe0f} **Banning Admin:** Mod1\n\
                    \u{23f3} **Expiration Time:** 2024-06-01 12:00:00 UTC\n  \
                    **HWID:** HWID0\n\
                    \u{1f552} **Last Edited At:** 2024-05-02 08:00:00 UTC\n\
                    \u{270d}\u{fe0f} **Last Edited By:** Mod2\n\
                    \u{2728} **Round ID:** 900\n\
                    **\u{1f5d1}\u{fe0f} Auto Delete:** Yes\n\n\
                    \u{1f4dd} **Reason:**\ngriefing";
    assert_eq!(text, expected);
}

#[test]
fn ban_detail_view_skips_absent_fields() {
    let ban = ServerBan {
        server_ban_id: 8,
        player_user_id: PlayerIdentifier::parse(U1).unwrap(),
        address: "10.0.0.2".to_string(),
        ban_time: "t0".to_string(),
        expiration_time: None,
        reason: "r".to_string(),
        banning_admin: PlayerIdentifier::parse(A1).unwrap(),
        hwid: None,
        auto_delete: false,
        last_edited_at: None,
        last_edited_by_id: None,
        round_id: None,
    };
    let text = format_ban_summary(&ban, "Mod1", None);
    let expected = "\u{1f512} **Ban ID:** 8\n\
                    \u{1f4c5} **Ban Time:** t0\n\
                    \u{1f4cd} **Address:** 10.0.0.2\n\
                    \u{270d}\u{fe0f} **Banning Admin:** Mod1\n\
                    \u{23f3} **Expiration Time:** Never\n\
                    **\u{1f5d1}\u{fe0f} AutoDelete:** No\n\n\
                    \u{1f4dd} **Reason:**\nr";
    assert_eq!(text, expected);
}

#[test]
fn note_detail_view_renders() {
    let note = AdminNote {
        round_id: 55,
        player_user_id: PlayerIdentifier::parse(U1).unwrap(),
        message: "watch this one".to_string(),
        created_by_id: PlayerIdentifier::parse(A1).unwrap(),
        created_at: "c0".to_string(),
        last_edited_by_id: PlayerIdentifier::parse(A1).unwrap(),
        last_edited_at: "e0".to_string(),
        deleted: false,
        deleted_by_id: None,
        deleted_at: None,
        secret: true,
        expiration_time: None,
        severity: 1,
    };
    let text = format_admin_note(&note, "Mod1", "Mod2");
    let expected = "\u{2728} **Round ID:** 55\n\
                    \u{1f464} **Created By:** Mod1\n\
                    \u{1f4c5} **Created At:** c0\n\
                    \u{270d}\u{fe0f} **Last Edited By:** Mod2\n\
                    \u{1f552} **Last Edited At:** e0\n\
                    \u{1f5d1}\u{fe0f} **Deleted:** No\n\
                    \u{1f512} **Secret:** Yes\n\n\
                    \u{1f4dd} **Message:**\nwatch this one";
    assert_eq!(text, expected);
}

#[test]
fn titles_and_not_found_messages() {
    assert_eq!(bans_list_title("Alice"), "Bans for `Alice`");
    assert_eq!(ban_info_title("Bob"), "Ban of `Bob`");
    assert_eq!(ban_not_found_message(12), "Ban with id: 12 is not found");
    assert_eq!(notes_list_title("Alice"), "Notes for `Alice`");
    assert_eq!(note_title(3, "Bob"), "Note `3` for `Bob`");
    assert_eq!(note_not_found_message(4), "Note with ID `4` not found.");
}

#[test]
fn display_name_falls_back_to_identifier_text() {
    let id = PlayerIdentifier::parse(U1).unwrap();
    assert_eq!(
        resolve_user_name(&id, NameLookup::Row("Alice".to_string())),
        "Alice"
    );
    assert_eq!(resolve_user_name(&id, NameLookup::NoRow), U1);
    assert_eq!(resolve_user_name(&id, NameLookup::Failed), U1);
}

#[test]
fn whitelist_responses_follow_store_outcomes() {
    assert_eq!(
        whitelist_rm_response("Bob", Some(0)),
        "User Bob is not whitelisted."
    );
    assert_eq!(
        whitelist_rm_response("Bob", Some(1)),
        "Successfully removed Bob from whitelist."
    );
    assert_eq!(
        whitelist_rm_response("Bob", None),
        "Unable to remove Bob from whitelist."
    );
    assert_eq!(
        whitelist_add_response("Bob", &WhitelistAddOutcome::Inserted),
        "Successfully added Bob to whitelist."
    );
    assert_eq!(
        whitelist_add_response("Bob", &WhitelistAddOutcome::AlreadyWhitelisted),
        "Such player is already whitelisted."
    );
    assert_eq!(
        whitelist_add_response("Bob", &WhitelistAddOutcome::Failed),
        "Unable to add Bob to whitelist."
    );
}

#[test]
fn decimal_rendering_is_exact() {
    assert_eq!(render_u64(0), "0");
    assert_eq!(render_u64(1000000007), "1000000007");
    assert_eq!(render_i32(-5), "-5");
    assert_eq!(render_i32(i32::MIN), "-2147483648");
    assert_eq!(render_i32(i32::MAX), "2147483647");
    assert_eq!(render_i64(i64::MIN), "-9223372036854775808");
    assert_eq!(render_i64(-1), "-1");
}

#[test]
fn string_equality_is_by_characters() {
    assert!(str_eq("abc", "abc"));
    assert!(!str_eq("abc", "abd"));
    assert!(!str_eq("abc", "ab"));
    assert!(str_eq("", ""));
}
