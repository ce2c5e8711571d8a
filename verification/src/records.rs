//! Moderation history records — bans and admin notes — and their
//! read-only display renderings.
//!
//! The records mirror the backing store's rows, with timestamps and
//! addresses already rendered as text by whoever read the row; this core
//! performs no date arithmetic.  Long free-text fields are shortened to
//! fifty characters for list views.

use vstd::prelude::*;
use vstd::string::StringExecFns;
use crate::ident::PlayerIdentifier;
use crate::text::chars_of;
use crate::text::dec_int;
use crate::text::render_i32;

verus! {

/// A ban row shortened for list views.
#[derive(Debug)]
pub struct ServerBanShort {
    pub server_ban_id: i32,
    pub reason: String,
}

/// A note row shortened for list views.
#[derive(Debug)]
pub struct AdminNoteShort {
    pub admin_notes_id: i32,
    pub message: String,
}

/// A full ban row.  Timestamps and the address come pre-rendered as
/// text; an absent optional field was a null in the store.
#[derive(Debug)]
pub struct ServerBan {
    pub server_ban_id: i32,
    pub player_user_id: PlayerIdentifier,
    pub address: String,
    pub ban_time: String,
    pub expiration_time: Option<String>,
    pub reason: String,
    pub banning_admin: PlayerIdentifier,
    pub hwid: Option<String>,
    pub auto_delete: bool,
    pub last_edited_at: Option<String>,
    pub last_edited_by_id: Option<PlayerIdentifier>,
    pub round_id: Option<i32>,
}

/// A full admin note row, with timestamps pre-rendered as text.
#[derive(Debug)]
pub struct AdminNote {
    pub round_id: i32,
    pub player_user_id: PlayerIdentifier,
    pub message: String,
    pub created_by_id: PlayerIdentifier,
    pub created_at: String,
    pub last_edited_by_id: PlayerIdentifier,
    pub last_edited_at: String,
    pub deleted: bool,
    pub deleted_by_id: Option<PlayerIdentifier>,
    pub deleted_at: Option<String>,
    pub secret: bool,
    pub expiration_time: Option<String>,
    pub severity: i32,
}

/// A free-text field shortened for a list view: at most fifty
/// characters, with an ellipsis when something was cut.
pub open spec fn shortened(s: Seq<char>) -> Seq<char> {
    if s.len() <= 50 {
        s
    } else {
        s.subrange(0, 50) + "..."@
    }
}

fn shorten_text(s: &str) -> (r: String)
    ensures
        r@ == shortened(s@),
{
    let v = chars_of(s);
    if v.len() <= 50 {
        return s.to_owned();
    }
    let mut out = String::new();
    let mut i: usize = 0;
    while i < 50
        invariant
            0 <= i <= 50,
            v@.len() > 50,
            v@ == s@,
            out@ == s@.subrange(0, i as int),
        decreases 50 - i,
    {
        out.push(v[i]);
        assert(out@ =~= s@.subrange(0, i + 1 as int));
        i += 1;
    }
    out.append("...");
    assert(out@ =~= shortened(s@));
    out
}

/// One line of a ban list: the record identifier and the shortened
/// reason.
pub open spec fn short_ban_summary(id: int, reason: Seq<char>) -> Seq<char> {
    "**"@ + dec_int(id) + "**. "@ + shortened(reason)
}

/// Renders one ban list line.
pub fn format_short_ban_summary(ban: &ServerBanShort) -> (r: String)
    ensures
        r@ == short_ban_summary(ban.server_ban_id as int, ban.reason@),
{
    let mut out = String::from_str("**");
    let id = render_i32(ban.server_ban_id);
    out.append(id.as_str());
    out.append("**. ");
    let msg = shorten_text(ban.reason.as_str());
    out.append(msg.as_str());
    assert(out@ =~= short_ban_summary(ban.server_ban_id as int, ban.reason@));
    out
}

/// One line of a note list: the record identifier and the shortened
/// message.
pub open spec fn short_note_summary(id: int, message: Seq<char>) -> Seq<char> {
    "**"@ + dec_int(id) + "**. "@ + shortened(message)
}

/// Renders one note list line.
pub fn format_short_note_summary(note: &AdminNoteShort) -> (r: String)
    ensures
        r@ == short_note_summary(note.admin_notes_id as int, note.message@),
{
    let mut out = String::from_str("**");
    let id = render_i32(note.admin_notes_id);
    out.append(id.as_str());
    out.append("**. ");
    let msg = shorten_text(note.message.as_str());
    out.append(msg.as_str());
    assert(out@ =~= short_note_summary(note.admin_notes_id as int, note.message@));
    out
}

/// Lines joined with newlines, no trailing newline.
pub open spec fn joined_lines(lines: Seq<Seq<char>>) -> Seq<char>
    decreases lines.len(),
{
    if lines.len() == 0 {
        Seq::empty()
    } else if lines.len() == 1 {
        lines[0]
    } else {
        lines[0] + "\n"@ + joined_lines(lines.drop_first())
    }
}

pub proof fn lemma_joined_lines_push(lines: Seq<Seq<char>>, l: Seq<char>)
    ensures
        lines.len() == 0 ==> joined_lines(lines.push(l)) == l,
        lines.len() > 0 ==> joined_lines(lines.push(l)) == joined_lines(lines) + "\n"@ + l,
    decreases lines.len(),
{
    if lines.len() == 0 {
        assert(lines.push(l)[0] == l);
    } else {
        assert(lines.push(l).drop_first() =~= lines.drop_first().push(l));
        lemma_joined_lines_push(lines.drop_first(), l);
        assert(joined_lines(lines.push(l)) == lines[0] + "\n"@ + joined_lines(
            lines.drop_first().push(l),
        ));
        assert(joined_lines(lines.push(l)) =~= joined_lines(lines) + "\n"@ + l);
    }
}

/// The list-view lines of a sequence of ban rows.
pub open spec fn ban_summary_lines(bans: Seq<ServerBanShort>) -> Seq<Seq<char>> {
    Seq::new(bans.len(), |i: int| short_ban_summary(bans[i].server_ban_id as int, bans[i].reason@))
}

/// Renders the whole ban list of one player, one line per ban.
pub fn format_bans_list(bans: &Vec<ServerBanShort>) -> (r: String)
    ensures
        r@ == joined_lines(ban_summary_lines(bans@)),
{
    let mut out = String::new();
    let mut i: usize = 0;
    proof {
        assert(ban_summary_lines(bans@).subrange(0, 0) =~= Seq::<Seq<char>>::empty());
        assert(out@ =~= joined_lines(ban_summary_lines(bans@).subrange(0, 0)));
    }
    while i < bans.len()
        invariant
            0 <= i <= bans@.len(),
            out@ == joined_lines(ban_summary_lines(bans@).subrange(0, i as int)),
        decreases bans@.len() - i,
    {
        let ghost prefix = ban_summary_lines(bans@).subrange(0, i as int);
        let ghost line = ban_summary_lines(bans@)[i as int];
        if i > 0 {
            out.push('\n');
        }
        let s = format_short_ban_summary(&bans[i]);
        out.append(s.as_str());
        proof {
            reveal_strlit("\n");
            lemma_joined_lines_push(prefix, line);
            assert(prefix.push(line) =~= ban_summary_lines(bans@).subrange(0, i + 1 as int));
            assert(out@ =~= joined_lines(ban_summary_lines(bans@).subrange(0, i + 1 as int)));
        }
        i += 1;
    }
    proof {
        assert(ban_summary_lines(bans@).subrange(0, bans@.len() as int) =~= ban_summary_lines(
            bans@,
        ));
    }
    out
}

/// The list-view lines of a sequence of note rows.
pub open spec fn note_summary_lines(notes: Seq<AdminNoteShort>) -> Seq<Seq<char>> {
    Seq::new(
        notes.len(),
        |i: int| short_note_summary(notes[i].admin_notes_id as int, notes[i].message@),
    )
}

/// Renders the whole note list of one player, one line per note.
pub fn format_notes_list(notes: &Vec<AdminNoteShort>) -> (r: String)
    ensures
        r@ == joined_lines(note_summary_lines(notes@)),
{
    let mut out = String::new();
    let mut i: usize = 0;
    proof {
        assert(note_summary_lines(notes@).subrange(0, 0) =~= Seq::<Seq<char>>::empty());
        assert(out@ =~= joined_lines(note_summary_lines(notes@).subrange(0, 0)));
    }
    while i < notes.len()
        invariant
            0 <= i <= notes@.len(),
            out@ == joined_lines(note_summary_lines(notes@).subrange(0, i as int)),
        decreases notes@.len() - i,
    {
        let ghost prefix = note_summary_lines(notes@).subrange(0, i as int);
        let ghost line = note_summary_lines(notes@)[i as int];
        if i > 0 {
            out.push('\n');
        }
        let s = format_short_note_summary(&notes[i]);
        out.append(s.as_str());
        proof {
            reveal_strlit("\n");
            lemma_joined_lines_push(prefix, line);
            assert(prefix.push(line) =~= note_summary_lines(notes@).subrange(0, i + 1 as int));
            assert(out@ =~= joined_lines(note_summary_lines(notes@).subrange(0, i + 1 as int)));
        }
        i += 1;
    }
    proof {
        assert(note_summary_lines(notes@).subrange(0, notes@.len() as int) =~= note_summary_lines(
            notes@,
        ));
    }
    out
}

/// The detail view of one ban row, given the resolved names of the
/// banning admin and of the last editor.
pub open spec fn ban_summary(
    b: &ServerBan,
    created_by: Seq<char>,
    last_edited_by: Option<Seq<char>>,
) -> Seq<char> {
    "\u{1f512} **Ban ID:** "@ + dec_int(b.server_ban_id as int) + "\n\u{1f4c5} **Ban Time:** "@
        + b.ban_time@ + "\n\u{1f4cd} **Address:** "@ + b.address@
        + "\n\u{270d}\u{fe0f} **Banning Admin:** "@ + created_by + "\n"@ + (match b.expiration_time {
        Some(t) => "\u{23f3} **Expiration Time:** "@ + t@ + "\n"@,
        None => "\u{23f3} **Expiration Time:** Never\n"@,
    }) + (match b.hwid {
        Some(h) => "  **HWID:** "@ + h@ + "\n"@,
        None => Seq::empty(),
    }) + (match b.last_edited_at {
        Some(t) => "\u{1f552} **Last Edited At:** "@ + t@ + "\n"@,
        None => Seq::empty(),
    }) + (match last_edited_by {
        Some(n) => "\u{270d}\u{fe0f} **Last Edited By:** "@ + n + "\n"@,
        None => Seq::empty(),
    }) + (match b.round_id {
        Some(id) => "\u{2728} **Round ID:** "@ + dec_int(id as int) + "\n"@,
        None => Seq::empty(),
    }) + (if b.auto_delete {
        "**\u{1f5d1}\u{fe0f} Auto Delete:** Yes\n"@
    } else {
        "**\u{1f5d1}\u{fe0f} AutoDelete:** No\n"@
    }) + "\n\u{1f4dd} **Reason:**\n"@ + b.reason@
}

/// Renders the detail view of one ban row.
#[verifier::rlimit(100)]
pub fn format_ban_summary(ban: &ServerBan, created_by: &str, last_edited_by: Option<String>) -> (r:
    String)
    ensures
        r@ == ban_summary(ban, created_by@, match last_edited_by {
            Some(n) => Some(n@),
            None => None,
        }),
{
    let mut out = String::from_str("\u{1f512} **Ban ID:** ");
    let id = render_i32(ban.server_ban_id);
    out.append(id.as_str());
    out.append("\n\u{1f4c5} **Ban Time:** ");
    out.append(ban.ban_time.as_str());
    out.append("\n\u{1f4cd} **Address:** ");
    out.append(ban.address.as_str());
    out.append("\n\u{270d}\u{fe0f} **Banning Admin:** ");
    out.append(created_by);
    out.append("\n");
    let ghost p1 = out@;
    match &ban.expiration_time {
        Some(t) => {
            out.append("\u{23f3} **Expiration Time:** ");
            out.append(t.as_str());
            out.append("\n");
        },
        None => {
            out.append("\u{23f3} **Expiration Time:** Never\n");
        },
    }
    proof {
        assert(out@ =~= p1 + (match ban.expiration_time {
            Some(t) => "\u{23f3} **Expiration Time:** "@ + t@ + "\n"@,
            None => "\u{23f3} **Expiration Time:** Never\n"@,
        }));
    }
    let ghost p2 = out@;
    match &ban.hwid {
        Some(h) => {
            out.append("  **HWID:** ");
            out.append(h.as_str());
            out.append("\n");
        },
        None => {},
    }
    proof {
        assert(out@ =~= p2 + (match ban.hwid {
            Some(h) => "  **HWID:** "@ + h@ + "\n"@,
            None => Seq::empty(),
        }));
    }
    let ghost p3 = out@;
    match &ban.last_edited_at {
        Some(t) => {
            out.append("\u{1f552} **Last Edited At:** ");
            out.append(t.as_str());
            out.append("\n");
        },
        None => {},
    }
    proof {
        assert(out@ =~= p3 + (match ban.last_edited_at {
            Some(t) => "\u{1f552} **Last Edited At:** "@ + t@ + "\n"@,
            None => Seq::empty(),
        }));
    }
    let ghost p4 = out@;
    match &last_edited_by {
        Some(n) => {
            out.append("\u{270d}\u{fe0f} **Last Edited By:** ");
            out.append(n.as_str());
            out.append("\n");
        },
        None => {},
    }
    proof {
        assert(out@ =~= p4 + (match last_edited_by {
            Some(n) => "\u{270d}\u{fe0f} **Last Edited By:** "@ + n@ + "\n"@,
            None => Seq::empty(),
        }));
    }
    let ghost p5 = out@;
    match &ban.round_id {
        Some(rid) => {
            out.append("\u{2728} **Round ID:** ");
            let r = render_i32(*rid);
            out.append(r.as_str());
            out.append("\n");
        },
        None => {},
    }
    proof {
        assert(out@ =~= p5 + (match ban.round_id {
            Some(rid) => "\u{2728} **Round ID:** "@ + dec_int(rid as int) + "\n"@,
            None => Seq::empty(),
        }));
    }
    if ban.auto_delete {
        out.append("**\u{1f5d1}\u{fe0f} Auto Delete:** Yes\n");
    } else {
        out.append("**\u{1f5d1}\u{fe0f} AutoDelete:** No\n");
    }
    out.append("\n\u{1f4dd} **Reason:**\n");
    out.append(ban.reason.as_str());
    assert(out@ == ban_summary(ban, created_by@, match last_edited_by {
        Some(n) => Some(n@),
        None => None,
    }));
    out
}

/// The detail view of one note row, given the resolved names of its
/// author and of the last editor.
pub open spec fn note_summary(n: &AdminNote, created_by: Seq<char>, last_edited_by: Seq<char>) -> Seq<char> {
    "\u{2728} **Round ID:** "@ + dec_int(n.round_id as int) + "\n\u{1f464} **Created By:** "@
        + created_by + "\n\u{1f4c5} **Created At:** "@ + n.created_at@
        + "\n\u{270d}\u{fe0f} **Last Edited By:** "@ + last_edited_by
        + "\n\u{1f552} **Last Edited At:** "@ + n.last_edited_at@
        + "\n\u{1f5d1}\u{fe0f} **Deleted:** "@ + (if n.deleted {
        "Yes"@
    } else {
        "No"@
    }) + "\n"@ + (match n.deleted_at {
        Some(t) => "\u{1f5d3}\u{fe0f} **Deleted At:** "@ + t@ + "\n"@,
        None => Seq::empty(),
    }) + (if n.secret {
        "\u{1f512} **Secret:** Yes\n"@
    } else {
        "\u{1f513} **Secret:** No\n"@
    }) + (match n.expiration_time {
        Some(t) => "\u{23f3} **Expiration Time:** "@ + t@ + "\n"@,
        None => Seq::empty(),
    }) + "\n\u{1f4dd} **Message:**\n"@ + n.message@
}

/// Renders the detail view of one note row.
#[verifier::rlimit(100)]
pub fn format_admin_note(note: &AdminNote, created_by: &str, last_edited_by: &str) -> (r: String)
    ensures
        r@ == note_summary(note, created_by@, last_edited_by@),
{
    let mut out = String::from_str("\u{2728} **Round ID:** ");
    let id = render_i32(note.round_id);
    out.append(id.as_str());
    out.append("\n\u{1f464} **Created By:** ");
    out.append(created_by);
    out.append("\n\u{1f4c5} **Created At:** ");
    out.append(note.created_at.as_str());
    out.append("\n\u{270d}\u{fe0f} **Last Edited By:** ");
    out.append(last_edited_by);
    out.append("\n\u{1f552} **Last Edited At:** ");
    out.append(note.last_edited_at.as_str());
    out.append("\n\u{1f5d1}\u{fe0f} **Deleted:** ");
    if note.deleted {
        out.append("Yes");
    } else {
        out.append("No");
    }
    out.append("\n");
    match &note.deleted_at {
        Some(t) => {
            out.append("\u{1f5d3}\u{fe0f} **Deleted At:** ");
            out.append(t.as_str());
            out.append("\n");
        },
        None => {},
    }
    if note.secret {
        out.append("\u{1f512} **Secret:** Yes\n");
    } else {
        out.append("\u{1f513} **Secret:** No\n");
    }
    match &note.expiration_time {
        Some(t) => {
            out.append("\u{23f3} **Expiration Time:** ");
            out.append(t.as_str());
            out.append("\n");
        },
        None => {},
    }
    out.append("\n\u{1f4dd} **Message:**\n");
    out.append(note.message.as_str());
    assert(out@ =~= note_summary(note, created_by@, last_edited_by@));
    out
}

/// The embed title of a player's ban list.
pub fn bans_list_title(login: &str) -> (r: String)
    ensures
        r@ == "Bans for `"@ + login@ + "`"@,
{
    let mut out = String::from_str("Bans for `");
    out.append(login);
    out.append("`");
    out
}

/// The embed title of one ban's detail view.
pub fn ban_info_title(player: &str) -> (r: String)
    ensures
        r@ == "Ban of `"@ + player@ + "`"@,
{
    let mut out = String::from_str("Ban of `");
    out.append(player);
    out.append("`");
    out
}

/// The response when no ban row has the asked identifier.
pub fn ban_not_found_message(id: i32) -> (r: String)
    ensures
        r@ == "Ban with id: "@ + dec_int(id as int) + " is not found"@,
{
    let mut out = String::from_str("Ban with id: ");
    let n = render_i32(id);
    out.append(n.as_str());
    out.append(" is not found");
    out
}

/// The embed title of a player's note list.
pub fn notes_list_title(login: &str) -> (r: String)
    ensures
        r@ == "Notes for `"@ + login@ + "`"@,
{
    let mut out = String::from_str("Notes for `");
    out.append(login);
    out.append("`");
    out
}

/// The embed title of one note's detail view.
pub fn note_title(id: i64, player: &str) -> (r: String)
    requires
        id > i64::MIN,
    ensures
        r@ == "Note `"@ + dec_int(id as int) + "` for `"@ + player@ + "`"@,
{
    let mut out = String::from_str("Note `");
    let n = crate::text::render_i64(id);
    out.append(n.as_str());
    out.append("` for `");
    out.append(player);
    out.append("`");
    out
}

/// The response when no note row has the asked identifier.
pub fn note_not_found_message(id: i32) -> (r: String)
    ensures
        r@ == "Note with ID `"@ + dec_int(id as int) + "` not found."@,
{
    let mut out = String::from_str("Note with ID `");
    let n = render_i32(id);
    out.append(n.as_str());
    out.append("` not found.");
    out
}

} // verus!
