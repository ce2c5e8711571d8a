//! Command-option parsing, identifier parsing, and the auth payloads.

use void_relay::admin::{
    interpret_auth_response, parse_auth_error, parse_auth_payload, resolve_admin, AuthCallOutcome,
};
use void_relay::directory::NameLookup;
use void_relay::commands::ban::{command_of, get_options, BansSubcommand};
use void_relay::commands::notes;
use void_relay::commands::whitelist;
use void_relay::commands::{CommandOption, DiscordCommandType, OptionScalar, SubOption, TopValue};
use void_relay::directory::parse_fallback_payload;
use void_relay::error::Error;
use void_relay::ident::PlayerIdentifier;
use void_relay::orchestrator::Command;

const A1: &str = "aaaaaaaa-bbbb-cccc-dddd-eeee00000001";

fn sub(name: &str, value: OptionScalar) -> SubOption {
    SubOption {
        name: name.to_string(),
        value,
    }
}

fn top(name: &str, subs: Vec<SubOption>) -> CommandOption {
    CommandOption {
        name: name.to_string(),
        value: TopValue::Sub(subs),
    }
}

#[test]
fn ban_options_parse_with_defaults() {
    let options = vec![top(
        "ban",
        vec![sub("login", OptionScalar::Text("Alice".to_string()))],
    )];
    match get_options(&options, "42").unwrap() {
        BansSubcommand::Ban {
            caller_discord_id,
            banning_player_login,
            minutes,
            reason,
            severity,
        } => {
            assert_eq!(caller_discord_id, "42");
            assert_eq!(banning_player_login, "Alice");
            assert_eq!(minutes, 0);
            assert_eq!(reason, "No reason provided");
            assert_eq!(severity, 2);
        }
        _ => panic!("expected a ban"),
    }
}

#[test]
fn ban_options_parse_all_fields_in_any_order() {
    let options = vec![top(
        "ban",
        vec![
            sub("severity", OptionScalar::Integer(3)),
            sub("login", OptionScalar::Text("Alice".to_string())),
            sub("reason", OptionScalar::Text("griefing".to_string())),
            sub("minutes", OptionScalar::Integer(60)),
        ],
    )];
    match get_options(&options, "42").unwrap() {
        BansSubcommand::Ban {
            minutes,
            reason,
            severity,
            ..
        } => {
            assert_eq!(minutes, 60);
            assert_eq!(reason, "griefing");
            assert_eq!(severity, 3);
        }
        _ => panic!("expected a ban"),
    }
}

#[test]
fn ban_without_login_is_rejected() {
    let options = vec![top("ban", vec![sub("minutes", OptionScalar::Integer(5))])];
    assert_eq!(
        get_options(&options, "42").unwrap_err(),
        "Banning player couldn't be none"
    );
}

#[test]
fn ban_with_unknown_or_mistyped_option_is_rejected() {
    let options = vec![top("ban", vec![sub("login", OptionScalar::Integer(5))])];
    assert_eq!(get_options(&options, "42").unwrap_err(), "Invalid options passed");
    let options = vec![top("ban", vec![sub("colour", OptionScalar::Text("red".to_string()))])];
    assert_eq!(get_options(&options, "42").unwrap_err(), "Invalid options passed");
    let options = vec![top(
        "ban",
        vec![
            sub("login", OptionScalar::Text("Alice".to_string())),
            sub("minutes", OptionScalar::Integer(1 << 40)),
        ],
    )];
    assert_eq!(get_options(&options, "42").unwrap_err(), "Invalid options passed");
}

#[test]
fn bans_dispatch_checks_shape() {
    assert_eq!(get_options(&vec![], "42").unwrap_err(), "Invalid options length");
    let two = vec![top("list", vec![]), top("info", vec![])];
    assert_eq!(get_options(&two, "42").unwrap_err(), "Invalid options length");
    let unknown = vec![top("frobnicate", vec![])];
    assert_eq!(get_options(&unknown, "42").unwrap_err(), "Invalid subcommand");
}

#[test]
fn list_info_and_pardon_parse() {
    let list = vec![top("list", vec![sub("login", OptionScalar::Text("Bob".to_string()))])];
    assert!(matches!(
        get_options(&list, "42").unwrap(),
        BansSubcommand::List(login) if login == "Bob"
    ));
    let info = vec![top("info", vec![sub("id", OptionScalar::Integer(9))])];
    assert!(matches!(get_options(&info, "42").unwrap(), BansSubcommand::Info(9)));
    let pardon = vec![top("pardon", vec![sub("id", OptionScalar::Integer(7))])];
    match get_options(&pardon, "42").unwrap() {
        BansSubcommand::Pardon {
            caller_discord_id,
            id,
        } => {
            assert_eq!(caller_discord_id, "42");
            assert_eq!(id, 7);
        }
        _ => panic!("expected a pardon"),
    }
    let missing = vec![top("pardon", vec![])];
    assert_eq!(
        get_options(&missing, "42").unwrap_err(),
        "Invalid or missing 'id' option"
    );
}

#[test]
fn acting_subcommands_map_to_orchestrator_commands() {
    let ban = BansSubcommand::Ban {
        caller_discord_id: "42".to_string(),
        banning_player_login: "Alice".to_string(),
        minutes: 60,
        reason: "r".to_string(),
        severity: 2,
    };
    assert!(matches!(command_of(ban), Some(Command::Ban(_))));
    let pardon = BansSubcommand::Pardon {
        caller_discord_id: "42".to_string(),
        id: 7,
    };
    assert!(matches!(command_of(pardon), Some(Command::Pardon(_))));
    assert!(command_of(BansSubcommand::List("x".to_string())).is_none());
    assert!(command_of(BansSubcommand::Info(1)).is_none());
}

#[test]
fn notes_options_parse() {
    let list = vec![top("list", vec![sub("login", OptionScalar::Text("Bob".to_string()))])];
    assert!(matches!(
        notes::get_options(&list).unwrap(),
        notes::NotesSubcommand::List { login } if login == "Bob"
    ));
    let note = vec![top("note", vec![sub("id", OptionScalar::Integer(12))])];
    assert!(matches!(
        notes::get_options(&note).unwrap(),
        notes::NotesSubcommand::Note { id: 12 }
    ));
    assert_eq!(notes::get_options(&vec![]).unwrap_err(), "Invalid options count");
    let unknown = vec![top("other", vec![])];
    assert_eq!(
        notes::get_options(&unknown).unwrap_err(),
        "Invalid subcommand type"
    );
}

#[test]
fn whitelist_options_parse() {
    let add = vec![top("add", vec![sub("login", OptionScalar::Text("Bob".to_string()))])];
    assert!(matches!(
        whitelist::get_options(&add).unwrap(),
        whitelist::WhitelistSubCommand::Add { login } if login == "Bob"
    ));
    let rm = vec![top("rm", vec![sub("login", OptionScalar::Text("Bob".to_string()))])];
    assert!(matches!(
        whitelist::get_options(&rm).unwrap(),
        whitelist::WhitelistSubCommand::Rm { login } if login == "Bob"
    ));
    let bad = vec![top("add", vec![sub("login", OptionScalar::Integer(1))])];
    assert_eq!(
        whitelist::get_options(&bad).unwrap_err(),
        "Invalid options provided."
    );
}

#[test]
fn command_names_dispatch() {
    assert!(matches!(
        DiscordCommandType::from_name("whitelist"),
        Ok(DiscordCommandType::Whitelist)
    ));
    assert!(matches!(
        DiscordCommandType::from_name("notes"),
        Ok(DiscordCommandType::Notes)
    ));
    assert!(matches!(
        DiscordCommandType::from_name("bans"),
        Ok(DiscordCommandType::Ban)
    ));
    assert!(DiscordCommandType::from_name("other").is_err());
}

#[test]
fn identifier_parse_accepts_both_forms_and_normalizes() {
    let hyph = PlayerIdentifier::parse("AAAAAAAA-BBBB-CCCC-DDDD-EEEE00000001").unwrap();
    assert_eq!(hyph.text(), A1);
    let plain = PlayerIdentifier::parse("aaaaaaaabbbbccccddddeeee00000001").unwrap();
    assert_eq!(plain.text(), A1);
    assert!(hyph.same_as(&plain));
}

#[test]
fn identifier_parse_rejects_malformed_text() {
    assert!(PlayerIdentifier::parse("").is_none());
    assert!(PlayerIdentifier::parse("zzzzzzzz-bbbb-cccc-dddd-eeee00000001").is_none());
    assert!(PlayerIdentifier::parse("aaaaaaaa-bbbb-cccc-dddd-eeee0000001").is_none());
    assert!(PlayerIdentifier::parse("aaaaaaaa+bbbb-cccc-dddd-eeee00000001").is_none());
    assert!(PlayerIdentifier::parse("aaaaaaaabbbbccccddddeeee0000000g").is_none());
}

#[test]
fn auth_payload_parses_uuid_field() {
    let p = parse_auth_payload(&format!("{{\"uuid\":\"{}\"}}", A1)).unwrap();
    assert_eq!(p.uuid, A1);
    assert!(parse_auth_payload("{\"uuid\":7}").is_none());
    assert!(parse_auth_payload("{}").is_none());
}

#[test]
fn auth_error_payload_parses_error_field() {
    let p = parse_auth_error("{\"error\":\"no account\"}").unwrap();
    assert_eq!(p.error, "no account");
    assert!(parse_auth_error("plain text").is_none());
}

#[test]
fn auth_interpretation_is_fail_closed() {
    let ok = AuthCallOutcome::Response {
        status: 200,
        body: format!("{{\"uuid\":\"{}\"}}", A1),
    };
    assert_eq!(interpret_auth_response(&ok).unwrap().text(), A1);
    let denied = AuthCallOutcome::Response {
        status: 401,
        body: format!("{{\"uuid\":\"{}\"}}", A1),
    };
    assert!(matches!(
        interpret_auth_response(&denied),
        Err(Error::Unauthorized)
    ));
    let garbled = AuthCallOutcome::Response {
        status: 200,
        body: "not json".to_string(),
    };
    assert!(matches!(
        interpret_auth_response(&garbled),
        Err(Error::Unauthorized)
    ));
    let bad_uuid = AuthCallOutcome::Response {
        status: 200,
        body: "{\"uuid\":\"nope\"}".to_string(),
    };
    assert!(matches!(
        interpret_auth_response(&bad_uuid),
        Err(Error::Unauthorized)
    ));
    assert!(matches!(
        interpret_auth_response(&AuthCallOutcome::TransportError),
        Err(Error::TransportFailure(_))
    ));
}

#[test]
fn fallback_payload_parses_user_id_field() {
    let body = format!("{{\"userId\":\"{}\"}}", A1);
    let p = parse_fallback_payload(&body).unwrap();
    assert_eq!(p.user_id, A1);
    assert!(parse_fallback_payload("{\"status\":404}").is_none());
}

#[test]
fn resolve_admin_composes_both_steps() {
    let ok = AuthCallOutcome::Response {
        status: 200,
        body: format!("{{\"uuid\":\"{}\"}}", A1),
    };
    let actor = resolve_admin(&ok, NameLookup::Row("Mod1".to_string())).unwrap();
    assert_eq!(actor.identity.text(), A1);
    assert_eq!(actor.display_name, "Mod1");
    assert!(resolve_admin(&ok, NameLookup::NoRow).is_err());
    let denied = AuthCallOutcome::Response {
        status: 403,
        body: String::new(),
    };
    assert!(resolve_admin(&denied, NameLookup::Row("Mod1".to_string())).is_err());
}
