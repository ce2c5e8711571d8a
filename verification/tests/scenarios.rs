//! End-to-end scenarios over the orchestrator, with counting fakes for
//! the outside calls.

use void_relay::admin::{attach_display_name, interpret_auth_response, AuthCallOutcome};
use void_relay::directory::{
    resolve_from_fallback, resolve_from_store, DirectoryStep, NameLookup, StoreLookup,
};
use void_relay::envelope::classify_response;
use void_relay::error::Error;
use void_relay::ident::PlayerIdentifier;
use void_relay::orchestrator::{
    begin, on_admin_resolved, on_relay_outcome, on_target_resolved, Command, Phase,
};
use void_relay::wire::{prepare_action_request, AdministrativeAction};

const U1: &str = "11111111-2222-3333-4444-555555555555";
const A1: &str = "aaaaaaaa-bbbb-cccc-dddd-eeee00000001";

/// Drives one command the way the outer program does, counting the calls
/// that reach the fallback service and the relay.
struct Fakes {
    auth: AuthCallOutcome,
    name_row: NameLookup,
    store_row: StoreLookup,
    fallback_body: Option<String>,
    fallback_calls: usize,
    relay_status: u16,
    relay_body: String,
    relay_calls: usize,
    relayed: Option<AdministrativeAction>,
}

impl Fakes {
    fn run(&mut self, cmd: Command) -> String {
        let phase = begin(cmd);
        let phase = match phase {
            Phase::AdminResolving(cmd) => {
                let _caller = cmd.caller_platform_id().clone();
                let outcome = match interpret_auth_response(&self.auth) {
                    Ok(identity) => {
                        let row = match &self.name_row {
                            NameLookup::Row(s) => NameLookup::Row(s.clone()),
                            NameLookup::NoRow => NameLookup::NoRow,
                            NameLookup::Failed => NameLookup::Failed,
                        };
                        attach_display_name(identity, row)
                    }
                    Err(e) => Err(e),
                };
                on_admin_resolved(Phase::AdminResolving(cmd), outcome)
            }
            other => other,
        };
        let phase = match phase {
            Phase::TargetResolving { order, actor } => {
                let row = match &self.store_row {
                    StoreLookup::Found(id) => StoreLookup::Found(id.duplicate()),
                    StoreLookup::NoRow => StoreLookup::NoRow,
                    StoreLookup::Failed => StoreLookup::Failed,
                };
                let target = match resolve_from_store(row) {
                    DirectoryStep::Resolved(id) => Some(id),
                    DirectoryStep::UseFallback => {
                        self.fallback_calls += 1;
                        resolve_from_fallback(self.fallback_body.as_deref())
                    }
                };
                on_target_resolved(Phase::TargetResolving { order, actor }, target)
            }
            other => other,
        };
        let phase = match phase {
            Phase::Relaying { action, note } => {
                self.relay_calls += 1;
                let prepared = prepare_action_request("http://api", "KEY", &action);
                let _ = prepared;
                self.relayed = Some(action);
                let outcome = classify_response(self.relay_status, self.relay_body.as_str());
                on_relay_outcome(
                    Phase::Relaying {
                        action: self.relayed.take().unwrap(),
                        note,
                    },
                    outcome,
                )
            }
            other => other,
        };
        match phase {
            Phase::Responded(msg) => msg,
            _ => panic!("run did not end responded"),
        }
    }
}

fn ban_command() -> Command {
    Command::Ban(void_relay::orchestrator::BanOrder {
        caller_platform_id: "42".to_string(),
        login: "Alice".to_string(),
        minutes: 60,
        reason: "griefing".to_string(),
        severity: 2,
    })
}

fn auth_ok_body() -> String {
    format!("{{\"uuid\":\"{}\"}}", A1)
}

#[test]
fn ban_happy_path_relays_and_names_alice() {
    let mut fakes = Fakes {
        auth: AuthCallOutcome::Response {
            status: 200,
            body: auth_ok_body(),
        },
        name_row: NameLookup::Row("Mod1".to_string()),
        store_row: StoreLookup::Found(PlayerIdentifier::parse(U1).unwrap()),
        fallback_body: None,
        fallback_calls: 0,
        relay_status: 200,
        relay_body: String::new(),
        relay_calls: 0,
        relayed: None,
    };
    let msg = fakes.run(ban_command());
    assert_eq!(msg, "Successfully banned player: `Alice`");
    assert!(msg.contains("Alice"));
    assert_eq!(fakes.relay_calls, 1);
    assert_eq!(fakes.fallback_calls, 0);
}

#[test]
fn ban_happy_path_relays_expected_action() {
    let actor_id = PlayerIdentifier::parse(A1).unwrap();
    let target = PlayerIdentifier::parse(U1).unwrap();
    let auth = AuthCallOutcome::Response {
        status: 200,
        body: auth_ok_body(),
    };
    let identity = interpret_auth_response(&auth).unwrap();
    assert!(identity.same_as(&actor_id));
    let actor = attach_display_name(identity, NameLookup::Row("Mod1".to_string())).unwrap();
    assert_eq!(actor.display_name, "Mod1");
    let phase = begin(ban_command());
    let phase = on_admin_resolved(phase, Ok(actor));
    let phase = on_target_resolved(phase, Some(target));
    match &phase {
        Phase::Relaying { action, .. } => {
            let prepared = prepare_action_request("http://api", "KEY", action);
            assert_eq!(prepared.url, "http://api/admin/actions/ban");
            assert_eq!(prepared.auth_header, "SS14Token KEY");
            assert_eq!(
                prepared.body,
                format!(
                    "{{\"Username\":\"Alice\",\"PlayerGuid\":\"{}\",\"Reason\":\"griefing\",\"Minutes\":60,\"Severity\":2}}",
                    U1
                )
            );
            assert_eq!(
                prepared.actor_header,
                format!("{{\"Guid\":\"{}\",\"Name\":\"Mod1\"}}", A1)
            );
        }
        _ => panic!("expected a pending relay"),
    }
    let phase = on_relay_outcome(phase, Ok(()));
    match phase {
        Phase::Responded(msg) => assert_eq!(msg, "Successfully banned player: `Alice`"),
        _ => panic!("expected a response"),
    }
}

#[test]
fn unauthorized_caller_never_reaches_relay() {
    let mut fakes = Fakes {
        auth: AuthCallOutcome::Response {
            status: 401,
            body: "{\"error\":\"no link\"}".to_string(),
        },
        name_row: NameLookup::Row("Mod1".to_string()),
        store_row: StoreLookup::Found(PlayerIdentifier::parse(U1).unwrap()),
        fallback_body: None,
        fallback_calls: 0,
        relay_status: 200,
        relay_body: String::new(),
        relay_calls: 0,
        relayed: None,
    };
    let msg = fakes.run(ban_command());
    assert_eq!(msg, "You're probably unauthorized to perform this action.");
    assert_eq!(fakes.relay_calls, 0);
}

#[test]
fn pardon_remote_rejection_is_shown_verbatim() {
    let mut fakes = Fakes {
        auth: AuthCallOutcome::Response {
            status: 200,
            body: auth_ok_body(),
        },
        name_row: NameLookup::Row("Mod1".to_string()),
        store_row: StoreLookup::NoRow,
        fallback_body: None,
        fallback_calls: 0,
        relay_status: 404,
        relay_body: "{\"Message\":\"Ban not found\",\"ErrorCode\":404}".to_string(),
        relay_calls: 0,
        relayed: None,
    };
    let cmd = Command::Pardon(void_relay::orchestrator::PardonOrder {
        caller_platform_id: "42".to_string(),
        ban_id: 7,
    });
    let msg = fakes.run(cmd);
    assert!(msg.contains("Ban not found"));
    assert_eq!(
        msg,
        "Error during pardon: Message: Ban not found. ErrorCode: 404. Exception Message: none"
    );
    assert_eq!(fakes.relay_calls, 1);
    assert_eq!(fakes.fallback_calls, 0);
}

#[test]
fn pardon_success_names_the_ban_record() {
    let actor = attach_display_name(
        PlayerIdentifier::parse(A1).unwrap(),
        NameLookup::Row("Mod1".to_string()),
    )
    .unwrap();
    let cmd = Command::Pardon(void_relay::orchestrator::PardonOrder {
        caller_platform_id: "42".to_string(),
        ban_id: 7,
    });
    let phase = on_admin_resolved(begin(cmd), Ok(actor));
    match &phase {
        Phase::Relaying { action, .. } => {
            let prepared = prepare_action_request("http://api", "KEY", action);
            assert_eq!(prepared.url, "http://api/admin/actions/pardon");
            assert_eq!(prepared.body, "{\"BanId\":7}");
        }
        _ => panic!("expected a pending relay"),
    }
    match on_relay_outcome(phase, Ok(())) {
        Phase::Responded(msg) => assert_eq!(msg, "Successfully pardoned ban with id: 7"),
        _ => panic!("expected a response"),
    }
}

#[test]
fn transport_failure_gets_generic_pardon_message() {
    let actor = attach_display_name(
        PlayerIdentifier::parse(A1).unwrap(),
        NameLookup::Row("Mod1".to_string()),
    )
    .unwrap();
    let cmd = Command::Pardon(void_relay::orchestrator::PardonOrder {
        caller_platform_id: "42".to_string(),
        ban_id: 7,
    });
    let phase = on_admin_resolved(begin(cmd), Ok(actor));
    let outcome = classify_response(500, "not json at all");
    assert!(matches!(outcome, Err(Error::TransportFailure(_))));
    match on_relay_outcome(phase, outcome) {
        Phase::Responded(msg) => assert_eq!(msg, "Error occured during ban pardon."),
        _ => panic!("expected a response"),
    }
}

#[test]
fn missing_display_name_blocks_the_action() {
    let identity = PlayerIdentifier::parse(A1).unwrap();
    let outcome = attach_display_name(identity, NameLookup::NoRow);
    assert!(matches!(outcome, Err(Error::NotFound)));
    let phase = on_admin_resolved(begin(ban_command()), outcome);
    match phase {
        Phase::Responded(msg) => assert_eq!(msg, "Unable to fetch admin name."),
        _ => panic!("expected a response"),
    }
}

#[test]
fn unresolved_target_blocks_the_ban() {
    let actor = attach_display_name(
        PlayerIdentifier::parse(A1).unwrap(),
        NameLookup::Row("Mod1".to_string()),
    )
    .unwrap();
    let phase = on_admin_resolved(begin(ban_command()), Ok(actor));
    match on_target_resolved(phase, None) {
        Phase::Responded(msg) => assert_eq!(msg, "Unable to find banning player."),
        _ => panic!("expected a response"),
    }
}

#[test]
fn store_hit_skips_fallback_and_returns_stored_identifier() {
    let id = PlayerIdentifier::parse(U1).unwrap();
    let mut fallback_calls = 0usize;
    let target = match resolve_from_store(StoreLookup::Found(id)) {
        DirectoryStep::Resolved(found) => Some(found),
        DirectoryStep::UseFallback => {
            fallback_calls += 1;
            None
        }
    };
    assert_eq!(fallback_calls, 0);
    assert_eq!(target.unwrap().text(), U1);
}

#[test]
fn store_miss_asks_fallback_exactly_once_and_returns_its_result() {
    for row in [StoreLookup::NoRow, StoreLookup::Failed] {
        let mut fallback_calls = 0usize;
        let body = format!("{{\"userId\":\"{}\"}}", U1);
        let target = match resolve_from_store(row) {
            DirectoryStep::Resolved(found) => Some(found),
            DirectoryStep::UseFallback => {
                fallback_calls += 1;
                resolve_from_fallback(Some(body.as_str()))
            }
        };
        assert_eq!(fallback_calls, 1);
        assert_eq!(target.unwrap().text(), U1);
    }
}

#[test]
fn fallback_failure_and_absence_collapse_to_not_found() {
    assert!(resolve_from_fallback(None).is_none());
    assert!(resolve_from_fallback(Some("{\"status\":404}")).is_none());
    assert!(resolve_from_fallback(Some("gateway timeout")).is_none());
    assert!(resolve_from_fallback(Some("{\"userId\":\"not-a-uuid\"}")).is_none());
}

#[test]
fn configuration_failure_responds_with_its_own_message() {
    let phase = on_admin_resolved(
        begin(ban_command()),
        Err(Error::ConfigurationFailure(
            "Unable to setup authorization client.".to_string(),
        )),
    );
    match phase {
        Phase::Responded(msg) => assert_eq!(msg, "Unable to setup authorization client."),
        _ => panic!("expected a response"),
    }
}
