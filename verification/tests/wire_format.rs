//! The exact wire form of relayed actions and the classification of the
//! administrative API's responses.

use void_relay::envelope::{classify_response, parse_envelope};
use void_relay::error::Error;
use void_relay::ident::PlayerIdentifier;
use void_relay::wire::{
    prepare_action_request, serialize_action, serialize_actor, AdministrativeAction, BanRequest,
    PardonRequest, SS14ApiActor,
};

const U1: &str = "11111111-2222-3333-4444-555555555555";
const A1: &str = "aaaaaaaa-bbbb-cccc-dddd-eeee00000001";

fn sample_actor() -> SS14ApiActor {
    SS14ApiActor::new(&PlayerIdentifier::parse(A1).unwrap(), "Mod1")
}

#[test]
fn ban_body_serializes_every_field_in_wire_order() {
    let req = BanRequest::new(
        "Alice".to_string(),
        &PlayerIdentifier::parse(U1).unwrap(),
        "griefing".to_string(),
        60,
        2,
        sample_actor(),
    );
    let body = serialize_action(&AdministrativeAction::Ban(req));
    assert_eq!(
        body,
        format!(
            "{{\"Username\":\"Alice\",\"PlayerGuid\":\"{}\",\"Reason\":\"griefing\",\"Minutes\":60,\"Severity\":2}}",
            U1
        )
    );
    assert!(body.contains("PlayerGuid"));
}

#[test]
fn pardon_body_serializes_no_target_identifier() {
    let req = PardonRequest::new(5, sample_actor());
    let body = serialize_action(&AdministrativeAction::Pardon(req));
    assert_eq!(body, "{\"BanId\":5}");
    assert!(!body.contains("PlayerGuid"));
}

#[test]
fn negative_minutes_and_ban_ids_serialize_with_sign() {
    let req = PardonRequest::new(-3, sample_actor());
    let body = serialize_action(&AdministrativeAction::Pardon(req));
    assert_eq!(body, "{\"BanId\":-3}");
}

#[test]
fn reason_text_is_escaped() {
    let req = BanRequest::new(
        "Alice".to_string(),
        &PlayerIdentifier::parse(U1).unwrap(),
        "said \"hi\\bye\"\nand left\ttab".to_string(),
        0,
        1,
        sample_actor(),
    );
    let body = serialize_action(&AdministrativeAction::Ban(req));
    assert_eq!(
        body,
        format!(
            "{{\"Username\":\"Alice\",\"PlayerGuid\":\"{}\",\"Reason\":\"said \\\"hi\\\\bye\\\"\\nand left\\ttab\",\"Minutes\":0,\"Severity\":1}}",
            U1
        )
    );
}

#[test]
fn control_characters_escape_as_hex() {
    let req = PardonRequest::new(1, SS14ApiActor::new(
        &PlayerIdentifier::parse(A1).unwrap(),
        "a\u{1}b",
    ));
    let header = match AdministrativeAction::Pardon(req) {
        AdministrativeAction::Pardon(p) => {
            let prepared = prepare_action_request("u", "k", &AdministrativeAction::Pardon(p));
            prepared.actor_header
        }
        _ => unreachable!(),
    };
    assert_eq!(header, format!("{{\"Guid\":\"{}\",\"Name\":\"a\\u0001b\"}}", A1));
}

#[test]
fn actor_header_carries_identity_and_name() {
    let header = serialize_actor(&sample_actor());
    assert_eq!(header, format!("{{\"Guid\":\"{}\",\"Name\":\"Mod1\"}}", A1));
}

#[test]
fn prepared_request_hits_the_action_endpoint() {
    let ban = AdministrativeAction::Ban(BanRequest::new(
        "Alice".to_string(),
        &PlayerIdentifier::parse(U1).unwrap(),
        "r".to_string(),
        0,
        1,
        sample_actor(),
    ));
    let prepared = prepare_action_request("https://host/api", "tok", &ban);
    assert_eq!(prepared.url, "https://host/api/admin/actions/ban");
    assert_eq!(prepared.auth_header, "SS14Token tok");
    let pardon = AdministrativeAction::Pardon(PardonRequest::new(1, sample_actor()));
    let prepared = prepare_action_request("https://host/api", "tok", &pardon);
    assert_eq!(prepared.url, "https://host/api/admin/actions/pardon");
}

#[test]
fn success_status_classifies_as_delivered() {
    assert!(classify_response(200, "").is_ok());
    assert!(classify_response(200, "anything").is_ok());
}

#[test]
fn structured_envelope_classifies_as_remote_rejection() {
    let r = classify_response(404, "{\"Message\":\"Ban not found\",\"ErrorCode\":404}");
    match r {
        Err(Error::RemoteRejected(e)) => {
            assert_eq!(e.message, "Ban not found");
            assert_eq!(e.error_code, 404);
            assert!(e.exception.is_none());
            assert_eq!(
                e.describe(),
                "Message: Ban not found. ErrorCode: 404. Exception Message: none"
            );
        }
        _ => panic!("expected a remote rejection"),
    }
}

#[test]
fn envelope_with_exception_keeps_the_inner_message() {
    let body =
        "{\"Message\":\"boom\",\"ErrorCode\":500,\"Exception\":{\"Message\":\"inner detail\"}}";
    let e = parse_envelope(body).unwrap();
    assert_eq!(e.message, "boom");
    assert_eq!(e.error_code, 500);
    assert_eq!(e.exception.as_ref().unwrap().message, "inner detail");
    assert_eq!(
        e.describe(),
        "Message: boom. ErrorCode: 500. Exception Message: inner detail"
    );
}

#[test]
fn null_exception_reads_as_absent() {
    let e = parse_envelope("{\"Message\":\"m\",\"ErrorCode\":1,\"Exception\":null}").unwrap();
    assert!(e.exception.is_none());
}

#[test]
fn envelope_parse_is_best_effort() {
    assert!(parse_envelope("").is_none());
    assert!(parse_envelope("Bad Gateway").is_none());
    assert!(parse_envelope("{\"Message\":\"m\"}").is_none());
    assert!(parse_envelope("{\"ErrorCode\":1}").is_none());
    assert!(parse_envelope("{\"Message\":7,\"ErrorCode\":1}").is_none());
    assert!(parse_envelope("{\"Message\":\"m\",\"ErrorCode\":\"x\"}").is_none());
    assert!(parse_envelope("{\"Message\":\"m\",\"ErrorCode\":4294967296}").is_none());
    assert!(parse_envelope("{\"Message\":\"m\",\"ErrorCode\":1,\"Exception\":3}").is_none());
}

#[test]
fn malformed_body_yields_nonempty_diagnostic_with_raw_payload() {
    match classify_response(502, "Bad Gateway") {
        Err(Error::TransportFailure(d)) => {
            assert!(!d.is_empty());
            assert_eq!(d, "Invalid error: Bad Gateway. Status: 502");
        }
        _ => panic!("expected a transport failure"),
    }
    match classify_response(500, "") {
        Err(Error::TransportFailure(d)) => {
            assert!(!d.is_empty());
            assert_eq!(d, "Invalid error: . Status: 500");
        }
        _ => panic!("expected a transport failure"),
    }
}

#[test]
fn envelope_tolerates_whitespace_and_extra_fields() {
    let body = " { \"Extra\" : true , \"Message\" : \"m\" , \"ErrorCode\" : -7 } ";
    let e = parse_envelope(body).unwrap();
    assert_eq!(e.message, "m");
    assert_eq!(e.error_code, -7);
}

#[test]
fn envelope_reads_escaped_strings() {
    let body = "{\"Message\":\"a \\\"b\\\"\\n\\u{75}\",\"ErrorCode\":1}";
    // The grammar takes the standard single-character escapes; \u is out.
    assert!(parse_envelope(body).is_none());
    let body = "{\"Message\":\"a \\\"b\\\"\\nc\\\\d\",\"ErrorCode\":1}";
    let e = parse_envelope(body).unwrap();
    assert_eq!(e.message, "a \"b\"\nc\\d");
}

#[test]
fn first_member_of_a_name_wins() {
    let e = parse_envelope(
        "{\"Message\":\"first\",\"Message\":\"second\",\"ErrorCode\":1}",
    )
    .unwrap();
    assert_eq!(e.message, "first");
}

#[test]
fn integer_fields_take_at_most_eighteen_digits() {
    let e = parse_envelope("{\"Message\":\"m\",\"ErrorCode\":2147483647}").unwrap();
    assert_eq!(e.error_code, 2147483647);
    // An eighteen-digit run parses but falls outside the i32 range.
    assert!(parse_envelope("{\"Message\":\"m\",\"ErrorCode\":999999999999999999}").is_none());
    // A nineteen-digit run is outside the grammar altogether.
    assert!(parse_envelope("{\"Message\":\"m\",\"ErrorCode\":9999999999999999999}").is_none());
}

#[test]
fn other_scalars_are_carried_but_do_not_fit_the_envelope_fields() {
    let e = parse_envelope(
        "{\"Flag\":true,\"Nothing\":null,\"Off\":false,\"Message\":\"m\",\"ErrorCode\":0}",
    )
    .unwrap();
    assert_eq!(e.message, "m");
    assert_eq!(e.error_code, 0);
    assert!(parse_envelope("{\"Message\":true,\"ErrorCode\":0}").is_none());
}

#[test]
fn deeper_nesting_is_outside_the_grammar() {
    let body = "{\"Message\":\"m\",\"ErrorCode\":0,\"Exception\":{\"Message\":{\"deep\":1}}}";
    assert!(parse_envelope(body).is_none());
    let body = "{\"Message\":\"m\",\"ErrorCode\":0,\"Items\":[1,2]}";
    assert!(parse_envelope(body).is_none());
}
