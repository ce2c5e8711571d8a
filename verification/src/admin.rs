//! The admin identity resolver.
//!
//! A caller is known only by an opaque chat-platform account identifier.
//! Before any action is relayed, that identifier is taken to the external
//! authorization service, and the stable identity it returns is enriched
//! with a display name from the backing store.  Both steps are strictly
//! ordered and fail closed: a non-success response or an unreadable body
//! means the caller is treated as not entitled to act, and an identity
//! that cannot be given a human-readable name is never used — an action
//! without an attributable actor must not reach the remote system.

use vstd::prelude::*;
use crate::directory::NameLookup;
use crate::directory::NameLookupV;
use crate::error::Error;
use crate::error::ErrorV;
use crate::ident::PlayerIdentifier;
use crate::ident::uuid_canonical_of;
use crate::json::ScalarV;
use crate::json::ValueV;
use crate::json::JsonScalar;
use crate::json::JsonValue;
use crate::json::find_key;
use crate::json::parse_document;
use crate::json::parse_json_text;
use crate::json::lookup_member;

verus! {

/// The payload of the authorization service on success.
#[derive(Debug)]
pub struct DiscordAuthUuidResponse {
    pub uuid: String,
}

/// The error payload of the authorization service.
#[derive(Debug)]
pub struct ErrorResponse {
    pub error: String,
}

/// The attributed issuer of an administrative action: a resolved identity
/// and a resolved display name, both present by construction.
#[derive(Debug)]
pub struct ActorContext {
    pub identity: PlayerIdentifier,
    pub display_name: String,
}

/// The specification-level value of an [`ActorContext`].
pub struct ActorContextV {
    pub identity: Seq<char>,
    pub display_name: Seq<char>,
}

impl View for ActorContext {
    type V = ActorContextV;

    open spec fn view(&self) -> ActorContextV {
        ActorContextV { identity: self.identity@, display_name: self.display_name@ }
    }
}

/// The outcome of the single call to the authorization service.
pub enum AuthCallOutcome {
    Response { status: u16, body: String },
    TransportError,
}

/// The specification-level value of an [`AuthCallOutcome`].
pub enum AuthOutcomeV {
    Response { status: int, body: Seq<char> },
    TransportError,
}

impl View for AuthCallOutcome {
    type V = AuthOutcomeV;

    open spec fn view(&self) -> AuthOutcomeV {
        match self {
            AuthCallOutcome::Response { status, body } => AuthOutcomeV::Response {
                status: *status as int,
                body: body@,
            },
            AuthCallOutcome::TransportError => AuthOutcomeV::TransportError,
        }
    }
}

/// The identity an authorization response body denotes: the body parses
/// in the wire grammar, names a string `uuid`, and that string is a
/// well-formed identifier, taken in canonical form.
pub open spec fn auth_identity_of(body: Seq<char>) -> Option<Seq<char>> {
    match parse_document(body) {
        None => None,
        Some(m) => match find_key(m, "uuid"@) {
            Some(ValueV::Scalar(ScalarV::Text(t))) => uuid_canonical_of(t),
            _ => None,
        },
    }
}

/// The identity the authorization call yields, if the caller is
/// authorized: a success status and a body naming a well-formed identity.
pub open spec fn auth_accepts(o: AuthOutcomeV) -> Option<Seq<char>> {
    match o {
        AuthOutcomeV::Response { status, body } => {
            if 200 <= status < 300 {
                auth_identity_of(body)
            } else {
                None
            }
        },
        AuthOutcomeV::TransportError => None,
    }
}

/// Extracts the success payload of the authorization service.
pub fn parse_auth_payload(body: &str) -> (r: Option<DiscordAuthUuidResponse>)
    ensures
        match r {
            Some(p) => {
                &&& parse_document(body@) matches Some(m)
                &&& find_key(m, "uuid"@) == Some(ValueV::Scalar(ScalarV::Text(p.uuid@)))
            },
            None => match parse_document(body@) {
                Some(m) => !(find_key(m, "uuid"@) matches Some(ValueV::Scalar(ScalarV::Text(_)))),
                None => true,
            },
        },
{
    let doc = match parse_json_text(body) {
        Some(d) => d,
        None => {
            return None;
        },
    };
    match lookup_member(&doc, "uuid") {
        Some(JsonValue::Scalar(JsonScalar::Text(t))) => Some(
            DiscordAuthUuidResponse { uuid: t.clone() },
        ),
        _ => None,
    }
}

/// Extracts the error payload of the authorization service, for
/// diagnostics only.
pub fn parse_auth_error(body: &str) -> (r: Option<ErrorResponse>)
    ensures
        match r {
            Some(p) => {
                &&& parse_document(body@) matches Some(m)
                &&& find_key(m, "error"@) == Some(ValueV::Scalar(ScalarV::Text(p.error@)))
            },
            None => match parse_document(body@) {
                Some(m) => !(find_key(m, "error"@) matches Some(ValueV::Scalar(ScalarV::Text(_)))),
                None => true,
            },
        },
{
    let doc = match parse_json_text(body) {
        Some(d) => d,
        None => {
            return None;
        },
    };
    match lookup_member(&doc, "error") {
        Some(JsonValue::Scalar(JsonScalar::Text(t))) => Some(ErrorResponse { error: t.clone() }),
        _ => None,
    }
}

/// Interprets the authorization call: fail-closed.  Only a success status
/// with a body naming a well-formed identity authorizes the caller; any
/// other response means `Unauthorized`, and a transport failure is kept
/// apart as transient.
pub fn interpret_auth_response(o: &AuthCallOutcome) -> (r: Result<PlayerIdentifier, Error>)
    ensures
        match auth_accepts(o@) {
            Some(c) => r matches Ok(id) && id@ == c && id.wf(),
            None => match r {
                Err(e) => if o@ is TransportError {
                    e@ is TransportFailure
                } else {
                    e@ is Unauthorized
                },
                Ok(_) => false,
            },
        },
{
    let (status, body) = match o {
        AuthCallOutcome::Response { status, body } => (*status, body),
        AuthCallOutcome::TransportError => {
            return Err(Error::TransportFailure(String::new()));
        },
    };
    if !(200 <= status && status < 300) {
        return Err(Error::Unauthorized);
    }
    let payload = match parse_auth_payload(body.as_str()) {
        Some(p) => p,
        None => {
            return Err(Error::Unauthorized);
        },
    };
    match PlayerIdentifier::parse(payload.uuid.as_str()) {
        Some(id) => Ok(id),
        None => Err(Error::Unauthorized),
    }
}

/// Attaches the display name to a resolved identity.  An identity the
/// store cannot name — no row, or a failed query — yields `NotFound`:
/// the action is never attributed to an anonymous actor.
pub fn attach_display_name(identity: PlayerIdentifier, row: NameLookup) -> (r: Result<
    ActorContext,
    Error,
>)
    ensures
        match row@ {
            NameLookupV::Row(name) => r matches Ok(a) && a@.identity == identity@
                && a@.display_name == name,
            NameLookupV::NoRow => r matches Err(e) && e@ is NotFound,
            NameLookupV::Failed => r matches Err(e) && e@ is NotFound,
        },
{
    match row {
        NameLookup::Row(name) => Ok(ActorContext { identity, display_name: name }),
        NameLookup::NoRow => Err(Error::NotFound),
        NameLookup::Failed => Err(Error::NotFound),
    }
}

/// The whole resolution, over the outcomes of both upstream calls: an
/// actor context exactly when the authorization call accepted the caller
/// and the store named the identity.
pub open spec fn admin_resolution(auth: AuthOutcomeV, row: NameLookupV) -> Option<ActorContextV> {
    match auth_accepts(auth) {
        None => None,
        Some(identity) => match row {
            NameLookupV::Row(name) => Some(ActorContextV { identity, display_name: name }),
            _ => None,
        },
    }
}

/// An actor context exists only if both upstream calls succeeded: the
/// authorization service accepted the caller, the store held a display
/// name, and the context carries exactly that identity and that name.
pub proof fn lemma_actor_requires_both(auth: AuthOutcomeV, row: NameLookupV)
    ensures
        admin_resolution(auth, row) matches Some(a) ==> {
            &&& auth_accepts(auth) == Some(a.identity)
            &&& row matches NameLookupV::Row(name) && a.display_name == name
        },
        auth_accepts(auth) is None ==> admin_resolution(auth, row) is None,
        !(row is Row) ==> admin_resolution(auth, row) is None,
{
}

/// Runs both resolution steps on given outcomes; the verified composition
/// of [`interpret_auth_response`] and [`attach_display_name`].
pub fn resolve_admin(auth: &AuthCallOutcome, row: NameLookup) -> (r: Result<ActorContext, Error>)
    ensures
        match admin_resolution(auth@, row@) {
            Some(a) => r matches Ok(got) && got@ == a && got.identity.wf(),
            None => r matches Err(e) && (if auth_accepts(auth@) is None {
                if auth@ is TransportError {
                    e@ is TransportFailure
                } else {
                    e@ is Unauthorized
                }
            } else {
                e@ is NotFound
            }),
        },
{
    let identity = match interpret_auth_response(auth) {
        Ok(id) => id,
        Err(e) => {
            return Err(e);
        },
    };
    attach_display_name(identity, row)
}

} // verus!
