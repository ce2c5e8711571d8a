//! The player directory: read-through resolution of a player handle to a
//! stable player identifier.
//!
//! The local backing store is consulted first, as a best-effort
//! accelerator.  When it has no row — or when the query itself failed, a
//! degraded store must not block resolution — the external authoritative
//! lookup service is consulted exactly once, and its failure and its
//! "not found" are collapsed into a single absence: at this layer the
//! caller cannot tell a downed service from a missing player, and both
//! mean the command cannot proceed.  The store and the service are driven
//! outside this crate; the decisions stand here, on their outcomes.

use vstd::prelude::*;
use crate::ident::PlayerIdentifier;
use crate::ident::uuid_canonical_of;
use crate::json::ScalarV;
use crate::json::ValueV;
use crate::json::JsonScalar;
use crate::json::JsonValue;
use crate::json::find_key;
use crate::json::parse_document;
use crate::json::parse_json_text;
use crate::json::lookup_member;

verus! {

/// The outcome of the store's point query by handle.
pub enum StoreLookup {
    Found(PlayerIdentifier),
    NoRow,
    Failed,
}

/// The specification-level value of a [`StoreLookup`].
pub enum StoreLookupV {
    Found(Seq<char>),
    NoRow,
    Failed,
}

impl View for StoreLookup {
    type V = StoreLookupV;

    open spec fn view(&self) -> StoreLookupV {
        match self {
            StoreLookup::Found(id) => StoreLookupV::Found(id@),
            StoreLookup::NoRow => StoreLookupV::NoRow,
            StoreLookup::Failed => StoreLookupV::Failed,
        }
    }
}

/// The outcome of the store's point query by identifier for a handle or
/// display name.
pub enum NameLookup {
    Row(String),
    NoRow,
    Failed,
}

/// The specification-level value of a [`NameLookup`].
pub enum NameLookupV {
    Row(Seq<char>),
    NoRow,
    Failed,
}

impl View for NameLookup {
    type V = NameLookupV;

    open spec fn view(&self) -> NameLookupV {
        match self {
            NameLookup::Row(s) => NameLookupV::Row(s@),
            NameLookup::NoRow => NameLookupV::NoRow,
            NameLookup::Failed => NameLookupV::Failed,
        }
    }
}

/// What resolution does after the store query: done, or consult the
/// fallback service.
pub enum DirectoryStep {
    Resolved(PlayerIdentifier),
    UseFallback,
}

/// Whether the store outcome settles resolution by itself.
pub open spec fn store_settles(row: StoreLookupV) -> bool {
    row is Found
}

/// Decides on the store outcome: a stored identifier settles resolution
/// with no fallback call; an absent row and a failed query both fall
/// through to the fallback service.
pub fn resolve_from_store(row: StoreLookup) -> (r: DirectoryStep)
    ensures
        match row@ {
            StoreLookupV::Found(id) => r matches DirectoryStep::Resolved(got) && got@ == id,
            StoreLookupV::NoRow => r is UseFallback,
            StoreLookupV::Failed => r is UseFallback,
        },
        store_settles(row@) <==> r is Resolved,
{
    match row {
        StoreLookup::Found(id) => DirectoryStep::Resolved(id),
        StoreLookup::NoRow => DirectoryStep::UseFallback,
        StoreLookup::Failed => DirectoryStep::UseFallback,
    }
}

/// The payload of the authoritative lookup service on success.
#[derive(Debug)]
pub struct AuthServerResponse {
    pub user_id: String,
}

/// The error payload of the authoritative lookup service; its presence
/// only marks that the service answered with an error.
#[derive(Debug)]
pub struct AuthErrorResponse {
    pub status: usize,
}

/// The identifier a fallback response body denotes: the body parses in
/// the wire grammar, names a string `userId`, and that string is a
/// well-formed identifier, taken in canonical form.
pub open spec fn fallback_identifier_of(body: Seq<char>) -> Option<Seq<char>> {
    match parse_document(body) {
        None => None,
        Some(m) => match find_key(m, "userId"@) {
            Some(ValueV::Scalar(ScalarV::Text(t))) => uuid_canonical_of(t),
            _ => None,
        },
    }
}

/// Extracts the success payload of the fallback service.
pub fn parse_fallback_payload(body: &str) -> (r: Option<AuthServerResponse>)
    ensures
        match r {
            Some(p) => {
                &&& parse_document(body@) matches Some(m)
                &&& find_key(m, "userId"@) == Some(ValueV::Scalar(ScalarV::Text(p.user_id@)))
            },
            None => match parse_document(body@) {
                Some(m) => !(find_key(m, "userId"@) matches Some(
                    ValueV::Scalar(ScalarV::Text(_)),
                )),
                None => true,
            },
        },
{
    let doc = match parse_json_text(body) {
        Some(d) => d,
        None => {
            return None;
        },
    };
    match lookup_member(&doc, "userId") {
        Some(JsonValue::Scalar(JsonScalar::Text(t))) => Some(
            AuthServerResponse { user_id: t.clone() },
        ),
        _ => None,
    }
}

/// Decides on the fallback outcome.  `None` stands for a transport
/// failure of the fallback call; a body outside the expected shape and a
/// body naming no well-formed identifier resolve to absence, exactly as
/// a transport failure does — the collapse this layer promises.
pub fn resolve_from_fallback(outcome: Option<&str>) -> (r: Option<PlayerIdentifier>)
    ensures
        match outcome {
            None => r is None,
            Some(body) => match fallback_identifier_of(body@) {
                Some(c) => r matches Some(id) && id@ == c && id.wf(),
                None => r is None,
            },
        },
{
    let body = match outcome {
        Some(b) => b,
        None => {
            return None;
        },
    };
    let payload = match parse_fallback_payload(body) {
        Some(p) => p,
        None => {
            return None;
        },
    };
    PlayerIdentifier::parse(payload.user_id.as_str())
}

/// The result of a full resolution, over both outcomes: the stored
/// identifier when the store settles it, else whatever the one fallback
/// call yielded.
pub open spec fn resolution_of(row: StoreLookupV, fallback: Option<Seq<char>>) -> Option<
    Seq<char>,
> {
    match row {
        StoreLookupV::Found(id) => Some(id),
        _ => fallback,
    }
}

/// How many fallback calls a resolution makes for a given store outcome.
pub open spec fn fallback_calls(row: StoreLookupV) -> nat {
    if store_settles(row) {
        0
    } else {
        1
    }
}

/// A handle present in the backing store resolves to the stored
/// identifier, and the fallback service is not consulted.
pub proof fn lemma_store_hit_skips_fallback(id: Seq<char>, fallback: Option<Seq<char>>)
    ensures
        resolution_of(StoreLookupV::Found(id), fallback) == Some(id),
        fallback_calls(StoreLookupV::Found(id)) == 0,
{
}

/// A handle absent from the store — or one the store could not be asked
/// about — is resolved by exactly one fallback call, whose result is
/// returned unchanged.
pub proof fn lemma_store_miss_asks_fallback_once(row: StoreLookupV, fallback: Option<Seq<char>>)
    requires
        !store_settles(row),
    ensures
        resolution_of(row, fallback) == fallback,
        fallback_calls(row) == 1,
{
}

/// The display name for an identifier: the stored handle when the store
/// has one, else the identifier's own canonical text — a record is shown
/// even when its actor can no longer be named.
pub fn resolve_user_name(id: &PlayerIdentifier, row: NameLookup) -> (r: String)
    ensures
        match row@ {
            NameLookupV::Row(name) => r@ == name,
            NameLookupV::NoRow => r@ == id@,
            NameLookupV::Failed => r@ == id@,
        },
{
    match row {
        NameLookup::Row(name) => name,
        NameLookup::NoRow => id.text_owned(),
        NameLookup::Failed => id.text_owned(),
    }
}

} // verus!
