//! Administrative actions and their wire form.
//!
//! A ban or pardon is relayed to the administrative API as a JSON body,
//! with the acting admin attached twice: inside no body field, but as a
//! dedicated `Actor` transport header carrying `{Guid, Name}` — the remote
//! system logs that header even on requests it rejects.  Field names and
//! casing are a wire contract with the remote system; the serialized text
//! of every request is pinned down exactly by the specs here.

use vstd::prelude::*;
use vstd::string::StringExecFns;
use crate::ident::PlayerIdentifier;
use crate::json::ScalarV;
use crate::json::JsonScalar;
use crate::json::json_escape;
use crate::json::render_member;
use crate::json::render_members;
use crate::json::render_object;
use crate::json::render_scalar;
use crate::json::render_flat_object;
use crate::json::scalar_members_view;

verus! {

/// The actor attribution sent to the administrative API.
#[derive(Debug)]
pub struct SS14ApiActor {
    pub guid: String,
    pub name: String,
}

/// The specification-level value of an [`SS14ApiActor`].
pub struct ActorV {
    pub guid: Seq<char>,
    pub name: Seq<char>,
}

impl View for SS14ApiActor {
    type V = ActorV;

    open spec fn view(&self) -> ActorV {
        ActorV { guid: self.guid@, name: self.name@ }
    }
}

impl SS14ApiActor {
    /// An actor naming the given identity.
    pub fn new(guid: &PlayerIdentifier, name: &str) -> (r: SS14ApiActor)
        ensures
            r@.guid == guid@,
            r@.name == name@,
    {
        SS14ApiActor { guid: guid.text_owned(), name: name.to_owned() }
    }
}

/// A request to lift a ban, named by its ban record identifier.  A pardon
/// carries no target identifier.
#[derive(Debug)]
pub struct PardonRequest {
    ban_id: i32,
    actor: SS14ApiActor,
}

/// The specification-level value of a [`PardonRequest`].
pub struct PardonV {
    pub ban_id: int,
    pub actor: ActorV,
}

impl View for PardonRequest {
    type V = PardonV;

    closed spec fn view(&self) -> PardonV {
        PardonV { ban_id: self.ban_id as int, actor: self.actor@ }
    }
}

impl PardonRequest {
    /// A pardon of the given ban record, attributed to `actor`.
    pub fn new(ban_id: i32, actor: SS14ApiActor) -> (r: PardonRequest)
        ensures
            r@.ban_id == ban_id as int,
            r@.actor == actor@,
    {
        PardonRequest { ban_id, actor }
    }
}

/// A request to ban a player.  A ban always carries the resolved target
/// identifier, beside the handle it was issued under.
#[derive(Debug)]
pub struct BanRequest {
    username: String,
    player_guid: String,
    reason: String,
    minutes: i32,
    severity: u16,
    actor: SS14ApiActor,
}

/// The specification-level value of a [`BanRequest`].
pub struct BanV {
    pub username: Seq<char>,
    pub player_guid: Seq<char>,
    pub reason: Seq<char>,
    pub minutes: int,
    pub severity: int,
    pub actor: ActorV,
}

impl View for BanRequest {
    type V = BanV;

    closed spec fn view(&self) -> BanV {
        BanV {
            username: self.username@,
            player_guid: self.player_guid@,
            reason: self.reason@,
            minutes: self.minutes as int,
            severity: self.severity as int,
            actor: self.actor@,
        }
    }
}

impl BanRequest {
    /// A ban of the player `player_guid`, known under the handle
    /// `username`, attributed to `actor`.  `minutes == 0` denotes a
    /// permanent ban; `severity` is an ordinal the remote server defines.
    pub fn new(
        username: String,
        player_guid: &PlayerIdentifier,
        reason: String,
        minutes: i32,
        severity: u16,
        actor: SS14ApiActor,
    ) -> (r: BanRequest)
        ensures
            r@.username == username@,
            r@.player_guid == player_guid@,
            r@.reason == reason@,
            r@.minutes == minutes as int,
            r@.severity == severity as int,
            r@.actor == actor@,
    {
        BanRequest {
            username,
            player_guid: player_guid.text_owned(),
            reason,
            minutes,
            severity,
            actor,
        }
    }
}

/// An administrative action ready to relay.
pub enum AdministrativeAction {
    Ban(BanRequest),
    Pardon(PardonRequest),
}

/// The specification-level value of an [`AdministrativeAction`].
pub enum ActionV {
    Ban(BanV),
    Pardon(PardonV),
}

impl View for AdministrativeAction {
    type V = ActionV;

    open spec fn view(&self) -> ActionV {
        match self {
            AdministrativeAction::Ban(b) => ActionV::Ban(b@),
            AdministrativeAction::Pardon(p) => ActionV::Pardon(p@),
        }
    }
}

impl AdministrativeAction {
    /// The actor the action is attributed to.
    pub open spec fn actor_of(a: ActionV) -> ActorV {
        match a {
            ActionV::Ban(b) => b.actor,
            ActionV::Pardon(p) => p.actor,
        }
    }
}

/// The body fields of a ban request, in wire order.
pub open spec fn ban_fields(b: BanV) -> Seq<(Seq<char>, ScalarV)> {
    seq![
        ("Username"@, ScalarV::Text(b.username)),
        ("PlayerGuid"@, ScalarV::Text(b.player_guid)),
        ("Reason"@, ScalarV::Text(b.reason)),
        ("Minutes"@, ScalarV::Int(b.minutes)),
        ("Severity"@, ScalarV::Int(b.severity)),
    ]
}

/// The body fields of a pardon request: the ban record alone.
pub open spec fn pardon_fields(p: PardonV) -> Seq<(Seq<char>, ScalarV)> {
    seq![("BanId"@, ScalarV::Int(p.ban_id))]
}

/// The body fields of an action.
pub open spec fn action_fields(a: ActionV) -> Seq<(Seq<char>, ScalarV)> {
    match a {
        ActionV::Ban(b) => ban_fields(b),
        ActionV::Pardon(p) => pardon_fields(p),
    }
}

/// The serialized body of an action.
pub open spec fn action_body(a: ActionV) -> Seq<char> {
    render_object(action_fields(a))
}

/// The fields of the `Actor` header.
pub open spec fn actor_fields(a: ActorV) -> Seq<(Seq<char>, ScalarV)> {
    seq![("Guid"@, ScalarV::Text(a.guid)), ("Name"@, ScalarV::Text(a.name))]
}

/// The serialized `Actor` header value.
pub open spec fn actor_header(a: ActorV) -> Seq<char> {
    render_object(actor_fields(a))
}

/// A ban serializes its target identifier: the field `PlayerGuid` holds
/// exactly the resolved target.
pub proof fn lemma_ban_serializes_target(b: BanV)
    ensures
        action_fields(ActionV::Ban(b)).contains(("PlayerGuid"@, ScalarV::Text(b.player_guid))),
{
    assert(action_fields(ActionV::Ban(b))[1] == ("PlayerGuid"@, ScalarV::Text(b.player_guid)));
}

/// A pardon serializes no target identifier: no field of its body is
/// named `PlayerGuid`.
pub proof fn lemma_pardon_omits_target(p: PardonV)
    ensures
        forall|k: int|
            0 <= k < action_fields(ActionV::Pardon(p)).len() ==> action_fields(
                ActionV::Pardon(p),
            )[k].0 != "PlayerGuid"@,
{
    reveal_strlit("BanId");
    reveal_strlit("PlayerGuid");
    assert(action_fields(ActionV::Pardon(p))[0].0 == "BanId"@);
    assert("BanId"@.len() != "PlayerGuid"@.len());
}

/// A pardon's serialized body is free of the target-identifier field in
/// the strongest sense: no window of the text reads `PlayerGuid` at all,
/// whatever the ban record identifier.
pub proof fn lemma_pardon_body_free_of_target(p: PardonV)
    ensures
        forall|k: int|
            0 <= k && k + "PlayerGuid"@.len() <= action_body(ActionV::Pardon(p)).len()
                ==> #[trigger] action_body(ActionV::Pardon(p)).subrange(
                k,
                k + "PlayerGuid"@.len(),
            ) != "PlayerGuid"@,
{
    reveal_strlit("BanId");
    reveal_strlit("PlayerGuid");
    let body = action_body(ActionV::Pardon(p));
    let dec = crate::text::dec_int(p.ban_id);
    assert(json_escape("BanId"@) =~= "BanId"@) by {
        reveal_with_fuel(json_escape, 7);
        assert("BanId"@.len() == 5);
    }
    assert(body =~= seq!['{', '"', 'B', 'a', 'n', 'I', 'd', '"', ':'] + dec + seq!['}']);
    crate::text::lemma_dec_int_chars(p.ban_id);
    assert forall|i: int| 0 <= i < body.len() implies body[i] != 'y' by {
        if 9 <= i < 9 + dec.len() {
            assert(body[i] == dec[i - 9]);
            assert(48 <= (dec[i - 9] as u32) <= 57 || dec[i - 9] == '-');
            assert('y' as u32 == 121);
        }
    }
    assert forall|k: int|
        0 <= k && k + "PlayerGuid"@.len() <= body.len() implies #[trigger] body.subrange(
        k,
        k + "PlayerGuid"@.len(),
    ) != "PlayerGuid"@ by {
        assert("PlayerGuid"@[3] == 'y');
        if body.subrange(k, k + "PlayerGuid"@.len()) == "PlayerGuid"@ {
            assert(body.subrange(k, k + "PlayerGuid"@.len())[3] == body[k + 3]);
        }
    }
}

/// A ban's serialized body always spells the target-identifier field:
/// right after the handle member, the text reads `PlayerGuid`, followed
/// by the resolved target.
pub proof fn lemma_ban_body_spells_target(b: BanV)
    ensures
        exists|k: int|
            0 <= k && k + "PlayerGuid"@.len() <= action_body(ActionV::Ban(b)).len()
                && #[trigger] action_body(ActionV::Ban(b)).subrange(
                k,
                k + "PlayerGuid"@.len(),
            ) == "PlayerGuid"@,
{
    reveal_strlit("PlayerGuid");
    let body = action_body(ActionV::Ban(b));
    let fields = ban_fields(b);
    let m0 = render_member(fields[0]);
    let rest = render_members(fields.drop_first().drop_first());
    assert(json_escape("PlayerGuid"@) =~= "PlayerGuid"@) by {
        reveal_with_fuel(json_escape, 12);
        assert("PlayerGuid"@.len() == 10);
    }
    assert(fields.drop_first()[0] == fields[1]);
    assert(render_members(fields.drop_first()) == render_member(fields[1]) + seq![',']
        + rest);
    assert(body =~= seq!['{'] + m0 + seq![','] + (seq!['"'] + "PlayerGuid"@ + seq!['"']
        + seq![':'] + render_scalar(fields[1].1)) + seq![','] + rest + seq!['}']);
    let k = m0.len() + 3;
    assert(body.subrange(k as int, k as int + 10) =~= "PlayerGuid"@);
    assert(0 <= k as int && k as int + "PlayerGuid"@.len() <= body.len() && body.subrange(
        k as int,
        k as int + "PlayerGuid"@.len(),
    ) == "PlayerGuid"@);
}

/// Serializes an action's body for the administrative API.
pub fn serialize_action(a: &AdministrativeAction) -> (r: String)
    ensures
        r@ == action_body(a@),
{
    let mut fields: Vec<(String, JsonScalar)> = Vec::new();
    match a {
        AdministrativeAction::Ban(b) => {
            fields.push((String::from_str("Username"), JsonScalar::Text(b.username.clone())));
            fields.push((String::from_str("PlayerGuid"), JsonScalar::Text(b.player_guid.clone())));
            fields.push((String::from_str("Reason"), JsonScalar::Text(b.reason.clone())));
            fields.push((String::from_str("Minutes"), JsonScalar::Int(b.minutes as i64)));
            fields.push((String::from_str("Severity"), JsonScalar::Int(b.severity as i64)));
            assert(scalar_members_view(fields@) =~= ban_fields(b@));
        },
        AdministrativeAction::Pardon(p) => {
            fields.push((String::from_str("BanId"), JsonScalar::Int(p.ban_id as i64)));
            assert(scalar_members_view(fields@) =~= pardon_fields(p@));
        },
    }
    render_flat_object(&fields)
}

/// Serializes the `Actor` header value.
pub fn serialize_actor(a: &SS14ApiActor) -> (r: String)
    ensures
        r@ == actor_header(a@),
{
    let mut fields: Vec<(String, JsonScalar)> = Vec::new();
    fields.push((String::from_str("Guid"), JsonScalar::Text(a.guid.clone())));
    fields.push((String::from_str("Name"), JsonScalar::Text(a.name.clone())));
    assert(scalar_members_view(fields@) =~= actor_fields(a@));
    render_flat_object(&fields)
}

/// The endpoint path of an action under the API root.
pub open spec fn action_path(a: ActionV) -> Seq<char> {
    match a {
        ActionV::Ban(_) => "/admin/actions/ban"@,
        ActionV::Pardon(_) => "/admin/actions/pardon"@,
    }
}

/// One fully prepared call to the administrative API: the URL, the two
/// headers and the body.  Whoever performs the transport sends exactly
/// this, once; the relay never retries, since an administrative action is
/// not safe to apply twice.
pub struct PreparedRequest {
    pub url: String,
    pub auth_header: String,
    pub actor_header: String,
    pub body: String,
}

/// Prepares the single call that relays `a`: the action's endpoint under
/// `api_url`, a token authorization header, the `Actor` header naming the
/// acting admin, and the serialized body.
pub fn prepare_action_request(api_url: &str, api_key: &str, a: &AdministrativeAction) -> (r:
    PreparedRequest)
    ensures
        r.url@ == api_url@ + action_path(a@),
        r.auth_header@ == "SS14Token "@ + api_key@,
        r.actor_header@ == actor_header(AdministrativeAction::actor_of(a@)),
        r.body@ == action_body(a@),
{
    let mut url = api_url.to_owned();
    match a {
        AdministrativeAction::Ban(_) => url.append("/admin/actions/ban"),
        AdministrativeAction::Pardon(_) => url.append("/admin/actions/pardon"),
    }
    let mut auth_header = String::from_str("SS14Token ");
    auth_header.append(api_key);
    let actor = match a {
        AdministrativeAction::Ban(b) => serialize_actor(&b.actor),
        AdministrativeAction::Pardon(p) => serialize_actor(&p.actor),
    };
    let body = serialize_action(a);
    PreparedRequest { url, auth_header, actor_header: actor, body }
}

} // verus!
