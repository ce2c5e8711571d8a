//! The command orchestrator.
//!
//! One incoming ban or pardon command runs through the phases
//! `AdminResolving`, then for a ban `TargetResolving`, then `Relaying`,
//! then `Responded`; a pardon skips target resolution, carrying only a ban
//! record identifier.  Any failure short-circuits straight to `Responded`.
//! The step functions here hold the whole decision logic; whoever drives
//! them performs one outside call per non-terminal phase and feeds the
//! outcome back.  Every run ends in exactly one `Responded` phase, whose
//! message is the single user-visible response, and reaches `Relaying` at
//! most once: the relay never retries, and an unauthorized caller never
//! reaches it at all.

use vstd::prelude::*;
use vstd::pervasive::unreached;
use vstd::string::StringExecFns;
use crate::admin::ActorContext;
use crate::admin::ActorContextV;
use crate::envelope::envelope_display;
use crate::error::Error;
use crate::error::ErrorV;
use crate::ident::PlayerIdentifier;
use crate::text::dec_int;
use crate::text::render_i32;
use crate::wire::ActionV;
use crate::wire::ActorV;
use crate::wire::AdministrativeAction;
use crate::wire::BanRequest;
use crate::wire::BanV;
use crate::wire::PardonRequest;
use crate::wire::PardonV;
use crate::wire::SS14ApiActor;

verus! {

/// A ban order as it leaves command parsing.
pub struct BanOrder {
    pub caller_platform_id: String,
    pub login: String,
    pub minutes: i32,
    pub reason: String,
    pub severity: u16,
}

/// The specification-level value of a [`BanOrder`].
pub struct BanOrderV {
    pub caller_platform_id: Seq<char>,
    pub login: Seq<char>,
    pub minutes: int,
    pub reason: Seq<char>,
    pub severity: int,
}

impl View for BanOrder {
    type V = BanOrderV;

    open spec fn view(&self) -> BanOrderV {
        BanOrderV {
            caller_platform_id: self.caller_platform_id@,
            login: self.login@,
            minutes: self.minutes as int,
            reason: self.reason@,
            severity: self.severity as int,
        }
    }
}

/// A pardon order as it leaves command parsing.
pub struct PardonOrder {
    pub caller_platform_id: String,
    pub ban_id: i32,
}

/// The specification-level value of a [`PardonOrder`].
pub struct PardonOrderV {
    pub caller_platform_id: Seq<char>,
    pub ban_id: int,
}

impl View for PardonOrder {
    type V = PardonOrderV;

    open spec fn view(&self) -> PardonOrderV {
        PardonOrderV { caller_platform_id: self.caller_platform_id@, ban_id: self.ban_id as int }
    }
}

/// An administrative command the orchestrator runs.
pub enum Command {
    Ban(BanOrder),
    Pardon(PardonOrder),
}

/// The specification-level value of a [`Command`].
pub enum CommandV {
    Ban(BanOrderV),
    Pardon(PardonOrderV),
}

impl View for Command {
    type V = CommandV;

    open spec fn view(&self) -> CommandV {
        match self {
            Command::Ban(o) => CommandV::Ban(o@),
            Command::Pardon(o) => CommandV::Pardon(o@),
        }
    }
}

impl Command {
    /// The chat-platform account identifier of the caller, for the
    /// authorization call.
    pub fn caller_platform_id(&self) -> (r: &String)
        ensures
            r@ == match self@ {
                CommandV::Ban(o) => o.caller_platform_id,
                CommandV::Pardon(o) => o.caller_platform_id,
            },
    {
        match self {
            Command::Ban(o) => &o.caller_platform_id,
            Command::Pardon(o) => &o.caller_platform_id,
        }
    }
}

/// What a pending relay is about, for the response message.
pub enum RelayNote {
    BanOf(String),
    PardonOf(i32),
}

/// The specification-level value of a [`RelayNote`].
pub enum RelayNoteV {
    BanOf(Seq<char>),
    PardonOf(int),
}

impl View for RelayNote {
    type V = RelayNoteV;

    open spec fn view(&self) -> RelayNoteV {
        match self {
            RelayNote::BanOf(login) => RelayNoteV::BanOf(login@),
            RelayNote::PardonOf(id) => RelayNoteV::PardonOf(*id as int),
        }
    }
}

/// One phase of a running command.
pub enum Phase {
    AdminResolving(Command),
    TargetResolving { order: BanOrder, actor: ActorContext },
    Relaying { action: AdministrativeAction, note: RelayNote },
    Responded(String),
}

/// The specification-level value of a [`Phase`].
pub enum PhaseV {
    AdminResolving(CommandV),
    TargetResolving { order: BanOrderV, actor: ActorContextV },
    Relaying { action: ActionV, note: RelayNoteV },
    Responded(Seq<char>),
}

impl View for Phase {
    type V = PhaseV;

    open spec fn view(&self) -> PhaseV {
        match self {
            Phase::AdminResolving(c) => PhaseV::AdminResolving(c@),
            Phase::TargetResolving { order, actor } => PhaseV::TargetResolving {
                order: order@,
                actor: actor@,
            },
            Phase::Relaying { action, note } => PhaseV::Relaying {
                action: action@,
                note: note@,
            },
            Phase::Responded(m) => PhaseV::Responded(m@),
        }
    }
}

// ------------------------------------------------------------------
// Response messages
// ------------------------------------------------------------------

/// The response when the caller cannot be authorized.
pub open spec fn unauthorized_message() -> Seq<char> {
    "You're probably unauthorized to perform this action."@
}

/// The response when the resolved identity has no display name.
pub open spec fn admin_name_message() -> Seq<char> {
    "Unable to fetch admin name."@
}

/// The response when the ban target cannot be resolved.
pub open spec fn target_not_found_message() -> Seq<char> {
    "Unable to find banning player."@
}

/// The response to a failed admin resolution.  A configuration failure
/// carries its own message; everything else is answered fail-closed: an
/// unattributable caller is told they are unauthorized, except that a
/// named identity without a stored display name gets its own wording.
pub open spec fn admin_failure_message(e: ErrorV) -> Seq<char> {
    match e {
        ErrorV::NotFound => admin_name_message(),
        ErrorV::ConfigurationFailure(d) => d,
        _ => unauthorized_message(),
    }
}

/// The response to a relay outcome: success names what was done; a
/// structured remote rejection is rendered verbatim, being
/// operator-actionable; anything else gets a generic failure text.
pub open spec fn relay_response_message(note: RelayNoteV, outcome: Result<(), ErrorV>) -> Seq<
    char,
> {
    match outcome {
        Ok(_) => match note {
            RelayNoteV::BanOf(login) => "Successfully banned player: `"@ + login + "`"@,
            RelayNoteV::PardonOf(id) => "Successfully pardoned ban with id: "@ + dec_int(id),
        },
        Err(ErrorV::RemoteRejected(env)) => match note {
            RelayNoteV::BanOf(_) => "Error during ban: "@ + envelope_display(env),
            RelayNoteV::PardonOf(_) => "Error during pardon: "@ + envelope_display(env),
        },
        Err(_) => match note {
            RelayNoteV::BanOf(_) => "Error occured during ban."@,
            RelayNoteV::PardonOf(_) => "Error occured during ban pardon."@,
        },
    }
}

// ------------------------------------------------------------------
// The state machine, at the specification level
// ------------------------------------------------------------------

/// The specification-level value of a resolution outcome.
pub open spec fn admin_outcome_view(outcome: Result<ActorContext, Error>) -> Result<
    ActorContextV,
    ErrorV,
> {
    match outcome {
        Ok(a) => Ok(a@),
        Err(e) => Err(e@),
    }
}

/// The specification-level value of a relay outcome.
pub open spec fn relay_outcome_view(outcome: Result<(), Error>) -> Result<(), ErrorV> {
    match outcome {
        Ok(_) => Ok(()),
        Err(e) => Err(e@),
    }
}

/// The pardon action an actor relays for an order.
pub open spec fn pardon_action(o: PardonOrderV, actor: ActorContextV) -> ActionV {
    ActionV::Pardon(
        PardonV {
            ban_id: o.ban_id,
            actor: ActorV { guid: actor.identity, name: actor.display_name },
        },
    )
}

/// The ban action an actor relays for an order and a resolved target.
pub open spec fn ban_action(o: BanOrderV, actor: ActorContextV, target: Seq<char>) -> ActionV {
    ActionV::Ban(
        BanV {
            username: o.login,
            player_guid: target,
            reason: o.reason,
            minutes: o.minutes,
            severity: o.severity,
            actor: ActorV { guid: actor.identity, name: actor.display_name },
        },
    )
}

/// The first phase of every command.
pub open spec fn begin_spec(cmd: CommandV) -> PhaseV {
    PhaseV::AdminResolving(cmd)
}

/// The transition out of `AdminResolving`.
pub open spec fn admin_step(cmd: CommandV, outcome: Result<ActorContextV, ErrorV>) -> PhaseV {
    match outcome {
        Err(e) => PhaseV::Responded(admin_failure_message(e)),
        Ok(actor) => match cmd {
            CommandV::Ban(o) => PhaseV::TargetResolving { order: o, actor },
            CommandV::Pardon(o) => PhaseV::Relaying {
                action: pardon_action(o, actor),
                note: RelayNoteV::PardonOf(o.ban_id),
            },
        },
    }
}

/// The transition out of `TargetResolving`.
pub open spec fn target_step(order: BanOrderV, actor: ActorContextV, target: Option<Seq<char>>) -> PhaseV {
    match target {
        None => PhaseV::Responded(target_not_found_message()),
        Some(id) => PhaseV::Relaying {
            action: ban_action(order, actor, id),
            note: RelayNoteV::BanOf(order.login),
        },
    }
}

/// The transition out of `Relaying`: always terminal.
pub open spec fn relay_step(note: RelayNoteV, outcome: Result<(), ErrorV>) -> PhaseV {
    PhaseV::Responded(relay_response_message(note, outcome))
}

/// A whole run over given outcomes: the admin step, the target step where
/// one is pending, the relay step where a relay is pending.
pub open spec fn orchestrate(
    cmd: CommandV,
    admin_outcome: Result<ActorContextV, ErrorV>,
    target: Option<Seq<char>>,
    relay_outcome: Result<(), ErrorV>,
) -> PhaseV {
    let after_admin = admin_step(cmd, admin_outcome);
    let after_target = match after_admin {
        PhaseV::TargetResolving { order, actor } => target_step(order, actor, target),
        _ => after_admin,
    };
    match after_target {
        PhaseV::Relaying { action, note } => relay_step(note, relay_outcome),
        _ => after_target,
    }
}

/// How many relay calls a run makes: one when the run reaches `Relaying`,
/// none otherwise.
pub open spec fn relay_calls(
    cmd: CommandV,
    admin_outcome: Result<ActorContextV, ErrorV>,
    target: Option<Seq<char>>,
) -> nat {
    let after_admin = admin_step(cmd, admin_outcome);
    let after_target = match after_admin {
        PhaseV::TargetResolving { order, actor } => target_step(order, actor, target),
        _ => after_admin,
    };
    if after_target is Relaying {
        1
    } else {
        0
    }
}

/// Every run ends responded, and the relay is called at most once per
/// command, whatever the outcomes: the relay step is terminal, so no
/// retry can ever be issued within one invocation.
pub proof fn lemma_single_relay_single_response(
    cmd: CommandV,
    admin_outcome: Result<ActorContextV, ErrorV>,
    target: Option<Seq<char>>,
    relay_outcome: Result<(), ErrorV>,
)
    ensures
        relay_calls(cmd, admin_outcome, target) <= 1,
        orchestrate(cmd, admin_outcome, target, relay_outcome) is Responded,
{
}

/// A caller who fails authorization is answered with the unauthorized
/// message, and the relay is never invoked.
pub proof fn lemma_unauthorized_never_relays(
    cmd: CommandV,
    target: Option<Seq<char>>,
    relay_outcome: Result<(), ErrorV>,
)
    ensures
        relay_calls(cmd, Err(ErrorV::Unauthorized), target) == 0,
        orchestrate(cmd, Err(ErrorV::Unauthorized), target, relay_outcome) == PhaseV::Responded(
            unauthorized_message(),
        ),
{
}

// ------------------------------------------------------------------
// The state machine, executable
// ------------------------------------------------------------------

/// Starts a run: every command first resolves its caller.
pub fn begin(cmd: Command) -> (r: Phase)
    ensures
        r@ == begin_spec(cmd@),
{
    Phase::AdminResolving(cmd)
}

fn render_admin_failure(e: &Error) -> (r: String)
    ensures
        r@ == admin_failure_message(e@),
{
    match e {
        Error::NotFound => String::from_str("Unable to fetch admin name."),
        Error::ConfigurationFailure(d) => d.clone(),
        _ => String::from_str("You're probably unauthorized to perform this action."),
    }
}

fn render_relay_response(note: &RelayNote, outcome: &Result<(), Error>) -> (r: String)
    ensures
        r@ == relay_response_message(note@, match outcome {
            Ok(_) => Ok(()),
            Err(e) => Err(e@),
        }),
{
    match outcome {
        Ok(_) => match note {
            RelayNote::BanOf(login) => {
                let mut out = String::from_str("Successfully banned player: `");
                out.append(login.as_str());
                out.append("`");
                out
            },
            RelayNote::PardonOf(id) => {
                let mut out = String::from_str("Successfully pardoned ban with id: ");
                let n = render_i32(*id);
                out.append(n.as_str());
                out
            },
        },
        Err(Error::RemoteRejected(env)) => {
            let mut out = match note {
                RelayNote::BanOf(_) => String::from_str("Error during ban: "),
                RelayNote::PardonOf(_) => String::from_str("Error during pardon: "),
            };
            let d = env.describe();
            out.append(d.as_str());
            out
        },
        Err(_) => match note {
            RelayNote::BanOf(_) => String::from_str("Error occured during ban."),
            RelayNote::PardonOf(_) => String::from_str("Error occured during ban pardon."),
        },
    }
}

/// Feeds the admin resolution outcome into a run.  A failure responds at
/// once; a resolved actor sends a pardon straight to `Relaying` and a ban
/// on to `TargetResolving`.
pub fn on_admin_resolved(p: Phase, outcome: Result<ActorContext, Error>) -> (r: Phase)
    requires
        p@ is AdminResolving,
    ensures
        r@ == admin_step(p@->AdminResolving_0, admin_outcome_view(outcome)),
{
    let cmd = match p {
        Phase::AdminResolving(cmd) => cmd,
        _ => unreached(),
    };
    let actor = match outcome {
        Ok(actor) => actor,
        Err(e) => {
            return Phase::Responded(render_admin_failure(&e));
        },
    };
    match cmd {
        Command::Ban(order) => Phase::TargetResolving { order, actor },
        Command::Pardon(order) => {
            let api_actor = SS14ApiActor::new(&actor.identity, actor.display_name.as_str());
            let req = PardonRequest::new(order.ban_id, api_actor);
            Phase::Relaying {
                action: AdministrativeAction::Pardon(req),
                note: RelayNote::PardonOf(order.ban_id),
            }
        },
    }
}

/// Feeds the target resolution outcome into a run of a ban.  An
/// unresolved target responds at once; a resolved one builds the ban
/// action and moves to `Relaying`.
pub fn on_target_resolved(p: Phase, target: Option<PlayerIdentifier>) -> (r: Phase)
    requires
        p@ is TargetResolving,
    ensures
        r@ == target_step(p@->TargetResolving_order, p@->TargetResolving_actor, match target {
            Some(id) => Some(id@),
            None => None,
        }),
{
    let (order, actor) = match p {
        Phase::TargetResolving { order, actor } => (order, actor),
        _ => unreached(),
    };
    let id = match target {
        Some(id) => id,
        None => {
            return Phase::Responded(String::from_str("Unable to find banning player."));
        },
    };
    let api_actor = SS14ApiActor::new(&actor.identity, actor.display_name.as_str());
    let note = RelayNote::BanOf(order.login.clone());
    let req = BanRequest::new(
        order.login,
        &id,
        order.reason,
        order.minutes,
        order.severity,
        api_actor,
    );
    Phase::Relaying { action: AdministrativeAction::Ban(req), note }
}

/// Feeds the relay outcome into a run: always terminal, with the single
/// user-visible response.
pub fn on_relay_outcome(p: Phase, outcome: Result<(), Error>) -> (r: Phase)
    requires
        p@ is Relaying,
    ensures
        r@ == relay_step(p@->Relaying_note, relay_outcome_view(outcome)),
{
    let note = match p {
        Phase::Relaying { action: _, note } => note,
        _ => unreached(),
    };
    Phase::Responded(render_relay_response(&note, &outcome))
}

} // verus!
