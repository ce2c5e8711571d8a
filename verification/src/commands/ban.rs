//! The `bans` command: list, info, pardon and ban subcommands.

use vstd::prelude::*;
use vstd::string::StringExecFns;
use crate::commands::CommandOption;
use crate::commands::CommandOptionV;
use crate::commands::OptionScalar;
use crate::commands::OptionScalarV;
use crate::commands::SubOptionV;
use crate::commands::TopValue;
use crate::commands::TopValueV;
use crate::commands::first_sub;
use crate::commands::sub_options_view;
use crate::orchestrator::BanOrder;
use crate::orchestrator::Command;
use crate::orchestrator::PardonOrder;
use crate::text::str_eq;

verus! {

/// One parsed `bans` subcommand.  The caller's chat-platform account
/// identifier travels with the two subcommands that act.
#[derive(Debug)]
pub enum BansSubcommand {
    List(String),
    Info(i32),
    Pardon { caller_discord_id: String, id: i32 },
    Ban {
        caller_discord_id: String,
        banning_player_login: String,
        minutes: i32,
        reason: String,
        severity: u16,
    },
}

/// The specification-level value of a [`BansSubcommand`].
pub enum BansSubcommandV {
    List(Seq<char>),
    Info(int),
    Pardon { caller: Seq<char>, id: int },
    Ban { caller: Seq<char>, login: Seq<char>, minutes: int, reason: Seq<char>, severity: int },
}

impl View for BansSubcommand {
    type V = BansSubcommandV;

    open spec fn view(&self) -> BansSubcommandV {
        match self {
            BansSubcommand::List(login) => BansSubcommandV::List(login@),
            BansSubcommand::Info(id) => BansSubcommandV::Info(*id as int),
            BansSubcommand::Pardon { caller_discord_id, id } => BansSubcommandV::Pardon {
                caller: caller_discord_id@,
                id: *id as int,
            },
            BansSubcommand::Ban {
                caller_discord_id,
                banning_player_login,
                minutes,
                reason,
                severity,
            } => BansSubcommandV::Ban {
                caller: caller_discord_id@,
                login: banning_player_login@,
                minutes: *minutes as int,
                reason: reason@,
                severity: *severity as int,
            },
        }
    }
}

/// Whether an executable parse result carries exactly the
/// specification-level result.
pub open spec fn reflects(
    r: Result<BansSubcommand, String>,
    s: Result<BansSubcommandV, Seq<char>>,
) -> bool {
    match (r, s) {
        (Ok(c), Ok(v)) => c@ == v,
        (Err(m), Err(t)) => m@ == t,
        _ => false,
    }
}

/// What the `list` subcommand denotes: one required string `login`.
pub open spec fn list_parse_result(opt: CommandOptionV) -> Result<BansSubcommandV, Seq<char>> {
    match first_sub(opt) {
        Some(SubOptionV { name: _, value: OptionScalarV::Text(login) }) => Ok(
            BansSubcommandV::List(login),
        ),
        _ => Err("Invalid or missing 'login' option"@),
    }
}

/// What the `info` subcommand denotes: one required integer `id`, which
/// must name a ban record, hence fit the record identifier's range.
pub open spec fn info_parse_result(opt: CommandOptionV) -> Result<BansSubcommandV, Seq<char>> {
    match first_sub(opt) {
        Some(SubOptionV { name: _, value: OptionScalarV::Integer(id) }) => {
            if -2147483648 <= id <= 2147483647 {
                Ok(BansSubcommandV::Info(id))
            } else {
                Err("Invalid or missing 'id' option"@)
            }
        },
        _ => Err("Invalid or missing 'id' option"@),
    }
}

/// What the `pardon` subcommand denotes: one required integer `id`, plus
/// the caller taken from the interaction.
pub open spec fn pardon_parse_result(opt: CommandOptionV, caller: Seq<char>) -> Result<
    BansSubcommandV,
    Seq<char>,
> {
    match first_sub(opt) {
        Some(SubOptionV { name: _, value: OptionScalarV::Integer(id) }) => {
            if -2147483648 <= id <= 2147483647 {
                Ok(BansSubcommandV::Pardon { caller, id })
            } else {
                Err("Invalid or missing 'id' option"@)
            }
        },
        _ => Err("Invalid or missing 'id' option"@),
    }
}

/// Parses the `list` subcommand: one required string `login`.
pub fn parse_list_options(opt: &CommandOption) -> (r: Result<BansSubcommand, String>)
    ensures
        reflects(r, list_parse_result(opt@)),
{
    if let TopValue::Sub(subs) = &opt.value {
        if subs.len() > 0 {
            if let OptionScalar::Text(login) = &subs[0].value {
                return Ok(BansSubcommand::List(login.clone()));
            }
        }
    }
    Err(String::from_str("Invalid or missing 'login' option"))
}

/// Parses the `info` subcommand: one required integer `id`, which must
/// name a ban record, hence fit the record identifier's range.
pub fn parse_info_options(opt: &CommandOption) -> (r: Result<BansSubcommand, String>)
    ensures
        reflects(r, info_parse_result(opt@)),
{
    if let TopValue::Sub(subs) = &opt.value {
        if subs.len() > 0 {
            if let OptionScalar::Integer(id) = &subs[0].value {
                if -2147483648i64 <= *id && *id <= 2147483647i64 {
                    return Ok(BansSubcommand::Info(*id as i32));
                }
            }
        }
    }
    Err(String::from_str("Invalid or missing 'id' option"))
}

/// Parses the `pardon` subcommand: one required integer `id`, plus the
/// caller taken from the interaction.
pub fn parse_pardon_options(opt: &CommandOption, caller: &str) -> (r: Result<
    BansSubcommand,
    String,
>)
    ensures
        reflects(r, pardon_parse_result(opt@, caller@)),
{
    if let TopValue::Sub(subs) = &opt.value {
        if subs.len() > 0 {
            if let OptionScalar::Integer(id) = &subs[0].value {
                if -2147483648i64 <= *id && *id <= 2147483647i64 {
                    return Ok(
                        BansSubcommand::Pardon {
                            caller_discord_id: caller.to_owned(),
                            id: *id as i32,
                        },
                    );
                }
            }
        }
    }
    Err(String::from_str("Invalid or missing 'id' option"))
}

/// The scan of the `ban` suboptions from position `i`: the named values
/// gathered so far, or nothing when an option falls outside the four
/// known name-and-kind pairs.
pub open spec fn ban_scan(
    subs: Seq<SubOptionV>,
    i: nat,
    login: Option<Seq<char>>,
    minutes: Option<int>,
    reason: Option<Seq<char>>,
    severity: Option<int>,
) -> Option<(Option<Seq<char>>, Option<int>, Option<Seq<char>>, Option<int>)>
    decreases subs.len() - i,
{
    if i >= subs.len() {
        Some((login, minutes, reason, severity))
    } else {
        let o = subs[i as int];
        if o.name == "login"@ && o.value is Text {
            ban_scan(subs, i + 1, Some(o.value->Text_0), minutes, reason, severity)
        } else if o.name == "minutes"@ && o.value is Integer {
            ban_scan(subs, i + 1, login, Some(o.value->Integer_0), reason, severity)
        } else if o.name == "reason"@ && o.value is Text {
            ban_scan(subs, i + 1, login, minutes, Some(o.value->Text_0), severity)
        } else if o.name == "severity"@ && o.value is Integer {
            ban_scan(subs, i + 1, login, minutes, reason, Some(o.value->Integer_0))
        } else {
            None
        }
    }
}

/// What the `ban` subcommand denotes once its options are gathered:
/// the login is required, the other values fall back to a permanent
/// ban (`minutes` zero), a stock reason, and severity two; values
/// outside their wire range are rejected.
pub open spec fn ban_of_scan(
    caller: Seq<char>,
    gathered: (Option<Seq<char>>, Option<int>, Option<Seq<char>>, Option<int>),
) -> Result<BansSubcommandV, Seq<char>> {
    let (login, minutes, reason, severity) = gathered;
    match login {
        None => Err("Banning player couldn't be none"@),
        Some(l) => {
            let m = match minutes {
                Some(m) => m,
                None => 0,
            };
            let s = match severity {
                Some(s) => s,
                None => 2,
            };
            if !(-2147483648 <= m <= 2147483647) || !(0 <= s <= 65535) {
                Err("Invalid options passed"@)
            } else {
                Ok(
                    BansSubcommandV::Ban {
                        caller,
                        login: l,
                        minutes: m,
                        reason: match reason {
                            Some(t) => t,
                            None => "No reason provided"@,
                        },
                        severity: s,
                    },
                )
            }
        },
    }
}

/// What the `ban` subcommand denotes: its options gathered and checked.
pub open spec fn ban_parse_result(opt: CommandOptionV, caller: Seq<char>) -> Result<
    BansSubcommandV,
    Seq<char>,
> {
    match opt.value {
        TopValueV::Sub(subs) => match ban_scan(subs, 0, None, None, None, None) {
            None => Err("Invalid options passed"@),
            Some(gathered) => ban_of_scan(caller, gathered),
        },
        TopValueV::Other => Err("Invalid options passed"@),
    }
}

/// Parses the `ban` subcommand: a required string `login`, optional
/// integer `minutes`, string `reason` and integer `severity`, in any
/// order; a later option of the same name wins.
pub fn parse_ban_options(opt: &CommandOption, caller: &str) -> (r: Result<BansSubcommand, String>)
    ensures
        reflects(r, ban_parse_result(opt@, caller@)),
{
    let subs = match &opt.value {
        TopValue::Sub(subs) => subs,
        TopValue::Other => {
            return Err(String::from_str("Invalid options passed"));
        },
    };
    let ghost sv = sub_options_view(subs@);
    let mut login: Option<String> = None;
    let mut minutes: Option<i64> = None;
    let mut reason: Option<String> = None;
    let mut severity: Option<i64> = None;
    let mut i: usize = 0;
    while i < subs.len()
        invariant
            0 <= i <= sv.len(),
            sv == sub_options_view(subs@),
            opt@.value == TopValueV::Sub(sv),
            ban_scan(sv, 0, None, None, None, None) == ban_scan(
                sv,
                i as nat,
                match login {
                    Some(ref l) => Some(l@),
                    None => None,
                },
                match minutes {
                    Some(m) => Some(m as int),
                    None => None,
                },
                match reason {
                    Some(ref t) => Some(t@),
                    None => None,
                },
                match severity {
                    Some(s) => Some(s as int),
                    None => None,
                },
            ),
        decreases sv.len() - i,
    {
        proof {
            reveal_strlit("login");
            reveal_strlit("minutes");
            reveal_strlit("reason");
            reveal_strlit("severity");
            assert("login"@.len() == 5);
            assert("minutes"@.len() == 7);
            assert("reason"@.len() == 6);
            assert("severity"@.len() == 8);
        }
        let o = &subs[i];
        let ghost gl = match login {
            Some(ref l) => Some(l@),
            None => None,
        };
        let ghost gm = match minutes {
            Some(m) => Some(m as int),
            None => None,
        };
        let ghost gr = match reason {
            Some(ref t) => Some(t@),
            None => None,
        };
        let ghost gs = match severity {
            Some(s) => Some(s as int),
            None => None,
        };
        proof {
            assert(sv[i as int] == o@);
        }
        let mut known = true;
        if str_eq(o.name.as_str(), "login") {
            match &o.value {
                OptionScalar::Text(t) => {
                    login = Some(t.clone());
                },
                _ => {
                    known = false;
                },
            }
        } else if str_eq(o.name.as_str(), "minutes") {
            match &o.value {
                OptionScalar::Integer(n) => {
                    minutes = Some(*n);
                },
                _ => {
                    known = false;
                },
            }
        } else if str_eq(o.name.as_str(), "reason") {
            match &o.value {
                OptionScalar::Text(t) => {
                    reason = Some(t.clone());
                },
                _ => {
                    known = false;
                },
            }
        } else if str_eq(o.name.as_str(), "severity") {
            match &o.value {
                OptionScalar::Integer(n) => {
                    severity = Some(*n);
                },
                _ => {
                    known = false;
                },
            }
        } else {
            known = false;
        }
        if !known {
            assert(ban_scan(sv, i as nat, gl, gm, gr, gs) is None);
            return Err(String::from_str("Invalid options passed"));
        }
        assert(ban_scan(sv, i as nat, gl, gm, gr, gs) == ban_scan(
            sv,
            (i + 1) as nat,
            match login {
                Some(ref l) => Some(l@),
                None => None,
            },
            match minutes {
                Some(m) => Some(m as int),
                None => None,
            },
            match reason {
                Some(ref t) => Some(t@),
                None => None,
            },
            match severity {
                Some(s) => Some(s as int),
                None => None,
            },
        ));
        i += 1;
    }
    proof {
        let gl = match login {
            Some(ref l) => Some(l@),
            None => None,
        };
        let gm = match minutes {
            Some(m) => Some(m as int),
            None => None,
        };
        let gr = match reason {
            Some(ref t) => Some(t@),
            None => None,
        };
        let gs = match severity {
            Some(s) => Some(s as int),
            None => None,
        };
        assert(ban_scan(sv, i as nat, gl, gm, gr, gs) == Some((gl, gm, gr, gs)));
    }
    let login = match login {
        Some(l) => l,
        None => {
            return Err(String::from_str("Banning player couldn't be none"));
        },
    };
    let m: i64 = match minutes {
        Some(m) => m,
        None => 0,
    };
    let s: i64 = match severity {
        Some(s) => s,
        None => 2,
    };
    if !(-2147483648i64 <= m && m <= 2147483647i64) || !(0i64 <= s && s <= 65535i64) {
        return Err(String::from_str("Invalid options passed"));
    }
    let reason = match reason {
        Some(t) => t,
        None => String::from_str("No reason provided"),
    };
    Ok(
        BansSubcommand::Ban {
            caller_discord_id: caller.to_owned(),
            banning_player_login: login,
            minutes: m as i32,
            reason,
            severity: s as u16,
        },
    )
}

/// What a whole `bans` interaction denotes: exactly one subcommand
/// option, dispatched by name.
pub open spec fn bans_options_result(options: Seq<CommandOptionV>, caller: Seq<char>) -> Result<
    BansSubcommandV,
    Seq<char>,
> {
    if options.len() != 1 {
        Err("Invalid options length"@)
    } else if options[0].name == "list"@ {
        list_parse_result(options[0])
    } else if options[0].name == "info"@ {
        info_parse_result(options[0])
    } else if options[0].name == "pardon"@ {
        pardon_parse_result(options[0], caller)
    } else if options[0].name == "ban"@ {
        ban_parse_result(options[0], caller)
    } else {
        Err("Invalid subcommand"@)
    }
}

/// Dispatches on the one subcommand of a `bans` interaction.
pub fn get_options(options: &Vec<CommandOption>, caller: &str) -> (r: Result<
    BansSubcommand,
    String,
>)
    ensures
        reflects(r, bans_options_result(options@.map_values(|o: CommandOption| o@), caller@)),
{
    proof {
        reveal_strlit("list");
        reveal_strlit("info");
        reveal_strlit("pardon");
        reveal_strlit("ban");
        assert("list"@.len() == 4 && "info"@.len() == 4 && "pardon"@.len() == 6 && "ban"@.len()
            == 3);
        assert("list"@[0] == 'l' && "info"@[0] == 'i' && "ban"@[0] == 'b');
    }
    if options.len() != 1 {
        return Err(String::from_str("Invalid options length"));
    }
    let subcommand = &options[0];
    proof {
        assert(options@.map_values(|o: CommandOption| o@)[0] == subcommand@);
    }
    if str_eq(subcommand.name.as_str(), "list") {
        parse_list_options(subcommand)
    } else if str_eq(subcommand.name.as_str(), "info") {
        parse_info_options(subcommand)
    } else if str_eq(subcommand.name.as_str(), "pardon") {
        parse_pardon_options(subcommand, caller)
    } else if str_eq(subcommand.name.as_str(), "ban") {
        parse_ban_options(subcommand, caller)
    } else {
        Err(String::from_str("Invalid subcommand"))
    }
}

/// The orchestrator command a subcommand denotes: the two acting
/// subcommands map across, the two read-only ones map to nothing — a
/// total mapping, in place of a conversion that could panic.
pub fn command_of(cmd: BansSubcommand) -> (r: Option<Command>)
    ensures
        match cmd@ {
            BansSubcommandV::Ban { caller, login, minutes, reason, severity } => r matches Some(
                c,
            ) && c@ == crate::orchestrator::CommandV::Ban(
                crate::orchestrator::BanOrderV {
                    caller_platform_id: caller,
                    login,
                    minutes,
                    reason,
                    severity,
                },
            ),
            BansSubcommandV::Pardon { caller, id } => r matches Some(c) && c@
                == crate::orchestrator::CommandV::Pardon(
                crate::orchestrator::PardonOrderV { caller_platform_id: caller, ban_id: id },
            ),
            _ => r is None,
        },
{
    match cmd {
        BansSubcommand::Ban {
            caller_discord_id,
            banning_player_login,
            minutes,
            reason,
            severity,
        } => Some(
            Command::Ban(
                BanOrder {
                    caller_platform_id: caller_discord_id,
                    login: banning_player_login,
                    minutes,
                    reason,
                    severity,
                },
            ),
        ),
        BansSubcommand::Pardon { caller_discord_id, id } => Some(
            Command::Pardon(PardonOrder { caller_platform_id: caller_discord_id, ban_id: id }),
        ),
        _ => None,
    }
}

} // verus!
