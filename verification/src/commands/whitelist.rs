//! The `whitelist` command: add a player to the whitelist, or remove one.

use vstd::prelude::*;
use vstd::string::StringExecFns;
use crate::commands::CommandOption;
use crate::commands::CommandOptionV;
use crate::commands::OptionScalar;
use crate::commands::OptionScalarV;
use crate::commands::SubOptionV;
use crate::commands::TopValue;
use crate::commands::first_sub;
use crate::text::str_eq;

verus! {

/// One parsed `whitelist` subcommand.
#[derive(Debug)]
pub enum WhitelistSubCommand {
    Add { login: String },
    Rm { login: String },
}

/// The specification-level value of a [`WhitelistSubCommand`].
pub enum WhitelistSubCommandV {
    Add { login: Seq<char> },
    Rm { login: Seq<char> },
}

impl View for WhitelistSubCommand {
    type V = WhitelistSubCommandV;

    open spec fn view(&self) -> WhitelistSubCommandV {
        match self {
            WhitelistSubCommand::Add { login } => WhitelistSubCommandV::Add { login: login@ },
            WhitelistSubCommand::Rm { login } => WhitelistSubCommandV::Rm { login: login@ },
        }
    }
}

/// Whether an executable parse result carries exactly the
/// specification-level result.
pub open spec fn reflects(
    r: Result<WhitelistSubCommand, String>,
    s: Result<WhitelistSubCommandV, Seq<char>>,
) -> bool {
    match (r, s) {
        (Ok(c), Ok(v)) => c@ == v,
        (Err(m), Err(t)) => m@ == t,
        _ => false,
    }
}

/// What the `add` subcommand denotes: one required string `login`.
pub open spec fn add_parse_result(opt: CommandOptionV) -> Result<WhitelistSubCommandV, Seq<char>> {
    match first_sub(opt) {
        Some(SubOptionV { name: _, value: OptionScalarV::Text(login) }) => Ok(
            WhitelistSubCommandV::Add { login },
        ),
        _ => Err("Invalid options provided."@),
    }
}

/// What the `rm` subcommand denotes: one required string `login`.
pub open spec fn rm_parse_result(opt: CommandOptionV) -> Result<WhitelistSubCommandV, Seq<char>> {
    match first_sub(opt) {
        Some(SubOptionV { name: _, value: OptionScalarV::Text(login) }) => Ok(
            WhitelistSubCommandV::Rm { login },
        ),
        _ => Err("Invalid options provided."@),
    }
}

/// What a whole `whitelist` interaction denotes: exactly one subcommand
/// option, dispatched by name.
pub open spec fn whitelist_options_result(options: Seq<CommandOptionV>) -> Result<
    WhitelistSubCommandV,
    Seq<char>,
> {
    if options.len() != 1 {
        Err("Invalid options count"@)
    } else if options[0].name == "add"@ {
        add_parse_result(options[0])
    } else if options[0].name == "rm"@ {
        rm_parse_result(options[0])
    } else {
        Err("Invalid subcommand."@)
    }
}

/// Parses the `add` subcommand: one required string `login`.
pub fn parse_add_options(opt: &CommandOption) -> (r: Result<WhitelistSubCommand, String>)
    ensures
        reflects(r, add_parse_result(opt@)),
{
    if let TopValue::Sub(subs) = &opt.value {
        if subs.len() > 0 {
            if let OptionScalar::Text(login) = &subs[0].value {
                return Ok(WhitelistSubCommand::Add { login: login.clone() });
            }
        }
    }
    Err(String::from_str("Invalid options provided."))
}

/// Parses the `rm` subcommand: one required string `login`.
pub fn parse_rm_options(opt: &CommandOption) -> (r: Result<WhitelistSubCommand, String>)
    ensures
        reflects(r, rm_parse_result(opt@)),
{
    if let TopValue::Sub(subs) = &opt.value {
        if subs.len() > 0 {
            if let OptionScalar::Text(login) = &subs[0].value {
                return Ok(WhitelistSubCommand::Rm { login: login.clone() });
            }
        }
    }
    Err(String::from_str("Invalid options provided."))
}

/// Dispatches on the one subcommand of a `whitelist` interaction.
pub fn get_options(options: &Vec<CommandOption>) -> (r: Result<WhitelistSubCommand, String>)
    ensures
        reflects(r, whitelist_options_result(options@.map_values(|o: CommandOption| o@))),
{
    proof {
        reveal_strlit("add");
        reveal_strlit("rm");
        assert("add"@.len() == 3 && "rm"@.len() == 2);
    }
    if options.len() != 1 {
        return Err(String::from_str("Invalid options count"));
    }
    let subcommand = &options[0];
    proof {
        assert(options@.map_values(|o: CommandOption| o@)[0] == subcommand@);
    }
    if str_eq(subcommand.name.as_str(), "add") {
        parse_add_options(subcommand)
    } else if str_eq(subcommand.name.as_str(), "rm") {
        parse_rm_options(subcommand)
    } else {
        Err(String::from_str("Invalid subcommand."))
    }
}

/// The outcome message of a whitelist removal: the store reports how many
/// rows the deletion touched.
pub fn whitelist_rm_response(login: &str, rows_affected: Option<u64>) -> (r: String)
    ensures
        match rows_affected {
            Some(0) => r@ == "User "@ + login@ + " is not whitelisted."@,
            Some(_) => r@ == "Successfully removed "@ + login@ + " from whitelist."@,
            None => r@ == "Unable to remove "@ + login@ + " from whitelist."@,
        },
{
    match rows_affected {
        Some(rows) => {
            if rows == 0 {
                let mut out = String::from_str("User ");
                out.append(login);
                out.append(" is not whitelisted.");
                out
            } else {
                let mut out = String::from_str("Successfully removed ");
                out.append(login);
                out.append(" from whitelist.");
                out
            }
        },
        None => {
            let mut out = String::from_str("Unable to remove ");
            out.append(login);
            out.append(" from whitelist.");
            out
        },
    }
}

/// The outcome of a whitelist insertion, as the store reports it.
pub enum WhitelistAddOutcome {
    Inserted,
    AlreadyWhitelisted,
    Failed,
}

/// The outcome message of a whitelist insertion; a unique-key violation
/// means the player was already whitelisted.
pub fn whitelist_add_response(login: &str, outcome: &WhitelistAddOutcome) -> (r: String)
    ensures
        match outcome {
            WhitelistAddOutcome::Inserted => r@ == "Successfully added "@ + login@
                + " to whitelist."@,
            WhitelistAddOutcome::AlreadyWhitelisted => r@
                == "Such player is already whitelisted."@,
            WhitelistAddOutcome::Failed => r@ == "Unable to add "@ + login@ + " to whitelist."@,
        },
{
    match outcome {
        WhitelistAddOutcome::Inserted => {
            let mut out = String::from_str("Successfully added ");
            out.append(login);
            out.append(" to whitelist.");
            out
        },
        WhitelistAddOutcome::AlreadyWhitelisted => String::from_str(
            "Such player is already whitelisted.",
        ),
        WhitelistAddOutcome::Failed => {
            let mut out = String::from_str("Unable to add ");
            out.append(login);
            out.append(" to whitelist.");
            out
        },
    }
}

} // verus!
