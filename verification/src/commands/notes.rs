//! The `notes` command: list a player's notes, or one note by identifier.

use vstd::prelude::*;
use vstd::string::StringExecFns;
use crate::commands::CommandOption;
use crate::commands::CommandOptionV;
use crate::commands::OptionScalar;
use crate::commands::OptionScalarV;
use crate::commands::SubOptionV;
use crate::commands::TopValue;
use crate::commands::first_sub;
use crate::text::str_eq;

verus! {

/// One parsed `notes` subcommand.
#[derive(Debug)]
pub enum NotesSubcommand {
    List { login: String },
    Note { id: i64 },
}

/// The specification-level value of a [`NotesSubcommand`].
pub enum NotesSubcommandV {
    List { login: Seq<char> },
    Note { id: int },
}

impl View for NotesSubcommand {
    type V = NotesSubcommandV;

    open spec fn view(&self) -> NotesSubcommandV {
        match self {
            NotesSubcommand::List { login } => NotesSubcommandV::List { login: login@ },
            NotesSubcommand::Note { id } => NotesSubcommandV::Note { id: *id as int },
        }
    }
}

/// Whether an executable parse result carries exactly the
/// specification-level result.
pub open spec fn reflects(
    r: Result<NotesSubcommand, String>,
    s: Result<NotesSubcommandV, Seq<char>>,
) -> bool {
    match (r, s) {
        (Ok(c), Ok(v)) => c@ == v,
        (Err(m), Err(t)) => m@ == t,
        _ => false,
    }
}

/// What the `note` subcommand denotes: one required integer `id`.
pub open spec fn note_parse_result(opt: CommandOptionV) -> Result<NotesSubcommandV, Seq<char>> {
    match first_sub(opt) {
        Some(SubOptionV { name: _, value: OptionScalarV::Integer(id) }) => Ok(
            NotesSubcommandV::Note { id },
        ),
        _ => Err("Invalid or missing 'id' option"@),
    }
}

/// What the `list` subcommand denotes: one required string `login`.
pub open spec fn list_parse_result(opt: CommandOptionV) -> Result<NotesSubcommandV, Seq<char>> {
    match first_sub(opt) {
        Some(SubOptionV { name: _, value: OptionScalarV::Text(login) }) => Ok(
            NotesSubcommandV::List { login },
        ),
        _ => Err("Invalid or missing 'login' option"@),
    }
}

/// What a whole `notes` interaction denotes: exactly one subcommand
/// option, dispatched by name.
pub open spec fn notes_options_result(options: Seq<CommandOptionV>) -> Result<
    NotesSubcommandV,
    Seq<char>,
> {
    if options.len() != 1 {
        Err("Invalid options count"@)
    } else if options[0].name == "list"@ {
        list_parse_result(options[0])
    } else if options[0].name == "note"@ {
        note_parse_result(options[0])
    } else {
        Err("Invalid subcommand type"@)
    }
}

/// Parses the `note` subcommand: one required integer `id`.
pub fn parse_note_subcommand(opt: &CommandOption) -> (r: Result<NotesSubcommand, String>)
    ensures
        reflects(r, note_parse_result(opt@)),
{
    if let TopValue::Sub(subs) = &opt.value {
        if subs.len() > 0 {
            if let OptionScalar::Integer(id) = &subs[0].value {
                return Ok(NotesSubcommand::Note { id: *id });
            }
        }
    }
    Err(String::from_str("Invalid or missing 'id' option"))
}

/// Parses the `list` subcommand: one required string `login`.
pub fn parse_list_subcommand(opt: &CommandOption) -> (r: Result<NotesSubcommand, String>)
    ensures
        reflects(r, list_parse_result(opt@)),
{
    if let TopValue::Sub(subs) = &opt.value {
        if subs.len() > 0 {
            if let OptionScalar::Text(login) = &subs[0].value {
                return Ok(NotesSubcommand::List { login: login.clone() });
            }
        }
    }
    Err(String::from_str("Invalid or missing 'login' option"))
}

/// Dispatches on the one subcommand of a `notes` interaction.
pub fn get_options(options: &Vec<CommandOption>) -> (r: Result<NotesSubcommand, String>)
    ensures
        reflects(r, notes_options_result(options@.map_values(|o: CommandOption| o@))),
{
    proof {
        reveal_strlit("list");
        reveal_strlit("note");
        assert("list"@.len() == 4 && "note"@.len() == 4);
        assert("list"@[0] == 'l' && "note"@[0] == 'n');
    }
    if options.len() != 1 {
        return Err(String::from_str("Invalid options count"));
    }
    let subcommand = &options[0];
    proof {
        assert(options@.map_values(|o: CommandOption| o@)[0] == subcommand@);
    }
    if str_eq(subcommand.name.as_str(), "list") {
        parse_list_subcommand(subcommand)
    } else if str_eq(subcommand.name.as_str(), "note") {
        parse_note_subcommand(subcommand)
    } else {
        Err(String::from_str("Invalid subcommand type"))
    }
}

} // verus!
