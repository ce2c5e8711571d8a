//! The chat command surface, as strongly-typed values.
//!
//! A chat platform hands a command over as a tree of named options; this
//! module models that tree with plain values — a top-level option is a
//! subcommand holding named string or integer options — and each command
//! module parses its own tree into a typed command value, totally: any
//! shape outside the expected one yields an error text, never a panic.

use vstd::prelude::*;

pub mod ban;
pub mod notes;
pub mod whitelist;

verus! {

/// A scalar option value; `Other` stands for any option kind the
/// commands here never read.
pub enum OptionScalar {
    Text(String),
    Integer(i64),
    Other,
}

/// The specification-level value of an [`OptionScalar`].
pub enum OptionScalarV {
    Text(Seq<char>),
    Integer(int),
    Other,
}

impl View for OptionScalar {
    type V = OptionScalarV;

    open spec fn view(&self) -> OptionScalarV {
        match self {
            OptionScalar::Text(s) => OptionScalarV::Text(s@),
            OptionScalar::Integer(n) => OptionScalarV::Integer(*n as int),
            OptionScalar::Other => OptionScalarV::Other,
        }
    }
}

/// One named option under a subcommand.
pub struct SubOption {
    pub name: String,
    pub value: OptionScalar,
}

/// The specification-level value of a [`SubOption`].
pub struct SubOptionV {
    pub name: Seq<char>,
    pub value: OptionScalarV,
}

impl View for SubOption {
    type V = SubOptionV;

    open spec fn view(&self) -> SubOptionV {
        SubOptionV { name: self.name@, value: self.value@ }
    }
}

/// The view of a sequence of suboptions.
pub open spec fn sub_options_view(v: Seq<SubOption>) -> Seq<SubOptionV> {
    Seq::new(v.len(), |i: int| v[i]@)
}

/// The value of a top-level option: a subcommand with its options, or
/// any other option kind, which no command here accepts.
pub enum TopValue {
    Sub(Vec<SubOption>),
    Other,
}

/// The specification-level value of a [`TopValue`].
pub enum TopValueV {
    Sub(Seq<SubOptionV>),
    Other,
}

impl View for TopValue {
    type V = TopValueV;

    open spec fn view(&self) -> TopValueV {
        match self {
            TopValue::Sub(v) => TopValueV::Sub(sub_options_view(v@)),
            TopValue::Other => TopValueV::Other,
        }
    }
}

/// One top-level option of an incoming command.
pub struct CommandOption {
    pub name: String,
    pub value: TopValue,
}

/// The specification-level value of a [`CommandOption`].
pub struct CommandOptionV {
    pub name: Seq<char>,
    pub value: TopValueV,
}

impl View for CommandOption {
    type V = CommandOptionV;

    open spec fn view(&self) -> CommandOptionV {
        CommandOptionV { name: self.name@, value: self.value@ }
    }
}

/// The chat commands this core registers.
pub enum DiscordCommandType {
    Whitelist,
    Notes,
    Ban,
}

impl DiscordCommandType {
    /// The command a registered interaction name denotes.
    pub fn from_name(s: &str) -> (r: Result<DiscordCommandType, ()>)
        ensures
            s@ == "whitelist"@ ==> r matches Ok(DiscordCommandType::Whitelist),
            s@ == "notes"@ ==> r matches Ok(DiscordCommandType::Notes),
            s@ == "bans"@ ==> r matches Ok(DiscordCommandType::Ban),
            s@ != "whitelist"@ && s@ != "notes"@ && s@ != "bans"@ ==> r is Err,
    {
        proof {
            reveal_strlit("whitelist");
            reveal_strlit("notes");
            reveal_strlit("bans");
            assert("whitelist"@.len() == 9);
            assert("notes"@.len() == 5);
            assert("bans"@.len() == 4);
            assert("whitelist"@ != "notes"@);
            assert("whitelist"@ != "bans"@);
            assert("notes"@ != "bans"@);
        }
        if crate::text::str_eq(s, "whitelist") {
            Ok(DiscordCommandType::Whitelist)
        } else if crate::text::str_eq(s, "notes") {
            Ok(DiscordCommandType::Notes)
        } else if crate::text::str_eq(s, "bans") {
            Ok(DiscordCommandType::Ban)
        } else {
            Err(())
        }
    }
}

/// The first suboption of a subcommand option, if the option is a
/// subcommand with at least one suboption.
pub open spec fn first_sub(opt: CommandOptionV) -> Option<SubOptionV> {
    match opt.value {
        TopValueV::Sub(subs) => if subs.len() > 0 {
            Some(subs[0])
        } else {
            None
        },
        TopValueV::Other => None,
    }
}

} // verus!
