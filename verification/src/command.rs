//! Application-command definitions: what a command is named, what it
//! describes, and which options it takes.

pub mod builder;

use vstd::prelude::*;

verus! {

use crate::option_value::OptionValue;

/// One application command as registered with the platform.
#[derive(Debug)]
pub struct ApplicationCommand {
    pub id: Option<String>,
    pub application_id: Option<String>,
    pub name: String,
    pub description: String,
    pub options: Vec<ApplicationCommandOption>,
}

/// One option of a command: its type, names, whether the caller must fill
/// it in, and either fixed choices or nested options.
#[derive(Debug)]
pub struct ApplicationCommandOption {
    pub ty: ApplicationCommandOptionType,
    pub name: String,
    pub description: String,
    pub required: Option<bool>,
    pub choices_options: Option<ChoicesOrOptions>,
}

/// The type of a command option.
#[derive(Clone, Copy, Debug, PartialEq, Eq, Structural)]
pub enum ApplicationCommandOptionType {
    SubCommand,
    SubCommandGroup,
    String,
    Integer,
    Boolean,
    User,
    Channel,
    Role,
}

impl ApplicationCommandOptionType {
    /// The numeric code the wire format gives this option type.
    pub open spec fn spec_wire_code(&self) -> u32 {
        match self {
            ApplicationCommandOptionType::SubCommand => 1,
            ApplicationCommandOptionType::SubCommandGroup => 2,
            ApplicationCommandOptionType::String => 3,
            ApplicationCommandOptionType::Integer => 4,
            ApplicationCommandOptionType::Boolean => 5,
            ApplicationCommandOptionType::User => 6,
            ApplicationCommandOptionType::Channel => 7,
            ApplicationCommandOptionType::Role => 8,
        }
    }

    /// The numeric code the wire format gives this option type.
    pub fn wire_code(&self) -> (c: u32)
        ensures
            c == self.spec_wire_code(),
    {
        match self {
            ApplicationCommandOptionType::SubCommand => 1,
            ApplicationCommandOptionType::SubCommandGroup => 2,
            ApplicationCommandOptionType::String => 3,
            ApplicationCommandOptionType::Integer => 4,
            ApplicationCommandOptionType::Boolean => 5,
            ApplicationCommandOptionType::User => 6,
            ApplicationCommandOptionType::Channel => 7,
            ApplicationCommandOptionType::Role => 8,
        }
    }
}

/// What an option nests: fixed choices for a value option, or further
/// options for a subcommand or group.
#[derive(Debug)]
pub enum ChoicesOrOptions {
    Choices { choices: Vec<ApplicationCommandOptionChoice> },
    Options { options: Vec<ApplicationCommandOption> },
}

/// One fixed choice a value option offers.
#[derive(Debug)]
pub struct ApplicationCommandOptionChoice {
    pub name: String,
    pub value: OptionValue,
}

} // verus!
