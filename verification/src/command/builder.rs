//! Type-state builder for application commands: the state type records
//! whether the command nests subcommands or takes regular options, so the
//! two cannot be mixed.

use vstd::prelude::*;

verus! {

use super::ApplicationCommandOption;
use super::ApplicationCommandOptionChoice;
use super::ApplicationCommandOptionType;
use super::ChoicesOrOptions;

/// Builder state: no option added yet.
#[derive(Debug)]
pub struct NoOptions;

/// Builder state: the command nests subcommands.
#[derive(Debug)]
pub struct SubgroupOptions {
    pub options: Vec<ApplicationCommandOption>,
}

/// Builder state: the command takes regular options.
#[derive(Debug)]
pub struct RegularOptions {
    pub options: Vec<ApplicationCommandOption>,
}

/// Option-builder state: a subcommand group still being assembled.
#[derive(Debug)]
pub struct SubcommandGroupIncomplete;

/// Option-builder state: a subcommand still being assembled.
#[derive(Debug)]
pub struct SubcommandIncomplete;

/// Option-builder state: a finished subcommand with its nested options.
#[derive(Debug)]
pub struct Subcommand {
    pub options: Vec<ApplicationCommandOption>,
}

/// Option-builder state: a regular option that has no type yet; it is
/// required unless said otherwise.
#[derive(Debug)]
pub struct RegularIncomplete {
    pub required: bool,
}

impl Default for RegularIncomplete {
    /// A regular option starts out required.
    fn default() -> (r: RegularIncomplete)
        ensures
            r.required,
    {
        RegularIncomplete { required: true }
    }
}

/// Option-builder state: a finished regular option.
#[derive(Debug)]
pub struct Regular {
    pub ty: ApplicationCommandOptionType,
    pub required: bool,
    pub choices: Vec<ApplicationCommandOptionChoice>,
}

/// Assembles one application command.
#[derive(Debug)]
pub struct ApplicationCommandBuilder<State> {
    pub name: String,
    pub description: String,
    pub state: State,
}

/// Assembles one option of a command.
#[derive(Debug)]
pub struct ApplicationCommandOptionBuilder<State> {
    pub name: String,
    pub description: String,
    pub state: State,
}

/// The option a finished subcommand builder stands for: a subcommand-typed
/// option nesting the gathered options.
pub open spec fn spec_subcommand_option(
    b: ApplicationCommandOptionBuilder<Subcommand>,
) -> ApplicationCommandOption {
    ApplicationCommandOption {
        ty: ApplicationCommandOptionType::SubCommand,
        name: b.name,
        description: b.description,
        required: None,
        choices_options: Some(ChoicesOrOptions::Options { options: b.state.options }),
    }
}

/// The option a finished regular builder stands for: its type and
/// requiredness, with the choices only when any were given.
pub open spec fn spec_regular_option(
    b: ApplicationCommandOptionBuilder<Regular>,
) -> ApplicationCommandOption {
    ApplicationCommandOption {
        ty: b.state.ty,
        name: b.name,
        description: b.description,
        required: Some(b.state.required),
        choices_options: if b.state.choices@.len() == 0 {
            None
        } else {
            Some(ChoicesOrOptions::Choices { choices: b.state.choices })
        },
    }
}

impl ApplicationCommandBuilder<NoOptions> {
    /// Starts a command with its name and description.
    pub fn new(name: &str, description: &str) -> (r: Self)
        ensures
            r.name@ == name@,
            r.description@ == description@,
    {
        ApplicationCommandBuilder {
            name: name.to_owned(),
            description: description.to_owned(),
            state: NoOptions,
        }
    }

    /// Adds the first subcommand, built by the given closure; the command
    /// then nests subcommands.
    pub fn subcommand<F: FnOnce(ApplicationCommandOptionBuilder<SubcommandIncomplete>) -> ApplicationCommandOptionBuilder<Subcommand>>(
        self,
        name: &str,
        description: &str,
        f: F,
    ) -> (r: ApplicationCommandBuilder<SubgroupOptions>)
        requires
            forall|b: ApplicationCommandOptionBuilder<SubcommandIncomplete>|
                b.name@ == name@ && b.description@ == description@ ==> #[trigger] call_requires(
                    f,
                    (b,),
                ),
        ensures
            r.name == self.name,
            r.description == self.description,
            exists|
                b0: ApplicationCommandOptionBuilder<SubcommandIncomplete>,
                b1: ApplicationCommandOptionBuilder<Subcommand>,
            |
                {
                    &&& b0.name@ == name@
                    &&& b0.description@ == description@
                    &&& #[trigger] call_ensures(f, (b0,), b1)
                    &&& r.state.options@ == seq![spec_subcommand_option(b1)]
                },
    {
        let builder = ApplicationCommandOptionBuilder {
            name: name.to_owned(),
            description: description.to_owned(),
            state: SubcommandIncomplete,
        };
        let ghost b0 = builder;
        let builder = f(builder);
        let option = builder.finish();
        let mut options: Vec<ApplicationCommandOption> = Vec::new();
        options.push(option);
        proof {
            assert(options@ =~= seq![spec_subcommand_option(builder)]);
            assert(call_ensures(f, (b0,), builder));
        }
        ApplicationCommandBuilder {
            name: self.name,
            description: self.description,
            state: SubgroupOptions { options },
        }
    }

    /// Adds the first regular option, built by the given closure; the
    /// command then takes regular options.
    pub fn option<F: FnOnce(ApplicationCommandOptionBuilder<RegularIncomplete>) -> ApplicationCommandOptionBuilder<Regular>>(
        self,
        name: &str,
        description: &str,
        f: F,
    ) -> (r: ApplicationCommandBuilder<RegularOptions>)
        requires
            forall|b: ApplicationCommandOptionBuilder<RegularIncomplete>|
                b.name@ == name@ && b.description@ == description@ && b.state.required
                    ==> #[trigger] call_requires(f, (b,)),
        ensures
            r.name == self.name,
            r.description == self.description,
            exists|
                b0: ApplicationCommandOptionBuilder<RegularIncomplete>,
                b1: ApplicationCommandOptionBuilder<Regular>,
            |
                {
                    &&& b0.name@ == name@
                    &&& b0.description@ == description@
                    &&& b0.state.required
                    &&& #[trigger] call_ensures(f, (b0,), b1)
                    &&& r.state.options@ == seq![spec_regular_option(b1)]
                },
    {
        let builder = ApplicationCommandOptionBuilder {
            name: name.to_owned(),
            description: description.to_owned(),
            state: RegularIncomplete::default(),
        };
        let ghost b0 = builder;
        let builder = f(builder);
        let option = builder.finish();
        let mut options: Vec<ApplicationCommandOption> = Vec::new();
        options.push(option);
        proof {
            assert(options@ =~= seq![spec_regular_option(builder)]);
            assert(call_ensures(f, (b0,), builder));
        }
        ApplicationCommandBuilder {
            name: self.name,
            description: self.description,
            state: RegularOptions { options },
        }
    }
}

impl ApplicationCommandOptionBuilder<Subcommand> {
    /// The finished subcommand option.
    fn finish(self) -> (r: ApplicationCommandOption)
        ensures
            r == spec_subcommand_option(self),
    {
        ApplicationCommandOption {
            ty: ApplicationCommandOptionType::SubCommand,
            name: self.name,
            description: self.description,
            required: None,
            choices_options: Some(ChoicesOrOptions::Options { options: self.state.options }),
        }
    }
}

impl ApplicationCommandOptionBuilder<Regular> {
    /// Sets whether the caller must fill the option in.
    pub fn required(self, required: bool) -> (r: Self)
        ensures
            r.name == self.name,
            r.description == self.description,
            r.state.ty == self.state.ty,
            r.state.required == required,
            r.state.choices == self.state.choices,
    {
        let mut s = self;
        s.state.required = required;
        s
    }

    /// The finished regular option.
    fn finish(self) -> (r: ApplicationCommandOption)
        ensures
            r == spec_regular_option(self),
    {
        let Regular { ty, required, choices } = self.state;
        let choices_options = if choices.len() == 0 {
            None
        } else {
            Some(ChoicesOrOptions::Choices { choices })
        };
        ApplicationCommandOption {
            ty,
            name: self.name,
            description: self.description,
            required: Some(required),
            choices_options,
        }
    }
}

} // verus!
