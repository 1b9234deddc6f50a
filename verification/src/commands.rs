//! The slash commands that the bot registers with a guild, described as
//! plain values.

pub mod franchise;
pub mod profile;
pub mod status;

use vstd::prelude::*;

verus! {

/// The kind of value that an option of a command takes.
#[derive(Clone, Copy, Debug, PartialEq, Eq)]
pub enum OptionKind {
    /// Free text, or one of the option's choices.
    String,
    /// A user of the guild.
    User,
}

/// One of the values that an option offers for selection.
#[derive(Debug, PartialEq, Eq)]
pub struct OptionChoice {
    pub name: String,
    pub value: String,
}

/// An [`OptionChoice`] with its strings as sequences of characters.
pub struct OptionChoiceView {
    pub name: Seq<char>,
    pub value: Seq<char>,
}

impl View for OptionChoice {
    type V = OptionChoiceView;

    open spec fn view(&self) -> OptionChoiceView {
        OptionChoiceView { name: self.name@, value: self.value@ }
    }
}

/// A parameter of a command.
#[derive(Debug, PartialEq, Eq)]
pub struct CommandOption {
    pub kind: OptionKind,
    pub name: String,
    pub description: String,
    pub required: bool,
    pub choices: Vec<OptionChoice>,
}

/// A [`CommandOption`] with its strings as sequences of characters.
pub struct CommandOptionView {
    pub kind: OptionKind,
    pub name: Seq<char>,
    pub description: Seq<char>,
    pub required: bool,
    pub choices: Seq<OptionChoiceView>,
}

impl View for CommandOption {
    type V = CommandOptionView;

    open spec fn view(&self) -> CommandOptionView {
        CommandOptionView {
            kind: self.kind,
            name: self.name@,
            description: self.description@,
            required: self.required,
            choices: self.choices@.map_values(|choice: OptionChoice| choice@),
        }
    }
}

/// A command as it is registered: its name, what it says of itself, and its
/// parameters in order.
#[derive(Debug, PartialEq, Eq)]
pub struct SlashCommand {
    pub name: String,
    pub description: String,
    pub options: Vec<CommandOption>,
}

/// A [`SlashCommand`] with its strings as sequences of characters.
pub struct SlashCommandView {
    pub name: Seq<char>,
    pub description: Seq<char>,
    pub options: Seq<CommandOptionView>,
}

impl View for SlashCommand {
    type V = SlashCommandView;

    open spec fn view(&self) -> SlashCommandView {
        SlashCommandView {
            name: self.name@,
            description: self.description@,
            options: self.options@.map_values(|option: CommandOption| option@),
        }
    }
}

impl CommandOption {
    /// An optional parameter without choices.
    pub fn new(kind: OptionKind, name: &str, description: &str) -> (option: CommandOption)
        ensures
            option@ == (CommandOptionView {
                kind,
                name: name@,
                description: description@,
                required: false,
                choices: Seq::empty(),
            }),
    {
        let option = CommandOption {
            kind,
            name: name.to_string(),
            description: description.to_string(),
            required: false,
            choices: Vec::new(),
        };
        assert(option@.choices =~= Seq::empty());
        option
    }

    /// The same parameter, required or optional as `required` says.
    pub fn required(self, required: bool) -> (option: CommandOption)
        ensures
            option@ == (CommandOptionView { required, ..self@ }),
    {
        CommandOption { required, ..self }
    }

    /// The same parameter with one more choice, after those it had.
    pub fn add_string_choice(self, name: &str, value: &str) -> (option: CommandOption)
        ensures
            option@ == (CommandOptionView {
                choices: self@.choices.push(OptionChoiceView { name: name@, value: value@ }),
                ..self@
            }),
    {
        let mut option = self;
        option.choices.push(OptionChoice { name: name.to_string(), value: value.to_string() });
        assert(option@.choices =~= self@.choices.push(
            OptionChoiceView { name: name@, value: value@ },
        ));
        option
    }
}

impl SlashCommand {
    /// A command called `name`, with no description and no parameters.
    pub fn new(name: &str) -> (command: SlashCommand)
        ensures
            command@ == (SlashCommandView {
                name: name@,
                description: Seq::empty(),
                options: Seq::empty(),
            }),
    {
        let command = SlashCommand {
            name: name.to_string(),
            description: String::new(),
            options: Vec::new(),
        };
        assert(command@.options =~= Seq::empty());
        command
    }

    /// The same command with `description` in place of the one it had.
    pub fn description(self, description: &str) -> (command: SlashCommand)
        ensures
            command@ == (SlashCommandView { description: description@, ..self@ }),
    {
        SlashCommand { description: description.to_string(), ..self }
    }

    /// The same command with one more parameter, after those it had.
    pub fn add_option(self, option: CommandOption) -> (command: SlashCommand)
        ensures
            command@ == (SlashCommandView { options: self@.options.push(option@), ..self@ }),
    {
        let mut command = self;
        command.options.push(option);
        assert(command@.options =~= self@.options.push(option@));
        command
    }
}

} // verus!
