//! The command that shows what is known of a franchise.

use crate::commands::{
    CommandOption, CommandOptionView, OptionChoiceView, OptionKind, SlashCommand,
    SlashCommandView,
};
use vstd::prelude::*;

verus! {

/// The franchises of the league, in the order in which they are offered.
pub open spec fn franchise_names() -> Seq<Seq<char>> {
    seq![
        "Apex Pulse"@,
        "Crimson Circuit"@,
        "Eclipse Syndicate"@,
        "Neon Strikers"@,
        "Nova Sector"@,
        "Quantum Rift"@,
        "Solar Vortex"@,
        "Vanguard Core"@,
    ]
}

/// The franchise command as it is registered: it takes one of the
/// franchises, each offered under its own name.
pub open spec fn franchise_command() -> SlashCommandView {
    SlashCommandView {
        name: "franchise"@,
        description: "A profile command"@,
        options: seq![
            CommandOptionView {
                kind: OptionKind::String,
                name: "franchise"@,
                description: "Franchise to pull info on"@,
                required: false,
                choices: franchise_names().map_values(
                    |name: Seq<char>| OptionChoiceView { name, value: name },
                ),
            },
        ],
    }
}

/// Describes the franchise command.
pub fn register() -> (command: SlashCommand)
    ensures
        command@ == franchise_command(),
{
    let franchise = CommandOption::new(
        OptionKind::String,
        "franchise",
        "Franchise to pull info on",
    ).add_string_choice("Apex Pulse", "Apex Pulse").add_string_choice(
        "Crimson Circuit",
        "Crimson Circuit",
    ).add_string_choice("Eclipse Syndicate", "Eclipse Syndicate").add_string_choice(
        "Neon Strikers",
        "Neon Strikers",
    ).add_string_choice("Nova Sector", "Nova Sector").add_string_choice(
        "Quantum Rift",
        "Quantum Rift",
    ).add_string_choice("Solar Vortex", "Solar Vortex").add_string_choice(
        "Vanguard Core",
        "Vanguard Core",
    );
    assert(franchise@.choices =~= franchise_command().options[0].choices);
    let command = SlashCommand::new("franchise").description("A profile command").add_option(
        franchise,
    );
    command
}

} // verus!
