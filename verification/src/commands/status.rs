//! The command that shows a user's standing in the league.

use crate::commands::{
    CommandOption, CommandOptionView, OptionKind, SlashCommand, SlashCommandView,
};
use vstd::prelude::*;

verus! {

/// The status command as it is registered: it takes the user to look up.
pub open spec fn status_command() -> SlashCommandView {
    SlashCommandView {
        name: "status"@,
        description: "Grabs the league status for the current user"@,
        options: seq![
            CommandOptionView {
                kind: OptionKind::User,
                name: "user"@,
                description: "User to check status on"@,
                required: true,
                choices: Seq::empty(),
            },
        ],
    }
}

/// Describes the status command.
pub fn register() -> (command: SlashCommand)
    ensures
        command@ == status_command(),
{
    let user = CommandOption::new(OptionKind::User, "user", "User to check status on").required(
        true,
    );
    let command = SlashCommand::new("status").description(
        "Grabs the league status for the current user",
    ).add_option(user);
    command
}

} // verus!
