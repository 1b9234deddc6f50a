//! The command that shows a user's profile.

use crate::commands::{SlashCommand, SlashCommandView};
use vstd::prelude::*;

verus! {

/// The profile command as it is registered.
pub open spec fn profile_command() -> SlashCommandView {
    SlashCommandView {
        name: "profile"@,
        description: "A profile command"@,
        options: Seq::empty(),
    }
}

/// Describes the profile command.
pub fn register() -> (command: SlashCommand)
    ensures
        command@ == profile_command(),
{
    SlashCommand::new("profile").description("A profile command")
}

} // verus!
