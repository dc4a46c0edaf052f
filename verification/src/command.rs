//! The chat commands that users send to the bot.

use vstd::prelude::*;

verus! {

/// A chat command.
#[derive(Clone, Copy, Debug, PartialEq, Eq, Structural)]
pub enum Command {
    Help,
    SetKey,
    SetApi,
    SetVisionModel,
    Post,
    Translate,
}

/// What each command is for, as the help menu shows it.
pub open spec fn spec_description(c: Command) -> Seq<char> {
    match c {
        Command::Help => "display this menu"@,
        Command::SetKey => "update your post authorization key"@,
        Command::SetApi => "update your API endpoint, only http(s) are supported"@,
        Command::SetVisionModel => "update your vision model name and key, enabling VLM based caption generation"@,
        Command::Post => "I want to post stuff"@,
        Command::Translate => "I want to translate stuff"@,
    }
}

impl Command {
    /// What the command is for, as the help menu shows it.
    pub fn description(&self) -> (r: &'static str)
        ensures
            r@ == spec_description(*self),
    {
        match self {
            Command::Help => "display this menu",
            Command::SetKey => "update your post authorization key",
            Command::SetApi => "update your API endpoint, only http(s) are supported",
            Command::SetVisionModel => "update your vision model name and key, enabling VLM based caption generation",
            Command::Post => "I want to post stuff",
            Command::Translate => "I want to translate stuff",
        }
    }
}

} // verus!
