//! The command menu: what a line typed at it asks for.

use vstd::prelude::*;
use vstd::string::StrSliceExecFns;

verus! {

/// What the user asks for at the menu.
#[derive(Clone, Copy, Debug, PartialEq, Eq)]
pub enum MenuChoice {
    /// Send a prompt.
    Prompt,
    /// Select the model.
    SelectModel,
    /// Set the system message.
    SetSystemMessage,
    /// Show the system message.
    ShowSystemMessage,
    /// Add an entry to the notes.
    AddMemory,
    /// Show the notes.
    ShowMemory,
    /// Switch the use of the notes on or off.
    ToggleMemory,
    /// Edit the notes.
    EditMemory,
    /// Leave.
    Exit,
    /// Anything else.
    Invalid,
}

/// The choice that a line stands for: the digits one to nine name the menu's
/// entries in their order, and every other line is invalid.
pub open spec fn choice_of(line: Seq<char>) -> MenuChoice {
    if line.len() != 1 {
        MenuChoice::Invalid
    } else if line[0] == '1' {
        MenuChoice::Prompt
    } else if line[0] == '2' {
        MenuChoice::SelectModel
    } else if line[0] == '3' {
        MenuChoice::SetSystemMessage
    } else if line[0] == '4' {
        MenuChoice::ShowSystemMessage
    } else if line[0] == '5' {
        MenuChoice::AddMemory
    } else if line[0] == '6' {
        MenuChoice::ShowMemory
    } else if line[0] == '7' {
        MenuChoice::ToggleMemory
    } else if line[0] == '8' {
        MenuChoice::EditMemory
    } else if line[0] == '9' {
        MenuChoice::Exit
    } else {
        MenuChoice::Invalid
    }
}

impl MenuChoice {
    /// Reads a line typed at the menu.
    pub fn parse(choice: &str) -> (parsed: MenuChoice)
        ensures
            parsed == choice_of(choice@),
    {
        if choice.unicode_len() != 1 {
            return MenuChoice::Invalid;
        }
        let c = choice.get_char(0);
        if c == '1' {
            MenuChoice::Prompt
        } else if c == '2' {
            MenuChoice::SelectModel
        } else if c == '3' {
            MenuChoice::SetSystemMessage
        } else if c == '4' {
            MenuChoice::ShowSystemMessage
        } else if c == '5' {
            MenuChoice::AddMemory
        } else if c == '6' {
            MenuChoice::ShowMemory
        } else if c == '7' {
            MenuChoice::ToggleMemory
        } else if c == '8' {
            MenuChoice::EditMemory
        } else if c == '9' {
            MenuChoice::Exit
        } else {
            MenuChoice::Invalid
        }
    }

    /// Whether the choice ends the session: only `Exit` does.
    pub fn ends_session(&self) -> (ends: bool)
        ensures
            ends == (*self == MenuChoice::Exit),
    {
        match self {
            MenuChoice::Exit => true,
            _ => false,
        }
    }
}

} // verus!
