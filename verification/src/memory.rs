//! The notes that the client keeps between sessions.

use vstd::prelude::*;
use vstd::string::StringExecFns;

verus! {

/// The separator between two entries: an empty line.
pub open spec fn entry_separator() -> Seq<char> {
    seq!['\n', '\n']
}

/// The notes `current` with the entry `content` added at their end: the entry
/// alone where there were no notes, else the notes, an empty line and the
/// entry.
pub open spec fn appended(current: Seq<char>, content: Seq<char>) -> Seq<char> {
    if current.len() == 0 {
        content
    } else {
        current + entry_separator() + content
    }
}

/// The client's notes.
pub struct Memory;

impl Memory {
    /// Adds an entry to the notes and returns the new notes.
    pub fn append(current: &str, content: &str) -> (notes: String)
        ensures
            notes@ == appended(current@, content@),
    {
        let mut notes = current.to_owned();
        if !current.is_empty() {
            proof {
                reveal_strlit("\n\n");
            }
            notes.append("\n\n");
            assert("\n\n"@ =~= entry_separator());
        }
        notes.append(content);
        assert(notes@ =~= appended(current@, content@));
        notes
    }
}

} // verus!
