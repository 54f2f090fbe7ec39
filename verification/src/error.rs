//! The reasons for which no home directory can be given.

use vstd::prelude::*;

verus! {

/// Why the home directory of the current user could not be given.
#[derive(Debug, Clone, Copy, PartialEq, Eq)]
pub enum HomeDirError {
    /// The system gave a home directory, and it is the empty path.
    Empty,
    /// The system gave no home directory at all.
    NotFounded,
}

impl HomeDirError {
    /// The text that describes this error.
    pub open spec fn text(self) -> Seq<char> {
        match self {
            HomeDirError::Empty => "the home directory is empty"@,
            HomeDirError::NotFounded => "the home directoy not founed"@,
        }
    }

    /// Describes this error in words.
    pub fn message(&self) -> (described: String)
        ensures
            described@ == self.text(),
    {
        match self {
            HomeDirError::Empty => "the home directory is empty".to_owned(),
            HomeDirError::NotFounded => "the home directoy not founed".to_owned(),
        }
    }
}

} // verus!
