//! The failures that the worker reports to the interface.

use argos_arpa::ARPAError;
use vstd::prelude::*;
use vstd::string::*;

verus! {

/// What went wrong on the way to the archive or in it.
#[derive(Debug, PartialEq, Eq)]
pub enum ArchiveError {
    /// The thing named was looked for in the archive and is not there.
    CantFind(String),
    /// Any other failure, with the archive's own words.
    Other(String),
}

impl ArchiveError {
    /// The words in which the error is shown.
    pub open spec fn text(&self) -> Seq<char> {
        match self {
            ArchiveError::CantFind(thing) => "Could not find "@ + thing@ + "."@,
            ArchiveError::Other(words) => words@,
        }
    }

    pub fn to_string(&self) -> (r: String)
        ensures
            r@ == self.text(),
    {
        match self {
            ArchiveError::CantFind(thing) => cant_find_text(thing.as_str()),
            ArchiveError::Other(words) => words.clone(),
        }
    }
}

impl Clone for ArchiveError {
    fn clone(&self) -> (r: Self)
        ensures
            r == *self,
    {
        match self {
            ArchiveError::CantFind(thing) => ArchiveError::CantFind(thing.clone()),
            ArchiveError::Other(words) => ArchiveError::Other(words.clone()),
        }
    }
}

/// Asks `ARPAError::CantFind` for its words. Trusted: its `Display` writes
/// "Could not find ", the thing and a full stop.
#[verifier::external_body]
fn cant_find_text(thing: &str) -> (r: String)
    ensures
        r@ == "Could not find "@ + thing@ + "."@,
{
    ARPAError::CantFind(thing.to_string()).to_string()
}

} // verus!
