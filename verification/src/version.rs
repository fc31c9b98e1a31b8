//! Errors of ecosystem-aware version parsing.
use vstd::prelude::*;

verus! {

/// Errors of parsing a version string in an ecosystem.
#[derive(Debug, PartialEq, Eq)]
pub enum VersionError {
    /// The string holds an interior null byte, at the given byte position, and cannot be
    /// handed to the version parser.
    InvalidString(usize),
    /// The version parser rejected the version string or the ecosystem name.
    Parse(String),
}

impl Clone for VersionError {
    fn clone(&self) -> (r: VersionError)
        ensures
            r == *self,
    {
        match self {
            VersionError::InvalidString(position) => VersionError::InvalidString(*position),
            VersionError::Parse(message) => VersionError::Parse(message.clone()),
        }
    }
}

} // verus!
