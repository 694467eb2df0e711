//! The command line's operations.
use vstd::prelude::*;

verus! {

/// An operation of the command line.
#[derive(Clone, Debug)]
pub enum Operation {
    /// Hash a string using the Argon2 hasher.
    Hash { text: String },
    /// Experimentation server.
    Rocket,
}

} // verus!
