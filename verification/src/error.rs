//! The two ways a request to this crate can fail.

use vstd::prelude::*;

verus! {

/// A failure value: a discriminant and a short static description, with no
/// further context.
#[derive(Debug, Clone, Copy, PartialEq, Eq, Structural)]
pub enum VramError {
    /// The firmware does not expose the graphics output capability.
    LocateError,
    /// A pixel or rectangle lies outside the drawable area of the buffer.
    OutOfBounds,
}

impl VramError {
    /// The text that `description` returns.
    pub open spec fn description_text(self) -> Seq<char> {
        match self {
            VramError::LocateError => "Failed to locate Graphics Output Protocol"@,
            VramError::OutOfBounds => "Out of bounds"@,
        }
    }

    /// A short, human-readable reason for the failure.
    pub fn description(&self) -> (text: &'static str)
        ensures
            text@ == self.description_text(),
    {
        match self {
            VramError::LocateError => "Failed to locate Graphics Output Protocol",
            VramError::OutOfBounds => "Out of bounds",
        }
    }
}

} // verus!
