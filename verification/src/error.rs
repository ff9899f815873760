//! The errors of a mining session.

use vstd::prelude::*;

verus! {

/// Why a mining session did not start, or why a worker stopped.
#[derive(Clone, Copy, Debug, PartialEq, Eq, Structural)]
pub enum MineError {
    /// A pattern holds a character other than `0` and `1`.
    InvalidBitCharacter,
    /// A pattern is longer than an address has bits.
    PatternTooLong,
    /// The two patterns overlap, or the bits they force spell a number that
    /// is not a field element.
    InfeasiblePattern,
    /// A deployer address was given although the address is not to depend on
    /// it, or none was given although it is.
    InvalidUniquenessOptions,
    /// The worker saw the cancellation signal before it found a match.
    WorkerCancelled,
}

impl MineError {
    /// The message that goes with the error.
    pub fn message(&self) -> (r: &'static str)
        ensures
            r@ == self.spec_message(),
    {
        match self {
            MineError::InvalidBitCharacter => "invalid bit",
            MineError::PatternTooLong => "invalid prefix or suffix length",
            MineError::InfeasiblePattern => "prefix/suffix out of range and impossible to mine",
            MineError::InvalidUniquenessOptions => "--deployer-address must be used if and only if --not-unique is off",
            MineError::WorkerCancelled => "job cancelled",
        }
    }

    /// The text of [`MineError::message`].
    pub open spec fn spec_message(self) -> Seq<char> {
        match self {
            MineError::InvalidBitCharacter => "invalid bit"@,
            MineError::PatternTooLong => "invalid prefix or suffix length"@,
            MineError::InfeasiblePattern => "prefix/suffix out of range and impossible to mine"@,
            MineError::InvalidUniquenessOptions => "--deployer-address must be used if and only if --not-unique is off"@,
            MineError::WorkerCancelled => "job cancelled"@,
        }
    }
}

} // verus!
