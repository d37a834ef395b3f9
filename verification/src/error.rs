//! The ways in which an operation on a sponge can fail.

use vstd::prelude::*;

verus! {

/// Why a sponge could not be constructed.
#[derive(Clone, Copy, Debug, PartialEq, Eq, Structural)]
pub enum ConfigError {
    /// The rate was zero: the state could not be divided into blocks, and
    /// a message could not be padded to a multiple of the rate.
    ZeroRate,
}

/// Why an operation was refused in the sponge's current phase.
#[derive(Clone, Copy, Debug, PartialEq, Eq, Structural)]
pub enum PhaseError {
    /// Input was offered after output had been asked for. A sponge that has
    /// begun to squeeze takes no more input; a new message needs a new sponge.
    AlreadySqueezing,
}

} // verus!
