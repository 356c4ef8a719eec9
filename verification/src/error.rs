//! What a configuration call answers when it refuses.

use vstd::prelude::*;

verus! {

/// Why a configuration call left the system as it was.
#[derive(Clone, Copy, Debug, PartialEq, Eq, Structural)]
pub enum ConfigError {
    /// The symbol was to become a variable and is a constant.
    AlsoConstant(char),
    /// The symbol was to become a constant and is a variable.
    AlsoVariable(char),
    /// A rule came without any alternative.
    NoAlternative,
    /// The weights of a rule's alternatives are too large to draw from.
    WeightOverflow,
    /// A number is out of its range: the pen size of an action, or the
    /// turning angle of the plain system.
    OutOfRange,
    /// The operating system gave no seed for the source of chance.
    NoEntropy,
}

} // verus!
