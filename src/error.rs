use vstd::prelude::*;

verus! {

/// What can go wrong before any noise is sampled.
#[derive(Debug, Clone, Copy, PartialEq, Eq, Structural)]
pub enum NoiseError {
    /// A zero chunk size, width or height.
    ConfigurationError,
    /// The operating system gave no entropy to seed a permutation table.
    RandomnessUnavailable,
    /// A table that is not 512 entries, each below 256.
    InvalidTable,
}

} // verus!
