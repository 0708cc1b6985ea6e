use vstd::prelude::*;

verus! {

/// Which response a first-order audio filter has. The filter itself works on floating-point
/// samples and lives with the audio output.
#[derive(Clone, Copy, PartialEq, Eq, Structural, Debug)]
pub enum Coefficient {
    High,
    Low,
}

} // verus!
