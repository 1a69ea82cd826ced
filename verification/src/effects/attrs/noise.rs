use vstd::prelude::*;

verus! {

/// The declaration of a noise attribute: a value that wanders through its
/// bounds along a one-dimensional noise function.
pub struct Noise<Speed, F> {
    pub speed: Speed,
    pub noise: F,
}

} // verus!
