use vstd::prelude::*;

verus! {

/// The declaration of a Larson scanner: a dot of light that sweeps back and
/// forth.
pub struct Larson<Hue, Width, Speed> {
    pub hue: Hue,
    pub width: Width,
    pub speed: Speed,
}

} // verus!
