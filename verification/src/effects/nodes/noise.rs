use vstd::prelude::*;

verus! {

/// The declaration of a noise node: hues drawn from a noise function.
pub struct Noise<Speed, Stretch, F> {
    pub speed: Speed,
    pub stretch: Stretch,
    pub noise: F,
}

/// The noise functions that a configuration can name.
#[derive(Clone, Copy, Debug, PartialEq, Eq, Structural)]
pub enum Noises {
    Checkerboard,
    Cylinders,
    OpenSimplex,
    Perlin,
    PerlinSurflet,
    Simplex,
    SuperSimplex,
    Value,
    Worley,
}

} // verus!
