use vstd::prelude::*;

verus! {

/// The declaration of a raindrops node: pixels light up at random and fade.
pub struct Raindrops<Rate, Color, Decay> {
    pub rate: Rate,
    pub color: Color,
    pub decay: Decay,
}

} // verus!
