use vstd::prelude::*;

verus! {

/// The declaration of an alert node: blocks of pixels that pulse in turn.
pub struct Alert<Hue, Block, Speed> {
    pub hue: Hue,
    pub block: Block,
    pub speed: Speed,
}

/// Whether pixel `index` belongs to an even block of `block` pixels, the
/// blocks that pulse in phase with the first one.
pub fn in_even_block(index: usize, block: usize) -> (res: bool)
    requires
        block > 0,
    ensures
        res == ((index / block) % 2 == 0),
{
    (index / block) % 2 == 0
}

} // verus!
