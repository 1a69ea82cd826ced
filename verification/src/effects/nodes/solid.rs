use vstd::prelude::*;

verus! {

/// The declaration of a solid node: every pixel shows one color.
pub struct Solid<Color> {
    pub color: Color,
}

/// Sets every pixel of `out` to `color`.
pub fn fill<E: Copy>(out: &mut Vec<E>, color: E)
    ensures
        final(out).len() == old(out).len(),
        forall|i: int| 0 <= i < final(out).len() ==> final(out)[i] == color,
{
    let n = out.len();
    let mut i: usize = 0;
    while i < n
        invariant
            n == out.len(),
            i <= n,
            forall|j: int| 0 <= j < i ==> out[j] == color,
        decreases n - i,
    {
        out.set(i, color);
        i = i + 1;
    }
}

} // verus!
