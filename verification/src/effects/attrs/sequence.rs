use vstd::prelude::*;

use crate::effects::bounds::{Bounds, BoundsError};

verus! {

/// An attribute that walks through a fixed list of values: a `next` trigger
/// moves one forward, a `prev` trigger one back, both wrapping around.
pub struct SequenceAttr<V> {
    pub values: Vec<V>,
    pub position: usize,
}

/// The position after one frame: it moves only when exactly one of the two
/// inputs fired.
pub open spec fn next_position(position: int, len: int, next: bool, prev: bool) -> int {
    if next && !prev {
        (position + len + 1) % len
    } else if prev && !next {
        (position + len - 1) % len
    } else {
        position
    }
}

impl<V: Copy> SequenceAttr<V> {
    /// The position points into a non-empty list.
    pub open spec fn wf(self) -> bool {
        &&& 0 < self.values.len()
        &&& self.position < self.values.len()
        &&& 2 * self.values.len() < usize::MAX
    }

    /// Advances by one frame; `next` and `prev` tell which inputs fired.
    pub fn update(&mut self, next: bool, prev: bool) -> (res: V)
        requires
            old(self).wf(),
        ensures
            final(self).wf(),
            final(self).values == old(self).values,
            final(self).position == next_position(
                old(self).position as int,
                old(self).values.len() as int,
                next,
                prev,
            ),
            res == final(self).values[final(self).position as int],
    {
        let len = self.values.len();
        if next && !prev {
            self.position = (self.position + len + 1) % len;
        } else if prev && !next {
            self.position = (self.position + len - 1) % len;
        }
        self.values[self.position]
    }
}

/// The declaration of a sequence attribute.
pub struct Sequence<V> {
    pub values: Vec<V>,
}

impl<V: Copy> Sequence<V> {
    /// Builds the attribute without bounds, starting at the first value.
    pub fn materialize(self) -> (res: SequenceAttr<V>)
        ensures
            res.values@ == self.values@,
            res.position == 0,
    {
        SequenceAttr { values: self.values, position: 0 }
    }
}

impl Sequence<i64> {
    /// Builds the attribute inside `bounds`: every value must lie in them, and
    /// the first one that does not is reported.
    pub fn materialize_bounded(self, bounds: Bounds) -> (res: Result<SequenceAttr<i64>, BoundsError>)
        ensures
            match res {
                Ok(attr) => {
                    &&& attr.values@ == self.values@
                    &&& attr.position == 0
                    &&& forall|i: int| 0 <= i < self.values.len() ==> bounds.contains(#[trigger] self.values[i] as int)
                },
                Err(e) => exists|i: int|
                    {
                        &&& 0 <= i < self.values.len()
                        &&& !bounds.contains(#[trigger] self.values[i] as int)
                        &&& forall|j: int| 0 <= j < i ==> bounds.contains(#[trigger] self.values[j] as int)
                        &&& e == BoundsError::OutOfBounds { value: self.values[i], min: bounds.min, max: bounds.max }
                    },
            },
    {
        let mut values: Vec<i64> = Vec::new();
        let mut i: usize = 0;
        while i < self.values.len()
            invariant
                i <= self.values.len(),
                values@ == self.values@.take(i as int),
                forall|j: int| 0 <= j < i ==> bounds.contains(#[trigger] self.values[j] as int),
            decreases self.values.len() - i,
        {
            match bounds.ensure(self.values[i]) {
                Ok(v) => values.push(v),
                Err(e) => {
                    assert(!bounds.contains(self.values[i as int] as int));
                    return Err(e);
                },
            }
            assert(values@ == self.values@.take(i + 1));
            i = i + 1;
        }
        assert(values@ == self.values@);
        Ok(SequenceAttr { values, position: 0 })
    }
}

/// Going one step forward and then one step back returns to the same
/// position, and the other way round.
pub proof fn lemma_next_then_prev(position: int, len: int)
    requires
        0 < len,
        0 <= position < len,
    ensures
        next_position(next_position(position, len, true, false), len, false, true) == position,
        next_position(next_position(position, len, false, true), len, true, false) == position,
        0 <= next_position(position, len, true, false) < len,
        0 <= next_position(position, len, false, true) < len,
{
    lemma_mod_below_twice(position + len + 1, len);
    lemma_mod_below_twice(position + len - 1, len);
    let p = next_position(position, len, true, false);
    let q = next_position(position, len, false, true);
    lemma_mod_below_twice(p + len - 1, len);
    lemma_mod_below_twice(q + len + 1, len);
}

/// The remainder of a number below twice the divisor.
proof fn lemma_mod_below_twice(x: int, len: int)
    requires
        0 < len,
        0 <= x <= 2 * len,
    ensures
        x % len == if x < len { x } else if x < 2 * len { x - len } else { 0 },
{
    if x < len {
        vstd::arithmetic::div_mod::lemma_small_mod(x as nat, len as nat);
    } else if x == 2 * len {
        vstd::arithmetic::div_mod::lemma_mod_sub_multiples_vanish(x, len);
        vstd::arithmetic::div_mod::lemma_mod_self_0(len);
    } else {
        vstd::arithmetic::div_mod::lemma_mod_sub_multiples_vanish(x, len);
        vstd::arithmetic::div_mod::lemma_small_mod((x - len) as nat, len as nat);
    }
}

} // verus!
