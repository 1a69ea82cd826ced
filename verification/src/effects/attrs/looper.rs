use vstd::prelude::*;

use crate::effects::bounds::Bounds;

verus! {

/// An attribute that steps through the integers `min .. max` (exclusive end)
/// by `step` on every trigger, wrapping around at the end.
pub struct LooperAttr {
    pub min: i64,
    pub max: i64,
    pub step: i64,
    pub current: i64,
}

impl LooperAttr {
    /// The range is not empty, the step is not negative and the current value
    /// lies in the range.
    pub open spec fn wf(self) -> bool {
        &&& self.min < self.max
        &&& 0 <= self.step
        &&& self.min <= self.current < self.max
    }

    /// The value after a trigger.
    pub open spec fn stepped(self) -> int {
        self.min + (self.current + self.step - self.min) % (self.max - self.min)
    }

    /// Advances on a trigger and returns the current value.
    pub fn update(&mut self, triggered: bool) -> (res: i64)
        requires
            old(self).wf(),
            triggered ==> old(self).max - old(self).min <= i64::MAX,
            triggered ==> old(self).current + old(self).step <= i64::MAX,
            triggered ==> old(self).current + old(self).step - old(self).min <= i64::MAX,
        ensures
            final(self).wf(),
            final(self).min == old(self).min,
            final(self).max == old(self).max,
            final(self).step == old(self).step,
            final(self).current == if triggered { old(self).stepped() } else { old(self).current as int },
            res == final(self).current,
    {
        if triggered {
            let offset = self.current + self.step - self.min;
            self.current = self.min + offset % (self.max - self.min);
        }
        self.current
    }
}

/// The declaration of a looper attribute: how far each trigger moves.
pub struct Looper {
    pub step: i64,
}

/// The remainder of `a` by a nonzero `n` as integer division that rounds
/// towards zero leaves it: it has the sign of `a` and the size of
/// `|a| mod |n|`.
pub open spec fn truncated_rem(a: int, n: int) -> int {
    if a >= 0 { a % n } else { -((-a) % n) }
}

/// The step that a looper with `step` takes inside `bounds`: a negative step
/// becomes a forward step by its remainder plus the length of the range.
pub open spec fn normalized_step(step: int, bounds: Bounds) -> int {
    let n = bounds.max - bounds.min + 1;
    if step >= 0 { step } else { truncated_rem(step, n) + n }
}

impl Looper {
    /// Builds the attribute: it loops over all values of `bounds`, starting at
    /// the lower bound. Bounds with `min > max` are taken as they come; the
    /// attribute is then not well-formed and cannot step.
    pub fn materialize(self, bounds: Bounds) -> (res: LooperAttr)
        requires
            bounds.max < i64::MAX,
            self.step < 0 ==> {
                let n = bounds.max - bounds.min + 1;
                &&& i64::MIN <= bounds.max - bounds.min
                &&& n <= i64::MAX
                &&& n != 0
                &&& !(n == -1 && self.step == i64::MIN)
                &&& i64::MIN <= truncated_rem(self.step as int, n) + n <= i64::MAX
            },
        ensures
            bounds.wf() ==> res.wf(),
            res.min == bounds.min,
            res.max == bounds.max + 1,
            res.current == bounds.min,
            res.step == normalized_step(self.step as int, bounds),
    {
        let step = if self.step >= 0 {
            self.step
        } else {
            let n = bounds.max - bounds.min + 1;
            let r = self.step % n;
            assert(r == truncated_rem(self.step as int, n as int));
            r + n
        };
        LooperAttr { min: bounds.min, max: bounds.max + 1, step, current: bounds.min }
    }
}

/// The value after `k` triggers.
pub open spec fn stepped_times(attr: LooperAttr, k: nat) -> int
    decreases k,
{
    if k == 0 {
        attr.current as int
    } else {
        attr.min + (stepped_times(attr, (k - 1) as nat) + attr.step - attr.min) % (attr.max - attr.min)
    }
}

/// After `k` triggers the looper has moved `k` steps forward, modulo the
/// length of its range.
pub proof fn lemma_stepped_times(attr: LooperAttr, k: nat)
    requires
        attr.wf(),
    ensures
        stepped_times(attr, k) == attr.min + (attr.current - attr.min + k * attr.step) % (attr.max - attr.min),
    decreases k,
{
    let n = attr.max - attr.min;
    let o = attr.current - attr.min;
    if k == 0 {
        vstd::arithmetic::div_mod::lemma_small_mod(o as nat, n as nat);
    } else {
        lemma_stepped_times(attr, (k - 1) as nat);
        let x = o + (k - 1) * attr.step;
        assert(stepped_times(attr, (k - 1) as nat) - attr.min == x % n);
        vstd::arithmetic::div_mod::lemma_add_mod_noop(x, attr.step as int, n);
        vstd::arithmetic::div_mod::lemma_mod_twice(x, n);
        vstd::arithmetic::div_mod::lemma_add_mod_noop(x % n, attr.step as int, n);
        assert(x + attr.step == o + k * attr.step) by (nonlinear_arith)
            requires
                x == o + (k - 1) * attr.step,
        ;
    }
}

/// A looper comes back to where it started after as many triggers as its
/// range has values.
pub proof fn lemma_full_cycle(attr: LooperAttr)
    requires
        attr.wf(),
    ensures
        stepped_times(attr, (attr.max - attr.min) as nat) == attr.current,
{
    let n = attr.max - attr.min;
    let o = attr.current - attr.min;
    lemma_stepped_times(attr, n as nat);
    assert(o + n * attr.step == attr.step * n + o) by (nonlinear_arith);
    vstd::arithmetic::div_mod::lemma_mod_multiples_vanish(attr.step as int, o, n);
    vstd::arithmetic::div_mod::lemma_small_mod(o as nat, n as nat);
}

/// One update on a trigger is one step of [`stepped_times`].
pub proof fn lemma_update_is_one_step(attr: LooperAttr)
    ensures
        attr.stepped() == stepped_times(attr, 1),
{
    assert(stepped_times(attr, 0) == attr.current);
}

} // verus!
