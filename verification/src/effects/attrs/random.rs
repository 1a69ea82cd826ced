use rand::rngs::SmallRng;
use rand::{Rng, SeedableRng};
use vstd::prelude::*;

use crate::effects::bounds::Bounds;

verus! {

#[verifier::external_type_specification]
#[verifier::external_body]
pub struct ExSmallRng(SmallRng);

/// `SmallRng::try_from_os_rng`: seeds a generator from the operating
/// system's entropy source; whether that succeeds is up to the system, so
/// nothing is claimed of the result.
#[verifier::external_body]
fn small_rng_from_os() -> (res: Option<SmallRng>) {
    SmallRng::try_from_os_rng().ok()
}

/// `Rng::random_range(low..=high)`: draws a value of the closed range
/// `low ..= high`, which must not be empty (the source panics on an empty
/// range); which value is up to the generator.
#[verifier::external_body]
fn random_inclusive(rng: &mut SmallRng, low: i64, high: i64) -> (res: i64)
    requires
        low <= high,
    ensures
        low <= res <= high,
{
    rng.random_range(low..=high)
}

/// An attribute that takes a new value, drawn uniformly from its bounds, on
/// every trigger.
pub struct RandomAttr {
    pub min: i64,
    pub max: i64,
    pub current: i64,
    pub random: SmallRng,
}

/// Why a random attribute could not be built.
#[derive(Clone, Copy, Debug, PartialEq, Eq, Structural)]
pub enum RandomError {
    /// The bounds hold no value.
    EmptyRange,
    /// The operating system gave no seed.
    NoEntropy,
}

impl RandomAttr {
    /// The current value lies in the bounds.
    pub open spec fn wf(self) -> bool {
        self.min <= self.current <= self.max
    }

    /// Draws a new value on a trigger and returns the current value.
    pub fn update(&mut self, triggered: bool) -> (res: i64)
        requires
            old(self).wf(),
        ensures
            final(self).wf(),
            final(self).min == old(self).min,
            final(self).max == old(self).max,
            !triggered ==> final(self).current == old(self).current,
            res == final(self).current,
    {
        if triggered {
            let drawn = random_inclusive(&mut self.random, self.min, self.max);
            self.take(drawn)
        } else {
            self.current
        }
    }

    /// Takes a drawn value as the current one, if it lies in the bounds, and
    /// returns the current value.
    pub fn take(&mut self, drawn: i64) -> (res: i64)
        requires
            old(self).wf(),
        ensures
            final(self).wf(),
            final(self).min == old(self).min,
            final(self).max == old(self).max,
            final(self).current == if old(self).min <= drawn <= old(self).max {
                drawn
            } else {
                old(self).current
            },
            res == final(self).current,
    {
        if self.min <= drawn && drawn <= self.max {
            self.current = drawn;
        }
        self.current
    }
}

/// The declaration of a random attribute.
pub struct Random;

impl Random {
    /// Builds the attribute over `bounds`, with a first value drawn at once.
    /// Empty bounds are refused; so is a failing entropy source.
    pub fn materialize(self, bounds: Bounds) -> (res: Result<RandomAttr, RandomError>)
        ensures
            bounds.min > bounds.max ==> res == Err::<RandomAttr, RandomError>(RandomError::EmptyRange),
            res matches Ok(attr) ==> attr.wf() && attr.min == bounds.min && attr.max == bounds.max,
            res matches Err(e) ==> (e == RandomError::EmptyRange <==> bounds.min > bounds.max),
    {
        if bounds.min > bounds.max {
            return Err(RandomError::EmptyRange);
        }
        let mut random = match small_rng_from_os() {
            Some(rng) => rng,
            None => return Err(RandomError::NoEntropy),
        };
        let first = random_inclusive(&mut random, bounds.min, bounds.max);
        Random::seeded(bounds, random, first)
    }

    /// Builds the attribute from a seeded generator and the first value drawn
    /// from it.
    pub fn seeded(bounds: Bounds, random: SmallRng, first: i64) -> (res: Result<RandomAttr, RandomError>)
        ensures
            if bounds.min <= first <= bounds.max {
                res matches Ok(attr) && attr.min == bounds.min && attr.max == bounds.max && attr.current == first
            } else {
                res == Err::<RandomAttr, RandomError>(RandomError::EmptyRange)
            },
    {
        if bounds.min <= first && first <= bounds.max {
            Ok(RandomAttr { min: bounds.min, max: bounds.max, current: first, random })
        } else {
            Err(RandomError::EmptyRange)
        }
    }
}

} // verus!
