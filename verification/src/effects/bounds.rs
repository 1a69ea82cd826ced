use vstd::prelude::*;

verus! {

/// An inclusive range of integer attribute values.
#[derive(Clone, Copy, Debug, PartialEq, Eq, Structural)]
pub struct Bounds {
    pub min: i64,
    pub max: i64,
}

/// Why a value was refused by [`Bounds::ensure`].
#[derive(Clone, Copy, Debug, PartialEq, Eq, Structural)]
pub enum BoundsError {
    OutOfBounds { value: i64, min: i64, max: i64 },
}

impl Bounds {
    /// Whether `value` lies inside the bounds.
    pub open spec fn contains(self, value: int) -> bool {
        self.min <= value <= self.max
    }

    /// The bounds are not empty.
    pub open spec fn wf(self) -> bool {
        self.min <= self.max
    }

    pub fn new(min: i64, max: i64) -> (res: Self)
        ensures
            res.min == min,
            res.max == max,
    {
        Bounds { min, max }
    }

    /// Hands `value` back if it lies inside the bounds and refuses it otherwise.
    pub fn ensure(&self, value: i64) -> (res: Result<i64, BoundsError>)
        ensures
            self.contains(value as int) ==> res == Ok::<i64, BoundsError>(value),
            !self.contains(value as int) ==> res == Err::<i64, BoundsError>(
                BoundsError::OutOfBounds { value, min: self.min, max: self.max },
            ),
    {
        if self.min <= value && value <= self.max {
            Ok(value)
        } else {
            Err(BoundsError::OutOfBounds { value, min: self.min, max: self.max })
        }
    }
}

} // verus!
