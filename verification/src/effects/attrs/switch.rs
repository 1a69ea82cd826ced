use vstd::prelude::*;

use crate::effects::bounds::{Bounds, BoundsError};

verus! {

/// An attribute that follows a boolean attribute: `value_pressed` while it is
/// true, `value_released` while it is false.
pub struct SwitchAttr<V> {
    pub value_released: V,
    pub value_pressed: V,
}

impl<V: Copy> SwitchAttr<V> {
    /// The value for one frame, given the frame's value of the boolean input.
    pub fn update(&self, pressed: bool) -> (res: V)
        ensures
            res == if pressed { self.value_pressed } else { self.value_released },
    {
        if pressed {
            self.value_pressed
        } else {
            self.value_released
        }
    }
}

/// The declaration of a switch attribute.
pub struct Switch<V> {
    pub value_release: V,
    pub value_pressed: V,
}

impl<V: Copy> Switch<V> {
    /// Builds the attribute without bounds.
    pub fn materialize(self) -> (res: SwitchAttr<V>)
        ensures
            res.value_released == self.value_release,
            res.value_pressed == self.value_pressed,
    {
        SwitchAttr { value_released: self.value_release, value_pressed: self.value_pressed }
    }
}

impl Switch<i64> {
    /// Builds the attribute inside `bounds`: both values must lie in them,
    /// the released value is checked first.
    pub fn materialize_bounded(self, bounds: Bounds) -> (res: Result<SwitchAttr<i64>, BoundsError>)
        ensures
            match res {
                Ok(attr) => {
                    &&& bounds.contains(self.value_release as int)
                    &&& bounds.contains(self.value_pressed as int)
                    &&& attr.value_released == self.value_release
                    &&& attr.value_pressed == self.value_pressed
                },
                Err(e) => if !bounds.contains(self.value_release as int) {
                    e == BoundsError::OutOfBounds { value: self.value_release, min: bounds.min, max: bounds.max }
                } else {
                    &&& !bounds.contains(self.value_pressed as int)
                    &&& e == BoundsError::OutOfBounds { value: self.value_pressed, min: bounds.min, max: bounds.max }
                },
            },
    {
        let value_released = match bounds.ensure(self.value_release) {
            Ok(v) => v,
            Err(e) => return Err(e),
        };
        let value_pressed = match bounds.ensure(self.value_pressed) {
            Ok(v) => v,
            Err(e) => return Err(e),
        };
        Ok(SwitchAttr { value_released, value_pressed })
    }
}

} // verus!
