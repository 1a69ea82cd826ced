use vstd::prelude::*;

use crate::effects::bounds::{Bounds, BoundsError};

verus! {

/// Whether a button is held, and for how many nanoseconds more.
#[derive(Clone, Copy, Debug, PartialEq, Eq, Structural)]
pub enum State {
    Released,
    Pressed(u128),
}

impl State {
    /// The state after `duration` nanoseconds have passed.
    pub open spec fn after(self, duration: u128) -> State {
        match self {
            State::Pressed(remaining) => if remaining > duration {
                State::Pressed((remaining - duration) as u128)
            } else {
                State::Released
            },
            State::Released => State::Released,
        }
    }

    pub fn update(self, duration: u128) -> (res: Self)
        ensures
            res == self.after(duration),
    {
        if let State::Pressed(remaining) = self {
            if remaining > duration {
                State::Pressed(remaining - duration)
            } else {
                State::Released
            }
        } else {
            State::Released
        }
    }

    pub fn pressed(&self) -> (res: bool)
        ensures
            res == (*self is Pressed),
    {
        match self {
            State::Released => false,
            State::Pressed(_) => true,
        }
    }
}

/// An attribute that shows `value_pressed` for `hold_time` nanoseconds after
/// each trigger and `value_released` otherwise.
pub struct ButtonAttr<V> {
    pub value_released: V,
    pub value_pressed: V,
    pub hold_time: u128,
    pub state: State,
}

impl<V: Copy> ButtonAttr<V> {
    /// The state after one frame of `duration` nanoseconds, `triggered` telling
    /// whether the trigger input fired during that frame.
    pub open spec fn next_state(self, triggered: bool, duration: u128) -> State {
        let start = if triggered { State::Pressed(self.hold_time) } else { self.state };
        start.after(duration)
    }

    /// Advances the button by one frame and returns its value.
    pub fn update(&mut self, triggered: bool, duration: u128) -> (res: V)
        ensures
            final(self).state == old(self).next_state(triggered, duration),
            final(self).value_released == old(self).value_released,
            final(self).value_pressed == old(self).value_pressed,
            final(self).hold_time == old(self).hold_time,
            res == if final(self).state is Pressed {
                old(self).value_pressed
            } else {
                old(self).value_released
            },
    {
        if triggered {
            self.state = State::Pressed(self.hold_time);
        }
        self.state = self.state.update(duration);
        if self.state.pressed() {
            self.value_pressed
        } else {
            self.value_released
        }
    }
}

/// The declaration of a button attribute.
pub struct Button<V> {
    pub value_release: V,
    pub value_pressed: V,
    pub hold_time: u128,
}

impl<V: Copy> Button<V> {
    /// Builds the attribute without bounds: it starts released.
    pub fn materialize(self) -> (res: ButtonAttr<V>)
        ensures
            res.value_released == self.value_release,
            res.value_pressed == self.value_pressed,
            res.hold_time == self.hold_time,
            res.state == State::Released,
    {
        ButtonAttr {
            value_released: self.value_release,
            value_pressed: self.value_pressed,
            hold_time: self.hold_time,
            state: State::Released,
        }
    }
}

impl Button<i64> {
    /// Builds the attribute inside `bounds`: both values must lie in them.
    pub fn materialize_bounded(self, bounds: Bounds) -> (res: Result<ButtonAttr<i64>, BoundsError>)
        ensures
            match res {
                Ok(attr) => {
                    &&& bounds.contains(self.value_release as int)
                    &&& bounds.contains(self.value_pressed as int)
                    &&& attr.value_released == self.value_release
                    &&& attr.value_pressed == self.value_pressed
                    &&& attr.hold_time == self.hold_time
                    &&& attr.state == State::Released
                },
                Err(e) => if !bounds.contains(self.value_release as int) {
                    e == BoundsError::OutOfBounds {
                        value: self.value_release,
                        min: bounds.min,
                        max: bounds.max,
                    }
                } else {
                    &&& !bounds.contains(self.value_pressed as int)
                    &&& e == BoundsError::OutOfBounds {
                        value: self.value_pressed,
                        min: bounds.min,
                        max: bounds.max,
                    }
                },
            },
    {
        let value_released = match bounds.ensure(self.value_release) {
            Ok(v) => v,
            Err(e) => return Err(e),
        };
        let value_pressed = match bounds.ensure(self.value_pressed) {
            Ok(v) => v,
            Err(e) => return Err(e),
        };
        Ok(ButtonAttr { value_released, value_pressed, hold_time: self.hold_time, state: State::Released })
    }
}

/// A trigger holds the button pressed for exactly its hold time: a frame
/// shorter than the hold time leaves it pressed, a frame at least as long
/// releases it.
pub proof fn lemma_trigger_holds_for_hold_time<V: Copy>(attr: ButtonAttr<V>, duration: u128)
    ensures
        duration < attr.hold_time ==> attr.next_state(true, duration) == State::Pressed(
            (attr.hold_time - duration) as u128,
        ),
        duration >= attr.hold_time ==> attr.next_state(true, duration) == State::Released,
{
}

/// Time adds up: two frames of `d1` and `d2` nanoseconds leave the button as
/// one frame of `d1 + d2` does.
pub proof fn lemma_frames_add_up(state: State, d1: u128, d2: u128)
    requires
        d1 + d2 <= u128::MAX,
    ensures
        state.after(d1).after(d2) == state.after((d1 + d2) as u128),
{
}

/// A released button stays released until it is triggered.
pub proof fn lemma_released_stays<V: Copy>(attr: ButtonAttr<V>, duration: u128)
    requires
        attr.state == State::Released,
    ensures
        attr.next_state(false, duration) == State::Released,
{
}

} // verus!
