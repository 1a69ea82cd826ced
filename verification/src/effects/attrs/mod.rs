//! Attributes: values that change from frame to frame.

pub mod button;
pub mod looper;
pub mod random;
pub mod sequence;
pub mod switch;
pub mod noise;
