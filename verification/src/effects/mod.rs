//! Effects: attributes that animate values and nodes that compute frames.

pub mod attrs;
pub mod bounds;
pub mod easing;
pub mod nodes;
pub mod registry;
