//! Nodes: producers of frames.

pub mod splice;
pub mod alert;
pub mod larson;
pub mod noise;
pub mod raindrops;
pub mod solid;
pub mod transition;
