//! The model of a remote scene as a control client sees it.

pub mod values;
pub mod attr;
pub mod node;
pub mod input;
pub mod output;
