//! Nodes whose frames a Lua script computes.

pub mod node;

use vstd::prelude::*;

verus! {

/// The declaration of a node that runs the `update` function of a Lua
/// script on every frame.
pub struct Lua {
    pub script: String,
}

} // verus!
