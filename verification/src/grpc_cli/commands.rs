use vstd::prelude::*;

use crate::grpc_client::attr::AttrId;
use crate::grpc_client::input::InputId;
use crate::grpc_client::node::NodeId;
use crate::grpc_client::values::{parse_value, reads_as, ParseValueError, TextValue, ValueType};
use crate::text::string_views;

verus! {

/// `attr show NODE PATH...`: show the attribute at a path below a node.
pub struct AttrShow {
    pub node: NodeId,
    pub path: Vec<String>,
}

impl AttrShow {
    /// The attribute to ask for.
    pub fn attr_id(self) -> (res: AttrId)
        ensures
            res@ == (self.node@, string_views(self.path@)),
    {
        AttrId::new(self.node, self.path)
    }
}

/// `input list`: list all inputs.
pub struct InputList {}

/// `input show INPUT`: show an input.
pub struct InputShow {
    pub input: InputId,
}

/// `input set INPUT VALUE`: send a value to an input.
pub struct InputSet {
    pub input: InputId,
    pub value: String,
}

impl InputSet {
    /// The value to send, read from the command's text for an input of type
    /// `t`.
    pub fn value_for(&self, t: ValueType) -> (res: Result<TextValue, ParseValueError>)
        ensures
            reads_as(t, self.value@, res),
    {
        parse_value(t, self.value.as_str())
    }
}

/// `node list`: list all nodes.
pub struct NodeList {}

/// `node root`: show the root node.
pub struct NodeRoot {}

/// `node show NODE`: show a node.
pub struct NodeShow {
    pub node: NodeId,
}

} // verus!
