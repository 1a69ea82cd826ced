use vstd::prelude::*;

verus! {

/// The value types of inputs, as the control protocol names them.
#[derive(Clone, Copy, Debug, PartialEq, Eq, Structural)]
pub enum InputValueType {
    Trigger,
    Bool,
    Integer,
    Decimal,
    Color,
    IntegerRange,
    DecimalRange,
    ColorRange,
}

/// A reference to an attribute: the node and the path of attribute names
/// below it.
pub struct AttrRef {
    pub node: String,
    pub path: Vec<String>,
}

/// The answer to a question about a node.
pub struct NodeInfoResponse {
    pub kind: String,
    pub name: String,
    /// The child nodes: key and node name. A list of pairs, not a `HashMap`:
    /// vstd specifies a `HashMap` only for keys whose hashing it models
    /// (integers and `bool`); for `String` keys it would take an `assume`.
    pub nodes: Vec<(String, String)>,
    pub attrs: Vec<String>,
}

/// The answer to a question about an attribute.
pub struct AttrInfoResponse {
    pub attr: Option<AttrRef>,
    pub kind: String,
    pub value_type: String,
    pub attrs: Vec<String>,
    /// The inputs: key and input name. A list of pairs, not a `HashMap`: vstd
    /// specifies a `HashMap` only for keys whose hashing it models (integers
    /// and `bool`); for `String` keys it would take an `assume`.
    pub inputs: Vec<(String, String)>,
}

/// The answer to a question about an input.
pub struct InputInfoResponse {
    pub name: String,
    pub value_type: InputValueType,
}

/// A color on the wire: the bit patterns of its three `f32` channels.
#[derive(Clone, Copy, Debug, PartialEq, Eq, Structural)]
pub struct Rgb {
    pub r: u32,
    pub g: u32,
    pub b: u32,
}

/// A value on the wire; decimals travel as the bit patterns of their `f32`.
#[derive(Clone, Copy, Debug, PartialEq, Eq, Structural)]
pub enum Value {
    Trigger,
    Bool(bool),
    Integer(i64),
    Decimal(u32),
    Color(Rgb),
    IntegerRange { a: i64, b: i64 },
    DecimalRange { a: u32, b: u32 },
    ColorRange { a: Option<Rgb>, b: Option<Rgb> },
}

/// A message that may carry a value.
#[derive(Clone, Copy, Debug, PartialEq, Eq, Structural)]
pub struct InputValue {
    pub value: Option<Value>,
}

} // verus!
