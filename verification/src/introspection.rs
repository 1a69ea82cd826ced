use vstd::prelude::*;

use crate::grpc_client::values::ValueType;
use crate::text::{str_eq, string_views};

verus! {

/// The bit pattern of a color's three channels, each an `f32` that this
/// library carries and compares but never computes with.
#[derive(Clone, Copy, Debug, PartialEq, Eq, Structural)]
pub struct RgbBits {
    pub red: u32,
    pub green: u32,
    pub blue: u32,
}

/// A value that an input took; decimals are carried as the bit patterns of
/// their `f32`.
#[derive(Clone, Copy, Debug, PartialEq, Eq, Structural)]
pub enum AnyInputValue {
    Trigger,
    Boolean(bool),
    Integer(i64),
    Decimal(u32),
    Color(RgbBits),
    IntegerRange(i64, i64),
    DecimalRange(u32, u32),
    ColorRange(RgbBits, RgbBits),
}

impl AnyInputValue {
    /// The type of the value.
    pub open spec fn type_of(self) -> ValueType {
        match self {
            AnyInputValue::Trigger => ValueType::Trigger,
            AnyInputValue::Boolean(_) => ValueType::Bool,
            AnyInputValue::Integer(_) => ValueType::Integer,
            AnyInputValue::Decimal(_) => ValueType::Decimal,
            AnyInputValue::Color(_) => ValueType::Color,
            AnyInputValue::IntegerRange(_, _) => ValueType::IntegerRange,
            AnyInputValue::DecimalRange(_, _) => ValueType::DecimalRange,
            AnyInputValue::ColorRange(_, _) => ValueType::ColorRange,
        }
    }

    pub fn value_type(&self) -> (res: ValueType)
        ensures
            res == self.type_of(),
    {
        match self {
            AnyInputValue::Trigger => ValueType::Trigger,
            AnyInputValue::Boolean(_) => ValueType::Bool,
            AnyInputValue::Integer(_) => ValueType::Integer,
            AnyInputValue::Decimal(_) => ValueType::Decimal,
            AnyInputValue::Color(_) => ValueType::Color,
            AnyInputValue::IntegerRange(_, _) => ValueType::IntegerRange,
            AnyInputValue::DecimalRange(_, _) => ValueType::DecimalRange,
            AnyInputValue::ColorRange(_, _) => ValueType::ColorRange,
        }
    }
}

/// An input of the scene: its name and the type of its values.
pub struct InputInfo {
    pub name: String,
    pub value_type: ValueType,
}

/// A child node of a node: the key under which the parent holds it, and its
/// own name and kind.
pub struct NodeRef {
    pub key: String,
    pub name: String,
    pub kind: String,
}

/// An attribute of a node, named by its path of attribute names from the
/// node down; the inputs are pairs of key and input name.
pub struct AttrInfo {
    pub path: Vec<String>,
    pub kind: String,
    pub value_type: String,
    /// The inputs: key and input name. A list of pairs, not a `HashMap`: vstd
    /// specifies a `HashMap` only for keys whose hashing it models (integers
    /// and `bool`); for `String` keys it would take an `assume`.
    pub inputs: Vec<(String, String)>,
}

/// A node of the scene with its child nodes and all its attributes, those
/// nested in other attributes included.
pub struct NodeInfo {
    pub name: String,
    pub kind: String,
    pub nodes: Vec<NodeRef>,
    pub attrs: Vec<AttrInfo>,
}

/// What a control interface can see of a running scene.
pub struct Introspection {
    pub root: NodeInfo,
    /// The nodes, each under its own name (see [`Introspection::wf`]). A list
    /// of pairs, not a `HashMap`: vstd specifies a `HashMap` only for keys
    /// whose hashing it models (integers and `bool`); for `String` keys it
    /// would take an `assume`.
    pub nodes: Vec<NodeInfo>,
    /// The inputs, each under its own name (see [`Introspection::wf`]).
    pub inputs: Vec<InputInfo>,
}

/// The position of the first node called `name`.
pub open spec fn first_node_named(nodes: Seq<NodeInfo>, name: Seq<char>, at: Option<usize>) -> bool {
    match at {
        Some(i) => i < nodes.len() && nodes[i as int].name@ == name && forall|j: int|
            0 <= j < i ==> (#[trigger] nodes[j]).name@ != name,
        None => forall|j: int| 0 <= j < nodes.len() ==> (#[trigger] nodes[j]).name@ != name,
    }
}

/// The position of the first input called `name`.
pub open spec fn first_input_named(inputs: Seq<InputInfo>, name: Seq<char>, at: Option<usize>) -> bool {
    match at {
        Some(i) => i < inputs.len() && inputs[i as int].name@ == name && forall|j: int|
            0 <= j < i ==> (#[trigger] inputs[j]).name@ != name,
        None => forall|j: int| 0 <= j < inputs.len() ==> (#[trigger] inputs[j]).name@ != name,
    }
}

/// The position of the first attribute with path `path`.
pub open spec fn first_attr_at(attrs: Seq<AttrInfo>, path: Seq<Seq<char>>, at: Option<usize>) -> bool {
    match at {
        Some(i) => i < attrs.len() && string_views(attrs[i as int].path@) == path && forall|j: int|
            0 <= j < i ==> string_views((#[trigger] attrs[j]).path@) != path,
        None => forall|j: int| 0 <= j < attrs.len() ==> string_views((#[trigger] attrs[j]).path@) != path,
    }
}

/// Compares two lists of strings.
pub fn strings_eq(a: &[String], b: &[String]) -> (res: bool)
    ensures
        res == (string_views(a@) == string_views(b@)),
{
    let n = a.len();
    if n != b.len() {
        assert(string_views(a@).len() != string_views(b@).len());
        return false;
    }
    let mut i: usize = 0;
    while i < n
        invariant
            n == a.len(),
            n == b.len(),
            i <= n,
            forall|j: int| 0 <= j < i ==> a@[j]@ == b@[j]@,
        decreases n - i,
    {
        if !str_eq(a[i].as_str(), b[i].as_str()) {
            assert(string_views(a@)[i as int] != string_views(b@)[i as int]);
            return false;
        }
        i = i + 1;
    }
    assert(string_views(a@) =~= string_views(b@));
    true
}

/// No two nodes have the same name.
pub open spec fn unique_node_names(nodes: Seq<NodeInfo>) -> bool {
    forall|i: int, j: int| 0 <= i < j < nodes.len() ==> (#[trigger] nodes[i]).name@ != (#[trigger] nodes[j]).name@
}

/// No two inputs have the same name.
pub open spec fn unique_input_names(inputs: Seq<InputInfo>) -> bool {
    forall|i: int, j: int| 0 <= i < j < inputs.len() ==> (#[trigger] inputs[i]).name@ != (#[trigger] inputs[j]).name@
}

impl Introspection {
    /// The scene holds its nodes and its inputs by name: no name occurs twice
    /// among the nodes, nor among the inputs.
    pub open spec fn wf(&self) -> bool {
        unique_node_names(self.nodes@) && unique_input_names(self.inputs@)
    }

    /// Whether no name occurs twice among the nodes, nor among the inputs.
    pub fn has_unique_names(&self) -> (res: bool)
        ensures
            res == self.wf(),
    {
        let mut j: usize = 0;
        while j < self.nodes.len()
            invariant
                j <= self.nodes.len(),
                forall|a: int, b: int| 0 <= a < b < j ==> (#[trigger] self.nodes@[a]).name@ != (#[trigger] self.nodes@[b]).name@,
            decreases self.nodes.len() - j,
        {
            let mut i: usize = 0;
            while i < j
                invariant
                    i <= j < self.nodes.len(),
                    forall|a: int| 0 <= a < i ==> (#[trigger] self.nodes@[a]).name@ != self.nodes@[j as int].name@,
                decreases j - i,
            {
                if str_eq(self.nodes[i].name.as_str(), self.nodes[j].name.as_str()) {
                    return false;
                }
                i = i + 1;
            }
            j = j + 1;
        }
        let mut j: usize = 0;
        while j < self.inputs.len()
            invariant
                unique_node_names(self.nodes@),
                j <= self.inputs.len(),
                forall|a: int, b: int| 0 <= a < b < j ==> (#[trigger] self.inputs@[a]).name@ != (#[trigger] self.inputs@[b]).name@,
            decreases self.inputs.len() - j,
        {
            let mut i: usize = 0;
            while i < j
                invariant
                    i <= j < self.inputs.len(),
                    forall|a: int| 0 <= a < i ==> (#[trigger] self.inputs@[a]).name@ != self.inputs@[j as int].name@,
                decreases j - i,
            {
                if str_eq(self.inputs[i].name.as_str(), self.inputs[j].name.as_str()) {
                    return false;
                }
                i = i + 1;
            }
            j = j + 1;
        }
        true
    }

    /// Finds the node called `name`.
    pub fn find_node(&self, name: &str) -> (res: Option<usize>)
        ensures
            first_node_named(self.nodes@, name@, res),
    {
        let mut i: usize = 0;
        while i < self.nodes.len()
            invariant
                i <= self.nodes.len(),
                forall|j: int| 0 <= j < i ==> (#[trigger] self.nodes@[j]).name@ != name@,
            decreases self.nodes.len() - i,
        {
            if str_eq(self.nodes[i].name.as_str(), name) {
                return Some(i);
            }
            i = i + 1;
        }
        None
    }

    /// Finds the input called `name`.
    pub fn find_input(&self, name: &str) -> (res: Option<usize>)
        ensures
            first_input_named(self.inputs@, name@, res),
    {
        let mut i: usize = 0;
        while i < self.inputs.len()
            invariant
                i <= self.inputs.len(),
                forall|j: int| 0 <= j < i ==> (#[trigger] self.inputs@[j]).name@ != name@,
            decreases self.inputs.len() - i,
        {
            if str_eq(self.inputs[i].name.as_str(), name) {
                return Some(i);
            }
            i = i + 1;
        }
        None
    }
}

impl NodeInfo {
    /// Finds the attribute with path `path`.
    pub fn find_attr(&self, path: &[String]) -> (res: Option<usize>)
        ensures
            first_attr_at(self.attrs@, string_views(path@), res),
    {
        let mut i: usize = 0;
        while i < self.attrs.len()
            invariant
                i <= self.attrs.len(),
                forall|j: int| 0 <= j < i ==> string_views((#[trigger] self.attrs@[j]).path@) != string_views(path@),
            decreases self.attrs.len() - i,
        {
            if strings_eq(self.attrs[i].path.as_slice(), path) {
                return Some(i);
            }
            i = i + 1;
        }
        None
    }
}

/// Where names are unique, the node or input that carries a name is the
/// one that a search by that name finds.
pub proof fn lemma_unique_names_find_the_named(introspection: Introspection, name: Seq<char>, i: int)
    requires
        introspection.wf(),
    ensures
        0 <= i < introspection.nodes.len() && introspection.nodes@[i].name@ == name ==> first_node_named(
            introspection.nodes@,
            name,
            Some(i as usize),
        ),
        0 <= i < introspection.inputs.len() && introspection.inputs@[i].name@ == name ==> first_input_named(
            introspection.inputs@,
            name,
            Some(i as usize),
        ),
{
}

} // verus!
