use vstd::prelude::*;

use crate::grpc_client::values::value_type_text;
use crate::proto::{AttrInfoResponse, InputInfoResponse, InputValueType, NodeInfoResponse};
use crate::text::{owned, string_pair_views, string_views};

verus! {

/// A node name, shown in the node color.
pub struct NodeName(pub String);

/// An attribute name, shown in the attribute color.
pub struct AttrName(pub String);

/// An input name, shown in the input color.
pub struct InputName(pub String);

/// A value type, shown in the type color.
pub struct ValueType(pub String);

/// How a protocol value type is written.
pub open spec fn wire_type_text(t: InputValueType) -> Seq<char> {
    value_type_text(crate::grpc_client::input::value_type_of(t))
}

impl ValueType {
    pub fn from(value_type: InputValueType) -> (res: ValueType)
        ensures
            res.0@ == wire_type_text(value_type),
    {
        let t = match value_type {
            InputValueType::Trigger => crate::grpc_client::values::ValueType::Trigger,
            InputValueType::Bool => crate::grpc_client::values::ValueType::Bool,
            InputValueType::Integer => crate::grpc_client::values::ValueType::Integer,
            InputValueType::Decimal => crate::grpc_client::values::ValueType::Decimal,
            InputValueType::Color => crate::grpc_client::values::ValueType::Color,
            InputValueType::IntegerRange => crate::grpc_client::values::ValueType::IntegerRange,
            InputValueType::DecimalRange => crate::grpc_client::values::ValueType::DecimalRange,
            InputValueType::ColorRange => crate::grpc_client::values::ValueType::ColorRange,
        };
        ValueType(owned(t.name()))
    }
}

/// The views of a list of attribute names.
pub open spec fn attr_name_views(v: Seq<AttrName>) -> Seq<Seq<char>> {
    v.map_values(|a: AttrName| a.0@)
}

fn attr_names(v: Vec<String>) -> (res: Vec<AttrName>)
    ensures
        attr_name_views(res@) == string_views(v@),
{
    let mut res: Vec<AttrName> = Vec::new();
    let mut i: usize = 0;
    while i < v.len()
        invariant
            i <= v.len(),
            attr_name_views(res@) == string_views(v@).take(i as int),
        decreases v.len() - i,
    {
        let ghost prev = res@;
        assert(prev.len() == i) by {
            assert(attr_name_views(prev).len() == i);
        }
        res.push(AttrName(v[i].clone()));
        assert(attr_name_views(res@) =~= string_views(v@).take(i + 1)) by {
            assert(res@ == prev.push(res@.last()));
        }
        i = i + 1;
    }
    assert(string_views(v@).take(v.len() as int) == string_views(v@));
    res
}

/// The content of the node view.
pub struct NodeOutput {
    pub name: String,
    pub kind: String,
    /// The child nodes: key and name. A list of pairs, not a `HashMap`: vstd
    /// specifies a `HashMap` only for keys whose hashing it models (integers
    /// and `bool`); for `String` keys it would take an `assume`.
    pub nodes: Vec<(String, NodeName)>,
    pub attrs: Vec<AttrName>,
}

impl NodeOutput {
    pub fn from(response: NodeInfoResponse) -> (res: NodeOutput)
        ensures
            res.name@ == response.name@,
            res.kind@ == response.kind@,
            res.nodes@.map_values(|p: (String, NodeName)| (p.0@, p.1.0@)) == string_pair_views(response.nodes@),
            attr_name_views(res.attrs@) == string_views(response.attrs@),
    {
        let ghost target = string_pair_views(response.nodes@);
        let mut nodes: Vec<(String, NodeName)> = Vec::new();
        let mut i: usize = 0;
        while i < response.nodes.len()
            invariant
                i <= response.nodes.len(),
                target == string_pair_views(response.nodes@),
                nodes@.map_values(|p: (String, NodeName)| (p.0@, p.1.0@)) == target.take(i as int),
            decreases response.nodes.len() - i,
        {
            let ghost prev = nodes@;
            assert(prev.len() == i) by {
                assert(prev.map_values(|p: (String, NodeName)| (p.0@, p.1.0@)).len() == i);
            }
            nodes.push((response.nodes[i].0.clone(), NodeName(response.nodes[i].1.clone())));
            assert(nodes@.map_values(|p: (String, NodeName)| (p.0@, p.1.0@)) =~= target.take(i + 1)) by {
                assert(nodes@ == prev.push(nodes@.last()));
            }
            i = i + 1;
        }
        assert(target.take(response.nodes.len() as int) == target);
        NodeOutput { name: response.name, kind: response.kind, nodes, attrs: attr_names(response.attrs) }
    }
}

/// The content of the attribute view.
pub struct AttributeOutput {
    pub node: NodeName,
    pub path: Vec<AttrName>,
    pub kind: String,
    pub value_type: ValueType,
    pub attrs: Vec<AttrName>,
}

impl AttributeOutput {
    /// Reads an attribute description, which must name its attribute.
    pub fn from(response: AttrInfoResponse) -> (res: AttributeOutput)
        requires
            response.attr is Some,
        ensures
            res.node.0@ == response.attr->0.node@,
            attr_name_views(res.path@) == string_views(response.attr->0.path@),
            res.kind@ == response.kind@,
            res.value_type.0@ == response.value_type@,
            attr_name_views(res.attrs@) == string_views(response.attrs@),
    {
        let attr = response.attr.unwrap();
        AttributeOutput {
            node: NodeName(attr.node),
            path: attr_names(attr.path),
            kind: response.kind,
            value_type: ValueType(response.value_type),
            attrs: attr_names(response.attrs),
        }
    }
}

/// The content of the input view.
pub struct InputOutput {
    pub name: InputName,
    pub value_type: ValueType,
}

impl InputOutput {
    pub fn from(response: InputInfoResponse) -> (res: InputOutput)
        ensures
            res.name.0@ == response.name@,
            res.value_type.0@ == wire_type_text(response.value_type),
    {
        InputOutput { name: InputName(response.name), value_type: ValueType::from(response.value_type) }
    }
}

} // verus!
