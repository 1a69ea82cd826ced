use vstd::prelude::*;

use crate::grpc_client::input::value_type_of;
use crate::grpc_client::values::ValueType;
use crate::introspection::{
    first_attr_at, first_input_named, first_node_named, AnyInputValue, AttrInfo, Introspection, NodeInfo,
    NodeRef, RgbBits,
};
use crate::proto::{AttrInfoResponse, AttrRef, InputInfoResponse, InputValue, InputValueType, NodeInfoResponse, Rgb, Value};
use crate::text::{copy_pairs, copy_strings, join, join_with, owned, string_pair_views, string_views};

verus! {

/// The control interface that answers over the network.
pub struct GRPC {}

impl GRPC {
    pub fn new() -> (res: Result<GRPC, core::convert::Infallible>)
        ensures
            res is Ok,
    {
        Ok(GRPC {})
    }
}

/// The kinds of refusal that the interface answers with.
#[derive(Clone, Copy, Debug, PartialEq, Eq, Structural)]
pub enum Code {
    NotFound,
    InvalidArgument,
}

/// A refused request: the kind of refusal and its message.
pub struct Status {
    pub code: Code,
    pub message: String,
}

/// The message for a node that does not exist.
pub open spec fn no_such_node(name: Seq<char>) -> Seq<char> {
    "No such node: "@ + name
}

/// The message for an input that does not exist.
pub open spec fn no_such_input(name: Seq<char>) -> Seq<char> {
    "No such input: "@ + name
}

/// The message for an attribute that does not exist.
pub open spec fn no_such_attr(node: Seq<char>, path: Seq<Seq<char>>) -> Seq<char> {
    "No such attribute: "@ + node + "/"@ + join_with(path, "/"@)
}

/// The names of the attributes directly below a node: the single names of
/// the paths of length one, in order.
pub open spec fn top_attr_names(attrs: Seq<AttrInfo>) -> Seq<Seq<char>>
    decreases attrs.len(),
{
    if attrs.len() == 0 {
        seq![]
    } else {
        let rest = top_attr_names(attrs.drop_last());
        let path = string_views(attrs.last().path@);
        if path.len() == 1 { rest.push(path[0]) } else { rest }
    }
}

/// The names of the attributes directly below the attribute at `parent`.
pub open spec fn child_attr_names(attrs: Seq<AttrInfo>, parent: Seq<Seq<char>>) -> Seq<Seq<char>>
    decreases attrs.len(),
{
    if attrs.len() == 0 {
        seq![]
    } else {
        let rest = child_attr_names(attrs.drop_last(), parent);
        let path = string_views(attrs.last().path@);
        if path.len() == parent.len() + 1 && path.drop_last() == parent {
            rest.push(path.last())
        } else {
            rest
        }
    }
}

/// The key and name pairs of the child nodes.
pub open spec fn child_node_pairs(nodes: Seq<NodeRef>) -> Seq<(Seq<char>, Seq<char>)> {
    nodes.map_values(|n: NodeRef| (n.key@, n.name@))
}

/// The description of `node` that the interface sends.
pub open spec fn describes_node(res: NodeInfoResponse, node: NodeInfo) -> bool {
    &&& res.kind@ == node.kind@
    &&& res.name@ == node.name@
    &&& string_pair_views(res.nodes@) == child_node_pairs(node.nodes@)
    &&& string_views(res.attrs@) == top_attr_names(node.attrs@)
}

/// The names of a list of nodes.
pub open spec fn node_names(nodes: Seq<NodeInfo>) -> Seq<Seq<char>> {
    nodes.map_values(|n: NodeInfo| n.name@)
}

/// The protocol's name for a value type.
pub open spec fn wire_type(t: ValueType) -> InputValueType {
    match t {
        ValueType::Trigger => InputValueType::Trigger,
        ValueType::Bool => InputValueType::Bool,
        ValueType::Integer => InputValueType::Integer,
        ValueType::Decimal => InputValueType::Decimal,
        ValueType::Color => InputValueType::Color,
        ValueType::IntegerRange => InputValueType::IntegerRange,
        ValueType::DecimalRange => InputValueType::DecimalRange,
        ValueType::ColorRange => InputValueType::ColorRange,
    }
}

fn not_found(prefix: &str, name: &str) -> (res: Status)
    ensures
        res.code == Code::NotFound,
        res.message@ == prefix@ + name@,
{
    let mut message = owned(prefix);
    message.append(name);
    Status { code: Code::NotFound, message }
}

fn invalid_argument(message: &str) -> (res: Status)
    ensures
        res.code == Code::InvalidArgument,
        res.message@ == message@,
{
    Status { code: Code::InvalidArgument, message: owned(message) }
}

/// The description of `node` to send.
pub fn node_response(node: &NodeInfo) -> (res: NodeInfoResponse)
    ensures
        describes_node(res, *node),
{
    let mut nodes: Vec<(String, String)> = Vec::new();
    let mut i: usize = 0;
    while i < node.nodes.len()
        invariant
            i <= node.nodes.len(),
            string_pair_views(nodes@) == child_node_pairs(node.nodes@).take(i as int),
        decreases node.nodes.len() - i,
    {
        let ghost prev = nodes@;
        assert(prev.len() == i) by {
            assert(string_pair_views(prev).len() == i);
        }
        nodes.push((node.nodes[i].key.clone(), node.nodes[i].name.clone()));
        assert(string_pair_views(nodes@) =~= child_node_pairs(node.nodes@).take(i + 1)) by {
            assert(nodes@ == prev.push(nodes@.last()));
        }
        i = i + 1;
    }
    assert(child_node_pairs(node.nodes@).take(node.nodes.len() as int) == child_node_pairs(node.nodes@));
    let mut attrs: Vec<String> = Vec::new();
    let mut j: usize = 0;
    while j < node.attrs.len()
        invariant
            j <= node.attrs.len(),
            string_views(attrs@) == top_attr_names(node.attrs@.take(j as int)),
        decreases node.attrs.len() - j,
    {
        let ghost prev = attrs@;
        assert(node.attrs@.take(j + 1).drop_last() == node.attrs@.take(j as int));
        if node.attrs[j].path.len() == 1 {
            attrs.push(node.attrs[j].path[0].clone());
            assert(string_views(attrs@) =~= string_views(prev).push(node.attrs@[j as int].path@[0]@));
        }
        j = j + 1;
    }
    assert(node.attrs@.take(node.attrs.len() as int) == node.attrs@);
    NodeInfoResponse { kind: node.kind.clone(), name: node.name.clone(), nodes, attrs }
}

/// The names of all nodes.
pub fn nodes(introspection: &Introspection) -> (res: Vec<String>)
    ensures
        string_views(res@) == node_names(introspection.nodes@),
{
    let mut res: Vec<String> = Vec::new();
    let mut i: usize = 0;
    while i < introspection.nodes.len()
        invariant
            i <= introspection.nodes.len(),
            string_views(res@) == node_names(introspection.nodes@).take(i as int),
        decreases introspection.nodes.len() - i,
    {
        let ghost prev = res@;
        assert(prev.len() == i) by {
            assert(string_views(prev).len() == i);
        }
        res.push(introspection.nodes[i].name.clone());
        assert(string_views(res@) =~= node_names(introspection.nodes@).take(i + 1)) by {
            assert(res@ == prev.push(res@.last()));
        }
        i = i + 1;
    }
    assert(node_names(introspection.nodes@).take(introspection.nodes.len() as int) == node_names(
        introspection.nodes@,
    ));
    res
}

/// The names of all inputs.
pub fn inputs(introspection: &Introspection) -> (res: Vec<String>)
    ensures
        string_views(res@) == introspection.inputs@.map_values(|i: crate::introspection::InputInfo| i.name@),
{
    let ghost names = introspection.inputs@.map_values(|i: crate::introspection::InputInfo| i.name@);
    let mut res: Vec<String> = Vec::new();
    let mut i: usize = 0;
    while i < introspection.inputs.len()
        invariant
            i <= introspection.inputs.len(),
            names == introspection.inputs@.map_values(|i: crate::introspection::InputInfo| i.name@),
            string_views(res@) == names.take(i as int),
        decreases introspection.inputs.len() - i,
    {
        let ghost prev = res@;
        assert(prev.len() == i) by {
            assert(string_views(prev).len() == i);
        }
        res.push(introspection.inputs[i].name.clone());
        assert(string_views(res@) =~= names.take(i + 1)) by {
            assert(res@ == prev.push(res@.last()));
        }
        i = i + 1;
    }
    assert(names.take(introspection.inputs.len() as int) == names);
    res
}

/// The description of the root node.
pub fn root_info(introspection: &Introspection) -> (res: NodeInfoResponse)
    ensures
        describes_node(res, introspection.root),
{
    node_response(&introspection.root)
}

/// The description of the node called `name`, or `NotFound`.
pub fn node_info(introspection: &Introspection, name: &str) -> (res: Result<NodeInfoResponse, Status>)
    ensures
        match res {
            Ok(r) => exists|i: usize|
                first_node_named(introspection.nodes@, name@, Some(i)) && describes_node(
                    r,
                    #[trigger] introspection.nodes@[i as int],
                ),
            Err(s) => first_node_named(introspection.nodes@, name@, None) && s.code == Code::NotFound
                && s.message@ == no_such_node(name@),
        },
{
    match introspection.find_node(name) {
        Some(i) => Ok(node_response(&introspection.nodes[i])),
        None => Err(not_found("No such node: ", name)),
    }
}

/// The description of an input, or `NotFound`.
pub fn input_info(introspection: &Introspection, name: &str) -> (res: Result<InputInfoResponse, Status>)
    ensures
        match res {
            Ok(r) => exists|i: usize|
                first_input_named(introspection.inputs@, name@, Some(i)) && r.name@
                    == (#[trigger] introspection.inputs@[i as int]).name@ && r.value_type == wire_type(
                    introspection.inputs@[i as int].value_type,
                ),
            Err(s) => first_input_named(introspection.inputs@, name@, None) && s.code == Code::NotFound
                && s.message@ == no_such_input(name@),
        },
{
    match introspection.find_input(name) {
        Some(i) => {
            let input = &introspection.inputs[i];
            let value_type = match input.value_type {
                ValueType::Trigger => InputValueType::Trigger,
                ValueType::Bool => InputValueType::Bool,
                ValueType::Integer => InputValueType::Integer,
                ValueType::Decimal => InputValueType::Decimal,
                ValueType::Color => InputValueType::Color,
                ValueType::IntegerRange => InputValueType::IntegerRange,
                ValueType::DecimalRange => InputValueType::DecimalRange,
                ValueType::ColorRange => InputValueType::ColorRange,
            };
            Ok(InputInfoResponse { name: input.name.clone(), value_type })
        },
        None => Err(not_found("No such input: ", name)),
    }
}

/// The attribute reference of a request, or why there is none to answer.
pub open spec fn attr_lookup(introspection: Introspection, attr: Option<AttrRef>) -> Result<(int, int), (Code, Seq<char>)> {
    match attr {
        None => Err((Code::InvalidArgument, "Value missing: attr"@)),
        Some(r) => {
            let nodes = introspection.nodes@;
            if exists|i: usize| first_node_named(nodes, r.node@, Some(i)) {
                let i = choose|i: usize| first_node_named(nodes, r.node@, Some(i));
                let attrs = nodes[i as int].attrs@;
                if exists|j: usize| first_attr_at(attrs, string_views(r.path@), Some(j)) {
                    let j = choose|j: usize| first_attr_at(attrs, string_views(r.path@), Some(j));
                    Ok((i as int, j as int))
                } else {
                    Err((Code::NotFound, no_such_attr(r.node@, string_views(r.path@))))
                }
            } else {
                Err((Code::NotFound, no_such_node(r.node@)))
            }
        },
    }
}

/// The description of an attribute, or why it cannot be given: the request
/// lacks the reference, the node or the attribute does not exist.
pub fn attr_info(introspection: &Introspection, attr: Option<AttrRef>) -> (res: Result<AttrInfoResponse, Status>)
    ensures
        match (res, attr_lookup(*introspection, attr)) {
            (Ok(r), Ok((i, j))) => {
                let node = introspection.nodes@[i];
                let info = node.attrs@[j];
                &&& r.attr matches Some(a) && a.node@ == attr->0.node@ && string_views(a.path@) == string_views(
                    attr->0.path@,
                )
                &&& r.kind@ == info.kind@
                &&& r.value_type@ == info.value_type@
                &&& string_views(r.attrs@) == child_attr_names(node.attrs@, string_views(info.path@))
                &&& string_pair_views(r.inputs@) == string_pair_views(info.inputs@)
            },
            (Err(s), Err((code, message))) => s.code == code && s.message@ == message,
            _ => false,
        },
{
    let attr_ref = match attr {
        Some(r) => r,
        None => return Err(invalid_argument("Value missing: attr")),
    };
    let i = match introspection.find_node(attr_ref.node.as_str()) {
        Some(i) => i,
        None => return Err(not_found("No such node: ", attr_ref.node.as_str())),
    };
    let node = &introspection.nodes[i];
    let j = match node.find_attr(attr_ref.path.as_slice()) {
        Some(j) => j,
        None => {
            let mut message = owned("No such attribute: ");
            message.append(attr_ref.node.as_str());
            message.append("/");
            let path = join(attr_ref.path.as_slice(), "/");
            message.append(path.as_str());
            return Err(Status { code: Code::NotFound, message });
        },
    };
    let info = &node.attrs[j];
    let mut attrs: Vec<String> = Vec::new();
    let mut k: usize = 0;
    let ghost parent = string_views(info.path@);
    while k < node.attrs.len()
        invariant
            k <= node.attrs.len(),
            parent == string_views(info.path@),
            string_views(attrs@) == child_attr_names(node.attrs@.take(k as int), parent),
        decreases node.attrs.len() - k,
    {
        let ghost prev = attrs@;
        assert(node.attrs@.take(k + 1).drop_last() == node.attrs@.take(k as int));
        let candidate = &node.attrs[k];
        if candidate.path.len() > 0 && candidate.path.len() - 1 == info.path.len() {
            let n = info.path.len();
            if strings_prefix_eq(candidate.path.as_slice(), info.path.as_slice()) {
                attrs.push(candidate.path[n].clone());
                assert(string_views(candidate.path@).drop_last() =~= parent);
                assert(string_views(attrs@) =~= string_views(prev).push(string_views(candidate.path@).last()));
            } else {
                assert(string_views(candidate.path@).drop_last() != parent);
            }
        }
        k = k + 1;
    }
    assert(node.attrs@.take(node.attrs.len() as int) == node.attrs@);
    let path = copy_strings(attr_ref.path.as_slice());
    Ok(AttrInfoResponse {
        attr: Some(AttrRef { node: attr_ref.node.clone(), path }),
        kind: info.kind.clone(),
        value_type: info.value_type.clone(),
        attrs,
        inputs: copy_pairs(&info.inputs),
    })
}

/// Whether `prefix` is the start of `path`, element by element.
fn strings_prefix_eq(path: &[String], prefix: &[String]) -> (res: bool)
    requires
        prefix.len() <= path.len(),
    ensures
        res == (string_views(path@).take(prefix.len() as int) == string_views(prefix@)),
{
    let n = prefix.len();
    let mut i: usize = 0;
    while i < n
        invariant
            n == prefix.len(),
            n <= path.len(),
            i <= n,
            forall|j: int| 0 <= j < i ==> path@[j]@ == prefix@[j]@,
        decreases n - i,
    {
        if !crate::text::str_eq(path[i].as_str(), prefix[i].as_str()) {
            assert(string_views(path@).take(n as int)[i as int] != string_views(prefix@)[i as int]);
            return false;
        }
        i = i + 1;
    }
    assert(string_views(path@).take(n as int) =~= string_views(prefix@));
    true
}

/// The value that a request carries for an input of type `t`, or the
/// message that refuses it.
pub open spec fn decode_value(t: ValueType, value: Option<InputValue>) -> Result<AnyInputValue, Seq<char>> {
    match value {
        None => Err("Value missing"@),
        Some(message) => match message.value {
            None => Err("Value missing"@),
            Some(v) => match (t, v) {
                (ValueType::Trigger, Value::Trigger) => Ok(AnyInputValue::Trigger),
                (ValueType::Bool, Value::Bool(b)) => Ok(AnyInputValue::Boolean(b)),
                (ValueType::Integer, Value::Integer(n)) => Ok(AnyInputValue::Integer(n)),
                (ValueType::Decimal, Value::Decimal(d)) => Ok(AnyInputValue::Decimal(d)),
                (ValueType::Color, Value::Color(c)) => Ok(AnyInputValue::Color(RgbBits { red: c.r, green: c.g, blue: c.b })),
                (ValueType::IntegerRange, Value::IntegerRange { a, b }) => Ok(AnyInputValue::IntegerRange(a, b)),
                (ValueType::DecimalRange, Value::DecimalRange { a, b }) => Ok(AnyInputValue::DecimalRange(a, b)),
                (ValueType::ColorRange, Value::ColorRange { a, b }) => match (a, b) {
                    (Some(a), Some(b)) => Ok(
                        AnyInputValue::ColorRange(
                            RgbBits { red: a.r, green: a.g, blue: a.b },
                            RgbBits { red: b.r, green: b.g, blue: b.b },
                        ),
                    ),
                    _ => Err("Value missing"@),
                },
                _ => Err("Value of wrong type"@),
            },
        },
    }
}

fn bits_of(c: Rgb) -> (res: RgbBits)
    ensures
        res == (RgbBits { red: c.r, green: c.g, blue: c.b }),
{
    RgbBits { red: c.r, green: c.g, blue: c.b }
}

/// Checks a request to set an input: the input must exist, and the request
/// must carry a value of the input's type. The answer names the input by
/// its position and gives the value to send to it.
pub fn input_send(introspection: &Introspection, name: &str, value: Option<InputValue>) -> (res: Result<
    (usize, AnyInputValue),
    Status,
>)
    ensures
        match res {
            Ok((i, v)) => first_input_named(introspection.inputs@, name@, Some(i)) && decode_value(
                introspection.inputs@[i as int].value_type,
                value,
            ) == Ok::<AnyInputValue, Seq<char>>(v),
            Err(s) => if first_input_named(introspection.inputs@, name@, None) {
                s.code == Code::NotFound && s.message@ == no_such_input(name@)
            } else {
                exists|i: usize|
                    first_input_named(introspection.inputs@, name@, Some(i)) && decode_value(
                        (#[trigger] introspection.inputs@[i as int]).value_type,
                        value,
                    ) == Err::<AnyInputValue, Seq<char>>(s.message@) && s.code == Code::InvalidArgument
            },
        },
{
    let i = match introspection.find_input(name) {
        Some(i) => i,
        None => return Err(not_found("No such input: ", name)),
    };
    let t = introspection.inputs[i].value_type;
    let v = match value {
        None => return Err(invalid_argument("Value missing")),
        Some(message) => match message.value {
            None => return Err(invalid_argument("Value missing")),
            Some(v) => v,
        },
    };
    let decoded = match (t, v) {
        (ValueType::Trigger, Value::Trigger) => AnyInputValue::Trigger,
        (ValueType::Bool, Value::Bool(b)) => AnyInputValue::Boolean(b),
        (ValueType::Integer, Value::Integer(n)) => AnyInputValue::Integer(n),
        (ValueType::Decimal, Value::Decimal(d)) => AnyInputValue::Decimal(d),
        (ValueType::Color, Value::Color(c)) => AnyInputValue::Color(bits_of(c)),
        (ValueType::IntegerRange, Value::IntegerRange { a, b }) => AnyInputValue::IntegerRange(a, b),
        (ValueType::DecimalRange, Value::DecimalRange { a, b }) => AnyInputValue::DecimalRange(a, b),
        (ValueType::ColorRange, Value::ColorRange { a, b }) => match (a, b) {
            (Some(a), Some(b)) => AnyInputValue::ColorRange(bits_of(a), bits_of(b)),
            _ => return Err(invalid_argument("Value missing")),
        },
        _ => return Err(invalid_argument("Value of wrong type")),
    };
    Ok((i, decoded))
}

/// The message for a value that the input refused when it was sent.
pub open spec fn invalid_value(reason: Seq<char>) -> Seq<char> {
    "Invalid value: "@ + reason
}

/// The answer to a send request, given what the input made of the value
/// that [`input_send`] decoded: success, or `InvalidArgument` with the
/// input's reason.
pub fn send_answer(sent: Result<(), String>) -> (res: Result<(), Status>)
    ensures
        match sent {
            Ok(()) => res is Ok,
            Err(reason) => res matches Err(s) && s.code == Code::InvalidArgument && s.message@ == invalid_value(
                reason@,
            ),
        },
{
    match sent {
        Ok(()) => Ok(()),
        Err(reason) => {
            let mut message = owned("Invalid value: ");
            message.append(reason.as_str());
            Err(Status { code: Code::InvalidArgument, message })
        },
    }
}

/// The input whose values a subscription follows, by its position, or
/// `NotFound`; each value that the input takes is then sent as
/// [`subscribe_value`] writes it.
pub fn input_subscribe(introspection: &Introspection, name: &str) -> (res: Result<usize, Status>)
    ensures
        match res {
            Ok(i) => first_input_named(introspection.inputs@, name@, Some(i)),
            Err(s) => first_input_named(introspection.inputs@, name@, None) && s.code == Code::NotFound
                && s.message@ == no_such_input(name@),
        },
{
    match introspection.find_input(name) {
        Some(i) => Ok(i),
        None => Err(not_found("No such input: ", name)),
    }
}

/// The message that reports a value an input took to a subscriber.
pub open spec fn wire_value(v: AnyInputValue) -> Value {
    match v {
        AnyInputValue::Trigger => Value::Trigger,
        AnyInputValue::Boolean(b) => Value::Bool(b),
        AnyInputValue::Integer(n) => Value::Integer(n),
        AnyInputValue::Decimal(d) => Value::Decimal(d),
        AnyInputValue::Color(c) => Value::Color(Rgb { r: c.red, g: c.green, b: c.blue }),
        AnyInputValue::IntegerRange(a, b) => Value::IntegerRange { a, b },
        AnyInputValue::DecimalRange(a, b) => Value::DecimalRange { a, b },
        AnyInputValue::ColorRange(a, b) => Value::ColorRange {
            a: Some(Rgb { r: a.red, g: a.green, b: a.blue }),
            b: Some(Rgb { r: b.red, g: b.green, b: b.blue }),
        },
    }
}

/// Converts a value that an input took into the message for its
/// subscribers.
pub fn subscribe_value(v: AnyInputValue) -> (res: InputValue)
    ensures
        res.value == Some(wire_value(v)),
{
    let value = match v {
        AnyInputValue::Trigger => Value::Trigger,
        AnyInputValue::Boolean(b) => Value::Bool(b),
        AnyInputValue::Integer(n) => Value::Integer(n),
        AnyInputValue::Decimal(d) => Value::Decimal(d),
        AnyInputValue::Color(c) => Value::Color(Rgb { r: c.red, g: c.green, b: c.blue }),
        AnyInputValue::IntegerRange(a, b) => Value::IntegerRange { a, b },
        AnyInputValue::DecimalRange(a, b) => Value::DecimalRange { a, b },
        AnyInputValue::ColorRange(a, b) => Value::ColorRange {
            a: Some(Rgb { r: a.red, g: a.green, b: a.blue }),
            b: Some(Rgb { r: b.red, g: b.green, b: b.blue }),
        },
    };
    InputValue { value: Some(value) }
}

/// What a subscriber receives, sent back to an input of the same type, is
/// accepted as the very value it reports.
pub proof fn lemma_subscribed_value_is_accepted(v: AnyInputValue)
    ensures
        decode_value(v.type_of(), Some(InputValue { value: Some(wire_value(v)) })) == Ok::<
            AnyInputValue,
            Seq<char>,
        >(v),
{
}

/// A request carries a value of the input's type or is refused with one of
/// two messages.
pub proof fn lemma_decode_refusals(t: ValueType, value: Option<InputValue>)
    ensures
        decode_value(t, value) matches Ok(v) ==> v.type_of() == t,
        decode_value(t, value) matches Err(m) ==> m == "Value missing"@ || m == "Value of wrong type"@,
{
}

/// A request that carries `x`.
pub open spec fn carrying(x: Value) -> Option<InputValue> {
    Some(InputValue { value: Some(x) })
}

/// The protocol value type that a value on the wire belongs to: the type
/// of the same name as its variant.
pub open spec fn value_wire_type(x: Value) -> InputValueType {
    match x {
        Value::Trigger => InputValueType::Trigger,
        Value::Bool(_) => InputValueType::Bool,
        Value::Integer(_) => InputValueType::Integer,
        Value::Decimal(_) => InputValueType::Decimal,
        Value::Color(_) => InputValueType::Color,
        Value::IntegerRange { .. } => InputValueType::IntegerRange,
        Value::DecimalRange { .. } => InputValueType::DecimalRange,
        Value::ColorRange { .. } => InputValueType::ColorRange,
    }
}

/// A value that a request carries for an input of its own type is taken as
/// it is: truth values and numbers unchanged, a color channel by channel
/// (red from `r`, green from `g`, blue from `b`), and a range end by end,
/// `a` first; a color range without both ends is refused.
pub proof fn lemma_decode_keeps_values(x: Value)
    ensures
        match x {
            Value::Trigger => decode_value(ValueType::Trigger, carrying(x)) == Ok::<AnyInputValue, Seq<char>>(
                AnyInputValue::Trigger,
            ),
            Value::Bool(b) => decode_value(ValueType::Bool, carrying(x)) == Ok::<AnyInputValue, Seq<char>>(
                AnyInputValue::Boolean(b),
            ),
            Value::Integer(n) => decode_value(ValueType::Integer, carrying(x)) == Ok::<AnyInputValue, Seq<char>>(
                AnyInputValue::Integer(n),
            ),
            Value::Decimal(d) => decode_value(ValueType::Decimal, carrying(x)) == Ok::<AnyInputValue, Seq<char>>(
                AnyInputValue::Decimal(d),
            ),
            Value::Color(c) => decode_value(ValueType::Color, carrying(x)) == Ok::<AnyInputValue, Seq<char>>(
                AnyInputValue::Color(RgbBits { red: c.r, green: c.g, blue: c.b }),
            ),
            Value::IntegerRange { a, b } => decode_value(ValueType::IntegerRange, carrying(x)) == Ok::<
                AnyInputValue,
                Seq<char>,
            >(AnyInputValue::IntegerRange(a, b)),
            Value::DecimalRange { a, b } => decode_value(ValueType::DecimalRange, carrying(x)) == Ok::<
                AnyInputValue,
                Seq<char>,
            >(AnyInputValue::DecimalRange(a, b)),
            Value::ColorRange { a, b } => match (a, b) {
                (Some(a), Some(b)) => decode_value(ValueType::ColorRange, carrying(x)) == Ok::<
                    AnyInputValue,
                    Seq<char>,
                >(
                    AnyInputValue::ColorRange(
                        RgbBits { red: a.r, green: a.g, blue: a.b },
                        RgbBits { red: b.r, green: b.g, blue: b.b },
                    ),
                ),
                _ => decode_value(ValueType::ColorRange, carrying(x)) == Err::<AnyInputValue, Seq<char>>(
                    "Value missing"@,
                ),
            },
        },
{
}

/// What a subscriber receives for a value that an input took is that value:
/// truth values and numbers unchanged, a color channel by channel (`r` from
/// red, `g` from green, `b` from blue), and a range end by end; a trigger
/// is reported as a trigger.
pub proof fn lemma_subscribers_receive_values(v: AnyInputValue)
    ensures
        match v {
            AnyInputValue::Trigger => wire_value(v) == Value::Trigger,
            AnyInputValue::Boolean(b) => wire_value(v) == Value::Bool(b),
            AnyInputValue::Integer(n) => wire_value(v) == Value::Integer(n),
            AnyInputValue::Decimal(d) => wire_value(v) == Value::Decimal(d),
            AnyInputValue::Color(c) => wire_value(v) == Value::Color(Rgb { r: c.red, g: c.green, b: c.blue }),
            AnyInputValue::IntegerRange(a, b) => wire_value(v) == (Value::IntegerRange { a, b }),
            AnyInputValue::DecimalRange(a, b) => wire_value(v) == (Value::DecimalRange { a, b }),
            AnyInputValue::ColorRange(a, b) => wire_value(v) == (Value::ColorRange {
                a: Some(Rgb { r: a.red, g: a.green, b: a.blue }),
                b: Some(Rgb { r: b.red, g: b.green, b: b.blue }),
            }),
        },
        value_wire_type(wire_value(v)) == wire_type(v.type_of()),
{
}

/// The protocol names each value type once: the client reads back the type
/// that the server announces, an input announced with protocol type `w`
/// takes only values of the variant of that name, and it takes every such
/// value (a color range with both ends).
pub proof fn lemma_wire_types(t: ValueType, w: InputValueType, x: Value)
    ensures
        value_type_of(wire_type(t)) == t,
        wire_type(value_type_of(w)) == w,
        decode_value(value_type_of(w), carrying(x)) is Ok ==> value_wire_type(x) == w,
        value_wire_type(x) == w && !(x matches Value::ColorRange { a, b } && (a is None || b is None))
            ==> decode_value(value_type_of(w), carrying(x)) is Ok,
{
}

} // verus!
