use photonic_fx::grpc_client::attr::{contains_attr, Attr, AttrId};
use photonic_fx::grpc_client::input::{Input, InputId, InputSink};
use photonic_fx::grpc_client::node::{Node, NodeId};
use photonic_fx::grpc_client::output::{AttributeOutput, InputOutput, NodeOutput, ValueType as ValueTypeName};
use photonic_fx::grpc_client::values::{
    parse_bool, parse_color, parse_value, split_range, ParseValueError, RangeValue, TextValue, ValueType,
};
use photonic_fx::grpc_cli::commands::{AttrShow, InputSet};
use photonic_fx::proto::{AttrInfoResponse, AttrRef, InputInfoResponse, InputValueType, NodeInfoResponse};

fn s(v: &str) -> String {
    v.to_string()
}

#[test]
fn attr_id_extends_and_prints() {
    let id = AttrId::new(NodeId::from_str("wheel"), vec![s("speed")]);
    let id = id.extend(s("input"));
    assert_eq!(id.node().as_ref(), "wheel");
    assert_eq!(id.path(), &[s("speed"), s("input")]);
    assert_eq!(id.to_string(), "wheel@speed/input");
    assert_eq!(AttrId::new(NodeId::from_str("n"), vec![]).to_string(), "n@");
}

#[test]
fn attr_ids_compare_by_node_and_path() {
    let a = AttrId::new(NodeId::from_str("n"), vec![s("x")]);
    let b = AttrId::new(NodeId::from_str("n"), vec![s("x")]);
    let c = AttrId::new(NodeId::from_str("m"), vec![s("x")]);
    assert!(a.same(&b));
    assert!(!a.same(&c));
    assert!(contains_attr(&vec![c.clone(), b.clone()], &a));
    assert!(!contains_attr(&vec![c], &a));
}

#[test]
fn integer_ranges_parse() {
    assert_eq!(RangeValue::from_str("3..7"), Ok(RangeValue { a: 3, b: 7 }));
    assert_eq!(RangeValue::from_str("-2..-1"), Ok(RangeValue { a: -2, b: -1 }));
    assert_eq!(RangeValue::from_str("5"), Ok(RangeValue { a: 5, b: 5 }));
    assert_eq!(RangeValue::from_str("1...2"), Err(ParseValueError::InvalidInteger));
    assert_eq!(RangeValue::from_str("a..2"), Err(ParseValueError::InvalidInteger));
    assert_eq!(RangeValue::from_str(""), Err(ParseValueError::InvalidInteger));
    assert_eq!(RangeValue::from_str("+4"), Ok(RangeValue { a: 4, b: 4 }));
}

#[test]
fn value_type_names() {
    assert_eq!(ValueType::Trigger.name(), "trigger");
    assert_eq!(ValueType::IntegerRange.name(), "range<integer>");
    assert_eq!(ValueTypeName::from(InputValueType::ColorRange).0, "range<color>");
}

fn node_response() -> NodeInfoResponse {
    NodeInfoResponse {
        kind: s("splice"),
        name: s("main"),
        nodes: vec![(s("n1"), s("left")), (s("n2"), s("right")), (s("n1"), s("other"))],
        attrs: vec![s("split")],
    }
}

#[test]
fn node_from_info_and_lookups() {
    let node = Node::from_node_info(node_response());
    assert_eq!(node.name.as_ref(), "main");
    assert_eq!(node.kind, "splice");
    assert_eq!(node.attrs.len(), 1);
    assert_eq!(node.attrs[0].to_string(), "main@split");
    assert_eq!(node.node_id("n1").map(|n| n.to_string()), Some(s("other")));
    assert_eq!(node.node_id("n2").map(|n| n.to_string()), Some(s("right")));
    assert!(node.node_id("n3").is_none());
}

fn attr_response() -> AttrInfoResponse {
    AttrInfoResponse {
        attr: Some(AttrRef { node: s("main"), path: vec![s("color")] }),
        kind: s("fader"),
        value_type: s("rgb"),
        attrs: vec![s("input")],
        inputs: vec![(s("trigger"), s("button"))],
    }
}

#[test]
fn attr_from_info_and_lookups() {
    let attr = Attr::from_attr_info(attr_response());
    assert_eq!(attr.name.to_string(), "main@color");
    assert_eq!(attr.kind, "fader");
    assert_eq!(attr.value_type, "rgb");
    assert_eq!(attr.attrs[0].to_string(), "main@color/input");
    assert_eq!(attr.attr_id("input").map(|a| a.to_string()), Some(s("main@color/input")));
    assert!(attr.attr_id("other").is_none());
    assert_eq!(attr.input_id("trigger").map(|i| i.to_string()), Some(s("button")));
    assert!(attr.input_id("none").is_none());
}

#[test]
fn input_from_info_and_sink() {
    let input = Input::from_input_info(InputInfoResponse { name: s("speed"), value_type: InputValueType::Decimal });
    assert_eq!(input.name.as_ref(), "speed");
    assert_eq!(input.value_type, ValueType::Decimal);
    assert!(matches!(input.sink(), InputSink::Decimal(_)));
    let input = Input::from_input_info(InputInfoResponse { name: s("go"), value_type: InputValueType::Trigger });
    match input.sink() {
        InputSink::Trigger(sink) => assert_eq!(sink.input.name.as_ref(), "go"),
        _ => panic!("wrong sink"),
    }
}

#[test]
fn output_views_from_responses() {
    let out = NodeOutput::from(node_response());
    assert_eq!(out.name, "main");
    assert_eq!(out.nodes.len(), 3);
    assert_eq!(out.attrs[0].0, "split");
    let out = AttributeOutput::from(attr_response());
    assert_eq!(out.node.0, "main");
    assert_eq!(out.path[0].0, "color");
    assert_eq!(out.value_type.0, "rgb");
    let out = InputOutput::from(InputInfoResponse { name: s("x"), value_type: InputValueType::Bool });
    assert_eq!(out.name.0, "x");
    assert_eq!(out.value_type.0, "bool");
}

#[test]
fn attr_show_names_the_attribute() {
    let cmd = AttrShow { node: NodeId::from_str("n"), path: vec![s("a"), s("b")] };
    assert_eq!(cmd.attr_id().to_string(), "n@a/b");
    assert_eq!(InputId::from_str("q").to_string(), "q");
}

#[test]
fn booleans_parse_exactly() {
    assert_eq!(parse_bool("true"), Some(true));
    assert_eq!(parse_bool("false"), Some(false));
    assert_eq!(parse_bool("True"), None);
    assert_eq!(parse_bool(""), None);
    assert_eq!(parse_bool("true "), None);
}

#[test]
fn hex_colors_parse() {
    assert_eq!(parse_color("#ff8000"), Some((255, 128, 0)));
    assert_eq!(parse_color("ff8000"), Some((255, 128, 0)));
    assert_eq!(parse_color("#f80"), Some((255, 136, 0)));
    assert_eq!(parse_color("#ABCDEF"), Some((0xab, 0xcd, 0xef)));
    assert_eq!(parse_color("#ff80"), None);
    assert_eq!(parse_color("#gg0000"), None);
    assert_eq!(parse_color(""), None);
    assert_eq!(parse_color("#é00"), None);
    assert_eq!(parse_color("+f+f+f"), Some((15, 15, 15)));
    assert_eq!(parse_color("#+f0000"), Some((15, 0, 0)));
    assert_eq!(parse_color("#+f+"), None);
    assert_eq!(parse_color("-f0000"), None);
    assert_eq!(parse_color("##fff"), None);
}

#[test]
fn range_texts_split_at_the_first_dots() {
    assert_eq!(split_range("1.5..2"), (s("1.5"), s("2")));
    assert_eq!(split_range("0.25"), (s("0.25"), s("0.25")));
    assert_eq!(split_range("a...b"), (s("a"), s(".b")));
}

#[test]
fn values_parse_by_type() {
    assert_eq!(parse_value(ValueType::Trigger, "whatever"), Ok(TextValue::Trigger));
    assert_eq!(parse_value(ValueType::Bool, "true"), Ok(TextValue::Boolean(true)));
    assert_eq!(parse_value(ValueType::Bool, "yes"), Err(ParseValueError::InvalidBool));
    assert_eq!(parse_value(ValueType::Integer, "-42"), Ok(TextValue::Integer(-42)));
    assert_eq!(parse_value(ValueType::Integer, "4.2"), Err(ParseValueError::InvalidInteger));
    assert_eq!(parse_value(ValueType::Decimal, "0.5"), Ok(TextValue::Decimal(s("0.5"))));
    assert_eq!(parse_value(ValueType::Color, "#00ff00"), Ok(TextValue::Color((0, 255, 0))));
    assert_eq!(parse_value(ValueType::Color, "green"), Err(ParseValueError::InvalidColor));
    assert_eq!(parse_value(ValueType::IntegerRange, "2..9"), Ok(TextValue::IntegerRange(2, 9)));
    assert_eq!(parse_value(ValueType::IntegerRange, "7"), Ok(TextValue::IntegerRange(7, 7)));
    assert_eq!(parse_value(ValueType::IntegerRange, "2..x"), Err(ParseValueError::InvalidInteger));
    assert_eq!(parse_value(ValueType::DecimalRange, "0.1..0.9"), Ok(TextValue::DecimalRange(s("0.1"), s("0.9"))));
    assert_eq!(parse_value(ValueType::ColorRange, "#000..#fff"), Ok(TextValue::ColorRange((0, 0, 0), (255, 255, 255))));
    assert_eq!(parse_value(ValueType::ColorRange, "#123456"), Ok(TextValue::ColorRange((0x12, 0x34, 0x56), (0x12, 0x34, 0x56))));
    assert_eq!(parse_value(ValueType::ColorRange, "#000..red"), Err(ParseValueError::InvalidColor));
}

#[test]
fn input_set_reads_its_value_for_the_input_type() {
    let cmd = InputSet { input: InputId::from_str("brightness"), value: s("12") };
    assert_eq!(cmd.value_for(ValueType::Integer), Ok(TextValue::Integer(12)));
    assert_eq!(cmd.value_for(ValueType::Bool), Err(ParseValueError::InvalidBool));
    assert_eq!(cmd.value_for(ValueType::Decimal), Ok(TextValue::Decimal(s("12"))));
}

#[test]
fn integers_read_as_std_reads_them() {
    let read = |text: &str| parse_value(ValueType::Integer, text);
    for text in ["0", "-0", "+12", "00012", "9223372036854775807", "-9223372036854775808", "-1", "42"] {
        assert_eq!(read(text), Ok(TextValue::Integer(text.parse::<i64>().unwrap())), "{text}");
    }
    for text in ["", "+", "-", "--1", "+-1", "1a", " 1", "1 ", "9223372036854775808", "-9223372036854775809", "99999999999999999999", "٣"] {
        assert!(text.parse::<i64>().is_err());
        assert_eq!(read(text), Err(ParseValueError::InvalidInteger), "{text}");
    }
}
