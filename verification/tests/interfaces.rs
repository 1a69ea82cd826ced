use photonic_fx::grpc_client::values::{parse_value, TextValue, ValueType};
use photonic_fx::interface_cli::{invalid_value_reply, respond, respond_words, CliAction};
use photonic_fx::interface_grpc::{
    attr_info, input_info, input_send, input_subscribe, send_answer, node_info, nodes, root_info, subscribe_value, Code, GRPC,
};
use photonic_fx::interface_grpc::inputs as input_names;
use photonic_fx::interface_mqtt::{payload, Realm};
use photonic_fx::interface_restore::{persisted, restore_entry, RestoreData, RestoreStep, StoredValue};
use photonic_fx::introspection::{AnyInputValue, AttrInfo, InputInfo, Introspection, NodeInfo, NodeRef, RgbBits};
use photonic_fx::lua::node::Lua;
use photonic_fx::proto::{AttrRef, InputValue, InputValueType, Rgb, Value};

fn s(v: &str) -> String {
    v.to_string()
}

fn scene() -> Introspection {
    let wheel = NodeInfo {
        name: s("wheel"),
        kind: s("color_wheel"),
        nodes: vec![],
        attrs: vec![
            AttrInfo { path: vec![s("speed")], kind: s("fader"), value_type: s("f32"), inputs: vec![] },
            AttrInfo {
                path: vec![s("speed"), s("input")],
                kind: s("input"),
                value_type: s("f32"),
                inputs: vec![(s("input"), s("speed"))],
            },
        ],
    };
    let root = NodeInfo {
        name: s("root"),
        kind: s("brightness"),
        nodes: vec![NodeRef { key: s("source"), name: s("wheel"), kind: s("color_wheel") }],
        attrs: vec![AttrInfo { path: vec![s("value")], kind: s("fixed"), value_type: s("f32"), inputs: vec![] }],
    };
    Introspection {
        root: root,
        nodes: vec![
            NodeInfo { name: s("root"), kind: s("brightness"), nodes: vec![], attrs: vec![] },
            wheel,
        ],
        inputs: vec![
            InputInfo { name: s("speed"), value_type: ValueType::Decimal },
            InputInfo { name: s("go"), value_type: ValueType::Trigger },
            InputInfo { name: s("count"), value_type: ValueType::Integer },
        ],
    }
}

#[test]
fn cli_lists_and_shows() {
    let scene = scene();
    assert_eq!(respond(&scene, "node").output, "root = [brightness]\nwheel = [color_wheel]\n");
    assert_eq!(
        respond(&scene, "node wheel").output,
        "Node 'wheel':\n  Kind: color_wheel\n  Nodes: color_wheel\n  Attributes: color_wheel\n    speed : f32 = [fader]\n"
    );
    assert_eq!(respond(&scene, "node nope").output, "No such node: 'nope'\n");
    assert_eq!(respond(&scene, "input").output, "speed : decimal\ngo : trigger\ncount : integer\n");
    assert_eq!(respond(&scene, "input count").output, "Input 'count':\n  Value: integer\n");
    assert_eq!(respond(&scene, "input nope").output, "No such input: 'nope'\n");
    assert_eq!(respond(&scene, "blink").output, "Unknown command: 'blink'\n");
}

#[test]
fn cli_exit_send_and_bad_lines() {
    let scene = scene();
    assert!(matches!(respond(&scene, "exit").action, CliAction::Exit));
    let step = respond(&scene, "input 'count' \"42\"");
    assert_eq!(step.output, "");
    match step.action {
        CliAction::Send { input, value } => {
            assert_eq!(input, 2);
            assert_eq!(value, "42");
        },
        _ => panic!("expected a send"),
    }
    let step = respond(&scene, "node \"unclosed");
    assert_eq!(step.output, "Invalid input\n");
    assert!(matches!(step.action, CliAction::Continue));
    let step = respond(&scene, "   ");
    assert_eq!(step.output, "");
    assert!(matches!(step.action, CliAction::Continue));
    assert!(matches!(respond_words(&scene, None).action, CliAction::Continue));
}

#[test]
fn grpc_lists_and_describes_nodes() {
    let scene = scene();
    assert!(GRPC::new().is_ok());
    assert_eq!(nodes(&scene), vec![s("root"), s("wheel")]);
    assert_eq!(input_names(&scene), vec![s("speed"), s("go"), s("count")]);
    let root = root_info(&scene);
    assert_eq!(root.name, "root");
    assert_eq!(root.nodes, vec![(s("source"), s("wheel"))]);
    assert_eq!(root.attrs, vec![s("value")]);
    let wheel = node_info(&scene, "wheel").ok().unwrap();
    assert_eq!(wheel.kind, "color_wheel");
    assert_eq!(wheel.attrs, vec![s("speed")]);
    let err = node_info(&scene, "nope").err().unwrap();
    assert_eq!(err.code, Code::NotFound);
    assert_eq!(err.message, "No such node: nope");
}

#[test]
fn grpc_describes_attributes() {
    let scene = scene();
    let info = attr_info(&scene, Some(AttrRef { node: s("wheel"), path: vec![s("speed")] })).ok().unwrap();
    assert_eq!(info.kind, "fader");
    assert_eq!(info.attrs, vec![s("input")]);
    let info = attr_info(&scene, Some(AttrRef { node: s("wheel"), path: vec![s("speed"), s("input")] })).ok().unwrap();
    assert_eq!(info.inputs, vec![(s("input"), s("speed"))]);
    assert!(info.attrs.is_empty());
    let err = attr_info(&scene, None).err().unwrap();
    assert_eq!((err.code, err.message.as_str()), (Code::InvalidArgument, "Value missing: attr"));
    let err = attr_info(&scene, Some(AttrRef { node: s("x"), path: vec![] })).err().unwrap();
    assert_eq!((err.code, err.message.as_str()), (Code::NotFound, "No such node: x"));
    let err = attr_info(&scene, Some(AttrRef { node: s("wheel"), path: vec![s("a"), s("b")] })).err().unwrap();
    assert_eq!((err.code, err.message.as_str()), (Code::NotFound, "No such attribute: wheel/a/b"));
}

#[test]
fn grpc_describes_inputs() {
    let scene = scene();
    let info = input_info(&scene, "go").ok().unwrap();
    assert_eq!(info.value_type, InputValueType::Trigger);
    let err = input_info(&scene, "nope").err().unwrap();
    assert_eq!(err.message, "No such input: nope");
}

#[test]
fn grpc_subscribes_to_named_inputs() {
    let scene = scene();
    let i = input_subscribe(&scene, "count").ok().unwrap();
    assert_eq!(scene.inputs[i].name, "count");
    let err = input_subscribe(&scene, "nope").err().unwrap();
    assert_eq!(err.code, Code::NotFound);
    assert_eq!(err.message, "No such input: nope");
}

#[test]
fn grpc_checks_sent_values() {
    let scene = scene();
    let v = |value| Some(InputValue { value: Some(value) });
    let ok = input_send(&scene, "count", v(Value::Integer(5))).ok().unwrap();
    assert_eq!(ok, (2, AnyInputValue::Integer(5)));
    let ok = input_send(&scene, "speed", v(Value::Decimal(1.5f32.to_bits()))).ok().unwrap();
    assert_eq!(ok, (0, AnyInputValue::Decimal(1.5f32.to_bits())));
    let err = input_send(&scene, "count", v(Value::Bool(true))).err().unwrap();
    assert_eq!((err.code, err.message.as_str()), (Code::InvalidArgument, "Value of wrong type"));
    let err = input_send(&scene, "count", None).err().unwrap();
    assert_eq!(err.message, "Value missing");
    let err = input_send(&scene, "count", Some(InputValue { value: None })).err().unwrap();
    assert_eq!(err.message, "Value missing");
    let err = input_send(&scene, "nope", None).err().unwrap();
    assert_eq!((err.code, err.message.as_str()), (Code::NotFound, "No such input: nope"));
}

#[test]
fn grpc_color_range_needs_both_ends() {
    let scene = Introspection {
        root: NodeInfo { name: s("r"), kind: s("k"), nodes: vec![], attrs: vec![] },
        nodes: vec![],
        inputs: vec![InputInfo { name: s("c"), value_type: ValueType::ColorRange }],
    };
    let red = Rgb { r: 1.0f32.to_bits(), g: 0, b: 0 };
    let half = InputValue { value: Some(Value::ColorRange { a: Some(red), b: None }) };
    assert_eq!(input_send(&scene, "c", Some(half)).err().unwrap().message, "Value missing");
    let full = InputValue { value: Some(Value::ColorRange { a: Some(red), b: Some(red) }) };
    let bits = RgbBits { red: 1.0f32.to_bits(), green: 0, blue: 0 };
    assert_eq!(input_send(&scene, "c", Some(full)).ok().unwrap().1, AnyInputValue::ColorRange(bits, bits));
}

#[test]
fn grpc_subscribed_values_are_accepted_back() {
    let scene = scene();
    let message = subscribe_value(AnyInputValue::Integer(-3));
    assert_eq!(message.value, Some(Value::Integer(-3)));
    assert_eq!(input_send(&scene, "count", Some(message)).ok().unwrap().1, AnyInputValue::Integer(-3));
    assert_eq!(subscribe_value(AnyInputValue::Trigger).value, Some(Value::Trigger));
}

#[test]
fn mqtt_topics() {
    let realm = Realm::from("photonic/");
    assert_eq!(realm.topic("status"), "photonic/status");
    assert_eq!(realm.status_topic(), "photonic/status");
    assert_eq!(realm.input_topic("speed"), "photonic/input/speed");
    assert_eq!(realm.input_set_topic("speed"), "photonic/input/speed/set");
    assert_eq!(realm.input_set_filter(), "photonic/input/+/set");
    assert_eq!(Realm::from("a//").topic("x"), "a//x");
    assert_eq!(Realm::from("").topic("x"), "/x");
}

#[test]
fn mqtt_routes_set_topics_to_inputs() {
    let scene = scene();
    let realm = Realm::from("photonic");
    assert_eq!(realm.route(&scene, "photonic/input/count/set"), Some(2));
    assert_eq!(realm.route(&scene, "photonic/input/speed/set"), Some(0));
    assert_eq!(realm.route(&scene, "photonic/input/count"), None);
    assert_eq!(realm.route(&scene, "other/input/count/set"), None);
}

#[test]
fn mqtt_payloads() {
    assert_eq!(payload(AnyInputValue::Trigger), Some(s("")));
    assert_eq!(payload(AnyInputValue::Boolean(true)), Some(s("true")));
    assert_eq!(payload(AnyInputValue::Boolean(false)), Some(s("false")));
    assert_eq!(payload(AnyInputValue::Integer(-42)), Some(s("-42")));
    assert_eq!(payload(AnyInputValue::Integer(i64::MIN)), Some(i64::MIN.to_string()));
    assert_eq!(payload(AnyInputValue::IntegerRange(-3, 7)), Some(s("-3..7")));
    assert_eq!(payload(AnyInputValue::Decimal(0)), None);
    assert_eq!(payload(AnyInputValue::DecimalRange(0, 0)), None);
}

#[test]
fn restore_round_trip() {
    let scene = scene();
    let kept = persisted(AnyInputValue::Integer(9)).unwrap();
    assert_eq!(kept, StoredValue::Integer(9));
    match restore_entry(&scene, "count", kept) {
        RestoreStep::Send(i, v) => assert_eq!((i, v), (2, AnyInputValue::Integer(9))),
        _ => panic!("expected a send"),
    }
    assert!(persisted(AnyInputValue::Trigger).is_none());
}

#[test]
fn restore_mismatch_and_unknown() {
    let scene = scene();
    match restore_entry(&scene, "count", StoredValue::Boolean(true)) {
        RestoreStep::Mismatch(m) => assert_eq!(m, "Restore data type mismatch: count - ignoring"),
        _ => panic!("expected a mismatch"),
    }
    assert!(matches!(restore_entry(&scene, "gone", StoredValue::Integer(1)), RestoreStep::Skip));
    assert!(matches!(restore_entry(&scene, "go", StoredValue::Integer(1)), RestoreStep::Mismatch(_)));
}

#[test]
fn restore_data_reads_back_writes() {
    let mut data = RestoreData::new();
    assert_eq!(data.get("a"), None);
    data.record("a", AnyInputValue::Integer(1));
    data.record("b", AnyInputValue::Boolean(true));
    data.record("a", AnyInputValue::Integer(2));
    data.record("b", AnyInputValue::Trigger);
    assert_eq!(data.get("a"), Some(StoredValue::Integer(2)));
    assert_eq!(data.get("b"), Some(StoredValue::Boolean(true)));
    assert_eq!(data.entries.len(), 2);
}

#[test]
fn restore_data_inserts_loaded_values() {
    let mut data = RestoreData::new();
    data.insert("level", StoredValue::Integer(3));
    data.insert("span", StoredValue::IntegerRange(1, 4));
    data.insert("level", StoredValue::Integer(5));
    assert_eq!(data.get("level"), Some(StoredValue::Integer(5)));
    assert_eq!(data.get("span"), Some(StoredValue::IntegerRange(1, 4)));
    assert_eq!(data.get("other"), None);
    assert_eq!(data.entries.len(), 2);
}

#[test]
fn lua_with_path() {
    let lua = Lua::with_path(s("scripts/fire.lua"));
    assert_eq!(lua.path, "scripts/fire.lua");
    assert!(lua.settings.is_empty());
}

#[test]
fn mqtt_payloads_read_back() {
    for (value, t, expected) in [
        (AnyInputValue::Trigger, ValueType::Trigger, TextValue::Trigger),
        (AnyInputValue::Boolean(true), ValueType::Bool, TextValue::Boolean(true)),
        (AnyInputValue::Boolean(false), ValueType::Bool, TextValue::Boolean(false)),
        (AnyInputValue::Integer(0), ValueType::Integer, TextValue::Integer(0)),
        (AnyInputValue::Integer(-42), ValueType::Integer, TextValue::Integer(-42)),
        (AnyInputValue::Integer(i64::MIN), ValueType::Integer, TextValue::Integer(i64::MIN)),
        (AnyInputValue::Integer(i64::MAX), ValueType::Integer, TextValue::Integer(i64::MAX)),
        (AnyInputValue::IntegerRange(-3, 7), ValueType::IntegerRange, TextValue::IntegerRange(-3, 7)),
        (AnyInputValue::IntegerRange(i64::MIN, i64::MIN), ValueType::IntegerRange, TextValue::IntegerRange(i64::MIN, i64::MIN)),
    ] {
        let text = payload(value).unwrap();
        assert_eq!(parse_value(t, &text), Ok(expected));
    }
}

#[test]
fn grpc_answers_sends() {
    assert!(send_answer(Ok(())).is_ok());
    let err = send_answer(Err(s("out of range"))).err().unwrap();
    assert_eq!(err.code, Code::InvalidArgument);
    assert_eq!(err.message, "Invalid value: out of range");
}

#[test]
fn cli_refuses_values_with_a_reason() {
    assert_eq!(
        invalid_value_reply("abc", ValueType::Integer, "invalid digit found in string"),
        "Invalid value: 'abc' for integer: invalid digit found in string"
    );
}

#[test]
fn introspection_names_are_unique() {
    let mut scene = scene();
    assert!(scene.has_unique_names());
    scene.inputs.push(InputInfo { name: s("go"), value_type: ValueType::Bool });
    assert!(!scene.has_unique_names());
}

#[test]
fn integers_print_as_std_prints_them() {
    for n in [0, 7, -7, 10, -10, 1234567890, i64::MAX, i64::MIN, i64::MIN + 1] {
        assert_eq!(payload(AnyInputValue::Integer(n)), Some(n.to_string()));
    }
}
