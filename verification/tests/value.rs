use quickrjs::{from_js, to_js, Error, Host, HostKind, Value};

#[test]
fn primitives_convert_to_script_values() {
    assert_eq!(to_js(Host::Unit).unwrap(), Value::Undefined);
    assert_eq!(to_js(Host::Bool(true)).unwrap(), Value::Bool(true));
    assert_eq!(to_js(Host::Bool(false)).unwrap(), Value::Bool(false));
    assert_eq!(to_js(Host::Int(-7)).unwrap(), Value::Int(-7));
    assert_eq!(to_js(Host::Int(i32::MAX)).unwrap(), Value::Int(i32::MAX));
    assert_eq!(to_js(Host::Int(i32::MIN)).unwrap(), Value::Int(i32::MIN));
}

#[test]
fn text_converts_to_its_utf8_bytes() {
    assert_eq!(
        to_js(Host::Text("h\u{e9}".to_string())).unwrap(),
        Value::String(vec![b'h', 0xC3, 0xA9])
    );
    assert_eq!(to_js(Host::Text(String::new())).unwrap(), Value::String(Vec::new()));
}

#[test]
fn text_with_terminator_is_an_invalid_string() {
    match to_js(Host::Text("ab\0cd".to_string())).unwrap_err() {
        Error::InvalidString(e) => {
            assert_eq!(e.nul_position(), 2);
            assert_eq!(e.into_vec(), b"ab\0cd".to_vec());
        }
        other => panic!("unexpected error: {:?}", other),
    }
}

#[test]
fn terminator_position_counts_bytes_not_characters() {
    match to_js(Host::Text("\u{e9}\0".to_string())).unwrap_err() {
        Error::InvalidString(e) => assert_eq!(e.nul_position(), 2),
        other => panic!("unexpected error: {:?}", other),
    }
}

#[test]
fn unsupported_host_type_is_refused_by_name() {
    assert_eq!(
        to_js(Host::Other("socket")).unwrap_err(),
        Error::ToJsConversion { from: "socket", to: "value", message: None }
    );
}

#[test]
fn primitives_convert_back() {
    assert_eq!(from_js(Value::Undefined, HostKind::Unit).unwrap(), Host::Unit);
    assert_eq!(from_js(Value::Bool(true), HostKind::Bool).unwrap(), Host::Bool(true));
    assert_eq!(from_js(Value::Int(42), HostKind::Int).unwrap(), Host::Int(42));
    assert_eq!(
        from_js(Value::String(b"text".to_vec()), HostKind::Text).unwrap(),
        Host::Text("text".to_string())
    );
}

#[test]
fn text_round_trips() {
    for s in ["", "plain", "gr\u{fc}\u{df}e", "\u{1F600} and \u{4e2d}\u{6587}", "tab\tnewline\n"] {
        let value = to_js(Host::Text(s.to_string())).unwrap();
        assert_eq!(from_js(value, HostKind::Text).unwrap(), Host::Text(s.to_string()));
    }
}

#[test]
fn every_supported_host_value_round_trips() {
    let cases = vec![
        (Host::Unit, HostKind::Unit),
        (Host::Bool(false), HostKind::Bool),
        (Host::Int(-1), HostKind::Int),
        (Host::Text("x".to_string()), HostKind::Text),
    ];
    for (host, kind) in cases {
        let value = to_js(host.clone()).unwrap();
        assert_eq!(from_js(value, kind).unwrap(), host);
    }
}

#[test]
fn mismatched_shape_is_refused_by_name() {
    assert_eq!(
        from_js(Value::Bool(true), HostKind::Int).unwrap_err(),
        Error::FromJsConversion { from: "bool", to: "int", message: None }
    );
    assert_eq!(
        from_js(Value::Int(1), HostKind::Bool).unwrap_err(),
        Error::FromJsConversion { from: "int", to: "bool", message: None }
    );
    assert_eq!(
        from_js(Value::Int(1), HostKind::Text).unwrap_err(),
        Error::FromJsConversion { from: "int", to: "string", message: None }
    );
    assert_eq!(
        from_js(Value::String(b"1".to_vec()), HostKind::Int).unwrap_err(),
        Error::FromJsConversion { from: "string", to: "int", message: None }
    );
    assert_eq!(
        from_js(Value::Undefined, HostKind::Bool).unwrap_err(),
        Error::FromJsConversion { from: "undefined", to: "bool", message: None }
    );
    assert_eq!(
        from_js(Value::Bool(false), HostKind::Unit).unwrap_err(),
        Error::FromJsConversion { from: "bool", to: "unit", message: None }
    );
}

#[test]
fn null_objects_and_functions_fail_closed() {
    for kind in [HostKind::Unit, HostKind::Bool, HostKind::Int, HostKind::Text] {
        assert_eq!(
            from_js(Value::Null, kind).unwrap_err(),
            Error::FromJsConversion { from: "null", to: kind.name(), message: None }
        );
        assert_eq!(
            from_js(Value::Object(0x30), kind).unwrap_err(),
            Error::FromJsConversion { from: "object", to: kind.name(), message: None }
        );
        assert_eq!(
            from_js(Value::Function(0x40), kind).unwrap_err(),
            Error::FromJsConversion { from: "function", to: kind.name(), message: None }
        );
    }
}

#[test]
fn string_that_is_not_text_is_a_utf8_error() {
    match from_js(Value::String(vec![b'o', b'k', 0xC3]), HostKind::Text).unwrap_err() {
        Error::Utf8(e) => {
            assert_eq!(e.valid_up_to(), 2);
            assert_eq!(e.error_len(), None);
        }
        other => panic!("unexpected error: {:?}", other),
    }
    match from_js(Value::String(vec![0xC0, b'a']), HostKind::Text).unwrap_err() {
        Error::Utf8(e) => {
            assert_eq!(e.valid_up_to(), 0);
            assert_eq!(e.error_len(), Some(1));
        }
        other => panic!("unexpected error: {:?}", other),
    }
}

#[test]
fn exception_becomes_the_exception_error() {
    for kind in [HostKind::Unit, HostKind::Bool, HostKind::Int, HostKind::Text] {
        assert_eq!(
            from_js(Value::Exception(Some(b"TypeError: x is not a function".to_vec())), kind)
                .unwrap_err(),
            Error::Exception("TypeError: x is not a function".to_string())
        );
    }
}

#[test]
fn exception_without_message_is_unknown() {
    assert_eq!(from_js(Value::Exception(None), HostKind::Text).unwrap_err(), Error::Unknown);
    assert_eq!(from_js(Value::Exception(None), HostKind::Unit).unwrap_err(), Error::Unknown);
}

#[test]
fn exception_with_unreadable_message_is_a_utf8_error() {
    match from_js(Value::Exception(Some(vec![0xFF])), HostKind::Int).unwrap_err() {
        Error::Utf8(e) => {
            assert_eq!(e.valid_up_to(), 0);
            assert_eq!(e.error_len(), Some(1));
        }
        other => panic!("unexpected error: {:?}", other),
    }
}

#[test]
fn tag_names_cover_every_value() {
    assert_eq!(Value::Undefined.tag_name(), "undefined");
    assert_eq!(Value::Null.tag_name(), "null");
    assert_eq!(Value::Bool(true).tag_name(), "bool");
    assert_eq!(Value::Int(0).tag_name(), "int");
    assert_eq!(Value::String(Vec::new()).tag_name(), "string");
    assert_eq!(Value::Object(1).tag_name(), "object");
    assert_eq!(Value::Function(1).tag_name(), "function");
    assert_eq!(Value::Exception(None).tag_name(), "exception");
}

#[test]
fn host_kind_names() {
    assert_eq!(HostKind::Unit.name(), "unit");
    assert_eq!(HostKind::Bool.name(), "bool");
    assert_eq!(HostKind::Int.name(), "int");
    assert_eq!(HostKind::Text.name(), "string");
}
