use pixelbridge::input::{parse_input_event, InputChannelHandler, InputEvent};

#[test]
fn malformed_then_valid_message_still_decodes() {
    let mut h = InputChannelHandler::new();
    assert!(h.handle_message(b"not json").is_none());
    let ev = h.handle_message(b"{\"type\":\"mouse_move\",\"x\":1,\"y\":2}");
    assert_eq!(ev, Some(InputEvent::MouseMove { x: 1000, y: 2000 }));
}

#[test]
fn mouse_move_decodes_with_milli_coordinates() {
    let ev = parse_input_event(b"{\"type\":\"mouse_move\",\"x\":1,\"y\":2}");
    assert_eq!(ev, Some(InputEvent::MouseMove { x: 1000, y: 2000 }));
}

#[test]
fn fractional_coordinates_keep_three_digits() {
    let ev = parse_input_event(b"{\"type\":\"mouse_move\",\"x\":1.5,\"y\":-2.25}");
    assert_eq!(ev, Some(InputEvent::MouseMove { x: 1500, y: -2250 }));
    let ev = parse_input_event(b"{\"type\":\"mouse_move\",\"x\":0.1234,\"y\":0}");
    assert_eq!(ev, Some(InputEvent::MouseMove { x: 123, y: 0 }));
}

#[test]
fn fields_in_any_order_and_with_whitespace() {
    let ev = parse_input_event(b" { \"y\" : 2 , \"type\" : \"mouse_move\" , \"x\" : 1 } ");
    assert_eq!(ev, Some(InputEvent::MouseMove { x: 1000, y: 2000 }));
}

#[test]
fn mouse_down_and_up_carry_button() {
    let ev = parse_input_event(b"{\"type\":\"mouse_down\",\"x\":10,\"y\":20,\"button\":1}");
    assert_eq!(ev, Some(InputEvent::MouseDown { x: 10000, y: 20000, button: 1 }));
    let ev = parse_input_event(b"{\"type\":\"mouse_up\",\"x\":10,\"y\":20,\"button\":2}");
    assert_eq!(ev, Some(InputEvent::MouseUp { x: 10000, y: 20000, button: 2 }));
}

#[test]
fn mouse_scroll_carries_deltas() {
    let ev = parse_input_event(b"{\"type\":\"mouse_scroll\",\"dx\":-3,\"dy\":4}");
    assert_eq!(ev, Some(InputEvent::MouseScroll { dx: -3000, dy: 4000 }));
}

#[test]
fn key_events_carry_code() {
    let ev = parse_input_event(b"{\"type\":\"key_down\",\"code\":\"KeyA\"}");
    assert_eq!(ev, Some(InputEvent::KeyDown { code: b"KeyA".to_vec() }));
    let ev = parse_input_event(b"{\"type\":\"key_up\",\"code\":\"ArrowUp\"}");
    assert_eq!(ev, Some(InputEvent::KeyUp { code: b"ArrowUp".to_vec() }));
}

#[test]
fn string_escapes_decode() {
    let ev = parse_input_event(b"{\"type\":\"key_down\",\"code\":\"a\\\"b\\\\c\\n\"}");
    assert_eq!(ev, Some(InputEvent::KeyDown { code: b"a\"b\\c\n".to_vec() }));
}

#[test]
fn malformed_messages_are_rejected() {
    // not JSON at all
    assert!(parse_input_event(b"not json").is_none());
    // unknown tag
    assert!(parse_input_event(b"{\"type\":\"mouse_teleport\",\"x\":1,\"y\":2}").is_none());
    // missing field
    assert!(parse_input_event(b"{\"type\":\"mouse_move\",\"x\":1}").is_none());
    // repeated field
    assert!(parse_input_event(b"{\"type\":\"mouse_move\",\"x\":1,\"x\":2,\"y\":3}").is_none());
    // unknown field
    assert!(parse_input_event(b"{\"type\":\"mouse_move\",\"x\":1,\"y\":2,\"z\":3}").is_none());
    // wrong value shape
    assert!(parse_input_event(b"{\"type\":\"mouse_move\",\"x\":\"1\",\"y\":2}").is_none());
    // trailing garbage
    assert!(parse_input_event(b"{\"type\":\"mouse_move\",\"x\":1,\"y\":2}x").is_none());
    // leading zero is not a JSON number
    assert!(parse_input_event(b"{\"type\":\"mouse_move\",\"x\":01,\"y\":2}").is_none());
    // unsupported escape
    assert!(parse_input_event(b"{\"type\":\"key_down\",\"code\":\"\\u0041\"}").is_none());
    // empty input
    assert!(parse_input_event(b"").is_none());
}

#[test]
fn button_must_be_a_plain_integer_in_byte_range() {
    assert!(parse_input_event(b"{\"type\":\"mouse_down\",\"x\":1,\"y\":2,\"button\":256}")
        .is_none());
    assert!(parse_input_event(b"{\"type\":\"mouse_down\",\"x\":1,\"y\":2,\"button\":1.5}")
        .is_none());
    assert!(parse_input_event(b"{\"type\":\"mouse_down\",\"x\":1,\"y\":2,\"button\":-1}")
        .is_none());
    let ev = parse_input_event(b"{\"type\":\"mouse_down\",\"x\":1,\"y\":2,\"button\":255}");
    assert_eq!(ev, Some(InputEvent::MouseDown { x: 1000, y: 2000, button: 255 }));
}

#[test]
fn handler_is_stateless_across_messages() {
    let mut h = InputChannelHandler::new();
    let alone = parse_input_event(b"{\"type\":\"mouse_scroll\",\"dx\":1,\"dy\":1}");
    for bad in [&b"{"[..], b"[]", b"{\"type\":\"mouse_move\"}", b"\x00\x01"] {
        assert!(h.handle_message(bad).is_none());
    }
    let after = h.handle_message(b"{\"type\":\"mouse_scroll\",\"dx\":1,\"dy\":1}");
    assert_eq!(after, alone);
}
