use pixelbridge::offer::{
    answer_response_json, error_response_json, parse_offer_body, process_offer,
};
use pixelbridge::session::SessionManager;

#[test]
fn offer_body_parses_sdp_and_type() {
    let body = parse_offer_body(b"{\"sdp\":\"v=0\\r\\n\",\"type\":\"offer\"}").unwrap();
    assert_eq!(body.sdp, b"v=0\r\n".to_vec());
    assert_eq!(body.kind, b"offer".to_vec());
}

#[test]
fn offer_body_accepts_any_field_order() {
    let body = parse_offer_body(b" { \"type\" : \"offer\" , \"sdp\" : \"v=0\" } ").unwrap();
    assert_eq!(body.sdp, b"v=0".to_vec());
}

#[test]
fn offer_body_rejects_malformed_input() {
    assert!(parse_offer_body(b"not json").is_none());
    assert!(parse_offer_body(b"{\"sdp\":\"v=0\"}").is_none()); // missing type
    assert!(parse_offer_body(b"{\"type\":\"offer\"}").is_none()); // missing sdp
    assert!(parse_offer_body(b"{\"sdp\":\"a\",\"sdp\":\"b\",\"type\":\"offer\"}").is_none());
    assert!(parse_offer_body(b"{\"sdp\":1,\"type\":\"offer\"}").is_none());
    assert!(parse_offer_body(b"{\"sdp\":\"v=0\",\"type\":\"offer\"} tail").is_none());
}

#[test]
fn empty_sdp_offer_yields_error_reply_and_no_session() {
    let mut m = SessionManager::new();
    let r = process_offer(&mut m, b"{\"sdp\":\"\",\"type\":\"offer\"}");
    let resp = r.err().unwrap();
    assert_eq!(resp, b"{\"error\":\"empty sdp\"}".to_vec());
    assert_eq!(m.session_count(), 0);
}

#[test]
fn malformed_offer_yields_error_reply_and_no_session() {
    let mut m = SessionManager::new();
    let r = process_offer(&mut m, b"\"not an object\"");
    let resp = r.err().unwrap();
    assert_eq!(resp, b"{\"error\":\"malformed offer\"}".to_vec());
    assert_eq!(m.session_count(), 0);
}

#[test]
fn valid_offer_registers_one_session() {
    let mut m = SessionManager::new();
    let (id, body) = process_offer(&mut m, b"{\"sdp\":\"v=0\",\"type\":\"offer\"}").ok().unwrap();
    assert_eq!(body.sdp, b"v=0".to_vec());
    assert!(m.contains(id));
    assert_eq!(m.session_count(), 1);
}

#[test]
fn answer_reply_has_exact_shape_and_escaping() {
    let r = answer_response_json(b"v=0\r\na=x\"y\"");
    assert_eq!(
        r,
        b"{\"sdp\":\"v=0\\r\\na=x\\\"y\\\"\",\"type\":\"answer\"}".to_vec()
    );
}

#[test]
fn error_reply_has_exact_shape_and_escaping() {
    assert_eq!(error_response_json(b"boom"), b"{\"error\":\"boom\"}".to_vec());
    assert_eq!(
        error_response_json(b"a\\b\x01"),
        b"{\"error\":\"a\\\\b\\u0001\"}".to_vec()
    );
}
