use gauge_emulator::codec::{decode, decode_request, decode_text, request_from_member};
use gauge_emulator::dto::InMessage;
use gauge_emulator::error::SessionError;

fn syntax_error() -> serde_json::Error {
    serde_json::from_str::<serde_json::Value>("{").unwrap_err()
}

#[test]
fn text_of_ascii_payload() {
    assert_eq!(decode_text(b"{\"type\":1}".to_vec()).unwrap(), "{\"type\":1}");
}

#[test]
fn text_of_multibyte_payload() {
    let text = "grüße €";
    assert_eq!(decode_text(text.as_bytes().to_vec()).unwrap(), text);
}

#[test]
fn text_of_empty_payload() {
    assert_eq!(decode_text(Vec::new()).unwrap(), "");
}

#[test]
fn payload_that_is_no_text_comes_back_in_the_error() {
    let raw = vec![b'a', 0xFF, 0xFE, b'b'];
    match decode_text(raw.clone()) {
        Err(SessionError::Encoding { raw: kept }) => assert_eq!(kept, raw),
        other => panic!("unexpected {:?}", other),
    }
}

#[test]
fn truncated_multibyte_sequence_is_no_text() {
    assert!(matches!(decode_text(vec![0xE2, 0x82]), Err(SessionError::Encoding { .. })));
}

#[test]
fn request_for_configuration() {
    assert_eq!(decode_request("{\"type\":1}").unwrap(), InMessage::NeedGaugeConfig {});
}

#[test]
fn request_for_data() {
    assert_eq!(decode_request("{\"type\": 2}").unwrap(), InMessage::NeedGaugeData {});
}

#[test]
fn other_members_are_ignored() {
    assert_eq!(
        decode_request("{\"extra\":[1,2],\"type\":2,\"more\":null}").unwrap(),
        InMessage::NeedGaugeData {}
    );
}

#[test]
fn unknown_discriminant_is_a_protocol_error() {
    match decode_request("{\"type\":3}") {
        Err(SessionError::Protocol { tag, source_string }) => {
            assert_eq!(tag, Some(3));
            assert_eq!(source_string, "{\"type\":3}");
        }
        other => panic!("unexpected {:?}", other),
    }
    assert!(matches!(
        decode_request("{\"type\":0}"),
        Err(SessionError::Protocol { tag: Some(0), .. })
    ));
}

#[test]
fn missing_discriminant_is_a_protocol_error() {
    match decode_request("{\"kind\":1}") {
        Err(SessionError::Protocol { tag, source_string }) => {
            assert_eq!(tag, None);
            assert_eq!(source_string, "{\"kind\":1}");
        }
        other => panic!("unexpected {:?}", other),
    }
}

#[test]
fn discriminant_that_is_no_unsigned_integer_is_a_protocol_error() {
    for text in ["{\"type\":-1}", "{\"type\":1.0}", "{\"type\":\"1\"}", "{\"type\":null}"] {
        assert!(
            matches!(decode_request(text), Err(SessionError::Protocol { tag: None, .. })),
            "{}",
            text
        );
    }
}

#[test]
fn document_that_is_no_object_is_a_protocol_error() {
    for text in ["1", "[1]", "\"type\"", "null"] {
        assert!(
            matches!(decode_request(text), Err(SessionError::Protocol { tag: None, .. })),
            "{}",
            text
        );
    }
}

#[test]
fn malformed_json_is_a_syntax_error() {
    for text in ["", "{", "{\"type\":1", "{\"type\":1}{", "type=1"] {
        match decode_request(text) {
            Err(SessionError::Syntax { source_string, .. }) => assert_eq!(source_string, text),
            other => panic!("unexpected {:?} for {}", other, text),
        }
    }
}

#[test]
fn request_from_member_follows_the_parser() {
    assert_eq!(request_from_member(Ok(Some(1)), "x").unwrap(), InMessage::NeedGaugeConfig {});
    assert_eq!(request_from_member(Ok(Some(2)), "x").unwrap(), InMessage::NeedGaugeData {});
    assert!(matches!(
        request_from_member(Ok(Some(7)), "x"),
        Err(SessionError::Protocol { tag: Some(7), .. })
    ));
    assert!(matches!(
        request_from_member(Ok(None), "x"),
        Err(SessionError::Protocol { tag: None, .. })
    ));
    match request_from_member(Err(syntax_error()), "source") {
        Err(SessionError::Syntax { source_string, .. }) => assert_eq!(source_string, "source"),
        other => panic!("unexpected {:?}", other),
    }
}

#[test]
fn decode_goes_from_bytes_to_request() {
    assert_eq!(decode(b"{\"type\":1}".to_vec()).unwrap(), InMessage::NeedGaugeConfig {});
    assert_eq!(decode(b"{\"type\":2}".to_vec()).unwrap(), InMessage::NeedGaugeData {});
    assert!(matches!(decode(vec![0xC0]), Err(SessionError::Encoding { .. })));
    assert!(matches!(decode(b"nonsense".to_vec()), Err(SessionError::Syntax { .. })));
    assert!(matches!(decode(b"{\"type\":9}".to_vec()), Err(SessionError::Protocol { .. })));
}

#[test]
fn only_transport_errors_are_fatal() {
    assert!(SessionError::Transport.is_fatal());
    assert!(!SessionError::Encoding { raw: vec![0xFF] }.is_fatal());
    assert!(!SessionError::Protocol { tag: Some(3), source_string: String::new() }.is_fatal());
    assert!(!SessionError::Syntax { error: syntax_error(), source_string: String::new() }
        .is_fatal());
}
