use gale_sync::message::{write_frame, ClientMessage, DecodeError, ServerMessage};
use gale_sync::profile::ProfileId;
use gale_sync::short_uuid::ShortUuid;

fn short(code: &str) -> ProfileId {
    ProfileId::Short(code.to_string())
}

#[test]
fn frame_has_event_and_payload() {
    assert_eq!(
        write_frame("e", "f", "1"),
        "{\"event\":\"e\",\"payload\":{\"f\":1}}"
    );
}

#[test]
fn updated_frame_carries_the_metadata_as_it_is() {
    let msg = ServerMessage::ProfileUpdated {
        id: short("AB12CD"),
        metadata: "{\"name\":\"Foo\"}".to_string(),
    };
    assert_eq!(
        msg.encode(),
        "{\"event\":\"profileUpdated\",\"payload\":{\"metadata\":{\"name\":\"Foo\"}}}"
    );
}

#[test]
fn deleted_frame_names_the_resource() {
    let msg = ServerMessage::ProfileDeleted { id: short("XY9ZZZ") };
    assert_eq!(
        msg.encode(),
        "{\"event\":\"profileDeleted\",\"payload\":{\"resourceId\":\"XY9ZZZ\"}}"
    );
    let msg = ServerMessage::ProfileDeleted { id: ProfileId::Legacy(ShortUuid([0xfb; 16])) };
    assert_eq!(
        msg.encode(),
        "{\"event\":\"profileDeleted\",\"payload\":{\"resourceId\":\"-_v7-_v7-_v7-_v7-_v7-w\"}}"
    );
}

#[test]
fn error_frame_escapes_the_message() {
    let msg = ServerMessage::Error { message: "bad \"frame\"\n\\".to_string() };
    assert_eq!(
        msg.encode(),
        "{\"event\":\"error\",\"payload\":{\"message\":\"bad \\\"frame\\\"\\n\\\\\"}}"
    );
}

#[test]
fn encoded_frames_are_json() {
    let frames = [
        ServerMessage::ProfileUpdated { id: short("AB12CD"), metadata: "[1,2]".to_string() }.encode(),
        ServerMessage::ProfileDeleted { id: short("AB12CD") }.encode(),
        ServerMessage::Error { message: "\u{1}\t\"".to_string() }.encode(),
    ];
    for frame in frames {
        let doc: serde_json::Value = serde_json::from_str(&frame).unwrap();
        assert!(doc.get("event").unwrap().is_string());
        assert!(doc.get("payload").unwrap().is_object());
    }
    let frame = ServerMessage::Error { message: "\u{1}\t\"".to_string() }.encode();
    let doc: serde_json::Value = serde_json::from_str(&frame).unwrap();
    assert_eq!(doc.pointer("/payload/message").unwrap().as_str(), Some("\u{1}\t\""));
}

#[test]
fn server_message_clone_is_equal() {
    let msg = ServerMessage::ProfileUpdated { id: short("AB12CD"), metadata: "{}".to_string() };
    assert_eq!(msg.clone(), msg);
    let msg = ServerMessage::Error { message: "x".to_string() };
    assert_eq!(msg.clone(), msg);
}

#[test]
fn decode_subscribe() {
    assert_eq!(
        ClientMessage::decode("{\"event\":\"subscribe\",\"payload\":{\"resourceId\":\"AB12CD\"}}"),
        Ok(ClientMessage::Subscribe { profile_id: short("AB12CD") })
    );
}

#[test]
fn decode_unsubscribe() {
    assert_eq!(
        ClientMessage::decode("{\"event\":\"unsubscribe\",\"payload\":{\"resourceId\":\"AB12CD\"}}"),
        Ok(ClientMessage::Unsubscribe { profile_id: short("AB12CD") })
    );
}

#[test]
fn decode_accepts_any_member_order_and_spacing() {
    assert_eq!(
        ClientMessage::decode(
            " { \"payload\" : { \"resourceId\" : \"BwcHBwcHBwcHBwcHBwcHBw\" } , \"event\" : \"subscribe\" } "
        ),
        Ok(ClientMessage::Subscribe { profile_id: ProfileId::Legacy(ShortUuid([7; 16])) })
    );
}

#[test]
fn decode_unknown_event() {
    let err = ClientMessage::decode("{\"event\":\"bogus\"}").unwrap_err();
    assert_eq!(err, DecodeError::UnknownEvent { name: "bogus".to_string() });
    assert_eq!(
        err.message(),
        "Failed to deserialize message: unknown variant `bogus`, expected `subscribe` or `unsubscribe`."
    );
}

#[test]
fn decode_missing_event() {
    let err = ClientMessage::decode("{\"payload\":{\"resourceId\":\"AB12CD\"}}").unwrap_err();
    assert_eq!(err, DecodeError::MissingEvent);
    assert_eq!(err.message(), "Failed to deserialize message: missing field `event`.");
    assert_eq!(ClientMessage::decode("{\"event\":7}"), Err(DecodeError::MissingEvent));
    assert_eq!(ClientMessage::decode("[]"), Err(DecodeError::MissingEvent));
    assert_eq!(ClientMessage::decode("null"), Err(DecodeError::MissingEvent));
}

#[test]
fn decode_missing_resource() {
    for frame in [
        "{\"event\":\"subscribe\"}",
        "{\"event\":\"subscribe\",\"payload\":{}}",
        "{\"event\":\"subscribe\",\"payload\":{\"resourceId\":12}}",
        "{\"event\":\"unsubscribe\",\"payload\":\"AB12CD\"}",
    ] {
        let err = ClientMessage::decode(frame).unwrap_err();
        assert_eq!(err, DecodeError::MissingResourceId);
        assert_eq!(err.message(), "Failed to deserialize message: missing field `resourceId`.");
    }
}

#[test]
fn decode_invalid_resource() {
    let err = ClientMessage::decode("{\"event\":\"subscribe\",\"payload\":{\"resourceId\":\"nope\"}}")
        .unwrap_err();
    assert_eq!(err, DecodeError::InvalidResourceId { text: "nope".to_string() });
    assert_eq!(
        err.message(),
        "Failed to deserialize message: Invalid profile id: nope. Must be a base-64 encoded UUID or a 6-character alphanumeric string.."
    );
}

#[test]
fn decode_malformed_json() {
    match ClientMessage::decode("{\"event\":") {
        Err(DecodeError::Malformed { detail }) => {
            assert!(detail.contains("EOF"));
            let err = DecodeError::Malformed { detail: detail.clone() };
            assert_eq!(err.message(), format!("Failed to deserialize message: {}.", detail));
        }
        other => panic!("unexpected: {:?}", other),
    }
    assert!(matches!(ClientMessage::decode(""), Err(DecodeError::Malformed { .. })));
    assert!(matches!(ClientMessage::decode("subscribe"), Err(DecodeError::Malformed { .. })));
}

#[test]
fn from_parts_checks_the_event_first() {
    assert_eq!(ClientMessage::from_parts(None, None), Err(DecodeError::MissingEvent));
    assert_eq!(
        ClientMessage::from_parts(Some("bogus".to_string()), None),
        Err(DecodeError::UnknownEvent { name: "bogus".to_string() })
    );
    assert_eq!(
        ClientMessage::from_parts(Some("subscribe".to_string()), None),
        Err(DecodeError::MissingResourceId)
    );
    assert_eq!(
        ClientMessage::from_parts(Some("unsubscribe".to_string()), Some("XY9ZZZ".to_string())),
        Ok(ClientMessage::Unsubscribe { profile_id: short("XY9ZZZ") })
    );
}
