use gale_sync::bus::{
    decode_push, BusError, BusEvent, Publication, PushInfo, PushKind, PushValue,
};
use gale_sync::socket::State;
use gale_sync::channel::{channel_name, decode_channel, subscription_pattern, ChannelError, EventKind};
use gale_sync::profile::ProfileId;
use gale_sync::short_uuid::ShortUuid;

fn short(code: &str) -> ProfileId {
    ProfileId::Short(code.to_string())
}

fn legacy() -> ProfileId {
    ProfileId::Legacy(ShortUuid([7; 16]))
}

fn pmessage(channel: &str, payload: &[u8]) -> PushInfo {
    PushInfo {
        kind: PushKind::PMessage,
        data: vec![
            PushValue::BulkString(b"update:*".to_vec()),
            PushValue::BulkString(channel.as_bytes().to_vec()),
            PushValue::BulkString(payload.to_vec()),
        ],
    }
}

#[test]
fn channel_name_joins_kind_and_id() {
    assert_eq!(channel_name(EventKind::Update, &short("AB12CD")), "update:AB12CD");
    assert_eq!(channel_name(EventKind::Delete, &short("XY9ZZZ")), "delete:XY9ZZZ");
    assert_eq!(
        channel_name(EventKind::Update, &legacy()),
        "update:BwcHBwcHBwcHBwcHBwcHBw"
    );
}

#[test]
fn channel_name_round_trips_for_both_kinds() {
    for kind in [EventKind::Update, EventKind::Delete] {
        for id in [short("AB12CD"), short("000000"), legacy(), ProfileId::Legacy(ShortUuid([0xfb; 16]))] {
            let name = channel_name(kind, &id);
            assert_eq!(decode_channel(&name), Ok((kind, id)));
        }
    }
}

#[test]
fn channel_without_separator_is_rejected() {
    assert_eq!(decode_channel("updateAB12CD"), Err(ChannelError::NoSeparator));
    assert_eq!(decode_channel(""), Err(ChannelError::NoSeparator));
}

#[test]
fn channel_is_split_at_the_first_separator() {
    assert_eq!(
        decode_channel("update:AB:2CD"),
        Err(ChannelError::InvalidId { text: "AB:2CD".to_string() })
    );
    assert_eq!(
        decode_channel(":AB12CD"),
        Err(ChannelError::UnknownKind { name: String::new() })
    );
    assert_eq!(decode_channel("update:"), Err(ChannelError::InvalidId { text: String::new() }));
}

#[test]
fn channel_with_unknown_kind_is_rejected() {
    assert_eq!(
        decode_channel("rename:AB12CD"),
        Err(ChannelError::UnknownKind { name: "rename".to_string() })
    );
    assert_eq!(
        decode_channel("Update:AB12CD"),
        Err(ChannelError::UnknownKind { name: "Update".to_string() })
    );
}

#[test]
fn channel_id_is_read_before_the_kind() {
    assert_eq!(
        decode_channel("rename:nope"),
        Err(ChannelError::InvalidId { text: "nope".to_string() })
    );
}

#[test]
fn publish_updated_names_channel_and_payload() {
    assert_eq!(
        State::new().notify_profile_updated(&short("AB12CD"), "{\"name\":\"Foo\"}"),
        Some(Publication {
            channel: "update:AB12CD".to_string(),
            payload: "{\"name\":\"Foo\"}".to_string(),
        })
    );
}

#[test]
fn publish_updated_refuses_what_is_not_json() {
    assert_eq!(State::new().notify_profile_updated(&short("AB12CD"), "{name:Foo}"), None);
    assert_eq!(State::new().notify_profile_updated(&short("AB12CD"), ""), None);
}

#[test]
fn publish_deleted_names_channel_and_marker() {
    assert_eq!(
        State::new().notify_profile_deleted(&short("XY9ZZZ")),
        Publication { channel: "delete:XY9ZZZ".to_string(), payload: "\"XY9ZZZ\"".to_string() }
    );
}

#[test]
fn push_that_is_no_pattern_message_is_passed_over() {
    let msg = PushInfo { kind: PushKind::Other, data: vec![] };
    assert_eq!(decode_push(&msg), Ok(None));
    let mut msg = pmessage("update:AB12CD", b"{}");
    msg.kind = PushKind::Other;
    assert_eq!(decode_push(&msg), Ok(None));
}

#[test]
fn push_update_carries_the_payload() {
    assert_eq!(
        decode_push(&pmessage("update:AB12CD", b"{\"name\":\"Foo\"}")),
        Ok(Some(BusEvent::Updated {
            id: short("AB12CD"),
            metadata: "{\"name\":\"Foo\"}".to_string(),
        }))
    );
}

#[test]
fn push_delete_ignores_the_payload() {
    for payload in [&b"\"XY9ZZZ\""[..], &b""[..], &b"not json"[..], &[0xff, 0xfe][..]] {
        assert_eq!(
            decode_push(&pmessage("delete:XY9ZZZ", payload)),
            Ok(Some(BusEvent::Deleted { id: short("XY9ZZZ") }))
        );
    }
}

#[test]
fn push_published_message_reads_back() {
    let id = legacy();
    let sent = State::new().notify_profile_updated(&id, "{\"n\":1}").unwrap();
    assert_eq!(
        decode_push(&pmessage(&sent.channel, sent.payload.as_bytes())),
        Ok(Some(BusEvent::Updated { id: id.clone(), metadata: "{\"n\":1}".to_string() }))
    );
    let sent = State::new().notify_profile_deleted(&id);
    assert_eq!(
        decode_push(&pmessage(&sent.channel, sent.payload.as_bytes())),
        Ok(Some(BusEvent::Deleted { id }))
    );
}

#[test]
fn push_without_channel_is_an_error() {
    let msg = PushInfo { kind: PushKind::PMessage, data: vec![] };
    assert_eq!(decode_push(&msg), Err(BusError::ExpectedChannel));
    let msg = PushInfo {
        kind: PushKind::PMessage,
        data: vec![PushValue::BulkString(b"update:*".to_vec())],
    };
    assert_eq!(decode_push(&msg), Err(BusError::ExpectedChannel));
    let msg = PushInfo {
        kind: PushKind::PMessage,
        data: vec![PushValue::BulkString(b"update:*".to_vec()), PushValue::Other],
    };
    assert_eq!(decode_push(&msg), Err(BusError::ExpectedChannel));
}

#[test]
fn push_with_channel_that_is_no_text_is_an_error() {
    let msg = PushInfo {
        kind: PushKind::PMessage,
        data: vec![
            PushValue::BulkString(b"update:*".to_vec()),
            PushValue::BulkString(vec![0xff, b':', b'A']),
            PushValue::BulkString(b"{}".to_vec()),
        ],
    };
    assert_eq!(decode_push(&msg), Err(BusError::ChannelNotText));
}

#[test]
fn push_with_bad_channel_is_an_error() {
    assert_eq!(
        decode_push(&pmessage("updateAB12CD", b"{}")),
        Err(BusError::Channel { error: ChannelError::NoSeparator })
    );
    assert_eq!(
        decode_push(&pmessage("update:legacy-format", b"{}")),
        Err(BusError::Channel {
            error: ChannelError::InvalidId { text: "legacy-format".to_string() }
        })
    );
}

#[test]
fn push_without_payload_is_an_error() {
    let msg = PushInfo {
        kind: PushKind::PMessage,
        data: vec![
            PushValue::BulkString(b"update:*".to_vec()),
            PushValue::BulkString(b"update:AB12CD".to_vec()),
        ],
    };
    assert_eq!(decode_push(&msg), Err(BusError::ExpectedPayload));
    let msg = PushInfo {
        kind: PushKind::PMessage,
        data: vec![
            PushValue::BulkString(b"update:*".to_vec()),
            PushValue::BulkString(b"rename:AB12CD".to_vec()),
            PushValue::Other,
        ],
    };
    assert_eq!(decode_push(&msg), Err(BusError::ExpectedPayload));
}

#[test]
fn push_with_unknown_event_is_an_error() {
    assert_eq!(
        decode_push(&pmessage("rename:AB12CD", b"{}")),
        Err(BusError::UnknownEvent { name: "rename".to_string() })
    );
}

#[test]
fn push_update_with_bad_payload_is_an_error() {
    assert_eq!(
        decode_push(&pmessage("update:AB12CD", &[b'{', 0xff, b'}'])),
        Err(BusError::PayloadNotText)
    );
    match decode_push(&pmessage("update:AB12CD", b"{\"name\":")) {
        Err(BusError::InvalidPayload { detail }) => assert!(detail.contains("EOF")),
        other => panic!("unexpected: {:?}", other),
    }
}

#[test]
fn subscription_patterns_cover_every_profile() {
    assert_eq!(subscription_pattern(EventKind::Update), "update:*");
    assert_eq!(subscription_pattern(EventKind::Delete), "delete:*");
}
