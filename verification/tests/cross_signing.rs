use effektio::cross_signing::{
    decode_timeline, decode_to_device, step_of_timeline, step_of_to_device, timeline_event_of,
    timeline_kind, to_device_event_of, to_device_kind, CrossSigningEvent, TimelineEvent,
    TimelineKind, ToDeviceEvent, ToDeviceKind,
};
use effektio::wire::{TimelineFields, ToDeviceFields};

fn parts(event: &CrossSigningEvent) -> (String, String, String) {
    (event.get_event_name(), event.get_event_id(), event.get_sender())
}

fn to_device_json(kind: &str, content: &str) -> String {
    format!(
        r#"{{"type": "m.key.verification.{}", "sender": "@alice:example.org",
            "content": {{"transaction_id": "txn1", {}}}}}"#,
        kind, content
    )
}

fn timeline_json(event_type: &str, content: &str) -> String {
    format!(
        r#"{{"type": "{}", "sender": "@alice:example.org", "event_id": "$ev1",
            "origin_server_ts": 1, "content": {{{}}}}}"#,
        event_type, content
    )
}

const RELATES: &str = r#""m.relates_to": {"rel_type": "m.reference", "event_id": "$r"}"#;

const START: &str = r#""from_device": "DEV", "method": "m.sas.v1",
    "key_agreement_protocols": ["curve25519"], "hashes": ["sha256"],
    "message_authentication_codes": ["hkdf-hmac-sha256"],
    "short_authentication_string": ["emoji"]"#;

const ACCEPT: &str = r#""method": "m.sas.v1", "key_agreement_protocol": "curve25519",
    "hash": "sha256", "message_authentication_code": "hkdf-hmac-sha256",
    "short_authentication_string": ["emoji"], "commitment": "aGVsbG8""#;

#[test]
fn getters_give_back_what_was_given() {
    let event = CrossSigningEvent::new("name".to_owned(), "id".to_owned(), "who".to_owned());
    assert_eq!(event.get_event_name(), "name");
    assert_eq!(event.get_event_id(), "id");
    assert_eq!(event.get_sender(), "who");
    assert_eq!(parts(&event.clone()), parts(&event));
}

#[test]
fn to_device_events_are_read_and_named() {
    let cases = [
        (
            "request",
            r#""from_device": "DEV", "methods": ["m.sas.v1"], "timestamp": 1559598944869"#,
            ToDeviceKind::KeyVerificationRequest,
            "AnyToDeviceEvent::KeyVerificationRequest",
        ),
        (
            "ready",
            r#""from_device": "DEV", "methods": ["m.sas.v1"]"#,
            ToDeviceKind::KeyVerificationReady,
            "AnyToDeviceEvent::KeyVerificationReady",
        ),
        (
            "start",
            START,
            ToDeviceKind::KeyVerificationStart,
            "AnyToDeviceEvent::KeyVerificationStart",
        ),
        (
            "cancel",
            r#""reason": "no", "code": "m.user""#,
            ToDeviceKind::KeyVerificationCancel,
            "AnyToDeviceEvent::KeyVerificationCancel",
        ),
        (
            "accept",
            ACCEPT,
            ToDeviceKind::KeyVerificationAccept,
            "AnyToDeviceEvent::KeyVerificationAccept",
        ),
        (
            "key",
            r#""key": "aGVsbG8""#,
            ToDeviceKind::KeyVerificationKey,
            "AnyToDeviceEvent::KeyVerificationKey",
        ),
        (
            "mac",
            r#""mac": {"ed25519:DEV": "aGVsbG8"}, "keys": "aGVsbG8""#,
            ToDeviceKind::KeyVerificationMac,
            "AnyToDeviceEvent::KeyVerificationMac",
        ),
        (
            "done",
            r#""other": 1"#,
            ToDeviceKind::KeyVerificationDone,
            "AnyToDeviceEvent::KeyVerificationDone",
        ),
    ];
    for (kind, content, expected, name) in cases {
        let event = decode_to_device(&to_device_json(kind, content)).expect(kind);
        assert_eq!(event.kind, expected);
        assert_eq!(event.sender, "@alice:example.org");
        assert_eq!(event.transaction_id, "txn1");
        let step = step_of_to_device(&event).unwrap();
        assert_eq!(
            parts(&step),
            (name.to_owned(), "txn1".to_owned(), "@alice:example.org".to_owned())
        );
    }
}

#[test]
fn other_to_device_events_announce_nothing() {
    let dummy = r#"{"type": "m.dummy", "sender": "@alice:example.org", "content": {}}"#;
    assert!(decode_to_device(dummy).is_none());
    assert!(decode_to_device("no json").is_none());
    // A request must tell its time.
    assert!(decode_to_device(&to_device_json("request", r#""methods": []"#)).is_none());
    let other = ToDeviceEvent {
        kind: ToDeviceKind::Other,
        sender: "@alice:example.org".to_owned(),
        transaction_id: "txn1".to_owned(),
    };
    assert!(step_of_to_device(&other).is_none());
    assert_eq!(to_device_kind("m.room_key"), ToDeviceKind::Other);
    assert_eq!(to_device_kind("m.key.verification.mac"), ToDeviceKind::KeyVerificationMac);
}

#[test]
fn timeline_events_are_read_and_named() {
    let ready = "AnySyncMessageLikeEvent::KeyVerificationReady";
    let cases = [
        (
            "m.room.message",
            r#""body": "please verify", "msgtype": "m.key.verification.request",
               "methods": ["m.sas.v1"], "from_device": "DEV", "to": "@bob:example.org""#
                .to_owned(),
            TimelineKind::VerificationRequest,
            "AnySyncMessageLikeEvent::RoomMessage",
        ),
        (
            "m.key.verification.ready",
            format!(r#""from_device": "DEV", "methods": ["m.sas.v1"], {}"#, RELATES),
            TimelineKind::KeyVerificationReady,
            ready,
        ),
        (
            "m.key.verification.start",
            format!("{}, {}", START, RELATES),
            TimelineKind::KeyVerificationStart,
            ready,
        ),
        (
            "m.key.verification.cancel",
            format!(r#""reason": "no", "code": "m.user", {}"#, RELATES),
            TimelineKind::KeyVerificationCancel,
            ready,
        ),
        (
            "m.key.verification.accept",
            format!("{}, {}", ACCEPT, RELATES),
            TimelineKind::KeyVerificationAccept,
            "AnySyncMessageLikeEvent::KeyVerificationAccept",
        ),
        (
            "m.key.verification.key",
            format!(r#""key": "aGVsbG8", {}"#, RELATES),
            TimelineKind::KeyVerificationKey,
            "AnySyncMessageLikeEvent::KeyVerificationKey",
        ),
        (
            "m.key.verification.mac",
            format!(r#""mac": {{"ed25519:DEV": "aGVsbG8"}}, "keys": "aGVsbG8", {}"#, RELATES),
            TimelineKind::KeyVerificationMac,
            "AnySyncMessageLikeEvent::KeyVerificationMac",
        ),
        (
            "m.key.verification.done",
            RELATES.to_owned(),
            TimelineKind::KeyVerificationDone,
            ready,
        ),
    ];
    for (event_type, content, expected, name) in cases {
        let event = decode_timeline(&timeline_json(event_type, &content)).expect(event_type);
        assert_eq!(event.kind, expected);
        let step = step_of_timeline(&event).unwrap();
        assert_eq!(
            parts(&step),
            (name.to_owned(), "$ev1".to_owned(), "@alice:example.org".to_owned())
        );
    }
}

#[test]
fn other_timeline_events_announce_nothing() {
    let text = timeline_json("m.room.message", r#""body": "hello", "msgtype": "m.text""#);
    let event = decode_timeline(&text).unwrap();
    assert_eq!(event.kind, TimelineKind::Other);
    assert!(step_of_timeline(&event).is_none());

    let redacted = r#"{"type": "m.key.verification.done", "sender": "@alice:example.org",
        "event_id": "$ev1", "origin_server_ts": 1, "content": {},
        "unsigned": {"redacted_because": {"type": "m.room.redaction", "content": {},
            "sender": "@alice:example.org", "event_id": "$ev2", "origin_server_ts": 2,
            "redacts": "$ev1"}}}"#;
    assert!(decode_timeline(redacted).is_none());

    let state = r#"{"type": "m.room.name", "sender": "@alice:example.org", "state_key": "",
        "event_id": "$ev1", "origin_server_ts": 1, "content": {"name": "room"}}"#;
    assert!(decode_timeline(state).is_none());
    assert!(decode_timeline("{}").is_none());

    let other = TimelineEvent {
        kind: TimelineKind::Other,
        sender: "@alice:example.org".to_owned(),
        event_id: "$ev1".to_owned(),
    };
    assert!(step_of_timeline(&other).is_none());
    assert_eq!(timeline_kind("m.room.message", false), TimelineKind::Other);
    assert_eq!(timeline_kind("m.room.message", true), TimelineKind::VerificationRequest);
    assert_eq!(timeline_kind("m.sticker", true), TimelineKind::Other);
}

#[test]
fn events_are_made_of_what_was_read() {
    let fields = |event_type: &str, transaction_id: Option<&str>| ToDeviceFields {
        event_type: event_type.to_owned(),
        sender: "@alice:example.org".to_owned(),
        transaction_id: transaction_id.map(str::to_owned),
    };
    let event = to_device_event_of(fields("m.key.verification.start", Some("txn1"))).unwrap();
    assert_eq!(event.kind, ToDeviceKind::KeyVerificationStart);
    assert_eq!(event.sender, "@alice:example.org");
    assert_eq!(event.transaction_id, "txn1");
    assert!(to_device_event_of(fields("m.dummy", None)).is_none());

    let event = timeline_event_of(TimelineFields {
        event_type: "m.room.message".to_owned(),
        verification_request: true,
        sender: "@alice:example.org".to_owned(),
        event_id: "$e".to_owned(),
    });
    assert_eq!(event.kind, TimelineKind::VerificationRequest);
    assert_eq!(event.sender, "@alice:example.org");
    assert_eq!(event.event_id, "$e");
}
