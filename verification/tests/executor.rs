use effektio::executor::{
    sort_event, AnyEffektioMessageLikeEvent, EventError, Executor, NewsEvent,
};
use matrix_sdk_base::deserialized_responses::SyncRoomEvent;
use ruma::EventId;
use std::sync::Arc;

fn new_executor() -> Executor<String> {
    Executor::new(Arc::new("store".to_owned()))
}

#[test]
fn smoke_test() {
    let exec = new_executor();
    let _copy = exec.clone();
}

#[test]
fn news_event() {
    let exec = new_executor();
    let json: serde_json::Value = serde_json::from_str(
        r#"{
            "event": {
                "content": {
                    "contents": [ {
                        "type": "text",
                        "body": "This is an important news"
                    }]
                },
                "room_id": "!whatev:example.org",
                "event_id": "$12345-asdf",
                "origin_server_ts": 1,
                "sender": "@someone:example.org",
                "type": "org.effektio.news.dev",
                "unsigned": {
                    "age": 85
                }
            }
        }"#,
    )
    .unwrap();

    let sync_room = serde_json::from_value::<SyncRoomEvent>(json).unwrap();
    assert_eq!(
        exec.apply(sync_room.event.json().get()).unwrap().unwrap(),
        EventId::parse("$12345-asdf").unwrap().to_string()
    );
}

#[test]
fn own_events_are_told_from_others() {
    let exec = new_executor();
    let news = r#"{"type": "org.effektio.news.dev", "event_id": "$1"}"#;
    assert_eq!(exec.apply_own(news), Some(Ok(Some("$1".to_owned()))));
    assert!(matches!(
        AnyEffektioMessageLikeEvent::read(news),
        Ok(AnyEffektioMessageLikeEvent::News(NewsEvent::Dev { event_id })) if event_id == "$1"
    ));
    let message = r#"{"type": "m.room.message", "event_id": "$1"}"#;
    assert_eq!(exec.apply_own(message), None);
    assert!(matches!(
        AnyEffektioMessageLikeEvent::read(message),
        Ok(AnyEffektioMessageLikeEvent::Matrix)
    ));
}

#[test]
fn events_that_cannot_be_read() {
    let exec = new_executor();
    assert_eq!(exec.apply("no json"), Err(EventError::MissingType));
    assert_eq!(exec.apply(r#"{"type": 5}"#), Err(EventError::MissingType));
    assert_eq!(
        exec.apply(r#"{"type": "org.effektio.news.dev"}"#),
        Err(EventError::MissingEventId)
    );
    assert_eq!(
        exec.apply(r#"{"type": "org.effektio.news.dev", "event_id": "12345"}"#),
        Err(EventError::InvalidEventId)
    );
    assert_eq!(
        exec.apply_own(r#"{"type": "org.effektio.news.dev", "event_id": 7}"#),
        Some(Err(EventError::MissingEventId))
    );
}

#[test]
fn events_are_sorted_by_type_and_identifier() {
    let text = |text: &str| Some(text.to_owned());
    let news = "org.effektio.news.dev";
    assert!(matches!(
        sort_event(text(news), text("$1")),
        Ok(AnyEffektioMessageLikeEvent::News(NewsEvent::Dev { event_id })) if event_id == "$1"
    ));
    assert_eq!(sort_event(text(news), None).unwrap_err(), EventError::MissingEventId);
    assert_eq!(sort_event(text(news), text("1")).unwrap_err(), EventError::InvalidEventId);
    assert_eq!(sort_event(None, text("$1")).unwrap_err(), EventError::MissingType);
    for event_id in [None, text("1"), text("$1")] {
        assert!(matches!(
            sort_event(text("m.reaction"), event_id),
            Ok(AnyEffektioMessageLikeEvent::Matrix)
        ));
    }
}
