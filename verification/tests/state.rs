use effektio::state::{
    can_handle_stripped_state_event, handle_stripped_state_event, invitation_of,
    try_handle_stripped_state_event, ClientState, ClientStateBuilder, Invitation, LoopCtrl,
};
use effektio::wire::MemberFields;

const ME: &str = "@me:example.org";

fn member_json(state_key: &str, rest: &str) -> String {
    format!(
        r#"{{"type": "m.room.member", "sender": "@alice:example.org", "state_key": "{}",
            "content": {{"membership": "invite"}}{}}}"#,
        state_key, rest
    )
}

fn parts(
    invitation: &Invitation,
) -> (Option<String>, Option<u64>, String, String, Option<String>) {
    (
        invitation.get_event_id(),
        invitation.get_timestamp(),
        invitation.get_room_id(),
        invitation.get_room_name(),
        invitation.get_sender(),
    )
}

#[test]
fn an_invitation_of_the_user_is_taken_up() {
    let mut state = ClientState::default();
    let event = member_json(ME, r#", "event_id": "$e1", "origin_server_ts": 1432735824653"#);
    assert!(can_handle_stripped_state_event(&event, ME));
    handle_stripped_state_event(&event, ME, "!r:example.org", "Room", &mut state);
    assert_eq!(state.pending_invitations.len(), 1);
    assert_eq!(
        parts(&state.pending_invitations[0]),
        (
            Some("$e1".to_owned()),
            Some(1432735824653),
            "!r:example.org".to_owned(),
            "Room".to_owned(),
            Some("@alice:example.org".to_owned())
        )
    );
    assert_eq!(
        parts(&state.pending_invitations[0].clone()),
        parts(&state.pending_invitations[0])
    );
}

#[test]
fn the_time_of_an_invitation_may_be_unknown() {
    let mut state = ClientState::default();
    for rest in [
        r#", "event_id": "$e1""#,
        r#", "event_id": "$e1", "origin_server_ts": "yesterday""#,
        r#", "event_id": "$e1", "origin_server_ts": -1"#,
    ] {
        let event = member_json(ME, rest);
        handle_stripped_state_event(&event, ME, "!r:example.org", "Room", &mut state);
    }
    assert_eq!(state.pending_invitations.len(), 3);
    assert!(state.pending_invitations.iter().all(|i| i.get_timestamp().is_none()));
}

#[test]
fn other_events_carry_no_invitation() {
    let mut state = ClientState::default();
    let other = member_json("@bob:example.org", "");
    let name = r#"{"type": "m.room.name", "sender": "@alice:example.org", "state_key": "",
        "content": {"name": "Room"}}"#;
    for event in [other.as_str(), name, "no json", "{}"] {
        assert!(can_handle_stripped_state_event(event, ME));
        handle_stripped_state_event(event, ME, "!r:example.org", "Room", &mut state);
    }
    assert!(state.pending_invitations.is_empty());
}

#[test]
fn an_invitation_must_tell_its_identifier() {
    let mut state = ClientState::default();
    let room = "!r:example.org";
    let good = member_json(ME, r#", "event_id": "$e1""#);
    let bad = member_json(ME, r#", "event_id": 5"#);
    assert!(!can_handle_stripped_state_event(&bad, ME));
    assert!(!can_handle_stripped_state_event(&member_json(ME, ""), ME));
    assert!(try_handle_stripped_state_event(&good, ME, room, "Room", &mut state));
    assert!(!try_handle_stripped_state_event(&bad, ME, room, "Room", &mut state));
    assert_eq!(state.pending_invitations.len(), 1);
    assert!(try_handle_stripped_state_event("{}", ME, room, "Room", &mut state));
    assert_eq!(state.pending_invitations.len(), 1);
    assert!(try_handle_stripped_state_event(&good, ME, "!s:example.org", "Other", &mut state));
    let rooms: Vec<String> = state.pending_invitations.iter().map(|i| i.get_room_id()).collect();
    assert_eq!(rooms, ["!r:example.org", "!s:example.org"]);
}

#[test]
fn an_invitation_is_made_of_what_was_read() {
    let member = |state_key: &str| {
        Some(MemberFields {
            state_key: state_key.to_owned(),
            sender: "@alice:example.org".to_owned(),
        })
    };
    let id = || Some("$e1".to_owned());
    let room = "!r:example.org";
    let invitation = invitation_of(member(ME), id(), Some(7), ME, room, "Room").unwrap();
    assert_eq!(
        parts(&invitation),
        (id(), Some(7), room.to_owned(), "Room".to_owned(), Some("@alice:example.org".to_owned()))
    );
    let untimed = invitation_of(member(ME), id(), None, ME, room, "Room").unwrap();
    assert_eq!(untimed.get_timestamp(), None);
    assert!(invitation_of(member("@bob:example.org"), id(), Some(7), ME, room, "Room").is_none());
    assert!(invitation_of(member("@bob:example.org"), None, None, ME, room, "Room").is_none());
    assert!(invitation_of(None, id(), Some(7), ME, room, "Room").is_none());
}

#[test]
fn cached_invitations_know_only_the_room() {
    let mut state = ClientState::default();
    state.record_cached_invitation("!r:example.org".to_owned(), "Room".to_owned());
    state.record_cached_invitation("!s:example.org".to_owned(), "Other".to_owned());
    assert_eq!(
        parts(&state.pending_invitations[0]),
        (None, None, "!r:example.org".to_owned(), "Room".to_owned(), None)
    );
    assert_eq!(state.pending_invitations[1].get_room_name(), "Other");
    assert_eq!(parts(&Invitation::default()), (None, None, String::new(), String::new(), None));
}

#[test]
fn only_one_response_is_the_first() {
    let mut state = ClientState::default();
    assert!(!state.has_first_synced);
    assert!(state.note_response());
    assert!(state.has_first_synced);
    assert!(!state.note_response());
    assert!(state.has_first_synced);
}

#[test]
fn a_response_keeps_the_rest_of_the_state() {
    let mut state = ClientState::default();
    state.is_guest = true;
    state.record_cached_invitation("!r:example.org".to_owned(), "Room".to_owned());
    state.note_response();
    assert_eq!(state.finish_response(), LoopCtrl::Continue);
    assert!(state.is_guest && state.is_syncing && !state.should_stop_syncing);
    state.should_stop_syncing = true;
    assert_eq!(state.finish_response(), LoopCtrl::Break);
    assert!(state.is_guest && !state.is_syncing && state.should_stop_syncing);
    assert_eq!(state.pending_invitations.len(), 1);
}

#[test]
fn a_builder_fills_in_what_is_not_given() {
    let state = ClientStateBuilder::default().build().unwrap();
    assert!(!state.is_guest && !state.has_first_synced);
    assert!(!state.is_syncing && !state.should_stop_syncing);
    assert!(state.pending_invitations.is_empty());

    let mut builder = ClientStateBuilder::default();
    builder.is_guest(true).is_syncing(true);
    let state = builder.build().unwrap();
    assert!(state.is_guest && state.is_syncing);
    assert!(!state.has_first_synced && !state.should_stop_syncing);

    let state = builder
        .is_guest(false)
        .has_first_synced(true)
        .should_stop_syncing(true)
        .pending_invitations(vec![Invitation::default()])
        .build()
        .unwrap();
    assert!(!state.is_guest && state.is_syncing);
    assert!(state.has_first_synced && state.should_stop_syncing);
    assert_eq!(state.pending_invitations.len(), 1);
}
