use effektio::client::Client;
use effektio::rooms::{
    devide_groups_from_common, PurposeCheck, RoomError, RoomLookup, PURPOSE_FIELD,
    PURPOSE_FIELD_DEV, PURPOSE_VALUE,
};
use effektio::state::ClientState;

const FOUND: Result<Option<u8>, String> = Ok(Some(1));
const NOT_FOUND: Result<Option<u8>, String> = Ok(None);

#[test]
fn a_room_is_a_group_by_the_settled_event() {
    let mut check = PurposeCheck::new();
    assert_eq!(check.query(), Some(("m.room.purpose", "org.effektio")));
    check.answer(&FOUND);
    assert_eq!(check, PurposeCheck::Decided { is_group: true });
    assert_eq!(check.query(), None);
}

#[test]
fn a_room_is_a_group_by_the_earlier_event() {
    for first in [NOT_FOUND, Err("store".to_owned())] {
        let mut check = PurposeCheck::new();
        check.answer(&first);
        assert_eq!(check.query(), Some(("org.matrix.msc3088.room.purpose", "org.effektio")));
        check.answer(&FOUND);
        assert_eq!(check, PurposeCheck::Decided { is_group: true });
    }
}

#[test]
fn a_room_without_either_event_is_no_group() {
    for second in [NOT_FOUND, Err("store".to_owned())] {
        let mut check = PurposeCheck::new();
        check.answer(&NOT_FOUND);
        check.answer(&second);
        assert_eq!(check, PurposeCheck::Decided { is_group: false });
        check.answer(&FOUND);
        assert_eq!(check, PurposeCheck::Decided { is_group: false });
    }
    assert_eq!(PURPOSE_FIELD, "m.room.purpose");
    assert_eq!(PURPOSE_FIELD_DEV, "org.matrix.msc3088.room.purpose");
    assert_eq!(PURPOSE_VALUE, "org.effektio");
}

#[test]
fn every_room_is_a_group_or_a_conversation() {
    let rooms = vec!["a", "b", "c", "d", "a"];
    let marks = vec![true, false, false, true, true];
    let (groups, conversations) = devide_groups_from_common(rooms.clone(), &marks);
    assert_eq!(groups, ["a", "d", "a"]);
    assert_eq!(conversations, ["b", "c"]);
    let client = Client::new(ClientState::default());
    assert_eq!(client.groups(rooms.clone(), &marks), ["a", "d", "a"]);
    assert_eq!(client.conversations(rooms, &marks), ["b", "c"]);
    let (groups, conversations) = devide_groups_from_common(Vec::<u8>::new(), &vec![]);
    assert!(groups.is_empty() && conversations.is_empty());
}

#[test]
fn rooms_are_looked_for_by_their_identifier() {
    let client = Client::new(ClientState::default());
    let lookup = client.room("!whatev:example.org".to_owned()).unwrap();
    assert_eq!(lookup.room_id(), "!whatev:example.org");
    assert_eq!(lookup.finish(Some(5)).unwrap(), 5);

    let lookup = RoomLookup::new("!whatev:example.org").unwrap();
    let error = lookup.finish(None::<u8>).unwrap_err();
    assert!(matches!(error, RoomError::NotFound));
    assert_eq!(error.message(), "Room not found");
}

#[test]
fn other_names_are_refused() {
    let client = Client::new(ClientState::default());
    for name in ["whatev:example.org", "#whatev:example.org", "!whatev", ""] {
        let error = client.room(name.to_owned()).unwrap_err();
        let fault = ruma::RoomId::parse(name).unwrap_err().to_string();
        assert_eq!(error.message(), fault);
        assert!(matches!(error, RoomError::InvalidId(text) if text == fault));
    }
}
