//! The rooms of an account: which of them are groups, and how one is found.
use crate::wire::{parse_room_id, room_id_fault};
use vstd::prelude::*;

verus! {

/// The type of the state event that tells what a room is for.
pub const PURPOSE_FIELD: &'static str = "m.room.purpose";

/// The type that the state event had before it was settled.
pub const PURPOSE_FIELD_DEV: &'static str = "org.matrix.msc3088.room.purpose";

/// The state key that marks the groups of this application.
pub const PURPOSE_VALUE: &'static str = "org.effektio";

/// How far it is known whether a room is a group. A group has a state event of one of
/// two types; the second is looked for only where the first is not found.
#[derive(Debug, Clone, Copy, PartialEq, Eq, Structural)]
pub enum PurposeCheck {
    /// The state event of the settled type is to be looked for.
    Settled,
    /// The state event of the earlier type is to be looked for.
    Dev,
    /// It is known.
    Decided { is_group: bool },
}

impl PurposeCheck {
    /// The check at its beginning.
    pub fn new() -> (check: Self)
        ensures
            check == PurposeCheck::Settled,
    {
        PurposeCheck::Settled
    }

    /// The type and the state key of the state event that is to be looked for, if any.
    pub open spec fn wanted(self) -> Option<(Seq<char>, Seq<char>)> {
        match self {
            PurposeCheck::Settled => Some(("m.room.purpose"@, "org.effektio"@)),
            PurposeCheck::Dev => Some(("org.matrix.msc3088.room.purpose"@, "org.effektio"@)),
            PurposeCheck::Decided { .. } => None,
        }
    }

    /// The check after the state event was looked for.
    pub open spec fn after(self, found: bool) -> PurposeCheck {
        match self {
            PurposeCheck::Decided { .. } => self,
            _ if found => PurposeCheck::Decided { is_group: true },
            PurposeCheck::Settled => PurposeCheck::Dev,
            PurposeCheck::Dev => PurposeCheck::Decided { is_group: false },
        }
    }

    /// The type and the state key of the state event that is to be looked for, if any.
    pub fn query(&self) -> (query: Option<(&'static str, &'static str)>)
        ensures
            self.wanted() == match query {
                Some((event_type, state_key)) => Some((event_type@, state_key@)),
                None => None,
            },
    {
        match self {
            PurposeCheck::Settled => Some((PURPOSE_FIELD, PURPOSE_VALUE)),
            PurposeCheck::Dev => Some((PURPOSE_FIELD_DEV, PURPOSE_VALUE)),
            PurposeCheck::Decided { .. } => None,
        }
    }

    /// Goes on with what a look for the state event gave. A look that failed counts as
    /// one that found nothing.
    pub fn answer<T, E>(&mut self, answer: &Result<Option<T>, E>)
        ensures
            *final(self) == old(self).after(answer matches Ok(Some(_))),
    {
        let found = match answer {
            Ok(Some(_)) => true,
            _ => false,
        };
        *self = match *self {
            PurposeCheck::Decided { is_group } => PurposeCheck::Decided { is_group },
            PurposeCheck::Settled => if found {
                PurposeCheck::Decided { is_group: true }
            } else {
                PurposeCheck::Dev
            },
            PurposeCheck::Dev => PurposeCheck::Decided { is_group: found },
        };
    }
}

/// The rooms with the given mark, in order.
pub open spec fn marked<R>(rooms: Seq<R>, marks: Seq<bool>, mark: bool) -> Seq<R>
    decreases rooms.len(),
{
    if rooms.len() == 0 {
        Seq::empty()
    } else {
        let before = marked(rooms.drop_last(), marks, mark);
        if marks[rooms.len() - 1] == mark {
            before.push(rooms.last())
        } else {
            before
        }
    }
}

/// Divides rooms into groups and conversations, by a mark for each room that tells
/// whether it is a group.
pub fn devide_groups_from_common<R>(
    rooms: Vec<R>,
    is_group: &Vec<bool>,
) -> (divided: (Vec<R>, Vec<R>))
    requires
        is_group@.len() == rooms@.len(),
    ensures
        divided.0@ == marked(rooms@, is_group@, true),
        divided.1@ == marked(rooms@, is_group@, false),
{
    let mut groups: Vec<R> = Vec::new();
    let mut conversations: Vec<R> = Vec::new();
    let count: usize = is_group.len();
    let mut i: usize = 0;
    for room in it: rooms
        invariant
            is_group@.len() == rooms@.len(),
            count == is_group@.len(),
            i == it.index(),
            it.seq() == rooms@,
            groups@ == marked(rooms@.take(i as int), is_group@, true),
            conversations@ == marked(rooms@.take(i as int), is_group@, false),
    {
        assert(rooms@.take(i + 1).drop_last() =~= rooms@.take(i as int));
        if is_group[i] {
            groups.push(room);
        } else {
            conversations.push(room);
        }
        i = i + 1;
    }
    assert(rooms@.take(rooms@.len() as int) =~= rooms@);
    (groups, conversations)
}

/// Why a room was not found.
#[derive(Debug)]
pub enum RoomError {
    /// The name is no room identifier, for the given reason.
    InvalidId(String),
    /// No room has the identifier.
    NotFound,
}

impl RoomError {
    /// The error in words.
    pub fn message(&self) -> (message: String)
        ensures
            message@ == match *self {
                RoomError::InvalidId(fault) => fault@,
                RoomError::NotFound => "Room not found"@,
            },
    {
        match self {
            RoomError::InvalidId(fault) => fault.clone(),
            RoomError::NotFound => "Room not found".to_owned(),
        }
    }
}

/// A look for a room.
#[derive(Debug)]
pub struct RoomLookup {
    room_id: String,
}

impl View for RoomLookup {
    type V = Seq<char>;

    /// The identifier of the room that is looked for.
    closed spec fn view(&self) -> Seq<char> {
        self.room_id@
    }
}

impl RoomLookup {
    /// Begins to look for the room with an identifier.
    pub fn new(room_name: &str) -> (lookup: Result<RoomLookup, RoomError>)
        ensures
            match room_id_fault(room_name@) {
                None => lookup matches Ok(lookup) && lookup@ == room_name@,
                Some(fault) => lookup matches Err(RoomError::InvalidId(text)) && text@ == fault,
            },
    {
        match parse_room_id(room_name) {
            Ok(room_id) => Ok(RoomLookup { room_id }),
            Err(fault) => Err(RoomError::InvalidId(fault)),
        }
    }

    /// The identifier of the room that is looked for.
    pub fn room_id(&self) -> (room_id: &str)
        ensures
            room_id@ == self@,
    {
        self.room_id.as_str()
    }

    /// Ends with what the look gave.
    pub fn finish<R>(self, found: Option<R>) -> (room: Result<R, RoomError>)
        ensures
            room == match found {
                Some(room) => Ok(room),
                None => Err(RoomError::NotFound),
            },
    {
        match found {
            Some(room) => Ok(room),
            None => Err(RoomError::NotFound),
        }
    }
}

} // verus!
