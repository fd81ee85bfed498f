//! What the client remembers and decides, said of what it is given and what it gives.
use crate::executor::{
    applied, is_regular_message, sorted_by, sorted_event, sorting_view,
    AnyEffektioMessageLikeEvent, EventError, NewsEvent, SortedEvent,
};
use crate::report::{device_line_spec, heading_spec, padded, trust_name, DeviceInfo, LocalTrust};
use crate::rooms::{marked, PurposeCheck};
use crate::state::{
    cached_invitation, carried_invitation, finished, fresh_state, invitation_from,
    invitation_views, is_of_user, tells_event_id, with_invitations, ClientState, ClientStateView,
    Invitation, InvitationView, LoopCtrl,
};
use crate::verification::{
    all_symbols, answers, begins, first_ask, next_spec, unit_of_item, unit_views, Ask,
    EmojiItem, EmojiUnit, Next, Operation, Reply, VerificationError, VerificationFlow,
};
use crate::wire::{
    is_event_id, is_user_id, json_number, json_text, member_fields, MemberFields, MemberFieldsView,
};
use vstd::prelude::*;

verus! {

/// Taking up invitations adds them behind those that wait, in every state, and changes
/// nothing else.
pub proof fn law_invitations_are_added_in_every_state(
    state: ClientStateView,
    more: Seq<InvitationView>,
)
    ensures
        with_invitations(state, more).pending_invitations == state.pending_invitations + more,
        with_invitations(state, more).is_guest == state.is_guest,
        with_invitations(state, more).has_first_synced == state.has_first_synced,
        with_invitations(state, more).is_syncing == state.is_syncing,
        with_invitations(state, more).should_stop_syncing == state.should_stop_syncing,
{
}

/// Taking up invitations one after the other is taking them up at once, and taking up
/// none changes nothing.
pub proof fn law_invitations_can_be_added_in_turn(
    state: ClientStateView,
    more: Seq<InvitationView>,
    last: InvitationView,
)
    ensures
        with_invitations(with_invitations(state, more), seq![last]) == with_invitations(
            state,
            more.push(last),
        ),
        with_invitations(state, Seq::empty()) == state,
{
    assert(state.pending_invitations + more + seq![last] =~= state.pending_invitations
        + more.push(last));
    assert(state.pending_invitations + Seq::<InvitationView>::empty()
        =~= state.pending_invitations);
}

/// An event carries an invitation if and only if it is a membership event whose state key
/// is the user. The invitation has what was read of the event, and the room.
pub proof fn law_membership_events_of_the_user_are_invitations(
    member: Option<MemberFieldsView>,
    event_id: Option<Seq<char>>,
    timestamp: Option<u64>,
    user_id: Seq<char>,
    room_id: Seq<char>,
    room_name: Seq<char>,
)
    ensures
        invitation_from(member, event_id, timestamp, user_id, room_id, room_name) is Some
            <==> member is Some && member->0.state_key == user_id,
        invitation_from(member, event_id, timestamp, user_id, room_id, room_name) matches Some(
            invitation,
        ) ==> {
            &&& invitation.event_id == event_id
            &&& invitation.timestamp == timestamp
            &&& invitation.room_id == room_id
            &&& invitation.room_name == room_name
            &&& invitation.sender == Some(member->0.sender)
        },
        is_of_user(member, user_id) <==> member is Some && member->0.state_key == user_id,
{
}

/// The invitation that a JSON text carries has the event's identifier and time, and the
/// sender of the membership event.
pub proof fn law_invitations_hold_what_their_event_says(
    json: Seq<char>,
    user_id: Seq<char>,
    room_id: Seq<char>,
    room_name: Seq<char>,
)
    ensures
        carried_invitation(json, user_id, room_id, room_name) is Some <==> member_fields(json)
            is Some && member_fields(json)->0.state_key == user_id,
        carried_invitation(json, user_id, room_id, room_name) matches Some(invitation) ==> {
            &&& invitation.event_id == json_text(json, "event_id"@)
            &&& invitation.timestamp == json_number(json, "origin_server_ts"@)
            &&& invitation.room_id == room_id
            &&& invitation.room_name == room_name
            &&& invitation.sender == Some(member_fields(json)->0.sender)
        },
        tells_event_id(json, user_id) <==> (carried_invitation(
            json,
            user_id,
            room_id,
            room_name,
        ) is Some ==> json_text(json, "event_id"@) is Some),
{
}

/// An invitation that was known before the sync began holds the room and nothing else.
pub proof fn law_cached_invitations_hold_the_room(room_id: Seq<char>, room_name: Seq<char>)
    ensures
        cached_invitation(room_id, room_name).room_id == room_id,
        cached_invitation(room_id, room_name).room_name == room_name,
        cached_invitation(room_id, room_name).event_id is None,
        cached_invitation(room_id, room_name).timestamp is None,
        cached_invitation(room_id, room_name).sender is None,
{
}

/// A client that has done nothing is no guest's, has not synced, does not sync, was not
/// asked to stop and has no invitation.
pub proof fn law_a_fresh_state_is_empty()
    ensures
        !fresh_state().is_guest,
        !fresh_state().has_first_synced,
        !fresh_state().is_syncing,
        !fresh_state().should_stop_syncing,
        fresh_state().pending_invitations.len() == 0,
{
}

/// The state is seen field by field, and the invitations one by one.
pub proof fn law_the_state_is_seen_field_by_field(
    state: ClientState,
    invitations: Seq<Invitation>,
    member: MemberFields,
    i: int,
)
    ensures
        state@.is_guest == state.is_guest,
        state@.has_first_synced == state.has_first_synced,
        state@.is_syncing == state.is_syncing,
        state@.should_stop_syncing == state.should_stop_syncing,
        state@.pending_invitations.len() == state.pending_invitations@.len(),
        0 <= i < state.pending_invitations@.len() ==> state@.pending_invitations[i]
            == state.pending_invitations@[i]@,
        invitation_views(invitations).len() == invitations.len(),
        0 <= i < invitations.len() ==> invitation_views(invitations)[i] == invitations[i]@,
        member@.state_key == member.state_key@,
        member@.sender == member.sender@,
{
}

/// A response that is finished leaves the client syncing if and only if it was not asked
/// to stop, which is when the sync goes on; and changes nothing else.
pub proof fn law_finishing_decides_whether_to_go_on(state: ClientStateView)
    ensures
        finished(state).0.is_syncing == !state.should_stop_syncing,
        finished(state).1 == LoopCtrl::Continue <==> !state.should_stop_syncing,
        finished(state).1 == LoopCtrl::Break <==> state.should_stop_syncing,
        finished(state).0.is_guest == state.is_guest,
        finished(state).0.has_first_synced == state.has_first_synced,
        finished(state).0.should_stop_syncing == state.should_stop_syncing,
        finished(state).0.pending_invitations == state.pending_invitations,
        finished(finished(state).0) == finished(state),
{
}

/// The rooms with a mark are, in order, those at the positions at which that very mark
/// stands.
pub proof fn law_rooms_go_by_their_own_mark<R>(rooms: Seq<R>, marks: Seq<bool>, mark: bool)
    requires
        marks.len() >= rooms.len(),
    ensures
        marked(rooms, marks, mark) == Seq::new(
            rooms.len(),
            |i: int| (rooms[i], marks[i]),
        ).filter_map(
            |pair: (R, bool)|
                if pair.1 == mark {
                    Some(pair.0)
                } else {
                    None
                },
        ),
    decreases rooms.len(),
{
    if rooms.len() > 0 {
        law_rooms_go_by_their_own_mark(rooms.drop_last(), marks, mark);
        let pairs = Seq::new(rooms.len(), |i: int| (rooms[i], marks[i]));
        assert(pairs.drop_last() =~= Seq::new(
            rooms.drop_last().len(),
            |i: int| (rooms.drop_last()[i], marks[i]),
        ));
    }
}

/// Whether a room stands at a position with a mark.
pub open spec fn stands_at_mark<R>(
    rooms: Seq<R>,
    marks: Seq<bool>,
    mark: bool,
    room: R,
) -> bool {
    exists|i: int| 0 <= i < rooms.len() && marks[i] == mark && #[trigger] rooms[i] == room
}

/// Every room that has a mark is among the rooms with that mark, and every room among
/// those stands at a position with that mark.
pub proof fn law_rooms_are_found_by_their_mark<R>(
    rooms: Seq<R>,
    marks: Seq<bool>,
    mark: bool,
)
    requires
        marks.len() >= rooms.len(),
    ensures
        forall|i: int|
            0 <= i < rooms.len() && marks[i] == mark ==> marked(rooms, marks, mark).contains(
                #[trigger] rooms[i],
            ),
        forall|k: int|
            0 <= k < marked(rooms, marks, mark).len() ==> stands_at_mark(
                rooms,
                marks,
                mark,
                #[trigger] marked(rooms, marks, mark)[k],
            ),
    decreases rooms.len(),
{
    if rooms.len() > 0 {
        let before = rooms.drop_last();
        let kept = marked(before, marks, mark);
        let all = marked(rooms, marks, mark);
        law_rooms_are_found_by_their_mark(before, marks, mark);
        assert(kept.len() <= all.len() && forall|k: int|
            0 <= k < kept.len() ==> all[k] == kept[k]);
        assert forall|i: int| 0 <= i < rooms.len() && marks[i] == mark implies all.contains(
            #[trigger] rooms[i],
        ) by {
            if i < rooms.len() - 1 {
                assert(before[i] == rooms[i]);
                let k = choose|k: int| 0 <= k < kept.len() && kept[k] == before[i];
                assert(all[k] == rooms[i]);
            } else {
                assert(all[kept.len() as int] == rooms[i]);
            }
        }
        assert forall|k: int| 0 <= k < all.len() implies stands_at_mark(
            rooms,
            marks,
            mark,
            #[trigger] all[k],
        ) by {
            if k < kept.len() {
                assert(stands_at_mark(before, marks, mark, kept[k]));
                let i = choose|i: int|
                    0 <= i < before.len() && marks[i] == mark && #[trigger] before[i] == kept[k];
                assert(rooms[i] == all[k]);
            } else {
                assert(rooms[rooms.len() - 1] == all[k]);
            }
        }
    }
}

/// The purpose of a room is looked for under the settled type first and under the earlier
/// one where that finds nothing; a find makes the room a group, two failures make it none,
/// and what was decided stays.
pub proof fn law_how_the_purpose_is_looked_for(found: bool, is_group: bool)
    ensures
        PurposeCheck::Settled.wanted() == Some(("m.room.purpose"@, "org.effektio"@)),
        PurposeCheck::Dev.wanted() == Some(("org.matrix.msc3088.room.purpose"@, "org.effektio"@)),
        (PurposeCheck::Decided { is_group }).wanted() is None,
        PurposeCheck::Settled.after(true) == (PurposeCheck::Decided { is_group: true }),
        PurposeCheck::Settled.after(false) == PurposeCheck::Dev,
        PurposeCheck::Dev.after(found) == (PurposeCheck::Decided { is_group: found }),
        (PurposeCheck::Decided { is_group }).after(found) == (PurposeCheck::Decided { is_group }),
{
}

/// An operation begins if and only if the sender is a user, with the look for what it is
/// about: the request where one is to be accepted, and the verification otherwise.
pub proof fn law_operations_begin_with_a_user(
    flow: Result<VerificationFlow, VerificationError>,
    operation: Operation,
    sender: Seq<char>,
    event_id: Seq<char>,
)
    requires
        begins(flow, operation, sender, event_id),
    ensures
        flow is Ok <==> is_user_id(sender),
        flow matches Err(error) ==> error == VerificationError::InvalidSender,
        flow matches Ok(flow) ==> {
            &&& flow@.operation == operation
            &&& flow@.sender == sender
            &&& flow@.event_id == event_id
            &&& flow@.ask == Ask::FindRequest <==> operation == Operation::AcceptRequest
            &&& flow@.ask == Ask::FindSas <==> operation != Operation::AcceptRequest
        },
{
}

/// What is done to what was found: a request and a start are accepted, and every other
/// operation does what it is named after.
pub proof fn law_what_is_done_to_what_was_found(ask: Ask)
    ensures
        first_ask(Operation::AcceptRequest) == Ask::FindRequest,
        first_ask(Operation::AcceptStart) == Ask::FindSas,
        first_ask(Operation::Confirm) == Ask::FindSas,
        first_ask(Operation::Mismatch) == Ask::FindSas,
        first_ask(Operation::Cancel) == Ask::FindSas,
        first_ask(Operation::Review) == Ask::FindSas,
        next_spec(Operation::AcceptRequest, ask, Reply::Found) == Next::Ask(Ask::Accept),
        next_spec(Operation::AcceptStart, ask, Reply::Found) == Next::Ask(Ask::Accept),
        next_spec(Operation::Confirm, ask, Reply::Found) == Next::Ask(Ask::Confirm),
        next_spec(Operation::Mismatch, ask, Reply::Found) == Next::Ask(Ask::Mismatch),
        next_spec(Operation::Cancel, ask, Reply::Found) == Next::Ask(Ask::Cancel),
        next_spec(Operation::Review, ask, Reply::Found) == Next::Ask(Ask::IsDone),
{
}

/// What an operation ends in: only a request must be there and must be accepted; what is
/// missing otherwise is a no; what was done is a yes, but a confirmation asks whether the
/// verification is done, and the answer to that is the answer.
pub proof fn law_what_operations_end_in(operation: Operation, ask: Ask, done: bool)
    ensures
        operation == Operation::AcceptRequest ==> {
            &&& next_spec(operation, ask, Reply::Missing) == Next::Finished(
                Err(VerificationError::NoRequest),
            )
            &&& next_spec(operation, ask, Reply::Failed) == Next::Finished(
                Err(VerificationError::RequestNotAccepted),
            )
        },
        operation != Operation::AcceptRequest ==> {
            &&& next_spec(operation, ask, Reply::Missing) == Next::Finished(Ok(false))
            &&& next_spec(operation, ask, Reply::Failed) == Next::Finished(
                Err(VerificationError::ActionFailed),
            )
        },
        ask == Ask::Confirm ==> next_spec(operation, ask, Reply::Performed) == Next::Ask(
            Ask::IsDone,
        ),
        ask != Ask::Confirm ==> next_spec(operation, ask, Reply::Performed) == Next::Finished(
            Ok(true),
        ),
        next_spec(operation, ask, Reply::Done(done)) == Next::Finished(Ok(done)),
{
}

/// Looks are answered by a find or a miss, the question whether a verification is done by
/// a yes or a no, and actions by success or failure.
pub proof fn law_which_replies_answer(reply: Reply, ask: Ask)
    ensures
        ask == Ask::FindRequest || ask == Ask::FindSas ==> (answers(reply, ask) <==> reply
            == Reply::Missing || reply == Reply::Found),
        ask == Ask::IsDone ==> (answers(reply, ask) <==> reply == Reply::Done(true) || reply
            == Reply::Done(false)),
        ask == Ask::Accept || ask == Ask::Confirm || ask == Ask::Mismatch || ask == Ask::Cancel
            ==> (answers(reply, ask) <==> reply == Reply::Failed || reply == Reply::Performed),
{
}

/// A picture is shown by the first character of its symbol and by its description, each
/// at its own place.
pub proof fn law_pictures_are_their_first_characters(
    item: EmojiItem,
    items: Seq<EmojiItem>,
    units: Seq<EmojiUnit>,
    i: int,
)
    ensures
        unit_of_item(item).symbol == item.symbol@.first() as u32,
        unit_of_item(item).description == item.description@,
        unit_views(units).len() == units.len(),
        0 <= i < units.len() ==> unit_views(units)[i] == units[i]@,
        all_symbols(items) <==> !exists|j: int|
            0 <= j < items.len() && (#[trigger] items[j]).symbol@ == Seq::<char>::empty(),
{
    if all_symbols(items) {
        assert forall|j: int| 0 <= j < items.len() implies (#[trigger] items[j]).symbol@
            != Seq::<char>::empty() by {
            assert(items[j].symbol@.len() > 0);
        }
    } else {
        let j = choose|j: int|
            0 <= j < items.len() && !((#[trigger] items[j]).symbol@.len() > 0);
        assert(items[j].symbol@ =~= Seq::<char>::empty());
    }
}

/// An event is news if and only if it has the type of news and an identifier that is one;
/// news are known by that identifier. An event of any other type is not the application's
/// own, whatever it gives as its identifier.
pub proof fn law_what_is_news(event_type: Option<Seq<char>>, event_id: Option<Seq<char>>)
    ensures
        event_type is None <==> sorted_by(event_type, event_id) == Err::<SortedEvent, EventError>(
            EventError::MissingType,
        ),
        sorted_by(event_type, event_id) == Ok::<SortedEvent, EventError>(SortedEvent::Matrix)
            <==> event_type is Some && event_type != Some("org.effektio.news.dev"@),
        sorted_by(event_type, event_id) == Err::<SortedEvent, EventError>(
            EventError::MissingEventId,
        ) <==> event_type == Some("org.effektio.news.dev"@) && event_id is None,
        sorted_by(event_type, event_id) == Err::<SortedEvent, EventError>(
            EventError::InvalidEventId,
        ) <==> event_type == Some("org.effektio.news.dev"@) && event_id is Some && !is_event_id(
            event_id->0,
        ),
        event_type == Some("org.effektio.news.dev"@) && event_id is Some && is_event_id(
            event_id->0,
        ) ==> sorted_by(event_type, event_id) == Ok::<SortedEvent, EventError>(
            SortedEvent::NewsDev { event_id: event_id->0 },
        ),
{
}

/// What comes of an event that is taken up: news give the identifier that they tell, and
/// every error names what is wrong with the event.
pub proof fn law_what_comes_of_an_event(
    json: Seq<char>,
    outcome: Result<Option<String>, EventError>,
)
    requires
        applied(json, outcome),
    ensures
        outcome matches Ok(taken) ==> {
            &&& json_text(json, "type"@) == Some("org.effektio.news.dev"@)
            &&& taken is Some
            &&& json_text(json, "event_id"@) == Some(taken->0@)
            &&& is_event_id(taken->0@)
        },
        outcome matches Err(error) ==> {
            &&& error == EventError::MissingType <==> json_text(json, "type"@) is None
            &&& error == EventError::MissingEventId <==> json_text(json, "type"@) == Some(
                "org.effektio.news.dev"@,
            ) && json_text(json, "event_id"@) is None
            &&& error == EventError::InvalidEventId <==> json_text(json, "type"@) == Some(
                "org.effektio.news.dev"@,
            ) && json_text(json, "event_id"@) is Some && !is_event_id(
                json_text(json, "event_id"@)->0,
            )
        },
        json_text(json, "type"@) == Some("org.effektio.news.dev"@) && json_text(
            json,
            "event_id"@,
        ) is Some && is_event_id(json_text(json, "event_id"@)->0) ==> outcome is Ok,
{
}

/// Which events are left to others: those that tell a type which is not that of news. An
/// event is sorted by its type and its identifier, and seen with its identifier.
pub proof fn law_which_events_are_left_to_others(
    json: Seq<char>,
    event: Result<AnyEffektioMessageLikeEvent, EventError>,
)
    ensures
        is_regular_message(json) <==> json_text(json, "type"@) is Some && json_text(json, "type"@)
            != Some("org.effektio.news.dev"@),
        sorted_event(json) == sorted_by(json_text(json, "type"@), json_text(json, "event_id"@)),
        event matches Ok(AnyEffektioMessageLikeEvent::Matrix) ==> sorting_view(event) == Ok::<
            SortedEvent,
            EventError,
        >(SortedEvent::Matrix),
        event matches Ok(AnyEffektioMessageLikeEvent::News(NewsEvent::Dev { event_id }))
            ==> sorting_view(event) == Ok::<SortedEvent, EventError>(
            SortedEvent::NewsDev { event_id: event_id@ },
        ),
        event matches Err(error) ==> sorting_view(event) == Err::<SortedEvent, EventError>(error),
{
}

/// A text in a column is the text and then blanks up to the width, and no longer than it
/// must be.
pub proof fn law_columns_hold_the_text_and_blanks(text: Seq<char>, width: nat)
    ensures
        padded(text, width).len() == if text.len() < width {
            width
        } else {
            text.len()
        },
        padded(text, width).take(text.len() as int) == text,
        forall|i: int|
            text.len() <= i < padded(text, width).len() ==> #[trigger] padded(text, width)[i]
                == ' ',
{
}

/// The line for a device, from left to right: three blanks, the identifier, a blank, the
/// display name or a dash in a column of thirty, a blank, and whether it is verified.
pub proof fn law_device_lines_from_left_to_right(device: DeviceInfo, name: Seq<char>)
    requires
        name == match device.display_name {
            Some(name) => name@,
            None => seq!['-'],
        },
    ensures
        ({
            let line = device_line_spec(device);
            let id = device.device_id@;
            let column = if name.len() < 30 {
                30
            } else {
                name.len() as int
            };
            let named = 4 + id.len() as int;
            &&& line.len() == named + column + 1 + if device.verified {
                4int
            } else {
                5
            }
            &&& line.take(3) == seq![' ', ' ', ' ']
            &&& line.subrange(3, named - 1) == id
            &&& line[named - 1] == ' '
            &&& line.subrange(named, named + name.len()) == name
            &&& forall|i: int| named + name.len() <= i <= named + column ==> line[i] == ' '
            &&& device.verified ==> line.skip(named + column + 1) == seq!['t', 'r', 'u', 'e']
            &&& !device.verified ==> line.skip(named + column + 1) == seq!['f', 'a', 'l', 's', 'e']
        }),
{
    reveal_strlit("   ");
    reveal_strlit(" ");
    reveal_strlit("-");
    reveal_strlit("true");
    reveal_strlit("false");
    let line = device_line_spec(device);
    let id = device.device_id@;
    assert("-"@ =~= seq!['-']);
    let column = if name.len() < 30 {
        30
    } else {
        name.len() as int
    };
    let named = 4 + id.len() as int;
    assert(line.subrange(3, named - 1) =~= id);
    assert(line.subrange(named, named + name.len()) =~= name);
    if device.verified {
        assert(line.skip(named + column + 1) =~= seq!['t', 'r', 'u', 'e']);
    } else {
        assert(line.skip(named + column + 1) =~= seq!['f', 'a', 'l', 's', 'e']);
    }
}

/// The heading names the user, and a trust state is printed by its name.
pub proof fn law_headings_and_trust(user_id: Seq<char>)
    ensures
        heading_spec(user_id) == "Devices of user "@ + user_id,
        trust_name(LocalTrust::Verified) == "Verified"@,
        trust_name(LocalTrust::BlackListed) == "BlackListed"@,
        trust_name(LocalTrust::Ignored) == "Ignored"@,
        trust_name(LocalTrust::Unset) == "Unset"@,
{
}

} // verus!
