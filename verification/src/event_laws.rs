//! What the events of a response lead to, said of the events and of what became of them.
use crate::channel::{
    alone, buffer_of, closed, connected, is_last_taken, offers, reads_apart, signal_connected,
    taken, waiting, was_overfull, Offer, Refusal,
};
use crate::cross_signing::{
    timeline_event, timeline_event_from, timeline_kind_spec, timeline_step, to_device_event,
    to_device_event_from, to_device_kind_spec, to_device_step, CrossSigningEvent,
    CrossSigningEventView, TimelineEvent, TimelineEventView, TimelineKind, ToDeviceEvent,
    ToDeviceEventView, ToDeviceKind,
};
use crate::handlers::{
    all_fit, full_only_when_due, joined_steps, kept_on, offered, offers_made, same_queue,
    taken_events, timeline_json_step, timeline_steps, to_device_json_step, to_device_steps,
    Delivery, JoinedRoom,
};
use crate::state::{ClientStateView, LoopCtrl};
use crate::sync::{
    after_events, linked, new_room_steps, take_first_synced, take_sync_msg_like, take_to_device,
    unused, SyncAction, SyncLoop, SyncLoopView, SyncStateView, SyncUpdate,
};
use crate::text::{opt_view, texts};
use crate::wire::{
    timeline_fields, to_device_fields, TimelineFields, TimelineFieldsView, ToDeviceFields,
    ToDeviceFieldsView,
};
use futures::channel::mpsc::{Receiver, Sender};
use vstd::prelude::*;

verus! {

/// Whether a type is one of the eight that verification events have which are sent to a
/// device.
pub open spec fn is_to_device_step_type(event_type: Seq<char>) -> bool {
    ||| event_type == "m.key.verification.request"@
    ||| event_type == "m.key.verification.ready"@
    ||| event_type == "m.key.verification.start"@
    ||| event_type == "m.key.verification.cancel"@
    ||| event_type == "m.key.verification.accept"@
    ||| event_type == "m.key.verification.key"@
    ||| event_type == "m.key.verification.mac"@
    ||| event_type == "m.key.verification.done"@
}

/// Whether a type is one of the seven that verification events have in the timelines of
/// rooms, beside the room messages that ask for a verification.
pub open spec fn is_timeline_step_type(event_type: Seq<char>) -> bool {
    ||| event_type == "m.key.verification.ready"@
    ||| event_type == "m.key.verification.start"@
    ||| event_type == "m.key.verification.cancel"@
    ||| event_type == "m.key.verification.accept"@
    ||| event_type == "m.key.verification.key"@
    ||| event_type == "m.key.verification.mac"@
    ||| event_type == "m.key.verification.done"@
}

/// The type texts of verification events and of room messages, told apart by their length
/// and a letter.
proof fn lemma_types_differ()
    ensures
        "m.key.verification.request"@.len() == 26 && "m.key.verification.request"@[19] == 'r',
        "m.key.verification.ready"@.len() == 24 && "m.key.verification.ready"@[19] == 'r',
        "m.key.verification.start"@.len() == 24 && "m.key.verification.start"@[19] == 's',
        "m.key.verification.cancel"@.len() == 25 && "m.key.verification.cancel"@[19] == 'c',
        "m.key.verification.accept"@.len() == 25 && "m.key.verification.accept"@[19] == 'a',
        "m.key.verification.key"@.len() == 22 && "m.key.verification.key"@[19] == 'k',
        "m.key.verification.mac"@.len() == 22 && "m.key.verification.mac"@[19] == 'm',
        "m.key.verification.done"@.len() == 23 && "m.key.verification.done"@[19] == 'd',
        "m.room.message"@.len() == 14,
{
    reveal_strlit("m.key.verification.request");
    reveal_strlit("m.key.verification.ready");
    reveal_strlit("m.key.verification.start");
    reveal_strlit("m.key.verification.cancel");
    reveal_strlit("m.key.verification.accept");
    reveal_strlit("m.key.verification.key");
    reveal_strlit("m.key.verification.mac");
    reveal_strlit("m.key.verification.done");
    reveal_strlit("m.room.message");
}

/// Each kind of event that is sent to a device belongs to one type text, and every other
/// text is that of no verification event.
pub proof fn law_to_device_kinds_and_types(event_type: Seq<char>)
    ensures
        to_device_kind_spec(event_type) == ToDeviceKind::KeyVerificationRequest <==> event_type
            == "m.key.verification.request"@,
        to_device_kind_spec(event_type) == ToDeviceKind::KeyVerificationReady <==> event_type
            == "m.key.verification.ready"@,
        to_device_kind_spec(event_type) == ToDeviceKind::KeyVerificationStart <==> event_type
            == "m.key.verification.start"@,
        to_device_kind_spec(event_type) == ToDeviceKind::KeyVerificationCancel <==> event_type
            == "m.key.verification.cancel"@,
        to_device_kind_spec(event_type) == ToDeviceKind::KeyVerificationAccept <==> event_type
            == "m.key.verification.accept"@,
        to_device_kind_spec(event_type) == ToDeviceKind::KeyVerificationKey <==> event_type
            == "m.key.verification.key"@,
        to_device_kind_spec(event_type) == ToDeviceKind::KeyVerificationMac <==> event_type
            == "m.key.verification.mac"@,
        to_device_kind_spec(event_type) == ToDeviceKind::KeyVerificationDone <==> event_type
            == "m.key.verification.done"@,
        to_device_kind_spec(event_type) == ToDeviceKind::Other <==> !is_to_device_step_type(
            event_type,
        ),
{
    lemma_types_differ();
}

/// Each kind of event in the timelines of rooms belongs to one type text, and every other
/// text is that of no verification event, whatever the event says. Of the room messages
/// exactly those that ask for a verification are a step of one.
pub proof fn law_timeline_kinds_and_types(event_type: Seq<char>, verification_request: bool)
    ensures
        timeline_kind_spec(event_type, verification_request) == TimelineKind::VerificationRequest
            <==> event_type == "m.room.message"@ && verification_request,
        timeline_kind_spec(event_type, verification_request)
            == TimelineKind::KeyVerificationReady <==> event_type
            == "m.key.verification.ready"@,
        timeline_kind_spec(event_type, verification_request)
            == TimelineKind::KeyVerificationStart <==> event_type
            == "m.key.verification.start"@,
        timeline_kind_spec(event_type, verification_request)
            == TimelineKind::KeyVerificationCancel <==> event_type
            == "m.key.verification.cancel"@,
        timeline_kind_spec(event_type, verification_request)
            == TimelineKind::KeyVerificationAccept <==> event_type
            == "m.key.verification.accept"@,
        timeline_kind_spec(event_type, verification_request)
            == TimelineKind::KeyVerificationKey <==> event_type
            == "m.key.verification.key"@,
        timeline_kind_spec(event_type, verification_request)
            == TimelineKind::KeyVerificationMac <==> event_type
            == "m.key.verification.mac"@,
        timeline_kind_spec(event_type, verification_request)
            == TimelineKind::KeyVerificationDone <==> event_type
            == "m.key.verification.done"@,
        timeline_kind_spec(event_type, verification_request) == TimelineKind::Other
            <==> !is_timeline_step_type(event_type) && !(event_type == "m.room.message"@
            && verification_request),
        !is_timeline_step_type(event_type) && event_type != "m.room.message"@
            ==> timeline_kind_spec(event_type, verification_request) == TimelineKind::Other,
{
    lemma_types_differ();
}

/// A text that cannot be read as an event sent to this device announces nothing.
pub proof fn law_unreadable_to_device_events_announce_nothing(json: Seq<char>)
    requires
        to_device_fields(json) is None,
    ensures
        to_device_json_step(json) is None,
{
}

/// An event sent to this device announces a step if and only if it belongs to a
/// transaction and has one of the eight types. The step has the name of the type, the
/// transaction and the sender of the event.
pub proof fn law_to_device_events_announce_their_step(json: Seq<char>, fields: ToDeviceFieldsView)
    requires
        to_device_fields(json) == Some(fields),
    ensures
        to_device_json_step(json) is Some <==> fields.transaction_id is Some
            && is_to_device_step_type(fields.event_type),
        to_device_json_step(json) matches Some(step) ==> {
            &&& fields.transaction_id == Some(step.event_id)
            &&& step.sender == fields.sender
            &&& fields.event_type == "m.key.verification.request"@ <==> step.event_name
                == "AnyToDeviceEvent::KeyVerificationRequest"@
            &&& fields.event_type == "m.key.verification.ready"@ <==> step.event_name
                == "AnyToDeviceEvent::KeyVerificationReady"@
            &&& fields.event_type == "m.key.verification.start"@ <==> step.event_name
                == "AnyToDeviceEvent::KeyVerificationStart"@
            &&& fields.event_type == "m.key.verification.cancel"@ <==> step.event_name
                == "AnyToDeviceEvent::KeyVerificationCancel"@
            &&& fields.event_type == "m.key.verification.accept"@ <==> step.event_name
                == "AnyToDeviceEvent::KeyVerificationAccept"@
            &&& fields.event_type == "m.key.verification.key"@ <==> step.event_name
                == "AnyToDeviceEvent::KeyVerificationKey"@
            &&& fields.event_type == "m.key.verification.mac"@ <==> step.event_name
                == "AnyToDeviceEvent::KeyVerificationMac"@
            &&& fields.event_type == "m.key.verification.done"@ <==> step.event_name
                == "AnyToDeviceEvent::KeyVerificationDone"@
        },
{
    lemma_types_differ();
    lemma_to_device_names_differ();
}

/// The names of the steps that are sent to a device, told apart by their length and a
/// letter.
proof fn lemma_to_device_names_differ()
    ensures
        "AnyToDeviceEvent::KeyVerificationRequest"@.len() == 40 && "AnyToDeviceEvent::KeyVerificationRequest"@[33] == 'R',
        "AnyToDeviceEvent::KeyVerificationReady"@.len() == 38 && "AnyToDeviceEvent::KeyVerificationReady"@[33] == 'R',
        "AnyToDeviceEvent::KeyVerificationStart"@.len() == 38 && "AnyToDeviceEvent::KeyVerificationStart"@[33] == 'S',
        "AnyToDeviceEvent::KeyVerificationCancel"@.len() == 39 && "AnyToDeviceEvent::KeyVerificationCancel"@[33] == 'C',
        "AnyToDeviceEvent::KeyVerificationAccept"@.len() == 39 && "AnyToDeviceEvent::KeyVerificationAccept"@[33] == 'A',
        "AnyToDeviceEvent::KeyVerificationKey"@.len() == 36 && "AnyToDeviceEvent::KeyVerificationKey"@[33] == 'K',
        "AnyToDeviceEvent::KeyVerificationMac"@.len() == 36 && "AnyToDeviceEvent::KeyVerificationMac"@[33] == 'M',
        "AnyToDeviceEvent::KeyVerificationDone"@.len() == 37 && "AnyToDeviceEvent::KeyVerificationDone"@[33] == 'D',
{
    reveal_strlit("AnyToDeviceEvent::KeyVerificationRequest");
    reveal_strlit("AnyToDeviceEvent::KeyVerificationReady");
    reveal_strlit("AnyToDeviceEvent::KeyVerificationStart");
    reveal_strlit("AnyToDeviceEvent::KeyVerificationCancel");
    reveal_strlit("AnyToDeviceEvent::KeyVerificationAccept");
    reveal_strlit("AnyToDeviceEvent::KeyVerificationKey");
    reveal_strlit("AnyToDeviceEvent::KeyVerificationMac");
    reveal_strlit("AnyToDeviceEvent::KeyVerificationDone");
}

/// A text that cannot be read as an event of a room's timeline announces nothing.
pub proof fn law_unreadable_timeline_events_announce_nothing(json: Seq<char>)
    requires
        timeline_fields(json) is None,
    ensures
        timeline_json_step(json) is None,
{
}

/// An event of a room's timeline announces a step if and only if it has one of the seven
/// types or is a room message that asks for a verification. The step has the identifier
/// and the sender of the event, and its name: the start, the cancellation and the end of
/// a verification are named as its being ready is.
pub proof fn law_timeline_events_announce_their_step(json: Seq<char>, fields: TimelineFieldsView)
    requires
        timeline_fields(json) == Some(fields),
    ensures
        timeline_json_step(json) is Some <==> is_timeline_step_type(fields.event_type) || (
        fields.event_type == "m.room.message"@ && fields.verification_request),
        timeline_json_step(json) matches Some(step) ==> {
            &&& step.event_id == fields.event_id
            &&& step.sender == fields.sender
            &&& fields.event_type == "m.room.message"@ ==> step.event_name
                == "AnySyncMessageLikeEvent::RoomMessage"@
            &&& fields.event_type == "m.key.verification.ready"@ ==> step.event_name
                == "AnySyncMessageLikeEvent::KeyVerificationReady"@
            &&& fields.event_type == "m.key.verification.start"@ ==> step.event_name
                == "AnySyncMessageLikeEvent::KeyVerificationReady"@
            &&& fields.event_type == "m.key.verification.cancel"@ ==> step.event_name
                == "AnySyncMessageLikeEvent::KeyVerificationReady"@
            &&& fields.event_type == "m.key.verification.accept"@ ==> step.event_name
                == "AnySyncMessageLikeEvent::KeyVerificationAccept"@
            &&& fields.event_type == "m.key.verification.key"@ ==> step.event_name
                == "AnySyncMessageLikeEvent::KeyVerificationKey"@
            &&& fields.event_type == "m.key.verification.mac"@ ==> step.event_name
                == "AnySyncMessageLikeEvent::KeyVerificationMac"@
            &&& fields.event_type == "m.key.verification.done"@ ==> step.event_name
                == "AnySyncMessageLikeEvent::KeyVerificationReady"@
        },
{
    lemma_types_differ();
}

/// The steps of several events are those of each, in order, and depend on nothing else.
pub proof fn law_steps_of_events_by_place(events: Seq<String>, i: int)
    ensures
        to_device_steps(events).len() == events.len(),
        timeline_steps(events).len() == events.len(),
        0 <= i < events.len() ==> to_device_steps(events)[i] == to_device_json_step(events[i]@),
        0 <= i < events.len() ==> timeline_steps(events)[i] == timeline_json_step(events[i]@),
{
}

/// How many events the timelines of the first rooms hold.
pub open spec fn events_before(rooms: Seq<JoinedRoom>, room: int) -> nat
    decreases room,
{
    if room <= 0 {
        0
    } else {
        events_before(rooms, room - 1) + rooms[room - 1].timeline@.len()
    }
}

/// What comes behind does not change how many events come before.
proof fn lemma_events_before_drop_last(rooms: Seq<JoinedRoom>, room: int)
    requires
        rooms.len() > 0,
        room < rooms.len(),
    ensures
        events_before(rooms.drop_last(), room) == events_before(rooms, room),
    decreases room,
{
    if room > 0 {
        lemma_events_before_drop_last(rooms, room - 1);
        assert(rooms.drop_last()[room - 1] == rooms[room - 1]);
    }
}

/// The events of earlier rooms and of one room lie within those of all rooms.
proof fn lemma_events_before_within(rooms: Seq<JoinedRoom>, room: int, end: int)
    requires
        0 <= room < end <= rooms.len(),
    ensures
        events_before(rooms, room) + rooms[room].timeline@.len() <= events_before(rooms, end),
    decreases end - room,
{
    if room + 1 < end {
        lemma_events_before_within(rooms, room, end - 1);
    }
}

/// How many steps several rooms lead to.
proof fn lemma_joined_steps_len(rooms: Seq<JoinedRoom>)
    ensures
        joined_steps(rooms).len() == events_before(rooms, rooms.len() as int),
    decreases rooms.len(),
{
    if rooms.len() > 0 {
        lemma_joined_steps_len(rooms.drop_last());
        lemma_events_before_drop_last(rooms, rooms.len() - 1);
    }
}

/// Where the event of a room has its place.
proof fn lemma_joined_steps_by_place(rooms: Seq<JoinedRoom>, room: int, event: int)
    requires
        0 <= room < rooms.len(),
        0 <= event < rooms[room].timeline@.len(),
    ensures
        joined_steps(rooms)[events_before(rooms, room) + event] == timeline_json_step(
            rooms[room].timeline@[event]@,
        ),
    decreases rooms.len(),
{
    let before = rooms.drop_last();
    lemma_joined_steps_len(before);
    lemma_events_before_drop_last(rooms, rooms.len() - 1);
    if room < rooms.len() - 1 {
        lemma_joined_steps_by_place(before, room, event);
        lemma_events_before_drop_last(rooms, room);
        lemma_events_before_within(before, room, before.len() as int);
    }
}

/// Of a response that is not the first, every event in the timeline of every joined room
/// has its own place among the steps in rooms: behind those of the rooms before it and of
/// the events before it. There is nothing else among them, whatever else the response
/// holds. Of the first response there is nothing.
pub proof fn law_room_events_have_their_place(update: SyncUpdate)
    ensures
        new_room_steps(false, update).len() == events_before(
            update.joined@,
            update.joined@.len() as int,
        ),
        forall|room: int, event: int|
            #![trigger update.joined@[room].timeline@[event]]
            0 <= room < update.joined@.len() && 0 <= event < update.joined@[room].timeline@.len()
                ==> new_room_steps(false, update)[events_before(update.joined@, room) + event]
                == timeline_json_step(update.joined@[room].timeline@[event]@),
        new_room_steps(true, update).len() == 0,
{
    lemma_joined_steps_len(update.joined@);
    assert forall|room: int, event: int|
        #![trigger update.joined@[room].timeline@[event]]
        0 <= room < update.joined@.len() && 0 <= event
            < update.joined@[room].timeline@.len() implies new_room_steps(
        false,
        update,
    )[events_before(update.joined@, room) + event] == timeline_json_step(
        update.joined@[room].timeline@[event]@,
    ) by {
        lemma_joined_steps_by_place(update.joined@, room, event);
    }
}

/// Two responses with the same joined rooms lead to the same steps in rooms, and two with
/// the same events for this device to the same steps for it.
pub proof fn law_queues_do_not_mix(a: SyncUpdate, b: SyncUpdate, initial: bool)
    ensures
        a.joined@ == b.joined@ ==> new_room_steps(initial, a) == new_room_steps(initial, b),
        a.to_device@ == b.to_device@ ==> to_device_steps(a.to_device@) == to_device_steps(
            b.to_device@,
        ),
{
    law_room_events_have_their_place(a);
    law_room_events_have_their_place(b);
}

/// Each event has a fate of its own: it is passed over if and only if it announces no
/// step, and what is told of a dropped step is its identifier.
pub proof fn law_fates_fit_steps(
    deliveries: Seq<Delivery>,
    steps: Seq<Option<CrossSigningEventView>>,
    i: int,
)
    requires
        all_fit(deliveries, steps),
    ensures
        deliveries.len() == steps.len(),
        0 <= i < steps.len() ==> {
            &&& deliveries[i] is Ignored <==> steps[i] is None
            &&& deliveries[i] matches Delivery::Dropped { event_id, refusal } ==> steps[i]
                is Some && event_id@ == steps[i]->0.event_id && deliveries[i].refusal() == Some(
                refusal,
            )
            &&& deliveries[i] is Queued || deliveries[i] is Ignored <==> deliveries[i].refusal()
                is None
        },
{
    assert(0 <= i < steps.len() ==> deliveries[i].fits(steps[i]));
}

/// Of the events sent to this device, exactly the verification events are reported: each
/// is queued or dropped under its transaction, and every other one is passed over.
pub proof fn law_to_device_verification_events_are_reported(
    deliveries: Seq<Delivery>,
    events: Seq<String>,
    i: int,
)
    requires
        all_fit(deliveries, to_device_steps(events)),
        0 <= i < events.len(),
    ensures
        deliveries.len() == events.len(),
        deliveries[i] is Ignored <==> !(to_device_fields(events[i]@) matches Some(fields)
            && fields.transaction_id is Some && is_to_device_step_type(fields.event_type)),
        deliveries[i] matches Delivery::Dropped { event_id, .. } ==> to_device_fields(
            events[i]@,
        )->0.transaction_id == Some(event_id@),
{
    law_fates_fit_steps(deliveries, to_device_steps(events), i);
    law_steps_of_events_by_place(events, i);
    if let Some(fields) = to_device_fields(events[i]@) {
        law_to_device_events_announce_their_step(events[i]@, fields);
    } else {
        law_unreadable_to_device_events_announce_nothing(events[i]@);
    }
}

/// Of the events in joined rooms that a response other than the first brings, exactly the
/// verification events are reported, each at its own place.
pub proof fn law_room_verification_events_are_reported(
    deliveries: Seq<Delivery>,
    update: SyncUpdate,
    room: int,
    event: int,
)
    requires
        all_fit(deliveries, new_room_steps(false, update)),
        0 <= room < update.joined@.len(),
        0 <= event < update.joined@[room].timeline@.len(),
    ensures
        ({
            let json = update.joined@[room].timeline@[event]@;
            let delivery = deliveries[events_before(update.joined@, room) + event];
            &&& delivery is Ignored <==> !(timeline_fields(json) matches Some(fields) && (
            is_timeline_step_type(fields.event_type) || (fields.event_type == "m.room.message"@
                && fields.verification_request)))
            &&& delivery matches Delivery::Dropped { event_id, .. } ==> event_id@
                == timeline_fields(json)->0.event_id
        }),
{
    let json = update.joined@[room].timeline@[event]@;
    let place = events_before(update.joined@, room) + event;
    law_room_events_have_their_place(update);
    lemma_events_before_within(update.joined@, room, update.joined@.len() as int);
    assert(update.joined@[room].timeline@[event]@ == json);
    law_fates_fit_steps(deliveries, new_room_steps(false, update), place);
    if let Some(fields) = timeline_fields(json) {
        law_timeline_events_announce_their_step(json, fields);
    } else {
        law_unreadable_timeline_events_announce_nothing(json);
    }
}

/// What is offered to a queue is what the events announce, in order, each step with what
/// became of it.
pub proof fn law_offers_are_the_announced_steps(
    deliveries: Seq<Delivery>,
    steps: Seq<Option<CrossSigningEventView>>,
)
    requires
        deliveries.len() == steps.len(),
    ensures
        offers_made(deliveries, steps) == Seq::new(
            steps.len(),
            |i: int| (steps[i], deliveries[i]),
        ).filter_map(
            |pair: (Option<CrossSigningEventView>, Delivery)|
                match pair.0 {
                    Some(event) => Some(
                        Offer {
                            event,
                            refusal: match pair.1 {
                                Delivery::Dropped { refusal, .. } => Some(refusal),
                                _ => None,
                            },
                        },
                    ),
                    None => None,
                },
        ),
    decreases steps.len(),
{
    if steps.len() > 0 {
        law_offers_are_the_announced_steps(deliveries.drop_last(), steps.drop_last());
        let pairs = Seq::new(steps.len(), |i: int| (steps[i], deliveries[i]));
        assert(pairs.drop_last() =~= Seq::new(
            steps.drop_last().len(),
            |i: int| (steps.drop_last()[i], deliveries.drop_last()[i]),
        ));
    }
}

/// What a queue takes of several offers are the events of those that it does not refuse,
/// in order.
pub proof fn law_taken_are_the_offers_not_refused(made: Seq<Offer>)
    ensures
        taken_events(made) == made.filter_map(
            |offer: Offer|
                if offer.refusal is None {
                    Some(offer.event)
                } else {
                    None
                },
        ),
    decreases made.len(),
{
    if made.len() > 0 {
        law_taken_are_the_offers_not_refused(made.drop_last());
    }
}

/// An offer through a writing end adds itself behind the others, with its answer; a queue
/// with no other end has the event behind what it had if it was not refused, and what it
/// had otherwise. Where there is no step, nothing happens.
pub proof fn law_an_offer_adds_itself(
    before: Sender<CrossSigningEvent>,
    after: Sender<CrossSigningEvent>,
    step: Option<CrossSigningEventView>,
    refusal: Option<Refusal>,
)
    requires
        offered(before, after, step, refusal),
    ensures
        step is None ==> after == before,
        step is Some ==> offers(after).len() == offers(before).len() + 1,
        step is Some ==> offers(after).drop_last() == offers(before),
        step matches Some(event) ==> offers(after).last().event == event,
        step is Some ==> offers(after).last().refusal == refusal,
        alone(before) && step is Some && refusal is None ==> taken(after) == taken(before).push(
            step->0,
        ),
        alone(before) && !(step is Some && refusal is None) ==> taken(after) == taken(before),
        full_only_when_due(before) ==> full_only_when_due(after),
        alone(after) == alone(before),
        buffer_of(after) == buffer_of(before),
        forall|rx: Receiver<CrossSigningEvent>| connected(after, rx) == connected(before, rx),
{
}

/// Several offers leave the queue what it was, with what it took of them behind what it
/// had.
pub proof fn law_offers_keep_the_queue(
    before: Sender<CrossSigningEvent>,
    after: Sender<CrossSigningEvent>,
    made: Seq<Offer>,
)
    requires
        kept_on(before, after, made),
    ensures
        alone(before) ==> taken(after).len() == taken(before).len() + taken_events(made).len(),
        alone(before) ==> taken(after).take(taken(before).len() as int) == taken(before),
        alone(before) ==> taken(after).skip(taken(before).len() as int) == taken_events(made),
        full_only_when_due(before) ==> full_only_when_due(after),
        alone(after) == alone(before),
        buffer_of(after) == buffer_of(before),
        forall|rx: Receiver<CrossSigningEvent>| connected(after, rx) == connected(before, rx),
{
}

/// Two ends of one queue have its buffer and its readers.
pub proof fn law_ends_of_one_queue(
    a: Sender<CrossSigningEvent>,
    b: Sender<CrossSigningEvent>,
    rx: Receiver<CrossSigningEvent>,
)
    requires
        same_queue(a, b),
    ensures
        buffer_of(a) == buffer_of(b),
        connected(a, rx) <==> connected(b, rx),
{
}

/// When a step is refused through a writing end: as full only where, when the queue last
/// took one through this end, more than the buffer waited; and through the only end of an
/// open queue, with no read during a take, only while more than the buffer wait.
pub proof fn law_refusals_are_due(tx: Sender<CrossSigningEvent>, i: int)
    requires
        full_only_when_due(tx),
        0 <= i < offers(tx).len(),
        offers(tx)[i].refusal is Some,
    ensures
        waiting(tx).len() == offers(tx).len(),
        offers(tx)[i].refusal == Some(Refusal::Full) ==> exists|j: int|
            0 <= j < i && (#[trigger] offers(tx)[j]).refusal is None && waiting(tx)[j] > buffer_of(
                tx,
            ) && forall|k: int| j < k < i ==> (#[trigger] offers(tx)[k]).refusal is Some,
        alone(tx) && !closed(tx) && reads_apart(tx) ==> waiting(tx)[i] > buffer_of(tx),
{
    let made = offers(tx).take(i);
    if offers(tx)[i].refusal == Some(Refusal::Full) {
        assert(was_overfull(made, waiting(tx).take(i), buffer_of(tx)));
        let j = choose|j: int| #[trigger]
            is_last_taken(made, j) && waiting(tx).take(i)[j] > buffer_of(tx);
        assert(offers(tx)[j] == made[j]);
        assert forall|k: int| j < k < i implies (#[trigger] offers(tx)[k]).refusal is Some by {
            assert(made[k] == offers(tx)[k]);
        }
    }
}

/// When the only end of a queue had a step taken, no more steps waited than the queue has
/// taken in all.
pub proof fn law_no_more_wait_than_were_taken(tx: Sender<CrossSigningEvent>, i: int)
    requires
        full_only_when_due(tx),
        alone(tx),
        0 <= i < offers(tx).len(),
        offers(tx)[i].refusal is None,
    ensures
        waiting(tx)[i] <= taken(tx).len(),
{
}

/// The two sides of a sync belong together end by end.
pub proof fn law_sides_are_linked_end_by_end(writer: SyncLoopView, reader: SyncStateView)
    ensures
        linked(writer, reader) <==> {
            &&& reader.to_device_rx is Some ==> connected(
                writer.to_device_tx,
                reader.to_device_rx->0,
            )
            &&& reader.sync_msg_like_rx is Some ==> connected(
                writer.sync_msg_like_tx,
                reader.sync_msg_like_rx->0,
            )
            &&& reader.first_synced_rx is Some ==> signal_connected(
                writer.first_synced_tx,
                reader.first_synced_rx->0,
            )
        },
{
}

/// The writing side of a sync always is the only one of its queues, each of which holds
/// ten steps beside what each end may add; and a side that was not used has led to
/// nothing.
pub proof fn law_writing_side(writer: SyncLoop, tx: Sender<CrossSigningEvent>)
    ensures
        writer.well_formed() ==> alone(writer@.to_device_tx) && alone(writer@.sync_msg_like_tx),
        writer.well_formed() ==> buffer_of(writer@.to_device_tx) == 10 && buffer_of(
            writer@.sync_msg_like_tx,
        ) == 10,
        writer.well_formed() ==> full_only_when_due(writer@.to_device_tx) && full_only_when_due(
            writer@.sync_msg_like_tx,
        ),
        unused(tx) <==> offers(tx).len() == 0 && taken(tx).len() == 0,
{
    assert(offers(tx).len() == 0 ==> offers(tx) =~= Seq::<Offer>::empty());
    assert(taken(tx).len() == 0 ==> taken(tx) =~= Seq::<CrossSigningEventView>::empty());
}

/// Taking a reading end gives that end, leaves none in its place and the others in theirs.
pub proof fn law_taking_an_end(state: SyncStateView)
    ensures
        take_to_device(state).0 == state.to_device_rx,
        take_to_device(state).1.to_device_rx is None,
        take_to_device(state).1.sync_msg_like_rx == state.sync_msg_like_rx,
        take_to_device(state).1.first_synced_rx == state.first_synced_rx,
        take_sync_msg_like(state).0 == state.sync_msg_like_rx,
        take_sync_msg_like(state).1.sync_msg_like_rx is None,
        take_sync_msg_like(state).1.to_device_rx == state.to_device_rx,
        take_sync_msg_like(state).1.first_synced_rx == state.first_synced_rx,
        take_first_synced(state).0 == state.first_synced_rx,
        take_first_synced(state).1.first_synced_rx is None,
        take_first_synced(state).1.to_device_rx == state.to_device_rx,
        take_first_synced(state).1.sync_msg_like_rx == state.sync_msg_like_rx,
{
}

/// What the events of a response change in the state: the note of the first sync, and in
/// later responses whether the sync is running, which it is unless it was asked to stop.
pub proof fn law_what_a_response_changes(state: ClientStateView)
    ensures
        after_events(state).0.has_first_synced,
        after_events(state).0.pending_invitations == state.pending_invitations,
        after_events(state).0.is_guest == state.is_guest,
        after_events(state).0.should_stop_syncing == state.should_stop_syncing,
        after_events(state).0.is_syncing == if state.has_first_synced {
            !state.should_stop_syncing
        } else {
            state.is_syncing
        },
        !state.has_first_synced ==> after_events(state).1 == SyncAction::NameInvites,
        state.has_first_synced && state.should_stop_syncing ==> after_events(state).1
            == SyncAction::Finish(LoopCtrl::Break),
        state.has_first_synced && !state.should_stop_syncing ==> after_events(state).1
            == SyncAction::Finish(LoopCtrl::Continue),
{
}

/// Events and what was read of them are seen field by field.
pub proof fn law_events_are_seen_field_by_field(
    to_device: ToDeviceFields,
    timeline: TimelineFields,
    device_event: ToDeviceEvent,
    room_event: TimelineEvent,
)
    ensures
        to_device@.event_type == to_device.event_type@,
        to_device@.sender == to_device.sender@,
        to_device@.transaction_id is Some <==> to_device.transaction_id is Some,
        to_device.transaction_id matches Some(id) ==> to_device@.transaction_id == Some(id@),
        timeline@.event_type == timeline.event_type@,
        timeline@.verification_request == timeline.verification_request,
        timeline@.sender == timeline.sender@,
        timeline@.event_id == timeline.event_id@,
        device_event@.kind == device_event.kind,
        device_event@.sender == device_event.sender@,
        device_event@.transaction_id == device_event.transaction_id@,
        room_event@.kind == room_event.kind,
        room_event@.sender == room_event.sender@,
        room_event@.event_id == room_event.event_id@,
{
}

/// An event is made of what was read of it, field by field; one for this device belongs
/// to a transaction.
pub proof fn law_events_keep_what_was_read(
    to_device: ToDeviceFieldsView,
    timeline: TimelineFieldsView,
)
    ensures
        to_device_event_from(to_device) is Some <==> to_device.transaction_id is Some,
        to_device_event_from(to_device) matches Some(event) ==> {
            &&& event.sender == to_device.sender
            &&& to_device.transaction_id == Some(event.transaction_id)
            &&& event.kind == to_device_kind_spec(to_device.event_type)
            &&& event.kind == ToDeviceKind::Other <==> !is_to_device_step_type(
                to_device.event_type,
            )
        },
        timeline_event_from(timeline).sender == timeline.sender,
        timeline_event_from(timeline).event_id == timeline.event_id,
        timeline_event_from(timeline).kind == timeline_kind_spec(
            timeline.event_type,
            timeline.verification_request,
        ),
        timeline_event_from(timeline).kind == TimelineKind::Other <==> !is_timeline_step_type(
            timeline.event_type,
        ) && !(timeline.event_type == "m.room.message"@ && timeline.verification_request),
{
    lemma_types_differ();
}

/// Every text that can be read as an event of a room's timeline is one, with its sender
/// and its identifier; of the texts that can be read as an event sent to this device,
/// those are one that belong to a transaction.
pub proof fn law_which_texts_are_events(json: Seq<char>)
    ensures
        timeline_event(json) is Some <==> timeline_fields(json) is Some,
        timeline_event(json) matches Some(event) ==> {
            &&& event.sender == timeline_fields(json)->0.sender
            &&& event.event_id == timeline_fields(json)->0.event_id
            &&& event.kind == timeline_kind_spec(
                timeline_fields(json)->0.event_type,
                timeline_fields(json)->0.verification_request,
            )
        },
        to_device_event(json) is Some <==> to_device_fields(json) is Some && to_device_fields(
            json,
        )->0.transaction_id is Some,
        to_device_event(json) matches Some(event) ==> {
            &&& event.sender == to_device_fields(json)->0.sender
            &&& to_device_fields(json)->0.transaction_id == Some(event.transaction_id)
            &&& event.kind == to_device_kind_spec(to_device_fields(json)->0.event_type)
        },
{
}

/// An event announces a step if and only if it is of a kind that is one; the step has its
/// identifier, its sender and the name of its kind.
pub proof fn law_kinds_name_their_steps(device_event: ToDeviceEventView, room_event: TimelineEventView)
    ensures
        to_device_step(device_event) is Some <==> device_event.kind != ToDeviceKind::Other,
        to_device_step(device_event) matches Some(step) ==> {
            &&& step.event_id == device_event.transaction_id
            &&& step.sender == device_event.sender
            &&& device_event.kind == ToDeviceKind::KeyVerificationRequest ==> step.event_name
                == "AnyToDeviceEvent::KeyVerificationRequest"@
            &&& device_event.kind == ToDeviceKind::KeyVerificationReady ==> step.event_name
                == "AnyToDeviceEvent::KeyVerificationReady"@
            &&& device_event.kind == ToDeviceKind::KeyVerificationStart ==> step.event_name
                == "AnyToDeviceEvent::KeyVerificationStart"@
            &&& device_event.kind == ToDeviceKind::KeyVerificationCancel ==> step.event_name
                == "AnyToDeviceEvent::KeyVerificationCancel"@
            &&& device_event.kind == ToDeviceKind::KeyVerificationAccept ==> step.event_name
                == "AnyToDeviceEvent::KeyVerificationAccept"@
            &&& device_event.kind == ToDeviceKind::KeyVerificationKey ==> step.event_name
                == "AnyToDeviceEvent::KeyVerificationKey"@
            &&& device_event.kind == ToDeviceKind::KeyVerificationMac ==> step.event_name
                == "AnyToDeviceEvent::KeyVerificationMac"@
            &&& device_event.kind == ToDeviceKind::KeyVerificationDone ==> step.event_name
                == "AnyToDeviceEvent::KeyVerificationDone"@
        },
        timeline_step(room_event) is Some <==> room_event.kind != TimelineKind::Other,
        timeline_step(room_event) matches Some(step) ==> {
            &&& step.event_id == room_event.event_id
            &&& step.sender == room_event.sender
            &&& room_event.kind == TimelineKind::VerificationRequest ==> step.event_name
                == "AnySyncMessageLikeEvent::RoomMessage"@
            &&& room_event.kind == TimelineKind::KeyVerificationReady ==> step.event_name
                == "AnySyncMessageLikeEvent::KeyVerificationReady"@
            &&& room_event.kind == TimelineKind::KeyVerificationStart ==> step.event_name
                == "AnySyncMessageLikeEvent::KeyVerificationReady"@
            &&& room_event.kind == TimelineKind::KeyVerificationCancel ==> step.event_name
                == "AnySyncMessageLikeEvent::KeyVerificationReady"@
            &&& room_event.kind == TimelineKind::KeyVerificationAccept ==> step.event_name
                == "AnySyncMessageLikeEvent::KeyVerificationAccept"@
            &&& room_event.kind == TimelineKind::KeyVerificationKey ==> step.event_name
                == "AnySyncMessageLikeEvent::KeyVerificationKey"@
            &&& room_event.kind == TimelineKind::KeyVerificationMac ==> step.event_name
                == "AnySyncMessageLikeEvent::KeyVerificationMac"@
            &&& room_event.kind == TimelineKind::KeyVerificationDone ==> step.event_name
                == "AnySyncMessageLikeEvent::KeyVerificationReady"@
        },
{
}

/// Texts are seen by their characters, one by one, and an optional value is seen where
/// there is one.
pub proof fn law_texts_are_seen_one_by_one(list: Seq<String>, value: Option<String>, i: int)
    ensures
        texts(list).len() == list.len(),
        0 <= i < list.len() ==> texts(list)[i] == list[i]@,
        opt_view(value) is Some <==> value is Some,
        value matches Some(text) ==> opt_view(value) == Some(text@),
{
}

} // verus!
