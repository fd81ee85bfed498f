//! What holds of the library as a whole.
use crate::channel::{
    closed, is_last_taken, offers, reads_apart, waiting, was_overfull, Offer, Refusal,
};
use crate::cross_signing::{
    timeline_name, to_device_name, CrossSigningEvent, CrossSigningEventView, TimelineKind,
    ToDeviceKind,
};
use crate::handlers::{
    all_fit, full_only_beyond, lemma_taken_events_add, offers_made, taken_events, waited_within,
    Delivery,
};
use crate::report::padded;
use crate::rooms::{marked, PurposeCheck};
use crate::state::{finished, ClientStateView, LoopCtrl};
use crate::sync::{
    after_events, new_room_steps, take_first_synced, take_sync_msg_like, take_to_device,
    SyncAction, SyncLoop, SyncStateView, SyncUpdate, QUEUE_BUFFER,
};
use crate::verification::{
    answers, failure, first_ask, next_spec, without, Ask, Next, Operation, Reply,
    VerificationError,
};
use futures::channel::mpsc::Sender;
use vstd::prelude::*;

verus! {

/// What a whole response does to the state, and whether the sync goes on.
pub open spec fn after_response(state: ClientStateView) -> (ClientStateView, LoopCtrl) {
    match after_events(state) {
        (noted, SyncAction::NameInvites) => finished(noted),
        (done, SyncAction::Finish(ctrl)) => (done, ctrl),
    }
}

/// A response leaves the client with the note that it has synced, and changes neither the
/// invitations that wait nor the kind of the account nor whether the sync was asked to
/// stop.
pub proof fn law_response_keeps(state: ClientStateView)
    ensures
        after_response(state).0.has_first_synced,
        after_response(state).0.pending_invitations == state.pending_invitations,
        after_response(state).0.is_guest == state.is_guest,
        after_response(state).0.should_stop_syncing == state.should_stop_syncing,
{
}

/// The names of the rooms of invitations are looked up with the first response and with
/// no later one.
pub proof fn law_invites_are_named_with_the_first_response(state: ClientStateView)
    ensures
        after_events(state).1 == SyncAction::NameInvites <==> !state.has_first_synced,
        after_events(after_response(state).0).1 is Finish,
{
}

/// The sync ends with a response if and only if it was asked to stop, and after the
/// response the client counts as syncing if and only if it goes on.
pub proof fn law_sync_ends_when_asked(state: ClientStateView)
    ensures
        after_response(state).1 == LoopCtrl::Break <==> state.should_stop_syncing,
        after_response(state).0.is_syncing <==> after_response(state).1 == LoopCtrl::Continue,
{
}

/// The steps that several events announce.
pub open spec fn announced(
    steps: Seq<Option<CrossSigningEventView>>,
) -> Seq<CrossSigningEventView>
    decreases steps.len(),
{
    if steps.len() == 0 {
        Seq::empty()
    } else {
        match steps.last() {
            Some(step) => announced(steps.drop_last()).push(step),
            None => announced(steps.drop_last()),
        }
    }
}

/// Every step that the events announce is offered to the queue once, in order, whatever
/// became of the steps before it; and nothing else is.
pub proof fn law_every_step_is_offered_once(
    deliveries: Seq<Delivery>,
    steps: Seq<Option<CrossSigningEventView>>,
)
    requires
        all_fit(deliveries, steps),
    ensures
        offers_made(deliveries, steps).map_values(|offer: Offer| offer.event) == announced(steps),
    decreases steps.len(),
{
    let events = |offer: Offer| offer.event;
    if steps.len() == 0 {
        assert(offers_made(deliveries, steps).map_values(events) =~= announced(steps));
    } else {
        assert forall|i: int| 0 <= i < steps.drop_last().len() implies (
        #[trigger] deliveries.drop_last()[i]).fits(steps.drop_last()[i]) by {
            assert(deliveries[i].fits(steps[i]));
        }
        law_every_step_is_offered_once(deliveries.drop_last(), steps.drop_last());
        assert(offers_made(deliveries, steps).map_values(events) =~= announced(steps));
    }
}

/// The first step of a response is never dropped because the queue is full: each
/// response has a place of its own in the queue.
pub proof fn law_first_step_is_not_crowded_out(made: Seq<Offer>, waited: Seq<nat>, buffer: nat)
    requires
        full_only_beyond(made, waited, buffer),
        made.len() > 0,
    ensures
        made[0].refusal != Some(Refusal::Full),
{
    if made[0].refusal == Some(Refusal::Full) {
        assert(was_overfull(made.take(0), waited.take(0), buffer));
    }
}

/// Whether no offer was refused because the queue was full.
pub open spec fn none_crowded_out(made: Seq<Offer>) -> bool {
    forall|i: int| 0 <= i < made.len() ==> (#[trigger] made[i]).refusal != Some(Refusal::Full)
}

/// A step is dropped because the queue is full only once more steps than the buffer holds
/// wait to be read: as long as no more wait when the steps of a response are taken, none
/// of them is.
pub proof fn law_steps_are_dropped_only_once_too_many_wait(made: Seq<Offer>, waited: Seq<nat>)
    requires
        full_only_beyond(made, waited, QUEUE_BUFFER as nat),
        waited_within(made, waited, QUEUE_BUFFER as nat),
    ensures
        none_crowded_out(made),
{
    assert forall|i: int| 0 <= i < made.len() implies (#[trigger] made[i]).refusal != Some(
        Refusal::Full,
    ) by {
        if made[i].refusal == Some(Refusal::Full) {
            let at = choose|at: int| #[trigger]
                is_last_taken(made.take(i), at) && waited.take(i)[at] > QUEUE_BUFFER;
            assert(made[at].refusal is None);
        }
    }
}

/// Whether the step that was offered at a position through a writing end was queued if it
/// came in while no more steps than the buffer of a sync holds waited to be read. Nothing
/// is said where the queue is closed, or where a read overlapped with the taking of a
/// step.
pub open spec fn queued_while_there_is_room(tx: Sender<CrossSigningEvent>, at: int) -> bool {
    !closed(tx) && reads_apart(tx) && 0 <= at < offers(tx).len() && waiting(tx)[at]
        <= QUEUE_BUFFER ==> offers(tx)[at].refusal is None
}

/// A step that comes in while no more steps than the buffer holds wait to be read is
/// queued, not dropped, through each queue of a sync as though there were no other: a
/// step is dropped only while more of them wait in its own queue. This is so as long as
/// the queue is open and no read overlaps with the taking of a step.
pub proof fn law_steps_are_queued_while_the_buffer_has_room(writer: SyncLoop, at: int)
    requires
        writer.well_formed(),
    ensures
        queued_while_there_is_room(writer@.to_device_tx, at),
        queued_while_there_is_room(writer@.sync_msg_like_tx, at),
{
}

/// A queue takes no more events than it is offered, and fewer where it refuses one.
proof fn lemma_taken_events_bound(made: Seq<Offer>)
    ensures
        taken_events(made).len() <= made.len(),
        (exists|i: int| 0 <= i < made.len() && (#[trigger] made[i]).refusal is Some)
            ==> taken_events(made).len() < made.len(),
    decreases made.len(),
{
    if made.len() > 0 {
        lemma_taken_events_bound(made.drop_last());
        if exists|i: int| 0 <= i < made.len() && (#[trigger] made[i]).refusal is Some {
            let i = choose|i: int| 0 <= i < made.len() && (#[trigger] made[i]).refusal is Some;
            if i < made.len() - 1 {
                assert(made.drop_last()[i].refusal is Some);
            }
        }
    }
}

/// No step is dropped because the queue is full before the queue has taken more steps
/// than its buffer holds, whether they were read or not.
pub proof fn law_the_buffer_is_filled_before_steps_are_dropped(
    made: Seq<Offer>,
    waited: Seq<nat>,
    earlier: Seq<CrossSigningEventView>,
)
    requires
        full_only_beyond(made, waited, QUEUE_BUFFER as nat),
        waited_within(made, waited, (earlier + taken_events(made)).len()),
        earlier.len() + made.len() <= QUEUE_BUFFER + 1,
    ensures
        none_crowded_out(made),
{
    assert forall|i: int| 0 <= i < made.len() implies (#[trigger] made[i]).refusal != Some(
        Refusal::Full,
    ) by {
        if made[i].refusal == Some(Refusal::Full) {
            lemma_taken_events_bound(made);
            assert(waited_within(made, waited, QUEUE_BUFFER as nat));
            law_steps_are_dropped_only_once_too_many_wait(made, waited);
        }
    }
}

/// The steps of a later response stand behind those of an earlier one, and what is
/// dropped is always the new step: whatever becomes of the offers of two responses, a
/// queue that held `held` holds it still, in its place, with what it took of the first
/// response behind it and what it took of the second behind that.
pub proof fn law_later_steps_stand_behind_earlier_ones(
    held: Seq<CrossSigningEventView>,
    made1: Seq<Offer>,
    made2: Seq<Offer>,
)
    ensures
        held.is_prefix_of(held + taken_events(made1)),
        (held + taken_events(made1)).is_prefix_of(
            held + taken_events(made1) + taken_events(made2),
        ),
        held + taken_events(made1) + taken_events(made2) == held + taken_events(made1 + made2),
        (forall|i: int| 0 <= i < made2.len() ==> (#[trigger] made2[i]).refusal is Some)
            ==> taken_events(made2) == Seq::<CrossSigningEventView>::empty(),
    decreases made2.len(),
{
    lemma_taken_events_add(made1, made2);
    assert(held + taken_events(made1) + taken_events(made2) =~= held + taken_events(
        made1 + made2,
    ));
    if made2.len() > 0 {
        law_later_steps_stand_behind_earlier_ones(held, made1, made2.drop_last());
        if forall|i: int| 0 <= i < made2.len() ==> (#[trigger] made2[i]).refusal is Some {
            assert(made2[made2.len() - 1].refusal is Some);
            assert forall|i: int| 0 <= i < made2.drop_last().len() implies (
            #[trigger] made2.drop_last()[i]).refusal is Some by {
                assert(made2[i].refusal is Some);
            }
        }
    }
}

/// What happened in rooms before the first response leads to no step.
pub proof fn law_rooms_are_passed_over_at_first(deliveries: Seq<Delivery>, update: SyncUpdate)
    requires
        all_fit(deliveries, new_room_steps(true, update)),
    ensures
        offers_made(deliveries, new_room_steps(true, update)) == Seq::<Offer>::empty(),
{
}

/// Each reading end can be taken once, and taking one leaves the others to be taken.
pub proof fn law_each_end_is_taken_once(state: SyncStateView)
    ensures
        take_to_device(take_to_device(state).1).0 is None,
        take_sync_msg_like(take_sync_msg_like(state).1).0 is None,
        take_first_synced(take_first_synced(state).1).0 is None,
        take_sync_msg_like(take_to_device(state).1).0 == state.sync_msg_like_rx,
        take_first_synced(take_to_device(state).1).0 == state.first_synced_rx,
        take_to_device(take_sync_msg_like(state).1).0 == state.to_device_rx,
        take_first_synced(take_sync_msg_like(state).1).0 == state.first_synced_rx,
        take_to_device(take_first_synced(state).1).0 == state.to_device_rx,
        take_sync_msg_like(take_first_synced(state).1).0 == state.sync_msg_like_rx,
{
}

/// Dividing rooms loses none and adds none: every room is either among the groups or
/// among the conversations, as often as it was there.
pub proof fn law_division_keeps_every_room<R>(rooms: Seq<R>, is_group: Seq<bool>)
    requires
        is_group.len() >= rooms.len(),
    ensures
        marked(rooms, is_group, true).to_multiset().add(
            marked(rooms, is_group, false).to_multiset(),
        ) =~= rooms.to_multiset(),
        marked(rooms, is_group, true).len() + marked(rooms, is_group, false).len() == rooms.len(),
    decreases rooms.len(),
{
    broadcast use vstd::seq_lib::group_to_multiset_ensures;

    if rooms.len() > 0 {
        law_division_keeps_every_room(rooms.drop_last(), is_group);
        assert(rooms =~= rooms.drop_last().push(rooms.last()));
        let before = marked(rooms.drop_last(), is_group, is_group[rooms.len() - 1]);
        assert(marked(rooms, is_group, is_group[rooms.len() - 1]) == before.push(rooms.last()));
    } else {
        assert(rooms =~= Seq::<R>::empty());
    }
}

/// A room is a group if and only if one of the two looks finds the state event, and the
/// second is made only where the first finds nothing.
pub proof fn law_group_by_either_event(settled: bool, dev: bool)
    ensures
        PurposeCheck::Settled.after(settled).wanted() is Some <==> !settled,
        PurposeCheck::Settled.after(settled).after(dev) == (PurposeCheck::Decided {
            is_group: settled || dev,
        }),
{
}

/// What an operation ends in, where `found` tells whether there was something to work on,
/// `performed` whether the action succeeded, and `done` whether the verification was done
/// then.
pub open spec fn verdict(
    operation: Operation,
    found: bool,
    performed: bool,
    done: bool,
) -> Result<bool, VerificationError> {
    if !found {
        without(operation)
    } else if operation == Operation::Review {
        Ok(done)
    } else if !performed {
        Err(failure(operation))
    } else if operation == Operation::Confirm {
        Ok(done)
    } else {
        Ok(true)
    }
}

/// The replies of an encryption layer.
pub open spec fn reply_to(ask: Ask, found: bool, performed: bool, done: bool) -> Reply {
    match ask {
        Ask::FindRequest | Ask::FindSas => if found {
            Reply::Found
        } else {
            Reply::Missing
        },
        Ask::IsDone => Reply::Done(done),
        _ => if performed {
            Reply::Performed
        } else {
            Reply::Failed
        },
    }
}

/// What an operation ends in from some point on, after at most `steps` replies.
pub open spec fn outcome_within(
    operation: Operation,
    ask: Ask,
    found: bool,
    performed: bool,
    done: bool,
    steps: nat,
) -> Option<Result<bool, VerificationError>>
    decreases steps,
{
    if steps == 0 {
        None
    } else {
        match next_spec(operation, ask, reply_to(ask, found, performed, done)) {
            Next::Finished(outcome) => Some(outcome),
            Next::Ask(next) => outcome_within(
                operation,
                next,
                found,
                performed,
                done,
                (steps - 1) as nat,
            ),
        }
    }
}

/// Every operation is over after at most three replies, with the verdict that they
/// call for.
pub proof fn law_operations_end_in_their_verdict(
    operation: Operation,
    found: bool,
    performed: bool,
    done: bool,
)
    ensures
        outcome_within(operation, first_ask(operation), found, performed, done, 3) == Some(
            verdict(operation, found, performed, done),
        ),
{
    reveal_with_fuel(outcome_within, 4);
}

/// Nothing is done to a verification before it was found: the first thing that is asked
/// is to find it, and where it is missing the operation is over.
pub proof fn law_nothing_is_done_before_it_is_found(operation: Operation)
    ensures
        first_ask(operation) == Ask::FindRequest || first_ask(operation) == Ask::FindSas,
        next_spec(operation, first_ask(operation), Reply::Missing) is Finished,
        answers(Reply::Missing, first_ask(operation)),
        answers(Reply::Found, first_ask(operation)),
{
}

/// The steps that are sent to this device can be told apart by their names.
pub proof fn law_to_device_names_differ(a: ToDeviceKind, b: ToDeviceKind)
    requires
        to_device_name(a) == to_device_name(b),
    ensures
        a == b,
{
    reveal_strlit("AnyToDeviceEvent::KeyVerificationRequest");
    reveal_strlit("AnyToDeviceEvent::KeyVerificationReady");
    reveal_strlit("AnyToDeviceEvent::KeyVerificationStart");
    reveal_strlit("AnyToDeviceEvent::KeyVerificationCancel");
    reveal_strlit("AnyToDeviceEvent::KeyVerificationAccept");
    reveal_strlit("AnyToDeviceEvent::KeyVerificationKey");
    reveal_strlit("AnyToDeviceEvent::KeyVerificationMac");
    reveal_strlit("AnyToDeviceEvent::KeyVerificationDone");
    if let Some(name) = to_device_name(a) {
        // The names differ in their lengths or in a letter of the step.
        assert(name.len() == to_device_name(b)->0.len());
        assert(name[33] == to_device_name(b)->0[33]);
        assert(name[34] == to_device_name(b)->0[34]);
    }
}

/// Whether a kind is reported under the name of a verification's being ready.
pub open spec fn reported_as_ready(kind: TimelineKind) -> bool {
    kind == TimelineKind::KeyVerificationReady || kind == TimelineKind::KeyVerificationStart
        || kind == TimelineKind::KeyVerificationCancel || kind == TimelineKind::KeyVerificationDone
}

/// Two kinds of steps in rooms share a name only where both are reported as ready.
pub proof fn law_timeline_names(a: TimelineKind, b: TimelineKind)
    ensures
        timeline_name(a) == timeline_name(b) <==> a == b || reported_as_ready(a)
            && reported_as_ready(b),
{
    reveal_strlit("AnySyncMessageLikeEvent::RoomMessage");
    reveal_strlit("AnySyncMessageLikeEvent::KeyVerificationReady");
    reveal_strlit("AnySyncMessageLikeEvent::KeyVerificationAccept");
    reveal_strlit("AnySyncMessageLikeEvent::KeyVerificationKey");
    reveal_strlit("AnySyncMessageLikeEvent::KeyVerificationMac");
    if timeline_name(a) == timeline_name(b) && timeline_name(a) is Some {
        assert(timeline_name(a)->0.len() == timeline_name(b)->0.len());
        assert(timeline_name(a)->0[40] == timeline_name(b)->0[40]);
    }
}

/// A step sent to this device and a step in a room never share a name.
pub proof fn law_names_tell_where_a_step_came_from(a: ToDeviceKind, b: TimelineKind)
    requires
        to_device_name(a) is Some,
    ensures
        to_device_name(a) != timeline_name(b),
{
    reveal_strlit("AnyToDeviceEvent::KeyVerificationRequest");
    reveal_strlit("AnyToDeviceEvent::KeyVerificationReady");
    reveal_strlit("AnyToDeviceEvent::KeyVerificationStart");
    reveal_strlit("AnyToDeviceEvent::KeyVerificationCancel");
    reveal_strlit("AnyToDeviceEvent::KeyVerificationAccept");
    reveal_strlit("AnyToDeviceEvent::KeyVerificationKey");
    reveal_strlit("AnyToDeviceEvent::KeyVerificationMac");
    reveal_strlit("AnyToDeviceEvent::KeyVerificationDone");
    reveal_strlit("AnySyncMessageLikeEvent::RoomMessage");
    reveal_strlit("AnySyncMessageLikeEvent::KeyVerificationReady");
    reveal_strlit("AnySyncMessageLikeEvent::KeyVerificationAccept");
    reveal_strlit("AnySyncMessageLikeEvent::KeyVerificationKey");
    reveal_strlit("AnySyncMessageLikeEvent::KeyVerificationMac");
    assert(to_device_name(a)->0[3] == 'T');
    assert(timeline_name(b) is Some ==> timeline_name(b)->0[3] == 'S');
}

/// A text in a column fills it and begins with the text itself.
pub proof fn law_padded_fills_the_column(text: Seq<char>, width: nat)
    ensures
        padded(text, width).len() >= width,
        text.is_prefix_of(padded(text, width)),
        text.len() >= width ==> padded(text, width) == text,
{
}

} // verus!
