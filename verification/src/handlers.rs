//! What is done with each event of a sync.
use crate::channel::{
    alone, buffer_of, closed, connected, offer, offers, reads_apart, taken, waiting, was_overfull,
    Offer, Refusal,
};
use crate::cross_signing::{
    decode_timeline, decode_to_device, step_of_timeline, step_of_to_device, timeline_event,
    timeline_step, to_device_event, to_device_step, CrossSigningEvent, CrossSigningEventView,
    TimelineEvent, ToDeviceEvent,
};
use crate::text::{opt_view, texts};
use futures::channel::mpsc::{Receiver, Sender};
use vstd::prelude::*;

verus! {

/// What became of one event.
#[derive(Debug)]
pub enum Delivery {
    /// It announces no step of a verification.
    Ignored,
    /// The step that it announces waits in the queue.
    Queued,
    /// The queue did not take the step with this identifier.
    Dropped { event_id: String, refusal: Refusal },
}

impl Delivery {
    /// Why the queue did not take the step, if it did not.
    pub open spec fn refusal(self) -> Option<Refusal> {
        match self {
            Delivery::Dropped { refusal, .. } => Some(refusal),
            _ => None,
        }
    }

    /// Whether this can become of an event that announces `step`.
    pub open spec fn fits(self, step: Option<CrossSigningEventView>) -> bool {
        match self {
            Delivery::Ignored => step is None,
            Delivery::Queued => step is Some,
            Delivery::Dropped { event_id, .. } => step is Some && event_id@ == step->0.event_id,
        }
    }
}

/// Whether each event had a fate that fits the step that it announces, if any.
pub open spec fn all_fit(
    deliveries: Seq<Delivery>,
    steps: Seq<Option<CrossSigningEventView>>,
) -> bool {
    &&& deliveries.len() == steps.len()
    &&& forall|i: int| 0 <= i < steps.len() ==> (#[trigger] deliveries[i]).fits(steps[i])
}

/// The offers to which `steps` lead with the outcomes that `deliveries` tell: one for
/// each event that announces a step, in order.
pub open spec fn offers_made(
    deliveries: Seq<Delivery>,
    steps: Seq<Option<CrossSigningEventView>>,
) -> Seq<Offer>
    decreases steps.len(),
{
    if steps.len() == 0 {
        Seq::empty()
    } else {
        let before = offers_made(deliveries.drop_last(), steps.drop_last());
        match steps.last() {
            Some(event) => before.push(Offer { event, refusal: deliveries.last().refusal() }),
            None => before,
        }
    }
}

/// Whether two writing ends belong to one queue.
pub open spec fn same_queue(a: Sender<CrossSigningEvent>, b: Sender<CrossSigningEvent>) -> bool {
    &&& buffer_of(a) == buffer_of(b)
    &&& forall|rx: Receiver<CrossSigningEvent>| connected(a, rx) == connected(b, rx)
}

/// The events that the queue took of the offers, in order.
pub open spec fn taken_events(made: Seq<Offer>) -> Seq<CrossSigningEventView>
    decreases made.len(),
{
    if made.len() == 0 {
        Seq::empty()
    } else if made.last().refusal is None {
        taken_events(made.drop_last()).push(made.last().event)
    } else {
        taken_events(made.drop_last())
    }
}

/// Whether each refusal of a full queue comes where more than `buffer` events waited to
/// be read when the queue last took one of the offers before it, where `waited` tells how
/// many did at each offer.
pub open spec fn full_only_beyond(made: Seq<Offer>, waited: Seq<nat>, buffer: nat) -> bool {
    &&& waited.len() == made.len()
    &&& forall|i: int|
        0 <= i < made.len() && (#[trigger] made[i]).refusal == Some(Refusal::Full)
            ==> was_overfull(made.take(i), waited.take(i), buffer)
}

/// Whether no more events than `bound` waited to be read whenever the queue took one of
/// the offers.
pub open spec fn waited_within(made: Seq<Offer>, waited: Seq<nat>, bound: nat) -> bool {
    forall|i: int|
        0 <= i < made.len() && (#[trigger] made[i]).refusal is None ==> waited[i] <= bound
}

/// Whether every offer that came while no more than `buffer` events waited to be read was
/// taken, where `waited` tells how many waited at each offer.
pub open spec fn refused_only_beyond(made: Seq<Offer>, waited: Seq<nat>, buffer: nat) -> bool {
    forall|i: int|
        0 <= i < made.len() && (#[trigger] made[i]).refusal is Some ==> waited[i] > buffer
}

/// Whether what was offered through a writing end was refused by a full queue only where
/// too many events waited, and no more events waited than the queue has taken. Where the
/// queue is open and the end is the only one, and no read overlapped with the taking of
/// an event, nothing was refused but while too many events waited.
pub open spec fn full_only_when_due(tx: Sender<CrossSigningEvent>) -> bool {
    &&& full_only_beyond(offers(tx), waiting(tx), buffer_of(tx))
    &&& alone(tx) ==> waited_within(offers(tx), waiting(tx), taken(tx).len())
    &&& alone(tx) && !closed(tx) && reads_apart(tx) ==> refused_only_beyond(
        offers(tx),
        waiting(tx),
        buffer_of(tx),
    )
}

/// Whether a writing end went from `before` to `after` by the offer of a step, if there
/// is one, which was refused as told.
pub open spec fn offered(
    before: Sender<CrossSigningEvent>,
    after: Sender<CrossSigningEvent>,
    step: Option<CrossSigningEventView>,
    refusal: Option<Refusal>,
) -> bool {
    &&& step is None ==> after == before
    &&& step matches Some(event) ==> {
        &&& offers(after) == offers(before).push(Offer { event, refusal })
        &&& alone(before) ==> taken(after) == if refusal is None {
            taken(before).push(event)
        } else {
            taken(before)
        }
        &&& refusal == Some(Refusal::Full) ==> was_overfull(
            offers(before),
            waiting(before),
            buffer_of(before),
        )
    }
    &&& full_only_when_due(before) ==> full_only_when_due(after)
    &&& alone(after) == alone(before)
    &&& same_queue(after, before)
}

/// Whether a writing end went from `before` to `after` by making these offers more: the
/// queue has what it took of them behind what it had, and nothing else.
pub open spec fn kept_on(
    before: Sender<CrossSigningEvent>,
    after: Sender<CrossSigningEvent>,
    made: Seq<Offer>,
) -> bool {
    &&& alone(before) ==> taken(after) == taken(before) + taken_events(made)
    &&& full_only_when_due(before) ==> full_only_when_due(after)
    &&& alone(after) == alone(before)
    &&& same_queue(after, before)
}

/// One more offer keeps refusals of a full queue to where too many events waited.
proof fn lemma_full_only_when_due_push(
    before: Sender<CrossSigningEvent>,
    after: Sender<CrossSigningEvent>,
    next: Offer,
)
    requires
        full_only_when_due(before),
        same_queue(after, before),
        alone(after) == alone(before),
        offers(after) == offers(before).push(next),
        waiting(after) == waiting(before).push(waiting(after).last()),
        next.refusal == Some(Refusal::Full) ==> was_overfull(
            offers(before),
            waiting(before),
            buffer_of(before),
        ),
        alone(before) ==> taken(after).len() >= taken(before).len(),
        alone(before) && next.refusal is None ==> waiting(after).last() <= taken(after).len(),
        alone(before) && !closed(after) && reads_apart(after) ==> {
            &&& !closed(before) && reads_apart(before)
            &&& next.refusal is Some ==> waiting(after).last() > buffer_of(before)
        },
    ensures
        full_only_when_due(after),
{
    let made = offers(before);
    let waited = waiting(before);
    assert forall|i: int|
        0 <= i < offers(after).len() && (#[trigger] offers(after)[i]).refusal == Some(
            Refusal::Full,
        ) implies was_overfull(offers(after).take(i), waiting(after).take(i), buffer_of(after)) by {
        if i < made.len() {
            assert(made[i].refusal == Some(Refusal::Full));
            assert(offers(after).take(i) =~= made.take(i));
            assert(waiting(after).take(i) =~= waited.take(i));
        } else {
            assert(offers(after).take(i) =~= made);
            assert(waiting(after).take(i) =~= waited);
        }
    }
    assert forall|i: int|
        alone(after) && 0 <= i < offers(after).len() && (#[trigger] offers(
            after,
        )[i]).refusal is None implies waiting(after)[i] <= taken(after).len() by {
        if i < made.len() {
            assert(made[i].refusal is None);
        }
    }
    assert forall|i: int|
        alone(after) && !closed(after) && reads_apart(after) && 0 <= i < offers(after).len() && (
        #[trigger] offers(after)[i]).refusal is Some implies waiting(after)[i] > buffer_of(
        after,
    ) by {
        if i < made.len() {
            assert(made[i].refusal is Some);
        }
    }
}

/// What became of the step with an identifier that was offered to a queue.
pub fn settle(event_id: String, refusal: Option<Refusal>) -> (delivery: Delivery)
    ensures
        delivery == match refusal {
            None => Delivery::Queued,
            Some(refusal) => Delivery::Dropped { event_id, refusal },
        },
{
    match refusal {
        None => Delivery::Queued,
        Some(refusal) => Delivery::Dropped { event_id, refusal },
    }
}

/// Offers a step to a queue, if there is one.
fn deliver(
    step: Option<CrossSigningEvent>,
    tx: &mut Sender<CrossSigningEvent>,
) -> (delivery: Delivery)
    ensures
        delivery.fits(opt_view(step)),
        offered(*old(tx), *final(tx), opt_view(step), delivery.refusal()),
{
    match step {
        None => Delivery::Ignored,
        Some(step) => {
            let event_id = step.get_event_id();
            let ghost event = step@;
            let refusal = offer(tx, step);
            proof {
                assert(refusal is None || refusal == Some(Refusal::Full) || refusal == Some(
                    Refusal::Disconnected,
                ));
                if full_only_when_due(*old(tx)) {
                    lemma_full_only_when_due_push(*old(tx), *tx, Offer { event, refusal });
                }
            }
            settle(event_id, refusal)
        },
    }
}

/// Offers the step that an event announces which was sent to this device, if it
/// announces one, to the queue. What the queue cannot take is dropped.
pub fn handle_to_device_event(
    event: &ToDeviceEvent,
    tx: &mut Sender<CrossSigningEvent>,
) -> (delivery: Delivery)
    ensures
        delivery.fits(to_device_step(event@)),
        offered(*old(tx), *final(tx), to_device_step(event@), delivery.refusal()),
{
    deliver(step_of_to_device(event), tx)
}

/// Offers the step that an event of a room's timeline announces, if it announces one,
/// to the queue. What the queue cannot take is dropped.
pub fn handle_any_sync_event(
    event: &TimelineEvent,
    tx: &mut Sender<CrossSigningEvent>,
) -> (delivery: Delivery)
    ensures
        delivery.fits(timeline_step(event@)),
        offered(*old(tx), *final(tx), timeline_step(event@), delivery.refusal()),
{
    deliver(step_of_timeline(event), tx)
}

/// The step that a JSON text announces which was sent to this device, if any.
pub open spec fn to_device_json_step(json: Seq<char>) -> Option<CrossSigningEventView> {
    match to_device_event(json) {
        Some(event) => to_device_step(event),
        None => None,
    }
}

/// The step that a JSON text of a room's timeline announces, if any.
pub open spec fn timeline_json_step(json: Seq<char>) -> Option<CrossSigningEventView> {
    match timeline_event(json) {
        Some(event) => timeline_step(event),
        None => None,
    }
}

/// The steps that the events announce which were sent to this device.
pub open spec fn to_device_steps(events: Seq<String>) -> Seq<Option<CrossSigningEventView>> {
    texts(events).map_values(|json: Seq<char>| to_device_json_step(json))
}

/// The steps that the events of a room's timeline announce.
pub open spec fn timeline_steps(events: Seq<String>) -> Seq<Option<CrossSigningEventView>> {
    texts(events).map_values(|json: Seq<char>| timeline_json_step(json))
}

/// A room that this account has joined, with what is new in its timeline.
#[derive(Debug)]
pub struct JoinedRoom {
    /// The JSON texts of the new events, oldest first.
    pub timeline: Vec<String>,
}

/// The steps that the events in the timelines of several rooms announce.
pub open spec fn joined_steps(rooms: Seq<JoinedRoom>) -> Seq<Option<CrossSigningEventView>>
    decreases rooms.len(),
{
    if rooms.len() == 0 {
        Seq::empty()
    } else {
        joined_steps(rooms.drop_last()) + timeline_steps(rooms.last().timeline@)
    }
}

/// One more event adds its offer, if it announces a step, behind the others.
proof fn lemma_offers_made_push(
    deliveries: Seq<Delivery>,
    steps: Seq<Option<CrossSigningEventView>>,
    delivery: Delivery,
    step: Option<CrossSigningEventView>,
)
    ensures
        offers_made(deliveries.push(delivery), steps.push(step)) == match step {
            Some(event) => offers_made(deliveries, steps).push(
                Offer { event, refusal: delivery.refusal() },
            ),
            None => offers_made(deliveries, steps),
        },
{
    assert(deliveries.push(delivery).drop_last() =~= deliveries);
    assert(steps.push(step).drop_last() =~= steps);
}

/// The offers of two runs of events are those of the first followed by those of the
/// second.
proof fn lemma_offers_made_add(
    deliveries1: Seq<Delivery>,
    steps1: Seq<Option<CrossSigningEventView>>,
    deliveries2: Seq<Delivery>,
    steps2: Seq<Option<CrossSigningEventView>>,
)
    requires
        deliveries1.len() == steps1.len(),
        deliveries2.len() == steps2.len(),
    ensures
        offers_made(deliveries1 + deliveries2, steps1 + steps2) == offers_made(
            deliveries1,
            steps1,
        ) + offers_made(deliveries2, steps2),
    decreases steps2.len(),
{
    if steps2.len() == 0 {
        assert(deliveries1 + deliveries2 =~= deliveries1);
        assert(steps1 + steps2 =~= steps1);
    } else {
        let deliveries = deliveries2.drop_last();
        let steps = steps2.drop_last();
        lemma_offers_made_add(deliveries1, steps1, deliveries, steps);
        assert((deliveries1 + deliveries2).drop_last() =~= deliveries1 + deliveries);
        assert((steps1 + steps2).drop_last() =~= steps1 + steps);
    }
}

/// The events that a queue took of two runs of offers are those of the first followed by
/// those of the second.
pub(crate) proof fn lemma_taken_events_add(made1: Seq<Offer>, made2: Seq<Offer>)
    ensures
        taken_events(made1 + made2) == taken_events(made1) + taken_events(made2),
    decreases made2.len(),
{
    if made2.len() == 0 {
        assert(made1 + made2 =~= made1);
    } else {
        lemma_taken_events_add(made1, made2.drop_last());
        assert((made1 + made2).drop_last() =~= made1 + made2.drop_last());
    }
}

/// One more offer adds its event, if the queue took it, behind the others.
proof fn lemma_taken_events_push(made: Seq<Offer>, next: Offer)
    ensures
        taken_events(made.push(next)) == if next.refusal is None {
            taken_events(made).push(next.event)
        } else {
            taken_events(made)
        },
{
    assert(made.push(next).drop_last() =~= made);
}

/// Handles the events that were sent to this device, in order. Those that cannot be
/// read are passed over.
pub fn handle_to_device_events(
    events: &Vec<String>,
    tx: &mut Sender<CrossSigningEvent>,
) -> (deliveries: Vec<Delivery>)
    ensures
        all_fit(deliveries@, to_device_steps(events@)),
        offers(*final(tx)) == offers(*old(tx)) + offers_made(
            deliveries@,
            to_device_steps(events@),
        ),
        kept_on(*old(tx), *final(tx), offers_made(deliveries@, to_device_steps(events@))),
{
    let mut deliveries: Vec<Delivery> = Vec::new();
    let ghost steps = to_device_steps(events@);
    assert(offers(*old(tx)) =~= offers(*old(tx)) + offers_made(deliveries@, steps.take(0)));
    for i in 0..events.len()
        invariant
            steps == to_device_steps(events@),
            deliveries@.len() == i,
            all_fit(deliveries@, steps.take(i as int)),
            offers(*tx) == offers(*old(tx)) + offers_made(deliveries@, steps.take(i as int)),
            kept_on(*old(tx), *tx, offers_made(deliveries@, steps.take(i as int))),
    {
        let ghost made = offers_made(deliveries@, steps.take(i as int));
        let delivery = match decode_to_device(events[i].as_str()) {
            Some(event) => handle_to_device_event(&event, tx),
            None => Delivery::Ignored,
        };
        proof {
            let step = steps[i as int];
            assert(step == to_device_json_step(events@[i as int]@));
            assert(steps.take(i + 1) =~= steps.take(i as int).push(step));
            lemma_offers_made_push(deliveries@, steps.take(i as int), delivery, step);
            if step is Some {
                lemma_taken_events_push(
                    made,
                    Offer { event: step->0, refusal: delivery.refusal() },
                );
            }
        }
        deliveries.push(delivery);
    }
    assert(steps.take(events.len() as int) =~= steps);
    deliveries
}

/// Handles the new events of a room's timeline, in order. Those that cannot be read
/// are passed over.
pub fn handle_timeline_events(
    events: &Vec<String>,
    tx: &mut Sender<CrossSigningEvent>,
) -> (deliveries: Vec<Delivery>)
    ensures
        all_fit(deliveries@, timeline_steps(events@)),
        offers(*final(tx)) == offers(*old(tx)) + offers_made(
            deliveries@,
            timeline_steps(events@),
        ),
        kept_on(*old(tx), *final(tx), offers_made(deliveries@, timeline_steps(events@))),
{
    let mut deliveries: Vec<Delivery> = Vec::new();
    let ghost steps = timeline_steps(events@);
    assert(offers(*old(tx)) =~= offers(*old(tx)) + offers_made(deliveries@, steps.take(0)));
    for i in 0..events.len()
        invariant
            steps == timeline_steps(events@),
            deliveries@.len() == i,
            all_fit(deliveries@, steps.take(i as int)),
            offers(*tx) == offers(*old(tx)) + offers_made(deliveries@, steps.take(i as int)),
            kept_on(*old(tx), *tx, offers_made(deliveries@, steps.take(i as int))),
    {
        let ghost made = offers_made(deliveries@, steps.take(i as int));
        let delivery = match decode_timeline(events[i].as_str()) {
            Some(event) => handle_any_sync_event(&event, tx),
            None => Delivery::Ignored,
        };
        proof {
            let step = steps[i as int];
            assert(step == timeline_json_step(events@[i as int]@));
            assert(steps.take(i + 1) =~= steps.take(i as int).push(step));
            lemma_offers_made_push(deliveries@, steps.take(i as int), delivery, step);
            if step is Some {
                lemma_taken_events_push(
                    made,
                    Offer { event: step->0, refusal: delivery.refusal() },
                );
            }
        }
        deliveries.push(delivery);
    }
    assert(steps.take(events.len() as int) =~= steps);
    deliveries
}

/// Handles what is new in the timelines of several rooms, one room after the other.
pub fn handle_joined_rooms(
    rooms: &Vec<JoinedRoom>,
    tx: &mut Sender<CrossSigningEvent>,
) -> (deliveries: Vec<Delivery>)
    ensures
        all_fit(deliveries@, joined_steps(rooms@)),
        offers(*final(tx)) == offers(*old(tx)) + offers_made(deliveries@, joined_steps(rooms@)),
        kept_on(*old(tx), *final(tx), offers_made(deliveries@, joined_steps(rooms@))),
{
    let mut deliveries: Vec<Delivery> = Vec::new();
    assert(offers(*old(tx)) =~= offers(*old(tx)) + offers_made(
        deliveries@,
        joined_steps(rooms@.take(0)),
    ));
    for i in 0..rooms.len()
        invariant
            all_fit(deliveries@, joined_steps(rooms@.take(i as int))),
            offers(*tx) == offers(*old(tx)) + offers_made(
                deliveries@,
                joined_steps(rooms@.take(i as int)),
            ),
            kept_on(
                *old(tx),
                *tx,
                offers_made(deliveries@, joined_steps(rooms@.take(i as int))),
            ),
    {
        let mut more = handle_timeline_events(&rooms[i].timeline, tx);
        proof {
            let steps = timeline_steps(rooms@[i as int].timeline@);
            assert(rooms@.take(i + 1).drop_last() =~= rooms@.take(i as int));
            let before = joined_steps(rooms@.take(i as int));
            lemma_offers_made_add(deliveries@, before, more@, steps);
            let made = offers_made(deliveries@, before);
            let made_more = offers_made(more@, steps);
            lemma_taken_events_add(made, made_more);
            assert(taken(*old(tx)) + taken_events(made) + taken_events(made_more) =~= taken(
                *old(tx),
            ) + taken_events(made + made_more));
        }
        deliveries.append(&mut more);
    }
    assert(rooms@.take(rooms.len() as int) =~= rooms@);
    deliveries
}

} // verus!
