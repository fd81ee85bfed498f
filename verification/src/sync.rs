//! The sync with the server: what each response leads to, and the ends of the queues
//! from which the user interface reads.
use crate::channel::{
    alone, buffer_of, connected, emit_signal, first_signal, offers, open_queue, open_signal,
    renew_queue, signal_connected, signalled, taken, Offer,
};
use crate::cross_signing::{CrossSigningEvent, CrossSigningEventView};
use crate::handlers::{
    all_fit, full_only_when_due, handle_joined_rooms, handle_to_device_events, joined_steps,
    offers_made, taken_events, to_device_steps, Delivery, JoinedRoom,
};
use crate::state::{finished, ClientState, ClientStateView, LoopCtrl};
use futures::channel::mpsc::{Receiver, Sender};
use vstd::prelude::*;

verus! {

/// How many steps may wait in a queue beside the one that each writing end may add.
pub const QUEUE_BUFFER: usize = 10;

/// The reading ends of what a sync reports. Each can be taken once.
pub struct SyncState {
    to_device_rx: Option<Receiver<CrossSigningEvent>>,
    sync_msg_like_rx: Option<Receiver<CrossSigningEvent>>,
    first_synced_rx: Option<futures_signals::signal::Receiver<bool>>,
}

/// The reading ends that can still be taken from a [`SyncState`].
#[verifier::ext_equal]
pub struct SyncStateView {
    pub to_device_rx: Option<Receiver<CrossSigningEvent>>,
    pub sync_msg_like_rx: Option<Receiver<CrossSigningEvent>>,
    pub first_synced_rx: Option<futures_signals::signal::Receiver<bool>>,
}

impl View for SyncState {
    type V = SyncStateView;

    closed spec fn view(&self) -> SyncStateView {
        SyncStateView {
            to_device_rx: self.to_device_rx,
            sync_msg_like_rx: self.sync_msg_like_rx,
            first_synced_rx: self.first_synced_rx,
        }
    }
}

/// The end that a call takes for the steps sent to this device, and what it leaves.
pub open spec fn take_to_device(
    state: SyncStateView,
) -> (Option<Receiver<CrossSigningEvent>>, SyncStateView) {
    (state.to_device_rx, SyncStateView { to_device_rx: None, ..state })
}

/// The end that a call takes for the steps in rooms, and what it leaves.
pub open spec fn take_sync_msg_like(
    state: SyncStateView,
) -> (Option<Receiver<CrossSigningEvent>>, SyncStateView) {
    (state.sync_msg_like_rx, SyncStateView { sync_msg_like_rx: None, ..state })
}

/// The signal that a call takes, and what it leaves.
pub open spec fn take_first_synced(
    state: SyncStateView,
) -> (Option<futures_signals::signal::Receiver<bool>>, SyncStateView) {
    (state.first_synced_rx, SyncStateView { first_synced_rx: None, ..state })
}

impl SyncState {
    /// A state from which each of the given ends can be taken.
    pub fn new(
        to_device_rx: Receiver<CrossSigningEvent>,
        sync_msg_like_rx: Receiver<CrossSigningEvent>,
        first_synced_rx: futures_signals::signal::Receiver<bool>,
    ) -> (state: Self)
        ensures
            state@ == (SyncStateView {
                to_device_rx: Some(to_device_rx),
                sync_msg_like_rx: Some(sync_msg_like_rx),
                first_synced_rx: Some(first_synced_rx),
            }),
    {
        SyncState {
            to_device_rx: Some(to_device_rx),
            sync_msg_like_rx: Some(sync_msg_like_rx),
            first_synced_rx: Some(first_synced_rx),
        }
    }

    /// Takes the signal that tells when the first sync is done, if nobody did before.
    pub fn get_first_synced_rx(
        &mut self,
    ) -> (rx: Option<futures_signals::signal::Receiver<bool>>)
        ensures
            (rx, final(self)@) == take_first_synced(old(self)@),
    {
        self.first_synced_rx.take()
    }

    /// Takes the end from which the steps are read that were sent to this device, if
    /// nobody did before.
    pub fn get_to_device_rx(&mut self) -> (rx: Option<Receiver<CrossSigningEvent>>)
        ensures
            (rx, final(self)@) == take_to_device(old(self)@),
    {
        self.to_device_rx.take()
    }

    /// Takes the end from which the steps are read that came in rooms, if nobody did
    /// before.
    pub fn get_sync_msg_like_rx(&mut self) -> (rx: Option<Receiver<CrossSigningEvent>>)
        ensures
            (rx, final(self)@) == take_sync_msg_like(old(self)@),
    {
        self.sync_msg_like_rx.take()
    }
}

/// What a response of the server brings, beside invitations.
#[derive(Debug)]
pub struct SyncUpdate {
    /// The JSON texts of the events that were sent to this device, in order.
    pub to_device: Vec<String>,
    /// The rooms that the account has joined and in which something is new.
    pub joined: Vec<JoinedRoom>,
}

/// What became of the events of a response.
#[derive(Debug)]
pub struct SyncReport {
    /// Of each event that was sent to this device.
    pub to_device: Vec<Delivery>,
    /// Of each event in the joined rooms, unless those were passed over.
    pub timeline: Vec<Delivery>,
}

/// What is to be done after the events of a response were handled.
#[derive(Debug, Clone, Copy, PartialEq, Eq, Structural)]
pub enum SyncAction {
    /// Look up the names of the rooms to which the response invites, and finish the
    /// response.
    NameInvites,
    /// The response is finished, and the sync goes on or ends.
    Finish(LoopCtrl),
}

/// The writing side of a sync.
pub struct SyncLoop {
    initial: bool,
    to_device_tx: Sender<CrossSigningEvent>,
    sync_msg_like_tx: Sender<CrossSigningEvent>,
    first_synced_tx: futures_signals::signal::Sender<bool>,
}

/// What a [`SyncLoop`] holds.
pub struct SyncLoopView {
    /// Whether no response has come yet.
    pub initial: bool,
    /// The end through which the last response's to-device steps went.
    pub to_device_tx: Sender<CrossSigningEvent>,
    /// The end through which the last response's steps in rooms went.
    pub sync_msg_like_tx: Sender<CrossSigningEvent>,
    /// The signal that tells that a sync is done.
    pub first_synced_tx: futures_signals::signal::Sender<bool>,
}

impl View for SyncLoop {
    type V = SyncLoopView;

    closed spec fn view(&self) -> SyncLoopView {
        SyncLoopView {
            initial: self.initial,
            to_device_tx: self.to_device_tx,
            sync_msg_like_tx: self.sync_msg_like_tx,
            first_synced_tx: self.first_synced_tx,
        }
    }
}

/// Whether two ends of a sync belong together: every queue and the signal of the
/// writing side is read from its own place on the reading side.
pub open spec fn linked(writer: SyncLoopView, reader: SyncStateView) -> bool {
    &&& reader.to_device_rx matches Some(rx) ==> connected(writer.to_device_tx, rx)
    &&& reader.sync_msg_like_rx matches Some(rx) ==> connected(writer.sync_msg_like_tx, rx)
    &&& reader.first_synced_rx matches Some(rx) ==> signal_connected(writer.first_synced_tx, rx)
}

/// The steps in rooms that a response leads to: none where it is the first one, which
/// brings what happened before.
pub open spec fn new_room_steps(
    initial: bool,
    update: SyncUpdate,
) -> Seq<Option<CrossSigningEventView>> {
    if initial {
        Seq::empty()
    } else {
        joined_steps(update.joined@)
    }
}

/// The state after the events of a response were handled, and what is to be done then.
pub open spec fn after_events(state: ClientStateView) -> (ClientStateView, SyncAction) {
    if state.has_first_synced {
        (finished(state).0, SyncAction::Finish(finished(state).1))
    } else {
        (ClientStateView { has_first_synced: true, ..state }, SyncAction::NameInvites)
    }
}

/// Whether nothing has gone through the queue behind a writing end.
pub open spec fn unused(tx: Sender<CrossSigningEvent>) -> bool {
    &&& taken(tx) == Seq::<CrossSigningEventView>::empty()
    &&& offers(tx) == Seq::<Offer>::empty()
}

impl SyncLoop {
    /// Whether each queue has the buffer of a sync and no other writing end, and refused
    /// the steps of the last response only where too many waited.
    pub open spec fn well_formed(&self) -> bool {
        &&& alone(self@.to_device_tx)
        &&& alone(self@.sync_msg_like_tx)
        &&& buffer_of(self@.to_device_tx) == QUEUE_BUFFER
        &&& buffer_of(self@.sync_msg_like_tx) == QUEUE_BUFFER
        &&& full_only_when_due(self@.to_device_tx)
        &&& full_only_when_due(self@.sync_msg_like_tx)
    }

    /// The two sides of a new sync.
    pub fn open() -> (sides: (SyncLoop, SyncState))
        ensures
            sides.0.well_formed(),
            sides.0@.initial,
            unused(sides.0@.to_device_tx),
            unused(sides.0@.sync_msg_like_tx),
            signalled(sides.0@.first_synced_tx) == Seq::<bool>::empty(),
            sides.1@.to_device_rx is Some,
            sides.1@.sync_msg_like_rx is Some,
            sides.1@.first_synced_rx matches Some(rx) && !first_signal(rx),
            linked(sides.0@, sides.1@),
    {
        let (first_synced_tx, first_synced_rx) = open_signal(false);
        let (to_device_tx, to_device_rx) = open_queue(QUEUE_BUFFER);
        let (sync_msg_like_tx, sync_msg_like_rx) = open_queue(QUEUE_BUFFER);
        let state = SyncState::new(to_device_rx, sync_msg_like_rx, first_synced_rx);
        (SyncLoop { initial: true, to_device_tx, sync_msg_like_tx, first_synced_tx }, state)
    }

    /// Handles the events of a response: the steps that it announces are offered to the
    /// queues, through a new writing end of each; the signal is told that a sync is
    /// done; and the state notes it. The rooms are passed over in the first response.
    pub fn on_response(
        &mut self,
        state: &mut ClientState,
        update: &SyncUpdate,
    ) -> (done: (SyncReport, SyncAction))
        requires
            old(self).well_formed(),
        ensures
            final(self).well_formed(),
            all_fit(done.0.to_device@, to_device_steps(update.to_device@)),
            offers(final(self)@.to_device_tx) == offers_made(
                done.0.to_device@,
                to_device_steps(update.to_device@),
            ),
            taken(final(self)@.to_device_tx) == taken(old(self)@.to_device_tx) + taken_events(
                offers(final(self)@.to_device_tx),
            ),
            all_fit(done.0.timeline@, new_room_steps(old(self)@.initial, *update)),
            offers(final(self)@.sync_msg_like_tx) == offers_made(
                done.0.timeline@,
                new_room_steps(old(self)@.initial, *update),
            ),
            taken(final(self)@.sync_msg_like_tx) == taken(old(self)@.sync_msg_like_tx)
                + taken_events(offers(final(self)@.sync_msg_like_tx)),
            !final(self)@.initial,
            signalled(final(self)@.first_synced_tx) == signalled(
                old(self)@.first_synced_tx,
            ).push(true),
            forall|reader: SyncStateView|
                #[trigger] linked(final(self)@, reader) == linked(old(self)@, reader),
            (final(state)@, done.1) == after_events(old(state)@),
            done.0.to_device@.len() == update.to_device@.len(),
            old(self)@.initial ==> done.0.timeline@.len() == 0,
            !old(self)@.initial ==> all_fit(done.0.timeline@, joined_steps(update.joined@)),
            !old(self)@.initial ==> offers(final(self)@.sync_msg_like_tx) == offers_made(
                done.0.timeline@,
                joined_steps(update.joined@),
            ),
            final(state).has_first_synced,
            final(state).is_guest == old(state).is_guest,
            final(state).should_stop_syncing == old(state).should_stop_syncing,
            final(state).pending_invitations@ == old(state).pending_invitations@,
            done.1 == SyncAction::NameInvites <==> !old(state).has_first_synced,
    {
        renew_queue(&mut self.to_device_tx);
        renew_queue(&mut self.sync_msg_like_tx);
        let to_device = handle_to_device_events(&update.to_device, &mut self.to_device_tx);
        let timeline = if self.initial {
            Vec::new()
        } else {
            handle_joined_rooms(&update.joined, &mut self.sync_msg_like_tx)
        };
        self.initial = false;
        emit_signal(&mut self.first_synced_tx, true);
        let action = if state.note_response() {
            SyncAction::NameInvites
        } else {
            SyncAction::Finish(state.finish_response())
        };
        (SyncReport { to_device, timeline }, action)
    }
}

} // verus!
