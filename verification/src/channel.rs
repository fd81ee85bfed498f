//! The bounded queues of `futures` and the signal of `futures_signals`, by which the
//! user interface is told what a sync brought.
use crate::cross_signing::{CrossSigningEvent, CrossSigningEventView};
use futures::channel::mpsc::{Receiver, Sender};
use vstd::prelude::*;

verus! {

/// `futures::channel::mpsc::Sender`, the writing end of a bounded queue.
#[verifier::external_type_specification]
#[verifier::external_body]
#[verifier::reject_recursive_types(T)]
pub struct ExSender<T>(futures::channel::mpsc::Sender<T>);

/// `futures::channel::mpsc::Receiver`, the reading end of a bounded queue.
#[verifier::external_type_specification]
#[verifier::external_body]
#[verifier::reject_recursive_types(T)]
pub struct ExReceiver<T>(futures::channel::mpsc::Receiver<T>);

/// `futures_signals::signal::Sender`, the writing end of a signal.
#[verifier::external_type_specification]
#[verifier::external_body]
#[verifier::reject_recursive_types(A)]
pub struct ExSignalSender<A>(futures_signals::signal::Sender<A>);

/// `futures_signals::signal::Receiver`, the reading end of a signal.
#[verifier::external_type_specification]
#[verifier::external_body]
#[verifier::reject_recursive_types(A)]
pub struct ExSignalReceiver<A>(futures_signals::signal::Receiver<A>);

/// An event that was offered to a queue, and why the queue did not take it, if so.
#[verifier::ext_equal]
pub struct Offer {
    pub event: CrossSigningEventView,
    pub refusal: Option<Refusal>,
}

/// What was offered to a queue through one writing end, in order.
pub uninterp spec fn offers(tx: Sender<CrossSigningEvent>) -> Seq<Offer>;

/// For each offer through one writing end, how many events the queue counted as not yet
/// read when it answered the offer, the offered one with them where it took it.
pub uninterp spec fn waiting(tx: Sender<CrossSigningEvent>) -> Seq<nat>;

/// Whether the queue behind a writing end was closed when it answered the last offer
/// through this end. A queue is closed when its reading end is gone.
pub uninterp spec fn closed(tx: Sender<CrossSigningEvent>) -> bool;

/// Whether, up to the last offer through a writing end, no read of the queue overlapped
/// with the taking of an event: each read was over before the event was counted, or began
/// after the queue had settled whether the end is to be stopped.
pub uninterp spec fn reads_apart(tx: Sender<CrossSigningEvent>) -> bool;

/// Whether a writing end is the only one of its queue. Nothing here adds a second one:
/// an end is cloned only to take the place of the one that it is cloned from.
pub uninterp spec fn alone(tx: Sender<CrossSigningEvent>) -> bool;

/// Every event that the queue behind a writing end has taken, be it read or not, in the
/// order in which they are read.
pub uninterp spec fn taken(tx: Sender<CrossSigningEvent>) -> Seq<CrossSigningEventView>;

/// Whether the queue took the offer at a position and none behind it.
pub open spec fn is_last_taken(made: Seq<Offer>, at: int) -> bool {
    &&& 0 <= at < made.len()
    &&& made[at].refusal is None
    &&& forall|i: int| at < i < made.len() ==> (#[trigger] made[i]).refusal is Some
}

/// Whether more than `buffer` events waited to be read when the queue last took one of
/// these offers, where `waited` tells how many did at each.
pub open spec fn was_overfull(made: Seq<Offer>, waited: Seq<nat>, buffer: nat) -> bool {
    exists|at: int| #[trigger] is_last_taken(made, at) && waited[at] > buffer
}

/// The buffer that the queue behind a writing end was made with.
pub uninterp spec fn buffer_of(tx: Sender<CrossSigningEvent>) -> nat;

/// Whether two ends belong to one queue.
pub uninterp spec fn connected(
    tx: Sender<CrossSigningEvent>,
    rx: Receiver<CrossSigningEvent>,
) -> bool;

/// Why a queue did not take an event.
#[derive(Debug, Clone, Copy, PartialEq, Eq, Structural)]
pub enum Refusal {
    /// Too many events wait to be read.
    Full,
    /// The reading end is gone.
    Disconnected,
}

impl Refusal {
    /// The reason in words.
    pub fn message(&self) -> (message: &'static str)
        ensures
            message@ == match *self {
                Refusal::Full => "send failed because channel is full"@,
                Refusal::Disconnected => "send failed because receiver is gone"@,
            },
    {
        match self {
            Refusal::Full => "send failed because channel is full",
            Refusal::Disconnected => "send failed because receiver is gone",
        }
    }
}

/// `futures::channel::mpsc::channel`. It gives the two ends of one queue with the
/// given buffer, through which nothing has gone yet; there is no other writing end. It
/// panics where the buffer is as large as a quarter of what a `usize` counts.
#[verifier::external_body]
pub(crate) fn open_queue(
    buffer: usize,
) -> (ends: (Sender<CrossSigningEvent>, Receiver<CrossSigningEvent>))
    requires
        buffer < usize::MAX / 2 / 2,
    ensures
        offers(ends.0) == Seq::<Offer>::empty(),
        waiting(ends.0) == Seq::<nat>::empty(),
        !closed(ends.0),
        reads_apart(ends.0),
        alone(ends.0),
        taken(ends.0) == Seq::<CrossSigningEventView>::empty(),
        buffer_of(ends.0) == buffer,
        connected(ends.0, ends.1),
{
    futures::channel::mpsc::channel(buffer)
}

/// `Sender::clone` of `futures::channel::mpsc`, with which the end itself is replaced.
/// It gives another writing end of the same queue, through which nothing has gone yet;
/// where the end was the only one, the new one is, and the queue holds what it held. It
/// would panic only if more ends were alive than memory can hold.
#[verifier::external_body]
pub(crate) fn renew_queue(tx: &mut Sender<CrossSigningEvent>)
    ensures
        offers(*final(tx)) == Seq::<Offer>::empty(),
        waiting(*final(tx)) == Seq::<nat>::empty(),
        alone(*old(tx)) ==> alone(*final(tx)),
        alone(*old(tx)) ==> taken(*final(tx)) == taken(*old(tx)),
        buffer_of(*final(tx)) == buffer_of(*old(tx)),
        forall|rx: Receiver<CrossSigningEvent>|
            connected(*final(tx), rx) == connected(*old(tx), rx),
{
    *tx = tx.clone();
}

/// `Sender::try_send` of `futures::channel::mpsc`. The event is offered to the queue: on
/// success it waits behind everything that the queue took before, otherwise the queue
/// stays as it is. An end is told that the reader is gone only where the queue is closed.
/// It is told that the queue is full only where more events than the buffer holds waited
/// to be read when the queue last took one from this very end; no more can wait than the
/// queue has taken. The only end of a queue is told so only while more events than the
/// buffer holds wait, as long as no read overlaps with the taking of an event. A read
/// that does can leave the end stopped though it made room, since the queue counts an
/// event before it stops the end, and lets an end go on before it counts a read.
#[verifier::external_body]
pub(crate) fn offer(
    tx: &mut Sender<CrossSigningEvent>,
    event: CrossSigningEvent,
) -> (refusal: Option<Refusal>)
    ensures
        offers(*final(tx)) == offers(*old(tx)).push(Offer { event: event@, refusal }),
        waiting(*final(tx)) == waiting(*old(tx)).push(waiting(*final(tx)).last()),
        refusal == Some(Refusal::Full) ==> was_overfull(
            offers(*old(tx)),
            waiting(*old(tx)),
            buffer_of(*old(tx)),
        ),
        refusal == Some(Refusal::Full) && alone(*old(tx)) && reads_apart(*final(tx)) ==> waiting(
            *final(tx),
        ).last() > buffer_of(*old(tx)),
        refusal == Some(Refusal::Disconnected) ==> closed(*final(tx)),
        closed(*old(tx)) ==> closed(*final(tx)),
        reads_apart(*final(tx)) ==> reads_apart(*old(tx)),
        alone(*final(tx)) == alone(*old(tx)),
        alone(*old(tx)) ==> taken(*final(tx)) == if refusal is None {
            taken(*old(tx)).push(event@)
        } else {
            taken(*old(tx))
        },
        alone(*old(tx)) && refusal is None ==> waiting(*final(tx)).last() <= taken(
            *final(tx),
        ).len(),
        buffer_of(*final(tx)) == buffer_of(*old(tx)),
        forall|rx: Receiver<CrossSigningEvent>|
            connected(*final(tx), rx) == connected(*old(tx), rx),
{
    match tx.try_send(event) {
        Ok(()) => None,
        Err(error) if error.is_full() => Some(Refusal::Full),
        Err(_) => Some(Refusal::Disconnected),
    }
}

/// The values that were handed to one writing end of a signal, in order.
pub uninterp spec fn signalled(tx: futures_signals::signal::Sender<bool>) -> Seq<bool>;

/// The value that a signal was made with.
pub uninterp spec fn first_signal(rx: futures_signals::signal::Receiver<bool>) -> bool;

/// Whether two ends belong to one signal.
pub uninterp spec fn signal_connected(
    tx: futures_signals::signal::Sender<bool>,
    rx: futures_signals::signal::Receiver<bool>,
) -> bool;

/// `futures_signals::signal::channel`. It gives the two ends of one signal that
/// starts with the given value.
#[verifier::external_body]
pub(crate) fn open_signal(
    initial: bool,
) -> (ends: (futures_signals::signal::Sender<bool>, futures_signals::signal::Receiver<bool>))
    ensures
        signalled(ends.0) == Seq::<bool>::empty(),
        first_signal(ends.1) == initial,
        signal_connected(ends.0, ends.1),
{
    futures_signals::signal::channel(initial)
}

/// `futures_signals::signal::Sender::send`. The value is handed to the signal, which
/// drops it where the reading end is gone; which of the two happens is not told.
#[verifier::external_body]
pub(crate) fn emit_signal(tx: &mut futures_signals::signal::Sender<bool>, value: bool)
    ensures
        signalled(*final(tx)) == signalled(*old(tx)).push(value),
        forall|rx: futures_signals::signal::Receiver<bool>|
            signal_connected(*final(tx), rx) == signal_connected(*old(tx), rx),
{
    let _ = tx.send(value);
}

} // verus!
