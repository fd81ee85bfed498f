//! The steps of a device verification, and which events announce them.
use crate::text::{opt_view, same_text};
use crate::wire::{
    read_timeline, read_to_device, timeline_fields, to_device_fields, TimelineFields,
    TimelineFieldsView, ToDeviceFields, ToDeviceFieldsView,
};
use vstd::prelude::*;

verus! {

/// What a [`CrossSigningEvent`] holds.
#[verifier::ext_equal]
pub struct CrossSigningEventView {
    pub event_name: Seq<char>,
    pub event_id: Seq<char>,
    pub sender: Seq<char>,
}

/// A step of a device verification, as the user interface is told of it.
#[derive(Debug)]
pub struct CrossSigningEvent {
    event_name: String,
    event_id: String,
    sender: String,
}

impl View for CrossSigningEvent {
    type V = CrossSigningEventView;

    closed spec fn view(&self) -> CrossSigningEventView {
        CrossSigningEventView {
            event_name: self.event_name@,
            event_id: self.event_id@,
            sender: self.sender@,
        }
    }
}

impl Clone for CrossSigningEvent {
    fn clone(&self) -> (copy: Self)
        ensures
            copy@ == self@,
    {
        CrossSigningEvent {
            event_name: self.event_name.clone(),
            event_id: self.event_id.clone(),
            sender: self.sender.clone(),
        }
    }
}

impl CrossSigningEvent {
    /// A step with the given name, identifier and sender.
    pub fn new(event_name: String, event_id: String, sender: String) -> (event: Self)
        ensures
            event@ == (CrossSigningEventView {
                event_name: event_name@,
                event_id: event_id@,
                sender: sender@,
            }),
    {
        CrossSigningEvent { event_name, event_id, sender }
    }

    /// The name of the step.
    pub fn get_event_name(&self) -> (event_name: String)
        ensures
            event_name@ == self@.event_name,
    {
        self.event_name.clone()
    }

    /// The identifier by which the verification is found again.
    pub fn get_event_id(&self) -> (event_id: String)
        ensures
            event_id@ == self@.event_id,
    {
        self.event_id.clone()
    }

    /// The user on the other side of the verification.
    pub fn get_sender(&self) -> (sender: String)
        ensures
            sender@ == self@.sender,
    {
        self.sender.clone()
    }
}

/// The kinds of events that are sent to this device alone.
#[derive(Debug, Clone, Copy, PartialEq, Eq, Structural)]
pub enum ToDeviceKind {
    KeyVerificationRequest,
    KeyVerificationReady,
    KeyVerificationStart,
    KeyVerificationCancel,
    KeyVerificationAccept,
    KeyVerificationKey,
    KeyVerificationMac,
    KeyVerificationDone,
    /// Any kind that is no step of a verification.
    Other,
}

/// An event that was sent to this device alone.
#[derive(Debug)]
pub struct ToDeviceEvent {
    pub kind: ToDeviceKind,
    pub sender: String,
    pub transaction_id: String,
}

/// The view of a [`ToDeviceEvent`].
#[verifier::ext_equal]
pub struct ToDeviceEventView {
    pub kind: ToDeviceKind,
    pub sender: Seq<char>,
    pub transaction_id: Seq<char>,
}

impl View for ToDeviceEvent {
    type V = ToDeviceEventView;

    open spec fn view(&self) -> ToDeviceEventView {
        ToDeviceEventView {
            kind: self.kind,
            sender: self.sender@,
            transaction_id: self.transaction_id@,
        }
    }
}

/// The kind of the to-device events of a type.
pub open spec fn to_device_kind_spec(event_type: Seq<char>) -> ToDeviceKind {
    if event_type == "m.key.verification.request"@ {
        ToDeviceKind::KeyVerificationRequest
    } else if event_type == "m.key.verification.ready"@ {
        ToDeviceKind::KeyVerificationReady
    } else if event_type == "m.key.verification.start"@ {
        ToDeviceKind::KeyVerificationStart
    } else if event_type == "m.key.verification.cancel"@ {
        ToDeviceKind::KeyVerificationCancel
    } else if event_type == "m.key.verification.accept"@ {
        ToDeviceKind::KeyVerificationAccept
    } else if event_type == "m.key.verification.key"@ {
        ToDeviceKind::KeyVerificationKey
    } else if event_type == "m.key.verification.mac"@ {
        ToDeviceKind::KeyVerificationMac
    } else if event_type == "m.key.verification.done"@ {
        ToDeviceKind::KeyVerificationDone
    } else {
        ToDeviceKind::Other
    }
}

/// The kind of the to-device events of a type.
pub fn to_device_kind(event_type: &str) -> (kind: ToDeviceKind)
    ensures
        kind == to_device_kind_spec(event_type@),
{
    if same_text(event_type, "m.key.verification.request") {
        ToDeviceKind::KeyVerificationRequest
    } else if same_text(event_type, "m.key.verification.ready") {
        ToDeviceKind::KeyVerificationReady
    } else if same_text(event_type, "m.key.verification.start") {
        ToDeviceKind::KeyVerificationStart
    } else if same_text(event_type, "m.key.verification.cancel") {
        ToDeviceKind::KeyVerificationCancel
    } else if same_text(event_type, "m.key.verification.accept") {
        ToDeviceKind::KeyVerificationAccept
    } else if same_text(event_type, "m.key.verification.key") {
        ToDeviceKind::KeyVerificationKey
    } else if same_text(event_type, "m.key.verification.mac") {
        ToDeviceKind::KeyVerificationMac
    } else if same_text(event_type, "m.key.verification.done") {
        ToDeviceKind::KeyVerificationDone
    } else {
        ToDeviceKind::Other
    }
}

/// The event of which this was read: only verification events belong to a transaction.
pub open spec fn to_device_event_from(fields: ToDeviceFieldsView) -> Option<ToDeviceEventView> {
    match fields.transaction_id {
        Some(transaction_id) => Some(
            ToDeviceEventView {
                kind: to_device_kind_spec(fields.event_type),
                sender: fields.sender,
                transaction_id,
            },
        ),
        None => None,
    }
}

/// The verification event in a JSON text that was sent to this device, if it can be
/// read and is one.
pub open spec fn to_device_event(json: Seq<char>) -> Option<ToDeviceEventView> {
    match to_device_fields(json) {
        Some(fields) => to_device_event_from(fields),
        None => None,
    }
}

/// The event of which this was read: only verification events belong to a transaction.
pub fn to_device_event_of(fields: ToDeviceFields) -> (event: Option<ToDeviceEvent>)
    ensures
        opt_view(event) == to_device_event_from(fields@),
{
    match fields.transaction_id {
        Some(transaction_id) => Some(
            ToDeviceEvent {
                kind: to_device_kind(fields.event_type.as_str()),
                sender: fields.sender,
                transaction_id,
            },
        ),
        None => None,
    }
}

/// Reads an event that was sent to this device; nothing where it is no verification
/// event or cannot be read.
pub fn decode_to_device(json: &str) -> (event: Option<ToDeviceEvent>)
    ensures
        opt_view(event) == to_device_event(json@),
{
    match read_to_device(json) {
        Some(fields) => to_device_event_of(fields),
        None => None,
    }
}

/// The name under which a kind of to-device event is reported, if it is.
pub open spec fn to_device_name(kind: ToDeviceKind) -> Option<Seq<char>> {
    match kind {
        ToDeviceKind::KeyVerificationRequest => Some("AnyToDeviceEvent::KeyVerificationRequest"@),
        ToDeviceKind::KeyVerificationReady => Some("AnyToDeviceEvent::KeyVerificationReady"@),
        ToDeviceKind::KeyVerificationStart => Some("AnyToDeviceEvent::KeyVerificationStart"@),
        ToDeviceKind::KeyVerificationCancel => Some("AnyToDeviceEvent::KeyVerificationCancel"@),
        ToDeviceKind::KeyVerificationAccept => Some("AnyToDeviceEvent::KeyVerificationAccept"@),
        ToDeviceKind::KeyVerificationKey => Some("AnyToDeviceEvent::KeyVerificationKey"@),
        ToDeviceKind::KeyVerificationMac => Some("AnyToDeviceEvent::KeyVerificationMac"@),
        ToDeviceKind::KeyVerificationDone => Some("AnyToDeviceEvent::KeyVerificationDone"@),
        ToDeviceKind::Other => None,
    }
}

/// The step that a to-device event announces, if it announces one.
pub open spec fn to_device_step(event: ToDeviceEventView) -> Option<CrossSigningEventView> {
    match to_device_name(event.kind) {
        Some(event_name) => Some(
            CrossSigningEventView {
                event_name,
                event_id: event.transaction_id,
                sender: event.sender,
            },
        ),
        None => None,
    }
}

/// The step that a to-device event announces, if it announces one.
pub fn step_of_to_device(event: &ToDeviceEvent) -> (step: Option<CrossSigningEvent>)
    ensures
        opt_view(step) == to_device_step(event@),
{
    let event_name = match event.kind {
        ToDeviceKind::KeyVerificationRequest => "AnyToDeviceEvent::KeyVerificationRequest",
        ToDeviceKind::KeyVerificationReady => "AnyToDeviceEvent::KeyVerificationReady",
        ToDeviceKind::KeyVerificationStart => "AnyToDeviceEvent::KeyVerificationStart",
        ToDeviceKind::KeyVerificationCancel => "AnyToDeviceEvent::KeyVerificationCancel",
        ToDeviceKind::KeyVerificationAccept => "AnyToDeviceEvent::KeyVerificationAccept",
        ToDeviceKind::KeyVerificationKey => "AnyToDeviceEvent::KeyVerificationKey",
        ToDeviceKind::KeyVerificationMac => "AnyToDeviceEvent::KeyVerificationMac",
        ToDeviceKind::KeyVerificationDone => "AnyToDeviceEvent::KeyVerificationDone",
        ToDeviceKind::Other => return None,
    };
    Some(
        CrossSigningEvent::new(
            event_name.to_owned(),
            event.transaction_id.clone(),
            event.sender.clone(),
        ),
    )
}

/// The kinds of message-like events of a room's timeline.
#[derive(Debug, Clone, Copy, PartialEq, Eq, Structural)]
pub enum TimelineKind {
    /// A room message that asks for a verification.
    VerificationRequest,
    KeyVerificationReady,
    KeyVerificationStart,
    KeyVerificationCancel,
    KeyVerificationAccept,
    KeyVerificationKey,
    KeyVerificationMac,
    KeyVerificationDone,
    /// Any kind that is no step of a verification.
    Other,
}

/// A message-like event of a room's timeline that was not redacted.
#[derive(Debug)]
pub struct TimelineEvent {
    pub kind: TimelineKind,
    pub sender: String,
    pub event_id: String,
}

/// The view of a [`TimelineEvent`].
#[verifier::ext_equal]
pub struct TimelineEventView {
    pub kind: TimelineKind,
    pub sender: Seq<char>,
    pub event_id: Seq<char>,
}

impl View for TimelineEvent {
    type V = TimelineEventView;

    open spec fn view(&self) -> TimelineEventView {
        TimelineEventView { kind: self.kind, sender: self.sender@, event_id: self.event_id@ }
    }
}

/// The kind of the timeline events of a type; of the room messages only those are a
/// step of a verification that ask for one.
pub open spec fn timeline_kind_spec(
    event_type: Seq<char>,
    verification_request: bool,
) -> TimelineKind {
    if event_type == "m.room.message"@ {
        if verification_request {
            TimelineKind::VerificationRequest
        } else {
            TimelineKind::Other
        }
    } else if event_type == "m.key.verification.ready"@ {
        TimelineKind::KeyVerificationReady
    } else if event_type == "m.key.verification.start"@ {
        TimelineKind::KeyVerificationStart
    } else if event_type == "m.key.verification.cancel"@ {
        TimelineKind::KeyVerificationCancel
    } else if event_type == "m.key.verification.accept"@ {
        TimelineKind::KeyVerificationAccept
    } else if event_type == "m.key.verification.key"@ {
        TimelineKind::KeyVerificationKey
    } else if event_type == "m.key.verification.mac"@ {
        TimelineKind::KeyVerificationMac
    } else if event_type == "m.key.verification.done"@ {
        TimelineKind::KeyVerificationDone
    } else {
        TimelineKind::Other
    }
}

/// The kind of the timeline events of a type; of the room messages only those are a
/// step of a verification that ask for one.
pub fn timeline_kind(event_type: &str, verification_request: bool) -> (kind: TimelineKind)
    ensures
        kind == timeline_kind_spec(event_type@, verification_request),
{
    if same_text(event_type, "m.room.message") {
        if verification_request {
            TimelineKind::VerificationRequest
        } else {
            TimelineKind::Other
        }
    } else if same_text(event_type, "m.key.verification.ready") {
        TimelineKind::KeyVerificationReady
    } else if same_text(event_type, "m.key.verification.start") {
        TimelineKind::KeyVerificationStart
    } else if same_text(event_type, "m.key.verification.cancel") {
        TimelineKind::KeyVerificationCancel
    } else if same_text(event_type, "m.key.verification.accept") {
        TimelineKind::KeyVerificationAccept
    } else if same_text(event_type, "m.key.verification.key") {
        TimelineKind::KeyVerificationKey
    } else if same_text(event_type, "m.key.verification.mac") {
        TimelineKind::KeyVerificationMac
    } else if same_text(event_type, "m.key.verification.done") {
        TimelineKind::KeyVerificationDone
    } else {
        TimelineKind::Other
    }
}

/// The event of a room's timeline of which this was read.
pub open spec fn timeline_event_from(fields: TimelineFieldsView) -> TimelineEventView {
    TimelineEventView {
        kind: timeline_kind_spec(fields.event_type, fields.verification_request),
        sender: fields.sender,
        event_id: fields.event_id,
    }
}

/// The event of a room's timeline in a JSON text, if it can be read, is message-like
/// and was not redacted.
pub open spec fn timeline_event(json: Seq<char>) -> Option<TimelineEventView> {
    match timeline_fields(json) {
        Some(fields) => Some(timeline_event_from(fields)),
        None => None,
    }
}

/// The event of a room's timeline of which this was read.
pub fn timeline_event_of(fields: TimelineFields) -> (event: TimelineEvent)
    ensures
        event@ == timeline_event_from(fields@),
{
    TimelineEvent {
        kind: timeline_kind(fields.event_type.as_str(), fields.verification_request),
        sender: fields.sender,
        event_id: fields.event_id,
    }
}

/// Reads an event of a room's timeline; nothing where it cannot be read, is a state
/// event or was redacted.
pub fn decode_timeline(json: &str) -> (event: Option<TimelineEvent>)
    ensures
        opt_view(event) == timeline_event(json@),
{
    match read_timeline(json) {
        Some(fields) => Some(timeline_event_of(fields)),
        None => None,
    }
}

/// The name under which a kind of timeline event is reported, if it is. A start, a
/// cancellation and the end of a verification share the name of its being ready.
pub open spec fn timeline_name(kind: TimelineKind) -> Option<Seq<char>> {
    match kind {
        TimelineKind::VerificationRequest => Some("AnySyncMessageLikeEvent::RoomMessage"@),
        TimelineKind::KeyVerificationReady
        | TimelineKind::KeyVerificationStart
        | TimelineKind::KeyVerificationCancel
        | TimelineKind::KeyVerificationDone => Some(
            "AnySyncMessageLikeEvent::KeyVerificationReady"@,
        ),
        TimelineKind::KeyVerificationAccept => Some(
            "AnySyncMessageLikeEvent::KeyVerificationAccept"@,
        ),
        TimelineKind::KeyVerificationKey => Some("AnySyncMessageLikeEvent::KeyVerificationKey"@),
        TimelineKind::KeyVerificationMac => Some("AnySyncMessageLikeEvent::KeyVerificationMac"@),
        TimelineKind::Other => None,
    }
}

/// The step that a timeline event announces, if it announces one.
pub open spec fn timeline_step(event: TimelineEventView) -> Option<CrossSigningEventView> {
    match timeline_name(event.kind) {
        Some(event_name) => Some(
            CrossSigningEventView { event_name, event_id: event.event_id, sender: event.sender },
        ),
        None => None,
    }
}

/// The step that a timeline event announces, if it announces one.
pub fn step_of_timeline(event: &TimelineEvent) -> (step: Option<CrossSigningEvent>)
    ensures
        opt_view(step) == timeline_step(event@),
{
    let event_name = match event.kind {
        TimelineKind::VerificationRequest => "AnySyncMessageLikeEvent::RoomMessage",
        TimelineKind::KeyVerificationReady
        | TimelineKind::KeyVerificationStart
        | TimelineKind::KeyVerificationCancel
        | TimelineKind::KeyVerificationDone => "AnySyncMessageLikeEvent::KeyVerificationReady",
        TimelineKind::KeyVerificationAccept => "AnySyncMessageLikeEvent::KeyVerificationAccept",
        TimelineKind::KeyVerificationKey => "AnySyncMessageLikeEvent::KeyVerificationKey",
        TimelineKind::KeyVerificationMac => "AnySyncMessageLikeEvent::KeyVerificationMac",
        TimelineKind::Other => return None,
    };
    Some(
        CrossSigningEvent::new(
            event_name.to_owned(),
            event.event_id.clone(),
            event.sender.clone(),
        ),
    )
}

} // verus!
