//! What events say in their JSON form, as `ruma` and `serde_json` read it.
use crate::text::opt_view;
use ruma::events::room::message::{MessageType, RoomMessageEventContent};
use ruma::events::AnyToDeviceEvent::{
    KeyVerificationAccept, KeyVerificationCancel, KeyVerificationDone, KeyVerificationKey,
    KeyVerificationMac, KeyVerificationReady, KeyVerificationRequest, KeyVerificationStart,
};
use ruma::events::{
    AnyMessageLikeEventContent, AnyStrippedStateEvent, AnySyncRoomEvent, AnyToDeviceEvent,
};
use ruma::{EventId, RoomId, UserId};
use serde_json::Value;
use vstd::prelude::*;

verus! {

/// What an event says that was sent to this device.
pub struct ToDeviceFields {
    /// The `type` of the event.
    pub event_type: String,
    /// The user that sent it.
    pub sender: String,
    /// The transaction that it belongs to, if it is a verification event.
    pub transaction_id: Option<String>,
}

/// The view of [`ToDeviceFields`].
#[verifier::ext_equal]
pub struct ToDeviceFieldsView {
    pub event_type: Seq<char>,
    pub sender: Seq<char>,
    pub transaction_id: Option<Seq<char>>,
}

impl View for ToDeviceFields {
    type V = ToDeviceFieldsView;

    open spec fn view(&self) -> ToDeviceFieldsView {
        ToDeviceFieldsView {
            event_type: self.event_type@,
            sender: self.sender@,
            transaction_id: opt_view(self.transaction_id),
        }
    }
}

/// What `ruma` reads in the JSON text of an event sent to this device: nothing unless
/// it is well formed.
pub uninterp spec fn to_device_fields(json: Seq<char>) -> Option<ToDeviceFieldsView>;

/// `serde_json::from_str` into `ruma`'s `AnyToDeviceEvent`. The claim is only that
/// the outcome depends on nothing but the text.
#[verifier::external_body]
pub(crate) fn read_to_device(json: &str) -> (fields: Option<ToDeviceFields>)
    ensures
        opt_view(fields) == to_device_fields(json@),
{
    let event: AnyToDeviceEvent = serde_json::from_str(json).ok()?;
    let id = match &event {
        KeyVerificationRequest(ev) => Some(&ev.content.transaction_id),
        KeyVerificationReady(ev) => Some(&ev.content.transaction_id),
        KeyVerificationStart(ev) => Some(&ev.content.transaction_id),
        KeyVerificationCancel(ev) => Some(&ev.content.transaction_id),
        KeyVerificationAccept(ev) => Some(&ev.content.transaction_id),
        KeyVerificationKey(ev) => Some(&ev.content.transaction_id),
        KeyVerificationMac(ev) => Some(&ev.content.transaction_id),
        KeyVerificationDone(ev) => Some(&ev.content.transaction_id),
        _ => None,
    };
    let (event_type, sender) = (event.event_type().to_string(), event.sender().to_string());
    Some(ToDeviceFields { event_type, sender, transaction_id: id.map(ToString::to_string) })
}

/// What a message-like event of a room's timeline says.
pub struct TimelineFields {
    /// The `type` of the event.
    pub event_type: String,
    /// Whether it is a room message that asks for a verification.
    pub verification_request: bool,
    /// The user that sent it.
    pub sender: String,
    /// The identifier of the event.
    pub event_id: String,
}

/// The view of [`TimelineFields`].
#[verifier::ext_equal]
pub struct TimelineFieldsView {
    pub event_type: Seq<char>,
    pub verification_request: bool,
    pub sender: Seq<char>,
    pub event_id: Seq<char>,
}

impl View for TimelineFields {
    type V = TimelineFieldsView;

    open spec fn view(&self) -> TimelineFieldsView {
        TimelineFieldsView {
            event_type: self.event_type@,
            verification_request: self.verification_request,
            sender: self.sender@,
            event_id: self.event_id@,
        }
    }
}

/// What `ruma` reads in the JSON text of an event of a room's timeline: nothing
/// unless it is a well-formed message-like event that was not redacted.
pub uninterp spec fn timeline_fields(json: Seq<char>) -> Option<TimelineFieldsView>;

/// `serde_json::from_str` into `ruma`'s `AnySyncRoomEvent`. The claim is only that
/// the outcome depends on nothing but the text.
#[verifier::external_body]
pub(crate) fn read_timeline(json: &str) -> (fields: Option<TimelineFields>)
    ensures
        opt_view(fields) == timeline_fields(json@),
{
    let AnySyncRoomEvent::MessageLike(event) = serde_json::from_str(json).ok()? else {
        return None;
    };
    let verification_request = match event.original_content()? {
        AnyMessageLikeEventContent::RoomMessage(RoomMessageEventContent {
            msgtype: MessageType::VerificationRequest(_),
            ..
        }) => true,
        _ => false,
    };
    let (event_type, sender) = (event.event_type().to_string(), event.sender().to_string());
    let event_id = event.event_id().to_string();
    Some(TimelineFields { event_type, verification_request, sender, event_id })
}

/// What a membership event of an invited room says.
pub struct MemberFields {
    /// The user whose membership it is.
    pub state_key: String,
    /// The user that changed it.
    pub sender: String,
}

/// The view of [`MemberFields`].
#[verifier::ext_equal]
pub struct MemberFieldsView {
    pub state_key: Seq<char>,
    pub sender: Seq<char>,
}

impl View for MemberFields {
    type V = MemberFieldsView;

    open spec fn view(&self) -> MemberFieldsView {
        MemberFieldsView { state_key: self.state_key@, sender: self.sender@ }
    }
}

/// What `ruma` reads in the JSON text of a stripped state event: nothing unless it
/// is a well-formed `m.room.member` event.
pub uninterp spec fn member_fields(json: Seq<char>) -> Option<MemberFieldsView>;

/// `serde_json::from_str` into `ruma`'s `AnyStrippedStateEvent`. The claim is only
/// that the outcome depends on nothing but the text.
#[verifier::external_body]
pub(crate) fn read_member(json: &str) -> (fields: Option<MemberFields>)
    ensures
        opt_view(fields) == member_fields(json@),
{
    match serde_json::from_str(json).ok()? {
        AnyStrippedStateEvent::RoomMember(member) => Some(
            MemberFields {
                state_key: member.state_key.to_string(),
                sender: member.sender.to_string(),
            },
        ),
        _ => None,
    }
}

/// The text at a key of a JSON object: nothing unless the JSON text can be read, is
/// an object and holds a string there.
pub uninterp spec fn json_text(json: Seq<char>, key: Seq<char>) -> Option<Seq<char>>;

/// `serde_json::from_str` into a `Value`, indexed by the key and read with
/// `Value::as_str`. The claim is only that the outcome depends on nothing but the
/// text and the key.
#[verifier::external_body]
pub(crate) fn read_text(json: &str, key: &str) -> (text: Option<String>)
    ensures
        opt_view(text) == json_text(json@, key@),
{
    let value: Value = serde_json::from_str(json).ok()?;
    value[key].as_str().map(String::from)
}

/// The number at a key of a JSON object: nothing unless the JSON text can be read,
/// is an object and holds a number there that is an unsigned integer of 64 bits.
pub uninterp spec fn json_number(json: Seq<char>, key: Seq<char>) -> Option<u64>;

/// `serde_json::from_str` into a `Value`, indexed by the key and read with
/// `Value::as_u64`. The claim is only that the outcome depends on nothing but the
/// text and the key.
#[verifier::external_body]
pub(crate) fn read_number(json: &str, key: &str) -> (number: Option<u64>)
    ensures
        number == json_number(json@, key@),
{
    let value: Value = serde_json::from_str(json).ok()?;
    value[key].as_u64()
}

/// Whether `ruma` takes a text for an event identifier.
pub uninterp spec fn is_event_id(text: Seq<char>) -> bool;

/// `ruma::EventId::parse`. The claims are that whether it succeeds depends on nothing
/// but the text, and that the identifier is the text itself.
#[verifier::external_body]
pub(crate) fn parse_event_id(text: &str) -> (id: Option<String>)
    ensures
        id is Some <==> is_event_id(text@),
        id matches Some(id) ==> id@ == text@,
{
    Some(EventId::parse(text).ok()?.to_string())
}

/// Whether `ruma` takes a text for a user identifier.
pub uninterp spec fn is_user_id(text: Seq<char>) -> bool;

/// `ruma::UserId::parse`. The claims are that whether it succeeds depends on nothing
/// but the text, and that the identifier is the text itself.
#[verifier::external_body]
pub(crate) fn parse_user_id(text: &str) -> (id: Option<String>)
    ensures
        id is Some <==> is_user_id(text@),
        id matches Some(id) ==> id@ == text@,
{
    Some(UserId::parse(text).ok()?.to_string())
}

/// The complaint with which `ruma` refuses a text as a room identifier, if it does.
pub uninterp spec fn room_id_fault(text: Seq<char>) -> Option<Seq<char>>;

/// `ruma::RoomId::parse`. The claims are that whether it succeeds, and the text of
/// its error, depend on nothing but the text, and that the identifier is the text
/// itself.
#[verifier::external_body]
pub(crate) fn parse_room_id(text: &str) -> (id: Result<String, String>)
    ensures
        id matches Err(fault) ==> room_id_fault(text@) == Some(fault@),
        id matches Ok(id) ==> room_id_fault(text@) is None && id@ == text@,
{
    match RoomId::parse(text) {
        Ok(id) => Ok(id.to_string()),
        Err(error) => Err(error.to_string()),
    }
}

} // verus!
