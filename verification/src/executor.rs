//! What is done with the events of the application itself.
use crate::text::{opt_view, same_text};
use crate::wire::{is_event_id, json_text, parse_event_id, read_text};
use std::sync::Arc;
use vstd::prelude::*;

verus! {

/// The type of the news events while they are under development.
pub const NEWS_TYPE_DEV: &'static str = "org.effektio.news.dev";

/// Why an event cannot be taken up.
#[derive(Debug, Clone, Copy, PartialEq, Eq, Structural)]
pub enum EventError {
    /// It does not tell its type.
    MissingType,
    /// It does not tell its identifier.
    MissingEventId,
    /// What it gives as its identifier is none.
    InvalidEventId,
}

/// A news event.
#[derive(Debug)]
pub enum NewsEvent {
    /// One of the type that is under development.
    Dev { event_id: String },
}

/// A message-like event, as the application sorts them.
#[derive(Debug)]
pub enum AnyEffektioMessageLikeEvent {
    /// An event that is not the application's own.
    Matrix,
    /// News.
    News(NewsEvent),
}

/// The view of an [`AnyEffektioMessageLikeEvent`]: the identifier of the news, if it is
/// news.
pub enum SortedEvent {
    Matrix,
    NewsDev { event_id: Seq<char> },
}

impl View for AnyEffektioMessageLikeEvent {
    type V = SortedEvent;

    open spec fn view(&self) -> SortedEvent {
        match self {
            AnyEffektioMessageLikeEvent::Matrix => SortedEvent::Matrix,
            AnyEffektioMessageLikeEvent::News(NewsEvent::Dev { event_id }) => SortedEvent::NewsDev {
                event_id: event_id@,
            },
        }
    }
}

/// How the application sorts an event with this type and this identifier, as far as it
/// tells them.
pub open spec fn sorted_by(
    event_type: Option<Seq<char>>,
    event_id: Option<Seq<char>>,
) -> Result<SortedEvent, EventError> {
    match (event_type, event_id) {
        (None, _) => Err(EventError::MissingType),
        (Some(event_type), _) if event_type != "org.effektio.news.dev"@ => Ok(SortedEvent::Matrix),
        (Some(_), None) => Err(EventError::MissingEventId),
        (Some(_), Some(event_id)) => if is_event_id(event_id) {
            Ok(SortedEvent::NewsDev { event_id })
        } else {
            Err(EventError::InvalidEventId)
        },
    }
}

/// How the application sorts the event in a JSON text.
pub open spec fn sorted_event(json: Seq<char>) -> Result<SortedEvent, EventError> {
    sorted_by(json_text(json, "type"@), json_text(json, "event_id"@))
}

/// The view of a sorted event, or why it could not be sorted.
pub open spec fn sorting_view(
    event: Result<AnyEffektioMessageLikeEvent, EventError>,
) -> Result<SortedEvent, EventError> {
    match event {
        Ok(event) => Ok(event@),
        Err(error) => Err(error),
    }
}

/// Sorts an event with this type and this identifier, as far as it tells them.
pub fn sort_event(
    event_type: Option<String>,
    event_id: Option<String>,
) -> (event: Result<AnyEffektioMessageLikeEvent, EventError>)
    ensures
        sorting_view(event) == sorted_by(opt_view(event_type), opt_view(event_id)),
{
    let Some(event_type) = event_type else {
        return Err(EventError::MissingType);
    };
    if !same_text(event_type.as_str(), NEWS_TYPE_DEV) {
        return Ok(AnyEffektioMessageLikeEvent::Matrix);
    }
    match event_id {
        None => Err(EventError::MissingEventId),
        Some(text) => match parse_event_id(text.as_str()) {
            None => Err(EventError::InvalidEventId),
            Some(event_id) => Ok(AnyEffektioMessageLikeEvent::News(NewsEvent::Dev { event_id })),
        },
    }
}

/// Whether the event in a JSON text can be read and is not the application's own.
pub open spec fn is_regular_message(json: Seq<char>) -> bool {
    sorted_event(json) matches Ok(SortedEvent::Matrix)
}

impl AnyEffektioMessageLikeEvent {
    /// Sorts the event in a JSON text.
    pub fn read(json: &str) -> (event: Result<AnyEffektioMessageLikeEvent, EventError>)
        ensures
            sorting_view(event) == sorted_event(json@),
    {
        sort_event(read_text(json, "type"), read_text(json, "event_id"))
    }
}

/// The identifier of the event that was taken up, or why none was.
pub open spec fn applied(
    json: Seq<char>,
    outcome: Result<Option<String>, EventError>,
) -> bool {
    match sorted_event(json) {
        Ok(SortedEvent::NewsDev { event_id }) => outcome matches Ok(Some(taken)) && taken@
            == event_id,
        Ok(SortedEvent::Matrix) => false,
        Err(error) => outcome matches Err(found) && found == error,
    }
}

/// Takes up events, on top of a store.
#[derive(Debug)]
#[allow(dead_code)]
pub struct Executor<S> {
    store: Arc<S>,
}

impl<S> Clone for Executor<S> {
    /// An executor on top of the same store.
    fn clone(&self) -> (copy: Self)
        ensures
            copy.store_spec() == self.store_spec(),
    {
        Executor { store: self.store.clone() }
    }
}

impl<S> Executor<S> {
    /// The store.
    pub closed spec fn store_spec(&self) -> Arc<S> {
        self.store
    }

    /// An executor on top of a store.
    pub fn new(store: Arc<S>) -> (executor: Self)
        ensures
            executor.store_spec() == store,
    {
        Executor { store }
    }

    /// Takes up the event in a JSON text: news give their identifier. An event that is
    /// not the application's own is not for this function.
    pub fn apply(&self, event: &str) -> (outcome: Result<Option<String>, EventError>)
        requires
            !is_regular_message(event@),
        ensures
            applied(event@, outcome),
    {
        match AnyEffektioMessageLikeEvent::read(event) {
            Err(error) => Err(error),
            Ok(AnyEffektioMessageLikeEvent::News(NewsEvent::Dev { event_id })) => Ok(
                Some(event_id),
            ),
            Ok(AnyEffektioMessageLikeEvent::Matrix) => {
                assert(false);
                Ok(None)
            },
        }
    }

    /// Takes up the event in a JSON text, unless it can be read and is not the
    /// application's own.
    pub fn apply_own(&self, event: &str) -> (outcome: Option<Result<Option<String>, EventError>>)
        ensures
            match outcome {
                Some(outcome) => applied(event@, outcome),
                None => is_regular_message(event@),
            },
    {
        match AnyEffektioMessageLikeEvent::read(event) {
            Ok(AnyEffektioMessageLikeEvent::Matrix) => None,
            _ => Some(self.apply(event)),
        }
    }
}

} // verus!
