//! The verification of another device: what is asked of the encryption layer for each
//! operation, and what its replies lead to.
use crate::wire::{is_user_id, parse_user_id};
use vstd::prelude::*;
use vstd::string::StrSliceExecFns;

verus! {

/// One of the pictures that two users compare.
#[derive(Debug)]
pub struct EmojiUnit {
    symbol: u32,
    description: String,
}

/// What an [`EmojiUnit`] holds.
#[verifier::ext_equal]
pub struct EmojiUnitView {
    pub symbol: u32,
    pub description: Seq<char>,
}

impl View for EmojiUnit {
    type V = EmojiUnitView;

    closed spec fn view(&self) -> EmojiUnitView {
        EmojiUnitView { symbol: self.symbol, description: self.description@ }
    }
}

impl Clone for EmojiUnit {
    fn clone(&self) -> (copy: Self)
        ensures
            copy@ == self@,
    {
        EmojiUnit { symbol: self.symbol, description: self.description.clone() }
    }
}

impl EmojiUnit {
    /// A picture with its code point and what it shows.
    pub fn new(symbol: u32, description: String) -> (unit: Self)
        ensures
            unit@ == (EmojiUnitView { symbol, description: description@ }),
    {
        EmojiUnit { symbol, description }
    }

    /// The code point of the picture.
    pub fn get_symbol(&self) -> (symbol: u32)
        ensures
            symbol == self@.symbol,
    {
        self.symbol
    }

    /// What the picture shows.
    pub fn get_description(&self) -> (description: String)
        ensures
            description@ == self@.description,
    {
        self.description.clone()
    }
}

/// Why an operation on a verification failed.
#[derive(Debug, Clone, Copy, PartialEq, Eq, Structural)]
pub enum VerificationError {
    /// The sender is no user identifier.
    InvalidSender,
    /// There is no request to accept.
    NoRequest,
    /// The request could not be accepted.
    RequestNotAccepted,
    /// The other side could not be told.
    ActionFailed,
    /// A picture has an empty symbol.
    EmptySymbol,
}

impl VerificationError {
    /// The error in words, where it is one that the library itself finds or names.
    pub fn message(&self) -> (message: Option<&'static str>)
        ensures
            match message {
                Some(text) => {
                    ||| *self == VerificationError::InvalidSender && text@
                        == "Couldn't parse the MXID"@
                    ||| *self == VerificationError::NoRequest && text@
                        == "Request object wasn't created"@
                    ||| *self == VerificationError::RequestNotAccepted && text@
                        == "Can't accept verification request"@
                },
                None => *self == VerificationError::ActionFailed || *self
                    == VerificationError::EmptySymbol,
            },
    {
        match self {
            VerificationError::InvalidSender => Some("Couldn't parse the MXID"),
            VerificationError::NoRequest => Some("Request object wasn't created"),
            VerificationError::RequestNotAccepted => Some("Can't accept verification request"),
            VerificationError::ActionFailed => None,
            VerificationError::EmptySymbol => None,
        }
    }
}

/// An operation on a verification that ends in a yes or a no.
#[derive(Debug, Clone, Copy, PartialEq, Eq, Structural)]
pub enum Operation {
    AcceptRequest,
    AcceptStart,
    Confirm,
    Mismatch,
    Cancel,
    Review,
}

/// What is asked of the encryption layer next.
#[derive(Debug, Clone, Copy, PartialEq, Eq, Structural)]
pub enum Ask {
    /// Find the request with the sender and the identifier.
    FindRequest,
    /// Find the verification by short authentication string with the sender and the
    /// identifier.
    FindSas,
    /// Accept what was found.
    Accept,
    /// Tell the other side that the strings are the same.
    Confirm,
    /// Tell the other side that the strings differ.
    Mismatch,
    /// Cancel what was found.
    Cancel,
    /// Tell whether what was found is done.
    IsDone,
}

/// A reply of the encryption layer.
#[derive(Debug, Clone, Copy, PartialEq, Eq, Structural)]
pub enum Reply {
    /// It was not found, or is not a verification by short authentication string.
    Missing,
    /// It was found.
    Found,
    /// The action failed.
    Failed,
    /// The action was taken.
    Performed,
    /// Whether it is done.
    Done(bool),
}

/// What follows a reply.
#[derive(Debug, Clone, Copy, PartialEq, Eq)]
pub enum Next {
    /// The encryption layer is asked for more.
    Ask(Ask),
    /// The operation is over.
    Finished(Result<bool, VerificationError>),
}

/// What an operation asks for first.
pub open spec fn first_ask(operation: Operation) -> Ask {
    if operation == Operation::AcceptRequest {
        Ask::FindRequest
    } else {
        Ask::FindSas
    }
}

/// What an operation asks for once it was found what it is about.
pub open spec fn ask_of_found(operation: Operation) -> Ask {
    match operation {
        Operation::AcceptRequest => Ask::Accept,
        Operation::AcceptStart => Ask::Accept,
        Operation::Confirm => Ask::Confirm,
        Operation::Mismatch => Ask::Mismatch,
        Operation::Cancel => Ask::Cancel,
        Operation::Review => Ask::IsDone,
    }
}

/// Whether a reply answers what was asked.
pub open spec fn answers(reply: Reply, ask: Ask) -> bool {
    match ask {
        Ask::FindRequest | Ask::FindSas => reply is Missing || reply is Found,
        Ask::IsDone => reply is Done,
        _ => reply is Failed || reply is Performed,
    }
}

/// What follows when something was not found.
pub open spec fn without(operation: Operation) -> Result<bool, VerificationError> {
    if operation == Operation::AcceptRequest {
        Err(VerificationError::NoRequest)
    } else {
        Ok(false)
    }
}

/// What follows when an action failed.
pub open spec fn failure(operation: Operation) -> VerificationError {
    if operation == Operation::AcceptRequest {
        VerificationError::RequestNotAccepted
    } else {
        VerificationError::ActionFailed
    }
}

/// What follows a reply.
pub open spec fn next_spec(operation: Operation, ask: Ask, reply: Reply) -> Next {
    match reply {
        Reply::Missing => Next::Finished(without(operation)),
        Reply::Found => Next::Ask(ask_of_found(operation)),
        Reply::Failed => Next::Finished(Err(failure(operation))),
        Reply::Performed => if ask == Ask::Confirm {
            Next::Ask(Ask::IsDone)
        } else {
            Next::Finished(Ok(true))
        },
        Reply::Done(done) => Next::Finished(Ok(done)),
    }
}

/// An operation on a verification that is under way.
#[derive(Debug)]
pub struct VerificationFlow {
    operation: Operation,
    ask: Ask,
    sender: String,
    event_id: String,
}

/// What a [`VerificationFlow`] holds.
#[verifier::ext_equal]
pub struct VerificationFlowView {
    pub operation: Operation,
    pub ask: Ask,
    pub sender: Seq<char>,
    pub event_id: Seq<char>,
}

impl View for VerificationFlow {
    type V = VerificationFlowView;

    closed spec fn view(&self) -> VerificationFlowView {
        VerificationFlowView {
            operation: self.operation,
            ask: self.ask,
            sender: self.sender@,
            event_id: self.event_id@,
        }
    }
}

/// The beginning of an operation on the verification with a sender and an identifier.
pub open spec fn begun(
    operation: Operation,
    sender: Seq<char>,
    event_id: Seq<char>,
) -> VerificationFlowView {
    VerificationFlowView { operation, ask: first_ask(operation), sender, event_id }
}

/// Whether `flow` is the beginning of an operation, or the error where the sender is no
/// user identifier.
pub open spec fn begins(
    flow: Result<VerificationFlow, VerificationError>,
    operation: Operation,
    sender: Seq<char>,
    event_id: Seq<char>,
) -> bool {
    match flow {
        Ok(flow) => is_user_id(sender) && flow@ == begun(operation, sender, event_id),
        Err(error) => !is_user_id(sender) && error == VerificationError::InvalidSender,
    }
}

impl VerificationFlow {
    /// Begins an operation on the verification with a sender and an identifier.
    pub fn begin(
        operation: Operation,
        sender: String,
        event_id: String,
    ) -> (flow: Result<VerificationFlow, VerificationError>)
        ensures
            begins(flow, operation, sender@, event_id@),
    {
        let ask = match operation {
            Operation::AcceptRequest => Ask::FindRequest,
            _ => Ask::FindSas,
        };
        match parse_user_id(sender.as_str()) {
            Some(sender) => Ok(VerificationFlow { operation, ask, sender, event_id }),
            None => Err(VerificationError::InvalidSender),
        }
    }

    /// What is asked of the encryption layer.
    pub fn ask(&self) -> (ask: Ask)
        ensures
            ask == self@.ask,
    {
        self.ask
    }

    /// The user on the other side.
    pub fn sender(&self) -> (sender: &str)
        ensures
            sender@ == self@.sender,
    {
        self.sender.as_str()
    }

    /// The identifier of the verification.
    pub fn event_id(&self) -> (event_id: &str)
        ensures
            event_id@ == self@.event_id,
    {
        self.event_id.as_str()
    }

    /// Goes on with a reply to what was asked.
    pub fn resume(&mut self, reply: Reply) -> (next: Next)
        requires
            answers(reply, old(self)@.ask),
        ensures
            next == next_spec(old(self)@.operation, old(self)@.ask, reply),
            final(self)@ == match next {
                Next::Ask(ask) => VerificationFlowView { ask, ..old(self)@ },
                Next::Finished(_) => old(self)@,
            },
    {
        let next = match reply {
            Reply::Missing => match self.operation {
                Operation::AcceptRequest => Next::Finished(Err(VerificationError::NoRequest)),
                _ => Next::Finished(Ok(false)),
            },
            Reply::Found => match self.operation {
                Operation::AcceptRequest => Next::Ask(Ask::Accept),
                Operation::AcceptStart => Next::Ask(Ask::Accept),
                Operation::Confirm => Next::Ask(Ask::Confirm),
                Operation::Mismatch => Next::Ask(Ask::Mismatch),
                Operation::Cancel => Next::Ask(Ask::Cancel),
                Operation::Review => Next::Ask(Ask::IsDone),
            },
            Reply::Failed => match self.operation {
                Operation::AcceptRequest => Next::Finished(
                    Err(VerificationError::RequestNotAccepted),
                ),
                _ => Next::Finished(Err(VerificationError::ActionFailed)),
            },
            Reply::Performed => match self.ask {
                Ask::Confirm => Next::Ask(Ask::IsDone),
                _ => Next::Finished(Ok(true)),
            },
            Reply::Done(done) => Next::Finished(Ok(done)),
        };
        if let Next::Ask(ask) = next {
            self.ask = ask;
        }
        next
    }
}

/// A picture as the encryption layer gives it.
#[derive(Debug)]
pub struct EmojiItem {
    /// The picture, perhaps with characters that only change how it is drawn.
    pub symbol: String,
    /// What it shows.
    pub description: String,
}

/// The picture that the user interface shows for one of the encryption layer: the
/// first character of its symbol.
pub open spec fn unit_of_item(item: EmojiItem) -> EmojiUnitView {
    EmojiUnitView { symbol: item.symbol@[0] as u32, description: item.description@ }
}

/// What each of several pictures holds.
pub open spec fn unit_views(units: Seq<EmojiUnit>) -> Seq<EmojiUnitView> {
    units.map_values(|unit: EmojiUnit| unit@)
}

/// Whether every picture has a symbol.
pub open spec fn all_symbols(items: Seq<EmojiItem>) -> bool {
    forall|i: int| 0 <= i < items.len() ==> (#[trigger] items[i]).symbol@.len() > 0
}

/// The pictures that the user interface shows for those of the encryption layer.
pub fn emoji_units(items: &Vec<EmojiItem>) -> (units: Result<Vec<EmojiUnit>, VerificationError>)
    ensures
        match units {
            Ok(units) => all_symbols(items@) && unit_views(units@) == items@.map_values(
                |item: EmojiItem| unit_of_item(item),
            ),
            Err(error) => !all_symbols(items@) && error == VerificationError::EmptySymbol,
        },
{
    let mut units: Vec<EmojiUnit> = Vec::new();
    let ghost expected = items@.map_values(|item: EmojiItem| unit_of_item(item));
    for i in 0..items.len()
        invariant
            expected == items@.map_values(|item: EmojiItem| unit_of_item(item)),
            forall|j: int| 0 <= j < i ==> (#[trigger] items@[j]).symbol@.len() > 0,
            unit_views(units@) == expected.take(i as int),
    {
        let item = &items[i];
        if item.symbol.as_str().is_empty() {
            assert(items@[i as int].symbol@.len() == 0);
            return Err(VerificationError::EmptySymbol);
        }
        let symbol: u32 = item.symbol.as_str().get_char(0) as u32;
        let unit = EmojiUnit::new(symbol, item.description.clone());
        proof {
            assert(unit_views(units@.push(unit)) =~= unit_views(units@).push(unit@));
            assert(expected.take(i + 1) =~= expected.take(i as int).push(unit@));
        }
        units.push(unit);
    }
    assert(expected.take(items.len() as int) =~= expected);
    Ok(units)
}

/// The look for the pictures of a verification.
#[derive(Debug)]
pub struct EmojiLookup {
    sender: String,
    event_id: String,
}

/// What an [`EmojiLookup`] holds.
#[verifier::ext_equal]
pub struct EmojiLookupView {
    pub sender: Seq<char>,
    pub event_id: Seq<char>,
}

impl View for EmojiLookup {
    type V = EmojiLookupView;

    closed spec fn view(&self) -> EmojiLookupView {
        EmojiLookupView { sender: self.sender@, event_id: self.event_id@ }
    }
}

impl EmojiLookup {
    /// Begins to look for the pictures of the verification with a sender and an
    /// identifier.
    pub fn begin(
        sender: String,
        event_id: String,
    ) -> (lookup: Result<EmojiLookup, VerificationError>)
        ensures
            match lookup {
                Ok(lookup) => is_user_id(sender@) && lookup@ == (EmojiLookupView {
                    sender: sender@,
                    event_id: event_id@,
                }),
                Err(error) => !is_user_id(sender@) && error == VerificationError::InvalidSender,
            },
    {
        match parse_user_id(sender.as_str()) {
            Some(sender) => Ok(EmojiLookup { sender, event_id }),
            None => Err(VerificationError::InvalidSender),
        }
    }

    /// The user on the other side.
    pub fn sender(&self) -> (sender: &str)
        ensures
            sender@ == self@.sender,
    {
        self.sender.as_str()
    }

    /// The identifier of the verification.
    pub fn event_id(&self) -> (event_id: &str)
        ensures
            event_id@ == self@.event_id,
    {
        self.event_id.as_str()
    }

    /// Ends with the pictures that were found. There are none where the verification
    /// was not found or has no pictures.
    pub fn finish(
        self,
        found: Option<Vec<EmojiItem>>,
    ) -> (units: Result<Vec<EmojiUnit>, VerificationError>)
        ensures
            match found {
                None => units matches Ok(units) && units@.len() == 0,
                Some(items) => match units {
                    Ok(units) => all_symbols(items@) && unit_views(units@) == items@.map_values(
                        |item: EmojiItem| unit_of_item(item),
                    ),
                    Err(error) => !all_symbols(items@) && error == VerificationError::EmptySymbol,
                },
            },
    {
        match found {
            None => Ok(Vec::new()),
            Some(items) => emoji_units(&items),
        }
    }
}

} // verus!
