//! The client of an account.
use crate::channel::{first_signal, signalled};
use crate::rooms::{devide_groups_from_common, marked, RoomError, RoomLookup};
use crate::state::{invitation_views, ClientState, ClientStateView, Invitation};
use crate::sync::{linked, unused, SyncLoop, SyncState};
use crate::verification::{
    begins, EmojiLookup, EmojiLookupView, Operation, VerificationError, VerificationFlow,
};
use crate::wire::{is_user_id, room_id_fault};
use vstd::prelude::*;

verus! {

/// Why something that the account should have is missing.
#[derive(Debug, Clone, Copy, PartialEq, Eq, Structural)]
pub enum ClientError {
    MissingSession,
    NoUserId,
    NoDeviceId,
}

impl ClientError {
    /// The error in words.
    pub fn message(&self) -> (message: &'static str)
        ensures
            message@ == match *self {
                ClientError::MissingSession => "Missing session"@,
                ClientError::NoUserId => "No User ID found"@,
                ClientError::NoDeviceId => "No Device ID found"@,
            },
    {
        match self {
            ClientError::MissingSession => "Missing session",
            ClientError::NoUserId => "No User ID found",
            ClientError::NoDeviceId => "No Device ID found",
        }
    }
}

/// Why the display name is not known.
#[derive(Debug)]
pub enum DisplayNameError<E> {
    /// It could not be asked for.
    Request(E),
    /// The account has none.
    Missing(ClientError),
}

/// What is kept to take up a session again later.
#[derive(Debug)]
pub struct RestoreToken<S> {
    /// The session.
    pub session: S,
    /// The address of the home server.
    pub homeurl: String,
    /// Whether the account is that of a guest.
    pub is_guest: bool,
}

/// The client of an account.
#[derive(Debug)]
pub struct Client {
    state: ClientState,
}

impl View for Client {
    type V = ClientStateView;

    /// The state of the client.
    closed spec fn view(&self) -> ClientStateView {
        self.state@
    }
}

impl Client {
    /// A client in a given state.
    pub fn new(state: ClientState) -> (client: Self)
        ensures
            client@ == state@,
    {
        Client { state }
    }

    /// The two sides of a new sync.
    pub fn start_sync(&self) -> (sides: (SyncLoop, SyncState))
        ensures
            sides.0.well_formed(),
            sides.0@.initial,
            unused(sides.0@.to_device_tx),
            unused(sides.0@.sync_msg_like_tx),
            signalled(sides.0@.first_synced_tx) == Seq::<bool>::empty(),
            sides.1@.to_device_rx is Some,
            sides.1@.sync_msg_like_rx is Some,
            sides.1@.first_synced_rx matches Some(rx) && !first_signal(rx),
            linked(sides.0@, sides.1@),
    {
        SyncLoop::open()
    }

    /// The state, for a sync to work on.
    pub fn state_mut(&mut self) -> (state: &mut ClientState)
        ensures
            state@ == old(self)@,
            final(self)@ == final(state)@,
    {
        &mut self.state
    }

    /// Whether a sync has brought a response since the client was made.
    pub fn has_first_synced(&self) -> (has: bool)
        ensures
            has == self@.has_first_synced,
    {
        self.state.has_first_synced
    }

    /// Whether the sync is running.
    pub fn is_syncing(&self) -> (is: bool)
        ensures
            is == self@.is_syncing,
    {
        self.state.is_syncing
    }

    /// Whether the account is that of a guest.
    pub fn is_guest(&self) -> (is: bool)
        ensures
            is == self@.is_guest,
    {
        self.state.is_guest
    }

    /// The invitations that wait for an answer, in the order in which they came.
    pub fn pending_invitations(&self) -> (invitations: Vec<Invitation>)
        ensures
            invitation_views(invitations@) == self@.pending_invitations,
    {
        let invitations = self.state.pending_invitations.clone();
        assert(invitation_views(invitations@) =~= invitation_views(
            self.state.pending_invitations@,
        ));
        invitations
    }

    /// What is kept to take up the session again later.
    pub fn restore_token<S>(
        &self,
        session: Option<S>,
        homeurl: String,
    ) -> (token: Result<RestoreToken<S>, ClientError>)
        ensures
            token == match session {
                Some(session) => Ok(
                    RestoreToken { session, homeurl, is_guest: self@.is_guest },
                ),
                None => Err(ClientError::MissingSession),
            },
    {
        match session {
            Some(session) => Ok(
                RestoreToken { session, homeurl, is_guest: self.state.is_guest },
            ),
            None => Err(ClientError::MissingSession),
        }
    }

    /// The rooms of the account that are no groups, by a mark for each room that tells
    /// whether it is a group.
    pub fn conversations<R>(
        &self,
        rooms: Vec<R>,
        is_group: &Vec<bool>,
    ) -> (conversations: Vec<R>)
        requires
            is_group@.len() == rooms@.len(),
        ensures
            conversations@ == marked(rooms@, is_group@, false),
    {
        let (_, conversations) = devide_groups_from_common(rooms, is_group);
        conversations
    }

    /// The rooms of the account that are groups, by a mark for each room that tells
    /// whether it is a group.
    pub fn groups<R>(&self, rooms: Vec<R>, is_group: &Vec<bool>) -> (groups: Vec<R>)
        requires
            is_group@.len() == rooms@.len(),
        ensures
            groups@ == marked(rooms@, is_group@, true),
    {
        let (groups, _) = devide_groups_from_common(rooms, is_group);
        groups
    }

    /// The user, who must be known.
    pub fn user_id<U>(&self, known: Option<U>) -> (user_id: Result<U, ClientError>)
        ensures
            user_id == match known {
                Some(user_id) => Ok(user_id),
                None => Err(ClientError::NoUserId),
            },
    {
        match known {
            Some(user_id) => Ok(user_id),
            None => Err(ClientError::NoUserId),
        }
    }

    /// Begins to look for the room with an identifier.
    pub fn room(&self, room_name: String) -> (lookup: Result<RoomLookup, RoomError>)
        ensures
            match room_id_fault(room_name@) {
                None => lookup matches Ok(lookup) && lookup@ == room_name@,
                Some(fault) => lookup matches Err(RoomError::InvalidId(text)) && text@ == fault,
            },
    {
        RoomLookup::new(room_name.as_str())
    }

    /// The display name, from what the server says of it.
    pub fn display_name<E>(
        &self,
        fetched: Result<Option<String>, E>,
    ) -> (name: Result<String, DisplayNameError<E>>)
        ensures
            name == match fetched {
                Ok(Some(name)) => Ok(name),
                Ok(None) => Err(DisplayNameError::Missing(ClientError::NoUserId)),
                Err(error) => Err(DisplayNameError::Request(error)),
            },
    {
        match fetched {
            Ok(Some(name)) => Ok(name),
            Ok(None) => Err(DisplayNameError::Missing(ClientError::NoUserId)),
            Err(error) => Err(DisplayNameError::Request(error)),
        }
    }

    /// The device, which must be known.
    pub fn device_id(&self, known: Option<String>) -> (device_id: Result<String, ClientError>)
        ensures
            device_id == match known {
                Some(device_id) => Ok(device_id),
                None => Err(ClientError::NoDeviceId),
            },
    {
        match known {
            Some(device_id) => Ok(device_id),
            None => Err(ClientError::NoDeviceId),
        }
    }

    /// Begins to accept a request for a verification.
    pub fn accept_verification_request(
        &self,
        sender: String,
        event_id: String,
    ) -> (flow: Result<VerificationFlow, VerificationError>)
        ensures
            begins(flow, Operation::AcceptRequest, sender@, event_id@),
    {
        VerificationFlow::begin(Operation::AcceptRequest, sender, event_id)
    }

    /// Begins to accept the start of a verification.
    pub fn accept_verification_start(
        &self,
        sender: String,
        event_id: String,
    ) -> (flow: Result<VerificationFlow, VerificationError>)
        ensures
            begins(flow, Operation::AcceptStart, sender@, event_id@),
    {
        VerificationFlow::begin(Operation::AcceptStart, sender, event_id)
    }

    /// Begins to look for the pictures of a verification.
    pub fn get_verification_emoji(
        &self,
        sender: String,
        event_id: String,
    ) -> (lookup: Result<EmojiLookup, VerificationError>)
        ensures
            match lookup {
                Ok(lookup) => is_user_id(sender@) && lookup@ == (EmojiLookupView {
                    sender: sender@,
                    event_id: event_id@,
                }),
                Err(error) => !is_user_id(sender@) && error == VerificationError::InvalidSender,
            },
    {
        EmojiLookup::begin(sender, event_id)
    }

    /// Begins to confirm that the pictures of a verification are the same.
    pub fn confirm_verification_key(
        &self,
        sender: String,
        event_id: String,
    ) -> (flow: Result<VerificationFlow, VerificationError>)
        ensures
            begins(flow, Operation::Confirm, sender@, event_id@),
    {
        VerificationFlow::begin(Operation::Confirm, sender, event_id)
    }

    /// Begins to report that the pictures of a verification differ.
    pub fn mismatch_verification_key(
        &self,
        sender: String,
        event_id: String,
    ) -> (flow: Result<VerificationFlow, VerificationError>)
        ensures
            begins(flow, Operation::Mismatch, sender@, event_id@),
    {
        VerificationFlow::begin(Operation::Mismatch, sender, event_id)
    }

    /// Begins to cancel a verification.
    pub fn cancel_verification_key(
        &self,
        sender: String,
        event_id: String,
    ) -> (flow: Result<VerificationFlow, VerificationError>)
        ensures
            begins(flow, Operation::Cancel, sender@, event_id@),
    {
        VerificationFlow::begin(Operation::Cancel, sender, event_id)
    }

    /// Begins to ask whether a verification is done.
    pub fn review_verification_mac(
        &self,
        sender: String,
        event_id: String,
    ) -> (flow: Result<VerificationFlow, VerificationError>)
        ensures
            begins(flow, Operation::Review, sender@, event_id@),
    {
        VerificationFlow::begin(Operation::Review, sender, event_id)
    }
}

} // verus!
