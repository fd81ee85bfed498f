//! What the client remembers: invitations, and how far its sync has come.
use crate::text::{clone_opt_text, opt_view, same_text};
use crate::wire::{
    json_number, json_text, member_fields, read_member, read_number, read_text, MemberFields,
    MemberFieldsView,
};
use vstd::prelude::*;

verus! {

/// An invitation to a room.
#[derive(Debug)]
pub struct Invitation {
    event_id: Option<String>,
    timestamp: Option<u64>,
    room_id: String,
    room_name: String,
    sender: Option<String>,
}

/// What an [`Invitation`] holds.
#[verifier::ext_equal]
pub struct InvitationView {
    pub event_id: Option<Seq<char>>,
    pub timestamp: Option<u64>,
    pub room_id: Seq<char>,
    pub room_name: Seq<char>,
    pub sender: Option<Seq<char>>,
}

impl View for Invitation {
    type V = InvitationView;

    closed spec fn view(&self) -> InvitationView {
        InvitationView {
            event_id: opt_view(self.event_id),
            timestamp: self.timestamp,
            room_id: self.room_id@,
            room_name: self.room_name@,
            sender: opt_view(self.sender),
        }
    }
}

impl Clone for Invitation {
    fn clone(&self) -> (copy: Self)
        ensures
            copy@ == self@,
    {
        Invitation {
            event_id: clone_opt_text(&self.event_id),
            timestamp: self.timestamp,
            room_id: self.room_id.clone(),
            room_name: self.room_name.clone(),
            sender: clone_opt_text(&self.sender),
        }
    }
}

impl Default for Invitation {
    fn default() -> (invitation: Self)
        ensures
            invitation@ == (InvitationView {
                event_id: None,
                timestamp: None,
                room_id: Seq::empty(),
                room_name: Seq::empty(),
                sender: None,
            }),
    {
        Invitation {
            event_id: None,
            timestamp: None,
            room_id: String::new(),
            room_name: String::new(),
            sender: None,
        }
    }
}

impl Invitation {
    /// The event that carried the invitation, if it is known.
    pub fn get_event_id(&self) -> (event_id: Option<String>)
        ensures
            opt_view(event_id) == self@.event_id,
    {
        clone_opt_text(&self.event_id)
    }

    /// When the invitation was sent, in milliseconds, if it is known.
    pub fn get_timestamp(&self) -> (timestamp: Option<u64>)
        ensures
            timestamp == self@.timestamp,
    {
        self.timestamp
    }

    /// The room.
    pub fn get_room_id(&self) -> (room_id: String)
        ensures
            room_id@ == self@.room_id,
    {
        self.room_id.clone()
    }

    /// The name of the room.
    pub fn get_room_name(&self) -> (room_name: String)
        ensures
            room_name@ == self@.room_name,
    {
        self.room_name.clone()
    }

    /// Who sent the invitation, if it is known.
    pub fn get_sender(&self) -> (sender: Option<String>)
        ensures
            opt_view(sender) == self@.sender,
    {
        clone_opt_text(&self.sender)
    }
}

/// What each of several invitations holds.
pub open spec fn invitation_views(invitations: Seq<Invitation>) -> Seq<InvitationView> {
    invitations.map_values(|invitation: Invitation| invitation@)
}

/// The state of a client.
#[derive(Debug)]
pub struct ClientState {
    /// Whether the account is that of a guest.
    pub is_guest: bool,
    /// Whether a sync has brought a response since the client was made.
    pub has_first_synced: bool,
    /// Whether the sync is running.
    pub is_syncing: bool,
    /// Whether the sync is to end with the next response.
    pub should_stop_syncing: bool,
    /// The invitations that wait for an answer, in the order in which they came.
    pub pending_invitations: Vec<Invitation>,
}

/// What a [`ClientState`] holds.
#[verifier::ext_equal]
pub struct ClientStateView {
    pub is_guest: bool,
    pub has_first_synced: bool,
    pub is_syncing: bool,
    pub should_stop_syncing: bool,
    pub pending_invitations: Seq<InvitationView>,
}

impl View for ClientState {
    type V = ClientStateView;

    open spec fn view(&self) -> ClientStateView {
        ClientStateView {
            is_guest: self.is_guest,
            has_first_synced: self.has_first_synced,
            is_syncing: self.is_syncing,
            should_stop_syncing: self.should_stop_syncing,
            pending_invitations: invitation_views(self.pending_invitations@),
        }
    }
}

/// The state of a client that has done nothing yet.
pub open spec fn fresh_state() -> ClientStateView {
    ClientStateView {
        is_guest: false,
        has_first_synced: false,
        is_syncing: false,
        should_stop_syncing: false,
        pending_invitations: Seq::empty(),
    }
}

impl Default for ClientState {
    fn default() -> (state: Self)
        ensures
            state@ == fresh_state(),
    {
        let pending_invitations: Vec<Invitation> = Vec::new();
        assert(invitation_views(pending_invitations@) =~= Seq::<InvitationView>::empty());
        ClientState {
            is_guest: false,
            has_first_synced: false,
            is_syncing: false,
            should_stop_syncing: false,
            pending_invitations,
        }
    }
}

/// Whether the sync goes on.
#[derive(Debug, Clone, Copy, PartialEq, Eq, Structural)]
pub enum LoopCtrl {
    Continue,
    Break,
}

/// A state with more invitations behind those that it has.
pub open spec fn with_invitations(
    state: ClientStateView,
    more: Seq<InvitationView>,
) -> ClientStateView {
    ClientStateView { pending_invitations: state.pending_invitations + more, ..state }
}

/// A state once the work on a response has ended, and whether the sync goes on.
pub open spec fn finished(state: ClientStateView) -> (ClientStateView, LoopCtrl) {
    if state.should_stop_syncing {
        (ClientStateView { is_syncing: false, ..state }, LoopCtrl::Break)
    } else {
        (ClientStateView { is_syncing: true, ..state }, LoopCtrl::Continue)
    }
}

/// The invitation to a room of which only the room is known.
pub open spec fn cached_invitation(room_id: Seq<char>, room_name: Seq<char>) -> InvitationView {
    InvitationView { event_id: None, timestamp: None, room_id, room_name, sender: None }
}

/// Whether what was read of an event is that the membership of the user changed.
pub open spec fn is_of_user(member: Option<MemberFieldsView>, user_id: Seq<char>) -> bool {
    member matches Some(member) && member.state_key == user_id
}

/// The invitation to a room that an event carries of which this was read, if it is a
/// membership event of the user.
pub open spec fn invitation_from(
    member: Option<MemberFieldsView>,
    event_id: Option<Seq<char>>,
    timestamp: Option<u64>,
    user_id: Seq<char>,
    room_id: Seq<char>,
    room_name: Seq<char>,
) -> Option<InvitationView> {
    if is_of_user(member, user_id) {
        Some(
            InvitationView {
                event_id,
                timestamp,
                room_id,
                room_name,
                sender: Some(member->0.sender),
            },
        )
    } else {
        None
    }
}

/// Whether an event can be handled: one that concerns the user must tell its
/// identifier.
pub open spec fn tells_event_id(json: Seq<char>, user_id: Seq<char>) -> bool {
    is_of_user(member_fields(json), user_id) ==> json_text(json, "event_id"@) is Some
}

/// The invitation to a room that the event in a JSON text carries, if it concerns the
/// user.
pub open spec fn carried_invitation(
    json: Seq<char>,
    user_id: Seq<char>,
    room_id: Seq<char>,
    room_name: Seq<char>,
) -> Option<InvitationView> {
    invitation_from(
        member_fields(json),
        json_text(json, "event_id"@),
        json_number(json, "origin_server_ts"@),
        user_id,
        room_id,
        room_name,
    )
}

/// The invitation to a room that an event carries of which this was read: there is one
/// where it is a membership event of the user, which must tell its identifier.
pub fn invitation_of(
    member: Option<MemberFields>,
    event_id: Option<String>,
    timestamp: Option<u64>,
    user_id: &str,
    room_id: &str,
    room_name: &str,
) -> (invitation: Option<Invitation>)
    requires
        is_of_user(opt_view(member), user_id@) ==> event_id is Some,
    ensures
        opt_view(invitation) == invitation_from(
            opt_view(member),
            opt_view(event_id),
            timestamp,
            user_id@,
            room_id@,
            room_name@,
        ),
{
    match member {
        Some(member) => if same_text(member.state_key.as_str(), user_id) {
            Some(
                Invitation {
                    event_id,
                    timestamp,
                    room_id: room_id.to_owned(),
                    room_name: room_name.to_owned(),
                    sender: Some(member.sender),
                },
            )
        } else {
            None
        },
        None => None,
    }
}

/// One more invitation behind the others.
proof fn lemma_invitation_views_push(invitations: Seq<Invitation>, invitation: Invitation)
    ensures
        invitation_views(invitations.push(invitation)) == invitation_views(invitations).push(
            invitation@,
        ),
{
    assert(invitation_views(invitations.push(invitation)) =~= invitation_views(invitations).push(
        invitation@,
    ));
}

/// Whether an event can be handled: one that concerns the user must tell its
/// identifier.
pub fn can_handle_stripped_state_event(event: &str, user_id: &str) -> (can: bool)
    ensures
        can == tells_event_id(event@, user_id@),
{
    match read_member(event) {
        Some(member) => !same_text(member.state_key.as_str(), user_id) || read_text(
            event,
            "event_id",
        ).is_some(),
        None => true,
    }
}

/// Takes up the invitation to a room that a stripped state event carries, if it
/// concerns the user.
pub fn handle_stripped_state_event(
    event: &str,
    user_id: &str,
    room_id: &str,
    room_name: &str,
    state: &mut ClientState,
)
    requires
        tells_event_id(event@, user_id@),
    ensures
        final(state)@ == match carried_invitation(event@, user_id@, room_id@, room_name@) {
            Some(invitation) => with_invitations(old(state)@, seq![invitation]),
            None => old(state)@,
        },
        match carried_invitation(event@, user_id@, room_id@, room_name@) {
            Some(invitation) => {
                &&& final(state).pending_invitations@.len() == old(
                    state,
                ).pending_invitations@.len() + 1
                &&& final(state).pending_invitations@.drop_last() == old(
                    state,
                ).pending_invitations@
                &&& final(state).pending_invitations@.last()@ == invitation
            },
            None => final(state).pending_invitations@ == old(state).pending_invitations@,
        },
        final(state).is_guest == old(state).is_guest,
        final(state).has_first_synced == old(state).has_first_synced,
        final(state).is_syncing == old(state).is_syncing,
        final(state).should_stop_syncing == old(state).should_stop_syncing,
{
    let invitation = invitation_of(
        read_member(event),
        read_text(event, "event_id"),
        read_number(event, "origin_server_ts"),
        user_id,
        room_id,
        room_name,
    );
    if let Some(invitation) = invitation {
        proof {
            lemma_invitation_views_push(state.pending_invitations@, invitation);
        }
        state.pending_invitations.push(invitation);
    }
}

/// Handles a stripped state event if it can be handled, and tells whether it could.
pub fn try_handle_stripped_state_event(
    event: &str,
    user_id: &str,
    room_id: &str,
    room_name: &str,
    state: &mut ClientState,
) -> (handled: bool)
    ensures
        handled == tells_event_id(event@, user_id@),
        final(state)@ == match carried_invitation(event@, user_id@, room_id@, room_name@) {
            Some(invitation) if handled => with_invitations(old(state)@, seq![invitation]),
            _ => old(state)@,
        },
        match carried_invitation(event@, user_id@, room_id@, room_name@) {
            Some(invitation) if handled => {
                &&& final(state).pending_invitations@.len() == old(
                    state,
                ).pending_invitations@.len() + 1
                &&& final(state).pending_invitations@.drop_last() == old(
                    state,
                ).pending_invitations@
                &&& final(state).pending_invitations@.last()@ == invitation
            },
            _ => final(state).pending_invitations@ == old(state).pending_invitations@,
        },
        final(state).is_guest == old(state).is_guest,
        final(state).has_first_synced == old(state).has_first_synced,
        final(state).is_syncing == old(state).is_syncing,
        final(state).should_stop_syncing == old(state).should_stop_syncing,
{
    let can = can_handle_stripped_state_event(event, user_id);
    if can {
        handle_stripped_state_event(event, user_id, room_id, room_name, state);
    }
    can
}

impl ClientState {
    /// Takes up an invitation to a room that was known before the sync began.
    pub fn record_cached_invitation(&mut self, room_id: String, room_name: String)
        ensures
            final(self)@ == with_invitations(
                old(self)@,
                seq![cached_invitation(room_id@, room_name@)],
            ),
            final(self).pending_invitations@.len() == old(self).pending_invitations@.len() + 1,
            final(self).pending_invitations@.drop_last() == old(self).pending_invitations@,
            final(self).pending_invitations@.last()@ == (InvitationView {
                event_id: None,
                timestamp: None,
                room_id: room_id@,
                room_name: room_name@,
                sender: None,
            }),
            final(self).is_guest == old(self).is_guest,
            final(self).has_first_synced == old(self).has_first_synced,
            final(self).is_syncing == old(self).is_syncing,
            final(self).should_stop_syncing == old(self).should_stop_syncing,
    {
        let invitation = Invitation {
            event_id: None,
            timestamp: None,
            room_id,
            room_name,
            sender: None,
        };
        proof {
            lemma_invitation_views_push(self.pending_invitations@, invitation);
        }
        self.pending_invitations.push(invitation);
    }

    /// Notes that a response has come, and tells whether it is the first.
    pub fn note_response(&mut self) -> (first: bool)
        ensures
            first == !old(self)@.has_first_synced,
            final(self)@ == (ClientStateView { has_first_synced: true, ..old(self)@ }),
            final(self).pending_invitations@ == old(self).pending_invitations@,
    {
        if self.has_first_synced {
            false
        } else {
            self.has_first_synced = true;
            true
        }
    }

    /// Ends the work on a response: the sync goes on unless it was asked to stop.
    pub fn finish_response(&mut self) -> (ctrl: LoopCtrl)
        ensures
            (final(self)@, ctrl) == finished(old(self)@),
            final(self).is_syncing == !old(self).should_stop_syncing,
            ctrl == LoopCtrl::Break <==> old(self).should_stop_syncing,
            final(self).is_guest == old(self).is_guest,
            final(self).has_first_synced == old(self).has_first_synced,
            final(self).should_stop_syncing == old(self).should_stop_syncing,
            final(self).pending_invitations@ == old(self).pending_invitations@,
    {
        if self.should_stop_syncing {
            self.is_syncing = false;
            return LoopCtrl::Break;
        } else if !self.is_syncing {
            self.is_syncing = true;
        }
        LoopCtrl::Continue
    }
}

/// Makes a [`ClientState`] of the parts that are given; the others are as in a fresh one.
#[derive(Debug)]
pub struct ClientStateBuilder {
    is_guest: Option<bool>,
    has_first_synced: Option<bool>,
    is_syncing: Option<bool>,
    should_stop_syncing: Option<bool>,
    pending_invitations: Option<Vec<Invitation>>,
}

/// The state that a builder would make.
impl View for ClientStateBuilder {
    type V = ClientStateView;

    closed spec fn view(&self) -> ClientStateView {
        ClientStateView {
            is_guest: self.is_guest.unwrap_or(false),
            has_first_synced: self.has_first_synced.unwrap_or(false),
            is_syncing: self.is_syncing.unwrap_or(false),
            should_stop_syncing: self.should_stop_syncing.unwrap_or(false),
            pending_invitations: match self.pending_invitations {
                Some(invitations) => invitation_views(invitations@),
                None => Seq::empty(),
            },
        }
    }
}

impl Default for ClientStateBuilder {
    fn default() -> (builder: Self)
        ensures
            builder@ == fresh_state(),
    {
        ClientStateBuilder {
            is_guest: None,
            has_first_synced: None,
            is_syncing: None,
            should_stop_syncing: None,
            pending_invitations: None,
        }
    }
}

impl ClientStateBuilder {
    /// Sets whether the account is that of a guest.
    pub fn is_guest(&mut self, value: bool) -> (builder: &mut Self)
        ensures
            builder@ == (ClientStateView { is_guest: value, ..old(self)@ }),
            *final(self) == *final(builder),
    {
        self.is_guest = Some(value);
        self
    }

    /// Sets whether a sync has brought a response.
    pub fn has_first_synced(&mut self, value: bool) -> (builder: &mut Self)
        ensures
            builder@ == (ClientStateView { has_first_synced: value, ..old(self)@ }),
            *final(self) == *final(builder),
    {
        self.has_first_synced = Some(value);
        self
    }

    /// Sets whether the sync is running.
    pub fn is_syncing(&mut self, value: bool) -> (builder: &mut Self)
        ensures
            builder@ == (ClientStateView { is_syncing: value, ..old(self)@ }),
            *final(self) == *final(builder),
    {
        self.is_syncing = Some(value);
        self
    }

    /// Sets whether the sync is to end with the next response.
    pub fn should_stop_syncing(&mut self, value: bool) -> (builder: &mut Self)
        ensures
            builder@ == (ClientStateView { should_stop_syncing: value, ..old(self)@ }),
            *final(self) == *final(builder),
    {
        self.should_stop_syncing = Some(value);
        self
    }

    /// Sets the invitations that wait for an answer.
    pub fn pending_invitations(&mut self, value: Vec<Invitation>) -> (builder: &mut Self)
        ensures
            builder@ == (ClientStateView {
                pending_invitations: invitation_views(value@),
                ..old(self)@
            }),
            *final(self) == *final(builder),
    {
        self.pending_invitations = Some(value);
        self
    }

    /// The state. No part must be given, so there always is one.
    pub fn build(&self) -> (state: Result<ClientState, ClientStateBuilderError>)
        ensures
            state matches Ok(state) && state@ == self@,
    {
        let pending_invitations = match &self.pending_invitations {
            Some(invitations) => invitations.clone(),
            None => Vec::new(),
        };
        assert(invitation_views(pending_invitations@) =~= self@.pending_invitations);
        Ok(
            ClientState {
                is_guest: self.is_guest.unwrap_or(false),
                has_first_synced: self.has_first_synced.unwrap_or(false),
                is_syncing: self.is_syncing.unwrap_or(false),
                should_stop_syncing: self.should_stop_syncing.unwrap_or(false),
                pending_invitations,
            },
        )
    }
}

/// Why a builder cannot make a state.
#[derive(Debug, Clone, Copy, PartialEq, Eq, Structural)]
pub enum ClientStateBuilderError {
    /// A part that must be given is missing.
    UninitializedField,
}

} // verus!
