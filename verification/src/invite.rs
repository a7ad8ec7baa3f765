//! Invite correlation: the one slot in which a request for an invite waits for
//! the event that resolves it.

use crate::text::opt_view;
use vstd::prelude::*;

verus! {

/// A request for an invite that waits for its resolution.
#[derive(Debug, Clone, PartialEq, Eq)]
pub struct PendingInvite {
    /// The id of the request that asked for the invite.
    pub request_id: String,
    /// The display name of whoever asked, if the request named a user.
    pub claimer: Option<String>,
    /// The game that the invite is for.
    pub game: u32,
}

/// [`PendingInvite`] as contracts see it, with its texts as sequences of characters.
pub struct PendingInviteView {
    pub request_id: Seq<char>,
    pub claimer: Option<Seq<char>>,
    pub game: u32,
}

impl View for PendingInvite {
    type V = PendingInviteView;

    open spec fn view(&self) -> PendingInviteView {
        PendingInviteView {
            request_id: self.request_id@,
            claimer: opt_view(self.claimer),
            game: self.game,
        }
    }
}

/// A request together with what resolved it.
#[derive(Debug, Clone, PartialEq, Eq)]
pub struct ResolvedInvite {
    pub invite: PendingInvite,
    pub guest_id: u64,
    pub connect_url: String,
}

/// [`ResolvedInvite`] as contracts see it, with its texts as sequences of characters.
pub struct ResolvedInviteView {
    pub invite: PendingInviteView,
    pub guest_id: u64,
    pub connect_url: Seq<char>,
}

impl View for ResolvedInvite {
    type V = ResolvedInviteView;

    open spec fn view(&self) -> ResolvedInviteView {
        ResolvedInviteView {
            invite: self.invite@,
            guest_id: self.guest_id,
            connect_url: self.connect_url@,
        }
    }
}

/// The view of a request that may be absent.
pub open spec fn opt_invite_view(invite: Option<PendingInvite>) -> Option<PendingInviteView> {
    match invite {
        Some(i) => Some(i@),
        None => None,
    }
}

/// The view of a resolution that may be absent.
pub open spec fn opt_resolved_view(resolved: Option<ResolvedInvite>) -> Option<ResolvedInviteView> {
    match resolved {
        Some(r) => Some(r@),
        None => None,
    }
}

/// The slot after a request: the request waits in it, unless another one
/// does.
pub open spec fn slot_after_request(
    slot: Option<PendingInviteView>,
    invite: PendingInviteView,
) -> Option<PendingInviteView> {
    match slot {
        Some(waiting) => Some(waiting),
        None => Some(invite),
    }
}

/// What an event resolves: the request that waits in the slot, if one does.
pub open spec fn resolution(
    slot: Option<PendingInviteView>,
    guest_id: u64,
    connect_url: Seq<char>,
) -> Option<ResolvedInviteView> {
    match slot {
        Some(invite) => Some(ResolvedInviteView { invite, guest_id, connect_url }),
        None => None,
    }
}

/// The slot. It holds at most one request. While it holds one, a further
/// request is refused; an event resolves the request that the slot holds and
/// empties the slot; an event that finds the slot empty is dropped, so that no
/// later request is resolved by an event that came before it.
pub struct InviteCorrelator {
    slot: Option<PendingInvite>,
}

impl View for InviteCorrelator {
    type V = Option<PendingInviteView>;

    closed spec fn view(&self) -> Option<PendingInviteView> {
        opt_invite_view(self.slot)
    }
}

impl InviteCorrelator {
    /// An empty slot.
    pub fn new() -> (slot: Self)
        ensures
            slot@ is None,
    {
        InviteCorrelator { slot: None }
    }

    /// Whether a request waits in the slot.
    pub fn is_pending(&self) -> (pending: bool)
        ensures
            pending == self@ is Some,
    {
        self.slot.is_some()
    }

    /// Puts a request into the slot. It is refused, and handed back, while
    /// another request waits there.
    pub fn request(&mut self, invite: PendingInvite) -> (refused: Option<PendingInvite>)
        ensures
            final(self)@ == slot_after_request(old(self)@, invite@),
            old(self)@ is None ==> refused is None,
            old(self)@ is Some ==> refused == Some(invite),
    {
        if self.slot.is_some() {
            Some(invite)
        } else {
            self.slot = Some(invite);
            None
        }
    }

    /// Delivers an event: it resolves the request that waits in the slot, and
    /// the slot is empty afterwards. Without a request the event is dropped.
    pub fn deliver(&mut self, guest_id: u64, connect_url: String) -> (resolved: Option<
        ResolvedInvite,
    >)
        ensures
            final(self)@ is None,
            opt_resolved_view(resolved) == resolution(old(self)@, guest_id, connect_url@),
    {
        match self.slot.take() {
            Some(invite) => Some(ResolvedInvite { invite, guest_id, connect_url }),
            None => None,
        }
    }

    /// Gives the waiting request up, if there is one, and hands it back.
    pub fn cancel(&mut self) -> (cancelled: Option<PendingInvite>)
        ensures
            final(self)@ is None,
            opt_invite_view(cancelled) == old(self)@,
    {
        self.slot.take()
    }
}

/// A request that finds the slot empty is resolved by the first event that
/// follows it, to exactly what the event carries. A second request made
/// before that event changes nothing, so it gets no resolution, and the event
/// still resolves the first. A second event finds the slot empty and resolves
/// nothing.
pub proof fn lemma_resolved_once(
    first: PendingInviteView,
    second: PendingInviteView,
    guest_id: u64,
    connect_url: Seq<char>,
    later_guest: u64,
    later_url: Seq<char>,
)
    ensures
        resolution(slot_after_request(None, first), guest_id, connect_url) == Some(
            ResolvedInviteView { invite: first, guest_id, connect_url },
        ),
        slot_after_request(slot_after_request(None, first), second) == slot_after_request(
            None,
            first,
        ),
        resolution(None, later_guest, later_url) is None,
{
}

/// An event that finds no request is dropped: it resolves nothing, and a
/// request made after it waits for an event of its own.
pub proof fn lemma_no_stale_resolution(
    invite: PendingInviteView,
    stale_guest: u64,
    stale_url: Seq<char>,
)
    ensures
        resolution(None, stale_guest, stale_url) is None,
        slot_after_request(None, invite) == Some(invite),
{
}

} // verus!
