//! The protocol dispatcher: what each request of the server and each event of
//! the native side leads to.
//!
//! The dispatcher decides and keeps the state; whoever drives it talks to the
//! native side and to the wire, and hands back what came of it.
//!
//! Requests are handled one at a time. While one waits for the native side,
//! those that follow are put off, and they are taken up in the order in which
//! they came once it is done. So no invite is issued while another waits for
//! its resolution, and no request gets the answer that belongs to another.

use crate::game_id::{lemma_pack_unpacked, packed, unpacked, GameID, GameUID};
use crate::invite::{InviteCorrelator, PendingInvite, PendingInviteView};
use crate::models::{
    ClientCmd, ClientCmdView, ClientMessage, ClientMessageView, ErrorStatus, ServerCmd,
    ServerCmdView, ServerMessage, ServerMessageView, User, UserView,
};
use crate::roster::{shown_name, status_of, GuestData, RosterView};
use crate::text::{decimal, indent_lines, indented, opt_view, push_decimal};
use vstd::prelude::*;

verus! {

/// The period, in milliseconds, at which the native side is polled for its
/// events, for as long as the process lives.
pub const NATIVE_POLL_MILLIS: u64 = 200;

/// The local user on whose behalf invites are issued.
pub const LOCAL_INVITEE: u64 = 0;

/// A question about the running game that waits for the native side.
#[derive(Debug, Clone, PartialEq, Eq)]
pub enum QueryStep {
    /// No question waits.
    Idle,
    /// The running game has been asked for.
    AwaitingGame { request_id: String, claimer: String },
    /// The game runs; whether it supports remote play has been asked.
    AwaitingSupport { request_id: String, claimer: String, app_id: u32 },
}

/// [`QueryStep`] as contracts see it, with its texts as sequences of characters.
pub enum QueryStepView {
    Idle,
    AwaitingGame { request_id: Seq<char>, claimer: Seq<char> },
    AwaitingSupport { request_id: Seq<char>, claimer: Seq<char>, app_id: u32 },
}

impl View for QueryStep {
    type V = QueryStepView;

    open spec fn view(&self) -> QueryStepView {
        match self {
            QueryStep::Idle => QueryStepView::Idle,
            QueryStep::AwaitingGame { request_id, claimer } => QueryStepView::AwaitingGame {
                request_id: request_id@,
                claimer: claimer@,
            },
            QueryStep::AwaitingSupport {
                request_id,
                claimer,
                app_id,
            } => QueryStepView::AwaitingSupport {
                request_id: request_id@,
                claimer: claimer@,
                app_id: *app_id,
            },
        }
    }
}

/// What the driver is to do next.
#[derive(Debug, Clone, PartialEq, Eq)]
pub enum Reaction {
    /// Nothing: the event met nothing that waited for it.
    Nothing,
    /// Nothing yet: an earlier request still waits for the native side, and
    /// this one has been put off until that one is done.
    Deferred,
    /// Show the text; copy `copy` to the clipboard if there is one, and only
    /// log a failure to do so. No frame is sent.
    Show { text: String, copy: Option<String> },
    /// Ask the native side for the running game and hand the answer to
    /// `on_running_game`.
    QueryRunningGame,
    /// Ask the native side whether the game supports remote play and hand
    /// the answer to `on_remote_play_support`.
    CheckRemotePlay { game_uid: GameUID },
    /// Issue an invite on the native side. Its resolution arrives as an
    /// event, at `on_remote_invited`.
    SendInvite { invitee: u64, game_uid: GameUID },
    /// Send the response; log the line, if there is one.
    Reply { message: ClientMessage, log: Option<String> },
    /// End the whole session.
    Exit,
}

/// [`Reaction`] as contracts see it, with its texts as sequences of characters.
pub enum ReactionView {
    Nothing,
    Deferred,
    Show { text: Seq<char>, copy: Option<Seq<char>> },
    QueryRunningGame,
    CheckRemotePlay { game_uid: GameUID },
    SendInvite { invitee: u64, game_uid: GameUID },
    Reply { message: ClientMessageView, log: Option<Seq<char>> },
    Exit,
}

impl View for Reaction {
    type V = ReactionView;

    open spec fn view(&self) -> ReactionView {
        match self {
            Reaction::Nothing => ReactionView::Nothing,
            Reaction::Deferred => ReactionView::Deferred,
            Reaction::Show { text, copy } => ReactionView::Show {
                text: text@,
                copy: opt_view(*copy),
            },
            Reaction::QueryRunningGame => ReactionView::QueryRunningGame,
            Reaction::CheckRemotePlay { game_uid } => ReactionView::CheckRemotePlay {
                game_uid: *game_uid,
            },
            Reaction::SendInvite { invitee, game_uid } => ReactionView::SendInvite {
                invitee: *invitee,
                game_uid: *game_uid,
            },
            Reaction::Reply { message, log } => ReactionView::Reply {
                message: message@,
                log: opt_view(*log),
            },
            Reaction::Exit => ReactionView::Exit,
        }
    }
}

/// What to show after a guest has joined or left: a line for the log, and the
/// status line that replaces the one before.
#[derive(Debug, Clone, PartialEq, Eq)]
pub struct Notice {
    pub log: String,
    pub status: String,
}

/// [`Notice`] as contracts see it, with its texts as sequences of characters.
pub struct NoticeView {
    pub log: Seq<char>,
    pub status: Seq<char>,
}

impl View for Notice {
    type V = NoticeView;

    open spec fn view(&self) -> NoticeView {
        NoticeView { log: self.log@, status: self.status@ }
    }
}

/// The dispatcher's state as contracts see it.
pub struct HandlerView {
    pub roster: RosterView,
    /// The request for a link that waits for its invite.
    pub invite: Option<PendingInviteView>,
    /// The question for the game id that waits for the native side.
    pub query: QueryStepView,
    /// The requests that have been put off, oldest first.
    pub deferred: Seq<ServerMessageView>,
}

/// The line logged when a game id is handed out.
pub open spec fn panel_log(claimer: Seq<char>, app_id: u32) -> Seq<char> {
    "-> Create Panel       : claimer="@ + claimer + ", game_id="@ + decimal(app_id as nat)
}

/// The line logged when an invite link is handed out.
pub open spec fn link_log(claimer: Seq<char>, guest_id: u64, game: u32, url: Seq<char>) -> Seq<
    char,
> {
    "-> Create Invite Link : claimer="@ + claimer + ", guest_id="@ + decimal(guest_id as nat)
        + ", game_id="@ + decimal(game as nat) + ", invite_url="@ + url
}

/// The line logged when a guest has joined (`joined`) or left.
pub open spec fn guest_log(joined: bool, name: Seq<char>, guest_id: u64, invitee: u64) -> Seq<
    char,
> {
    (if joined {
        "-> Player Joined        : claimer="@
    } else {
        "-> Player Left          : claimer="@
    }) + name + ", guest_id="@ + decimal(guest_id as nat) + ", steam_id="@ + decimal(
        invitee as nat,
    )
}

/// The name under which a claimer is logged: `?` where there is none.
pub open spec fn logged_name(claimer: Option<Seq<char>>) -> Seq<char> {
    match claimer {
        Some(name) => name,
        None => "?"@,
    }
}

/// The name of the user of a request, if it names one.
pub open spec fn claimer_of(user: Option<UserView>) -> Option<Seq<char>> {
    match user {
        Some(u) => Some(u.name),
        None => None,
    }
}

/// The response that carries an error status.
pub open spec fn error_reply(request_id: Seq<char>, code: ErrorStatus) -> ReactionView {
    ReactionView::Reply {
        message: ClientMessageView { id: request_id, cmd: ClientCmdView::Error { code } },
        log: None,
    }
}

/// The packed identifier of the app with an id, of which the low 24 bits
/// count.
pub open spec fn app_uid(game: u32) -> GameUID {
    packed(GameID { app_id: game & 0xFFFFFF, game_type: 0, mod_id: 0 })
}

impl HandlerView {
    /// Whether the native side still works on a request of the server.
    pub open spec fn busy(self) -> bool {
        self.invite is Some || !(self.query is Idle)
    }

    /// A request of the server is taken up.
    ///
    /// A message is shown, indented; nothing is sent. A question for the game
    /// id and a request for a link go to the native side, and their response
    /// follows what it answers. An exit ends the session. Any other request
    /// is answered with the status of an invalid command.
    pub open spec fn start(self, msg: ServerMessageView) -> (HandlerView, ReactionView) {
        match msg.cmd {
            ServerCmdView::Message { text, copy } => (
                self,
                ReactionView::Show { text: indented(text), copy },
            ),
            ServerCmdView::GameId => (
                HandlerView {
                    query: QueryStepView::AwaitingGame {
                        request_id: msg.id,
                        claimer: logged_name(claimer_of(msg.user)),
                    },
                    ..self
                },
                ReactionView::QueryRunningGame,
            ),
            ServerCmdView::Link { game } => (
                HandlerView {
                    invite: Some(
                        PendingInviteView {
                            request_id: msg.id,
                            claimer: claimer_of(msg.user),
                            game,
                        },
                    ),
                    ..self
                },
                ReactionView::SendInvite { invitee: LOCAL_INVITEE, game_uid: app_uid(game) },
            ),
            ServerCmdView::Exit => (self, ReactionView::Exit),
            ServerCmdView::Invalid => (self, error_reply(msg.id, ErrorStatus::InvalidCmd)),
        }
    }

    /// A request of the server arrives. It is taken up at once, unless an
    /// earlier request still waits for the native side: then it is put off,
    /// behind those that have been put off before it.
    pub open spec fn server_message(self, msg: ServerMessageView) -> (HandlerView, ReactionView) {
        if self.busy() {
            (HandlerView { deferred: self.deferred.push(msg), ..self }, ReactionView::Deferred)
        } else {
            self.start(msg)
        }
    }

    /// The oldest request that has been put off is taken up, if there is one
    /// and nothing waits for the native side.
    pub open spec fn resume(self) -> (HandlerView, ReactionView) {
        if !self.busy() && self.deferred.len() > 0 {
            HandlerView { deferred: self.deferred.skip(1), ..self }.start(self.deferred[0])
        } else {
            (self, ReactionView::Nothing)
        }
    }

    /// The requests of the server are forgotten: those that wait for the
    /// native side and those that have been put off. The roster stays.
    pub open spec fn forget(self) -> HandlerView {
        HandlerView {
            roster: self.roster,
            invite: None,
            query: QueryStepView::Idle,
            deferred: Seq::empty(),
        }
    }

    /// The native side names the running game.
    ///
    /// Where a question waits for it: an identifier that names no app is
    /// answered with the status of an invalid app; for one that names an app
    /// the native side is asked whether it supports remote play.
    pub open spec fn running_game(self, game_uid: GameUID) -> (HandlerView, ReactionView) {
        match self.query {
            QueryStepView::AwaitingGame { request_id, claimer } => if unpacked(
                game_uid,
            ).is_valid_app() {
                (
                    HandlerView {
                        query: QueryStepView::AwaitingSupport {
                            request_id,
                            claimer,
                            app_id: unpacked(game_uid).app_id,
                        },
                        ..self
                    },
                    ReactionView::CheckRemotePlay { game_uid },
                )
            } else {
                (
                    HandlerView { query: QueryStepView::Idle, ..self },
                    error_reply(request_id, ErrorStatus::InvalidApp),
                )
            },
            _ => (self, ReactionView::Nothing),
        }
    }

    /// The native side says whether the running game supports remote play.
    ///
    /// Where a question waits for it: the game id is handed out if it does,
    /// the status of an unsupported app if it does not.
    pub open spec fn remote_play_support(self, supported: bool) -> (HandlerView, ReactionView) {
        match self.query {
            QueryStepView::AwaitingSupport { request_id, claimer, app_id } => (
                HandlerView { query: QueryStepView::Idle, ..self },
                if supported {
                    ReactionView::Reply {
                        message: ClientMessageView {
                            id: request_id,
                            cmd: ClientCmdView::GameId { game: app_id },
                        },
                        log: Some(panel_log(claimer, app_id)),
                    }
                } else {
                    error_reply(request_id, ErrorStatus::UnsupportedApp)
                },
            ),
            _ => (self, ReactionView::Nothing),
        }
    }

    /// The native side reports an invite.
    ///
    /// It resolves the request that waits: the claimer of the request, if it
    /// has one, is recorded for the guest, and the link is handed out. Without
    /// a waiting request the event is dropped.
    pub open spec fn remote_invited(self, guest_id: u64, connect_url: Seq<char>) -> (
        HandlerView,
        ReactionView,
    ) {
        match self.invite {
            Some(invite) => (
                HandlerView {
                    roster: match invite.claimer {
                        Some(name) => self.roster.claim(guest_id, name),
                        None => self.roster,
                    },
                    invite: None,
                    ..self
                },
                ReactionView::Reply {
                    message: ClientMessageView {
                        id: invite.request_id,
                        cmd: ClientCmdView::Link { url: connect_url },
                    },
                    log: Some(
                        link_log(logged_name(invite.claimer), guest_id, invite.game, connect_url),
                    ),
                },
            ),
            None => (self, ReactionView::Nothing),
        }
    }

    /// A guest has joined: it becomes active.
    pub open spec fn remote_started(self, invitee: u64, guest_id: u64) -> (HandlerView, NoticeView) {
        let roster = self.roster.mark_active(guest_id);
        (
            HandlerView { roster, ..self },
            NoticeView {
                log: guest_log(true, shown_name(self.roster.claims, guest_id), guest_id, invitee),
                status: status_of(roster),
            },
        )
    }

    /// A guest has left: it is no longer active, and its entry is dropped.
    pub open spec fn remote_stopped(self, invitee: u64, guest_id: u64) -> (HandlerView, NoticeView) {
        let roster = self.roster.mark_inactive(guest_id);
        (
            HandlerView { roster, ..self },
            NoticeView {
                log: guest_log(false, shown_name(self.roster.claims, guest_id), guest_id, invitee),
                status: status_of(roster),
            },
        )
    }
}

/// The dispatcher: the roster, the invite that waits for its resolution, and
/// the question about the running game that waits for the native side.
pub struct Handler {
    roster: GuestData,
    invites: InviteCorrelator,
    query: QueryStep,
    deferred: Vec<ServerMessage>,
}

/// The views of a sequence of requests.
pub open spec fn request_views(requests: Seq<ServerMessage>) -> Seq<ServerMessageView> {
    Seq::new(requests.len(), |i: int| requests[i]@)
}

impl View for Handler {
    type V = HandlerView;

    closed spec fn view(&self) -> HandlerView {
        HandlerView {
            roster: self.roster@,
            invite: self.invites@,
            query: self.query@,
            deferred: request_views(self.deferred@),
        }
    }
}

fn error_response(request_id: String, code: ErrorStatus) -> (reaction: Reaction)
    ensures
        reaction@ == error_reply(request_id@, code),
{
    Reaction::Reply {
        message: ClientMessage { id: request_id, cmd: ClientCmd::Error { code } },
        log: None,
    }
}

fn name_or_unknown(claimer: &Option<String>) -> (name: String)
    ensures
        name@ == logged_name(opt_view(*claimer)),
{
    match claimer {
        Some(name) => name.clone(),
        None => String::from_str("?"),
    }
}

fn write_guest_log(joined: bool, name: &str, guest_id: u64, invitee: u64) -> (line: String)
    ensures
        line@ == guest_log(joined, name@, guest_id, invitee),
{
    let mut line = if joined {
        String::from_str("-> Player Joined        : claimer=")
    } else {
        String::from_str("-> Player Left          : claimer=")
    };
    line.append(name);
    line.append(", guest_id=");
    push_decimal(&mut line, guest_id);
    line.append(", steam_id=");
    push_decimal(&mut line, invitee);
    line
}

impl Handler {
    /// A dispatcher with an empty roster, for which nothing waits.
    pub fn new() -> (handler: Self)
        ensures
            handler@.roster.claims == Map::<u64, Seq<char>>::empty(),
            handler@.roster.active == Seq::<u64>::empty(),
            handler@.invite is None,
            handler@.query is Idle,
            handler@.deferred == Seq::<ServerMessageView>::empty(),
            handler@.roster.wf(),
    {
        let handler = Handler {
            roster: GuestData::new(),
            invites: InviteCorrelator::new(),
            query: QueryStep::Idle,
            deferred: Vec::new(),
        };
        proof {
            assert(request_views(handler.deferred@) == Seq::<ServerMessageView>::empty());
        }
        handler
    }

    /// The number of requests that have been put off.
    pub fn deferred_count(&self) -> (count: usize)
        ensures
            count == self@.deferred.len(),
    {
        self.deferred.len()
    }

    /// Whether the native side still works on a request of the server.
    pub fn is_busy(&self) -> (busy: bool)
        ensures
            busy == self@.busy(),
            self@.roster.wf(),
    {
        proof {
            use_type_invariant(&self.roster);
            self.roster.lemma_inv_wf();
        }
        self.invites.is_pending() || !matches!(self.query, QueryStep::Idle)
    }

    /// The roster.
    pub fn roster(&self) -> (roster: &GuestData)
        ensures
            roster@ == self@.roster,
            roster@.wf(),
    {
        proof {
            use_type_invariant(&self.roster);
            self.roster.lemma_inv_wf();
        }
        &self.roster
    }

    /// Takes up a request of the server while nothing waits for the native
    /// side.
    fn start(&mut self, msg: ServerMessage) -> (reaction: Reaction)
        requires
            !old(self)@.busy(),
        ensures
            (final(self)@, reaction@) == old(self)@.start(msg@),
            final(self)@.roster == old(self)@.roster,
    {
        let ServerMessage { id, user, cmd } = msg;
        match cmd {
            ServerCmd::Message { text, copy } => Reaction::Show {
                text: indent_lines(text.as_str()),
                copy,
            },
            ServerCmd::GameId => {
                self.query = QueryStep::AwaitingGame {
                    request_id: id,
                    claimer: User::claimer(&user),
                };
                Reaction::QueryRunningGame
            },
            ServerCmd::Link { game } => {
                let claimer = match user {
                    Some(u) => Some(u.name),
                    None => None,
                };
                let refused = self.invites.request(PendingInvite { request_id: id, claimer, game });
                assert(refused is None);
                Reaction::SendInvite {
                    invitee: LOCAL_INVITEE,
                    game_uid: GameID::new(game, 0, 0).uid(),
                }
            },
            ServerCmd::Exit => Reaction::Exit,
            ServerCmd::Invalid => error_response(id, ErrorStatus::InvalidCmd),
        }
    }

    /// Handles server messages: takes a request of the server and says what
    /// is to be done for it.
    pub fn handle_server_message(&mut self, msg: ServerMessage) -> (reaction: Reaction)
        ensures
            (final(self)@, reaction@) == old(self)@.server_message(msg@),
            final(self)@.roster == old(self)@.roster,
            final(self)@.roster.wf(),
    {
        proof {
            use_type_invariant(&self.roster);
            self.roster.lemma_inv_wf();
        }
        if self.is_busy() {
            self.deferred.push(msg);
            proof {
                assert(request_views(self.deferred@) == request_views(old(self).deferred@).push(
                    msg@,
                ));
            }
            Reaction::Deferred
        } else {
            self.start(msg)
        }
    }

    /// Takes up the oldest request that has been put off, if there is one
    /// and nothing waits for the native side.
    pub fn resume(&mut self) -> (reaction: Reaction)
        ensures
            (final(self)@, reaction@) == old(self)@.resume(),
            final(self)@.roster == old(self)@.roster,
            final(self)@.roster.wf(),
    {
        proof {
            use_type_invariant(&self.roster);
            self.roster.lemma_inv_wf();
        }
        if !self.is_busy() && self.deferred.len() > 0 {
            let msg = self.deferred.remove(0);
            proof {
                assert(request_views(self.deferred@) == request_views(old(self).deferred@).skip(
                    1,
                ));
            }
            self.start(msg)
        } else {
            Reaction::Nothing
        }
    }

    /// Forgets the requests of the server: those that wait for the native
    /// side and those that have been put off. An answer or an invite that
    /// arrives for one of them afterwards is dropped. The roster stays.
    pub fn forget_requests(&mut self)
        ensures
            final(self)@ == old(self)@.forget(),
            final(self)@.roster.wf(),
    {
        proof {
            use_type_invariant(&self.roster);
            self.roster.lemma_inv_wf();
        }
        self.invites.cancel();
        self.query = QueryStep::Idle;
        self.deferred = Vec::new();
        proof {
            assert(request_views(self.deferred@) == Seq::<ServerMessageView>::empty());
        }
    }

    /// Takes the running game that the native side names.
    pub fn on_running_game(&mut self, game_uid: GameUID) -> (reaction: Reaction)
        ensures
            (final(self)@, reaction@) == old(self)@.running_game(game_uid),
            final(self)@.roster.wf(),
    {
        proof {
            use_type_invariant(&self.roster);
            self.roster.lemma_inv_wf();
        }
        let mut step = QueryStep::Idle;
        core::mem::swap(&mut self.query, &mut step);
        match step {
            QueryStep::AwaitingGame { request_id, claimer } => {
                let game_id = GameID::from(game_uid);
                if !game_id.is_valid_app() {
                    error_response(request_id, ErrorStatus::InvalidApp)
                } else {
                    proof {
                        lemma_pack_unpacked(game_uid);
                    }
                    let app_id = game_id.app_id;
                    self.query = QueryStep::AwaitingSupport { request_id, claimer, app_id };
                    Reaction::CheckRemotePlay { game_uid: game_id.uid() }
                }
            },
            other => {
                self.query = other;
                Reaction::Nothing
            },
        }
    }

    /// Takes the native side's answer on whether the running game supports
    /// remote play.
    pub fn on_remote_play_support(&mut self, supported: bool) -> (reaction: Reaction)
        ensures
            (final(self)@, reaction@) == old(self)@.remote_play_support(supported),
            final(self)@.roster.wf(),
    {
        proof {
            use_type_invariant(&self.roster);
            self.roster.lemma_inv_wf();
        }
        let mut step = QueryStep::Idle;
        core::mem::swap(&mut self.query, &mut step);
        match step {
            QueryStep::AwaitingSupport { request_id, claimer, app_id } => {
                if supported {
                    let mut log = String::from_str("-> Create Panel       : claimer=");
                    log.append(claimer.as_str());
                    log.append(", game_id=");
                    push_decimal(&mut log, app_id as u64);
                    Reaction::Reply {
                        message: ClientMessage { id: request_id, cmd: ClientCmd::GameId { game: app_id } },
                        log: Some(log),
                    }
                } else {
                    error_response(request_id, ErrorStatus::UnsupportedApp)
                }
            },
            other => {
                self.query = other;
                Reaction::Nothing
            },
        }
    }

    /// Takes an invite that the native side reports for `_invitee`.
    pub fn on_remote_invited(&mut self, _invitee: u64, guest_id: u64, connect_url: &str) -> (reaction:
        Reaction)
        ensures
            (final(self)@, reaction@) == old(self)@.remote_invited(guest_id, connect_url@),
            final(self)@.roster.wf(),
    {
        proof {
            use_type_invariant(&self.roster);
            self.roster.lemma_inv_wf();
        }
        match self.invites.deliver(guest_id, String::from_str(connect_url)) {
            Some(resolved) => {
                let name = name_or_unknown(&resolved.invite.claimer);
                let mut log = String::from_str("-> Create Invite Link : claimer=");
                log.append(name.as_str());
                log.append(", guest_id=");
                push_decimal(&mut log, guest_id);
                log.append(", game_id=");
                push_decimal(&mut log, resolved.invite.game as u64);
                log.append(", invite_url=");
                log.append(connect_url);
                match resolved.invite.claimer {
                    Some(claimer) => {
                        self.roster.claim(guest_id, claimer);
                    },
                    None => {},
                }
                Reaction::Reply {
                    message: ClientMessage {
                        id: resolved.invite.request_id,
                        cmd: ClientCmd::Link { url: resolved.connect_url },
                    },
                    log: Some(log),
                }
            },
            None => Reaction::Nothing,
        }
    }

    /// Gives up the invite that waits for its resolution, if one does, and
    /// hands its request back. An event that arrives for it afterwards is
    /// dropped. The requests that have been put off stay, and `resume` takes
    /// up the oldest of them.
    pub fn cancel_invite(&mut self) -> (cancelled: Option<PendingInvite>)
        ensures
            final(self)@ == (HandlerView { invite: None, ..old(self)@ }),
            crate::invite::opt_invite_view(cancelled) == old(self)@.invite,
            final(self)@.roster.wf(),
    {
        proof {
            use_type_invariant(&self.roster);
            self.roster.lemma_inv_wf();
        }
        self.invites.cancel()
    }

    /// Notes that a guest has joined the session of `invitee`.
    pub fn on_remote_started(&mut self, invitee: u64, guest_id: u64) -> (notice: Notice)
        ensures
            (final(self)@, notice@) == old(self)@.remote_started(invitee, guest_id),
            final(self)@.roster.wf(),
    {
        let name = self.roster.display_name(guest_id);
        self.roster.mark_active(guest_id);
        Notice {
            log: write_guest_log(true, name.as_str(), guest_id, invitee),
            status: self.roster.status_line(),
        }
    }

    /// Notes that a guest has left the session of `invitee`.
    pub fn on_remote_stopped(&mut self, invitee: u64, guest_id: u64) -> (notice: Notice)
        ensures
            (final(self)@, notice@) == old(self)@.remote_stopped(invitee, guest_id),
            final(self)@.roster.wf(),
    {
        let name = self.roster.display_name(guest_id);
        self.roster.mark_inactive(guest_id);
        Notice {
            log: write_guest_log(false, name.as_str(), guest_id, invitee),
            status: self.roster.status_line(),
        }
    }
}

/// A response to a request carries the id of that request, whether the
/// request is taken up at once or after it has been put off.
pub proof fn lemma_reply_echoes_id(handler: HandlerView, msg: ServerMessageView)
    ensures
        (handler.server_message(msg).1 matches ReactionView::Reply { message, .. } ==> message.id
            == msg.id),
        (handler.resume().1 matches ReactionView::Reply { message, .. } ==> message.id
            == handler.deferred[0].id),
{
}

/// A request whose discriminator names no request is answered with the status
/// of an invalid command, and changes nothing.
pub proof fn lemma_invalid_is_answered(handler: HandlerView, id: Seq<char>, user: Option<UserView>)
    requires
        !handler.busy(),
    ensures
        handler.server_message(ServerMessageView { id, user, cmd: ServerCmdView::Invalid }) == (
            handler,
            error_reply(id, ErrorStatus::InvalidCmd),
        ),
{
}

/// A question for the game id to which the native side names no app is
/// answered with the status of an invalid app.
pub proof fn lemma_no_game_is_invalid_app(
    handler: HandlerView,
    id: Seq<char>,
    user: Option<UserView>,
    game_uid: GameUID,
)
    requires
        !handler.busy(),
        !unpacked(game_uid).is_valid_app(),
    ensures
        ({
            let asked = handler.server_message(
                ServerMessageView { id, user, cmd: ServerCmdView::GameId },
            );
            let answered = asked.0.running_game(game_uid);
            &&& asked.1 == ReactionView::QueryRunningGame
            &&& answered.1 == error_reply(id, ErrorStatus::InvalidApp)
            &&& answered.0 == handler
        }),
{
}

/// A request for a link is resolved by the invite that the native side
/// reports next: the response carries the id of the request and the address
/// of the invite, the guest is claimed for the user of the request, and
/// nothing waits any more. An invite reported after that is dropped.
pub proof fn lemma_link_round_trip(
    handler: HandlerView,
    id: Seq<char>,
    user: UserView,
    game: u32,
    guest_id: u64,
    connect_url: Seq<char>,
)
    requires
        !handler.busy(),
    ensures
        ({
            let asked = handler.server_message(
                ServerMessageView { id, user: Some(user), cmd: ServerCmdView::Link { game } },
            );
            let resolved = asked.0.remote_invited(guest_id, connect_url);
            &&& asked.1 == ReactionView::SendInvite { invitee: LOCAL_INVITEE, game_uid: app_uid(game) }
            &&& asked.0.busy()
            &&& resolved.1 matches ReactionView::Reply { message, .. } && message
                == (ClientMessageView { id, cmd: ClientCmdView::Link { url: connect_url } })
            &&& resolved.0.roster == handler.roster.claim(guest_id, user.name)
            &&& !resolved.0.busy()
            &&& resolved.0.remote_invited(guest_id, connect_url) == (
                resolved.0,
                ReactionView::Nothing,
            )
        }),
{
}

/// While a request waits for the native side, a further request changes
/// nothing but the queue of requests put off: it starts no call into the
/// native side, and it cannot take the answer that belongs to the first. Once
/// the first is done, the oldest request put off is taken up as if it had
/// arrived then.
pub proof fn lemma_deferred_in_order(handler: HandlerView, msg: ServerMessageView)
    requires
        handler.busy(),
    ensures
        handler.server_message(msg) == (
            HandlerView { deferred: handler.deferred.push(msg), ..handler },
            ReactionView::Deferred,
        ),
        handler.resume() == (handler, ReactionView::Nothing),
        ({
            let idle = HandlerView {
                invite: None,
                query: QueryStepView::Idle,
                deferred: seq![msg],
                ..handler
            };
            idle.resume() == (HandlerView { deferred: Seq::empty(), ..idle }).start(msg)
        }),
{
    assert(seq![msg].skip(1) =~= Seq::<ServerMessageView>::empty());
}

/// An invite is issued only while none waits for its resolution: whenever a
/// request leads to one, at once or after it has been put off, the slot was
/// empty before and holds that request afterwards.
pub proof fn lemma_one_invite_at_a_time(handler: HandlerView, msg: ServerMessageView)
    ensures
        handler.server_message(msg).1 is SendInvite ==> handler.invite is None
            && handler.server_message(msg).0.invite is Some,
        handler.resume().1 is SendInvite ==> handler.invite is None && handler.resume().0.invite
            is Some,
{
}

/// A message and an exit are never answered with a frame.
pub proof fn lemma_no_frame_for_message_or_exit(handler: HandlerView, msg: ServerMessageView)
    requires
        msg.cmd is Message || msg.cmd is Exit,
    ensures
        !(handler.server_message(msg).1 is Reply),
        !(handler.start(msg).1 is Reply),
        handler.start(msg).0 == handler,
{
}

/// Whatever the server asks and whatever the native side reports, the roster
/// stays well formed: every active guest has an entry.
pub proof fn lemma_roster_stays_well_formed(
    handler: HandlerView,
    msg: ServerMessageView,
    game_uid: GameUID,
    supported: bool,
    invitee: u64,
    guest_id: u64,
    connect_url: Seq<char>,
)
    requires
        handler.roster.wf(),
    ensures
        handler.server_message(msg).0.roster.wf(),
        handler.resume().0.roster.wf(),
        handler.forget().roster.wf(),
        handler.running_game(game_uid).0.roster.wf(),
        handler.remote_play_support(supported).0.roster.wf(),
        handler.remote_invited(guest_id, connect_url).0.roster.wf(),
        handler.remote_started(invitee, guest_id).0.roster.wf(),
        handler.remote_stopped(invitee, guest_id).0.roster.wf(),
{
    crate::roster::lemma_mark_active(handler.roster, guest_id);
    crate::roster::lemma_mark_inactive(handler.roster, guest_id);
    match handler.invite {
        Some(invite) => match invite.claimer {
            Some(name) => {
                crate::roster::lemma_claim(handler.roster, guest_id, name, name);
            },
            None => {},
        },
        None => {},
    }
}

} // verus!
