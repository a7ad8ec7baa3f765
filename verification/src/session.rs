//! The connection manager: the life of the session as a state machine.
//!
//! The session decides; whoever drives it connects, reads, writes and sleeps,
//! and reports what happened as the next event.

use crate::codec::{
    decode_server_message, decoded_text, decoded_view, encode_client_message, encoded_text,
    DecodeError,
};
use crate::game_id::GameUID;
use crate::handlers::{Handler, HandlerView, Reaction, ReactionView};
use crate::models::{ServerMessage, ServerMessageView};
use crate::retry::{next_wait, RetrySec, CEILING_SECS, FLOOR_SECS};
use crate::text::{decimal, opt_view, push_decimal};
use crate::ws_error_handler::{
    handle_ws_error, opt_cause_view, outcome_of, Cause, CauseView, ConnectionFailure,
    ConnectionFailureView, ConnectionOutcome, ConnectionOutcomeView,
};
use vstd::prelude::*;

verus! {

/// The longest that a connection attempt may take, in seconds.
pub const CONNECT_TIMEOUT_SECS: u64 = 10;

/// The longest that the session waits for the next frame, in seconds.
pub const IDLE_TIMEOUT_SECS: u64 = 60;

/// Where the session stands.
#[derive(Debug, Clone, Copy, PartialEq, Eq, Structural)]
pub enum Phase {
    /// No connection, and none is being made: before the first attempt, and
    /// during the wait that follows a loss.
    Disconnected,
    /// A connection attempt is under way.
    Connecting,
    /// The connection stands.
    Connected,
    /// The session is over.
    Exited,
}

/// What happened, as the driver reports it.
#[derive(Debug, Clone, PartialEq, Eq)]
pub enum SessionEvent {
    /// The driver is ready for the next connection attempt: at the start, and
    /// when a wait is over.
    Start,
    /// The connection attempt succeeded.
    Connected,
    /// The connection attempt or the connection failed. A timeout is a
    /// failure.
    Failed(ConnectionFailure),
    /// A ping arrived, with this payload.
    Ping(Vec<u8>),
    /// A text frame arrived.
    Text(String),
    /// A close frame arrived, or the stream ended.
    Close,
    /// A frame of any other kind arrived.
    OtherFrame,
    /// The pong or the response that was asked for has been sent.
    Sent,
    /// What was asked for, and has no report of its own, has been done.
    Done,
    /// The dispatcher has reacted to an answer or an event of the native
    /// side.
    Reacted(Reaction),
}

/// [`SessionEvent`] as contracts see it, with its texts as sequences of characters.
pub enum SessionEventView {
    Start,
    Connected,
    Failed(ConnectionFailureView),
    Ping(Seq<u8>),
    Text(Seq<char>),
    Close,
    OtherFrame,
    Sent,
    Done,
    Reacted(ReactionView),
}

impl View for SessionEvent {
    type V = SessionEventView;

    open spec fn view(&self) -> SessionEventView {
        match self {
            SessionEvent::Start => SessionEventView::Start,
            SessionEvent::Connected => SessionEventView::Connected,
            SessionEvent::Failed(f) => SessionEventView::Failed(f@),
            SessionEvent::Ping(payload) => SessionEventView::Ping(payload@),
            SessionEvent::Text(t) => SessionEventView::Text(t@),
            SessionEvent::Close => SessionEventView::Close,
            SessionEvent::OtherFrame => SessionEventView::OtherFrame,
            SessionEvent::Sent => SessionEventView::Sent,
            SessionEvent::Done => SessionEventView::Done,
            SessionEvent::Reacted(r) => SessionEventView::Reacted(r@),
        }
    }
}

/// A call into the native side that the dispatcher asks for.
#[derive(Debug, Clone, Copy, PartialEq, Eq, Structural)]
pub enum NativeCall {
    /// Ask for the running game; hand the answer to the dispatcher's
    /// `on_running_game`.
    RunningGame,
    /// Ask whether the game supports remote play; hand the answer to the
    /// dispatcher's `on_remote_play_support`.
    RemotePlaySupport { game_uid: GameUID },
    /// Issue an invite, and report `Done`. Its resolution arrives later, as
    /// an event of the native side, at the dispatcher's `on_remote_invited`;
    /// report `Reacted` with what the dispatcher makes of it.
    Invite { invitee: u64, game_uid: GameUID },
}

/// What the driver is to do next.
#[derive(Debug, Clone, PartialEq, Eq)]
pub enum Command {
    /// Nothing new: the event does not apply where the session stands.
    Ignore,
    /// Announce the line, if there is one; then try to connect, for at most
    /// `timeout_secs` seconds. Report `Connected` or `Failed`.
    Connect { announce: Option<String>, timeout_secs: u64 },
    /// Announce the line, if there is one; then wait for the next frame, for
    /// at most `idle_secs` seconds. Report the frame, or `Failed`.
    Listen { announce: Option<String>, idle_secs: u64 },
    /// Answer the ping with a pong that carries this payload, which is the
    /// ping's. Report `Sent` or `Failed`.
    SendPong { payload: Vec<u8> },
    /// Log the line, if there is one, and send the frame. Report `Sent` or
    /// `Failed`.
    SendText { frame: String, log: Option<String> },
    /// Show the text, and copy `copy` to the clipboard if there is one; a
    /// failure to copy is logged and nothing more. Report `Done`.
    Show { text: String, copy: Option<String> },
    /// Make the call into the native side, and report as the call says.
    Native(NativeCall),
    /// Report the cause, if there is one, and the wait; sleep for `secs`
    /// seconds; report `Start`.
    Sleep { secs: u64, cause: Option<Cause> },
    /// Report the cause, if there is one. The session is over.
    Stop { cause: Option<Cause> },
}

/// [`Command`] as contracts see it, with its texts as sequences of characters.
pub enum CommandView {
    Ignore,
    Connect { announce: Option<Seq<char>>, timeout_secs: u64 },
    Listen { announce: Option<Seq<char>>, idle_secs: u64 },
    SendPong { payload: Seq<u8> },
    SendText { frame: Seq<char>, log: Option<Seq<char>> },
    Show { text: Seq<char>, copy: Option<Seq<char>> },
    Native(NativeCall),
    Sleep { secs: u64, cause: Option<CauseView> },
    Stop { cause: Option<CauseView> },
}

impl View for Command {
    type V = CommandView;

    open spec fn view(&self) -> CommandView {
        match self {
            Command::Ignore => CommandView::Ignore,
            Command::Connect { announce, timeout_secs } => CommandView::Connect {
                announce: opt_view(*announce),
                timeout_secs: *timeout_secs,
            },
            Command::Listen { announce, idle_secs } => CommandView::Listen {
                announce: opt_view(*announce),
                idle_secs: *idle_secs,
            },
            Command::SendPong { payload } => CommandView::SendPong { payload: payload@ },
            Command::SendText { frame, log } => CommandView::SendText {
                frame: frame@,
                log: opt_view(*log),
            },
            Command::Show { text, copy } => CommandView::Show { text: text@, copy: opt_view(*copy) },
            Command::Native(call) => CommandView::Native(*call),
            Command::Sleep { secs, cause } => CommandView::Sleep {
                secs: *secs,
                cause: opt_cause_view(*cause),
            },
            Command::Stop { cause } => CommandView::Stop { cause: opt_cause_view(*cause) },
        }
    }
}

/// The session as contracts see it.
pub struct SessionView {
    /// The address that the session connects to.
    pub url: Seq<char>,
    pub phase: Phase,
    /// Whether a connection has been lost, or an attempt has failed, before.
    pub reconnect: bool,
    /// The stored wait of the backoff, in seconds.
    pub wait: int,
}

/// The line that announces a connection attempt, after a loss only.
pub open spec fn connect_line(reconnect: bool) -> Option<Seq<char>> {
    if reconnect {
        Some("\u{21aa} Reconnecting to the server..."@)
    } else {
        None
    }
}

/// The line that announces a connection.
pub open spec fn connected_line(reconnect: bool) -> Seq<char> {
    if reconnect {
        "\u{2713} Reconnected!"@
    } else {
        "\u{2713} Connected to the server!"@
    }
}

/// The line that announces a wait before the next attempt.
pub open spec fn lost_line(secs: u64) -> Seq<char> {
    "\u{21aa} Connection lost. Reconnecting in "@ + decimal(secs as nat) + " seconds..."@
}

/// The command to wait for the next frame, with nothing to announce.
pub open spec fn listen() -> CommandView {
    CommandView::Listen { announce: None, idle_secs: IDLE_TIMEOUT_SECS }
}

impl SessionView {
    /// The session with the backoff at its floor.
    pub open spec fn alive(self) -> SessionView {
        SessionView { wait: FLOOR_SECS as int, ..self }
    }

    /// The connection is lost for a cause that allows another attempt: the
    /// session is disconnected, the next wait of the backoff is taken, and
    /// from now on attempts are announced as reconnecting. The requests that
    /// came over the connection are forgotten.
    pub open spec fn lose(self, handler: HandlerView, cause: Option<CauseView>) -> (
        SessionView,
        HandlerView,
        CommandView,
    ) {
        (
            SessionView {
                phase: Phase::Disconnected,
                reconnect: true,
                wait: next_wait(self.wait),
                ..self
            },
            handler.forget(),
            CommandView::Sleep { secs: next_wait(self.wait) as u64, cause },
        )
    }

    /// The session ends.
    pub open spec fn end(self, handler: HandlerView, cause: Option<CauseView>) -> (
        SessionView,
        HandlerView,
        CommandView,
    ) {
        (SessionView { phase: Phase::Exited, ..self }, handler, CommandView::Stop { cause })
    }

    /// A failure is judged: one that is recoverable loses the connection, one
    /// that is fatal ends the session.
    pub open spec fn fail(self, handler: HandlerView, outcome: ConnectionOutcomeView) -> (
        SessionView,
        HandlerView,
        CommandView,
    ) {
        match outcome {
            ConnectionOutcomeView::Recoverable { reason } => self.lose(handler, Some(reason)),
            ConnectionOutcomeView::Fatal { reason } => self.end(handler, Some(reason)),
        }
    }

    /// A response is to be sent: as the frame it has been written to, and the
    /// connection is lost where it could not be written.
    pub open spec fn reply(
        self,
        handler: HandlerView,
        frame: Option<Seq<char>>,
        log: Option<Seq<char>>,
    ) -> (SessionView, HandlerView, CommandView) {
        match frame {
            Some(frame) => (self, handler, CommandView::SendText { frame, log }),
            None => self.lose(handler, Some(CauseView::BadReply)),
        }
    }

    /// The dispatcher has reacted, while the connection stands.
    ///
    /// What it shows counts as a message processed, and the backoff goes to
    /// its floor. What it asks of the native side is passed on. What it
    /// answers is sent. An exit ends the session.
    pub open spec fn react(self, handler: HandlerView, reaction: ReactionView) -> (
        SessionView,
        HandlerView,
        CommandView,
    ) {
        match reaction {
            ReactionView::Nothing => (self, handler, listen()),
            ReactionView::Deferred => (self, handler, listen()),
            ReactionView::Show { text, copy } => (
                self.alive(),
                handler,
                CommandView::Show { text, copy },
            ),
            ReactionView::QueryRunningGame => (
                self,
                handler,
                CommandView::Native(NativeCall::RunningGame),
            ),
            ReactionView::CheckRemotePlay { game_uid } => (
                self,
                handler,
                CommandView::Native(NativeCall::RemotePlaySupport { game_uid }),
            ),
            ReactionView::SendInvite { invitee, game_uid } => (
                self,
                handler,
                CommandView::Native(NativeCall::Invite { invitee, game_uid }),
            ),
            ReactionView::Reply { message, log } => self.reply(handler, encoded_text(message), log),
            ReactionView::Exit => self.end(handler, None),
        }
    }

    /// A text frame has been decoded, while the connection stands: a request
    /// goes to the dispatcher, and the session follows its reaction; a frame
    /// that holds no request loses the connection.
    pub open spec fn dispatch(
        self,
        handler: HandlerView,
        decoded: Result<ServerMessageView, DecodeError>,
    ) -> (SessionView, HandlerView, CommandView) {
        match decoded {
            Ok(msg) => self.react(handler.server_message(msg).0, handler.server_message(msg).1),
            Err(_) => self.lose(handler, Some(CauseView::BadFrame)),
        }
    }

    /// The dispatcher takes up the oldest request that has been put off, and
    /// the session follows its reaction.
    pub open spec fn resume(self, handler: HandlerView) -> (SessionView, HandlerView, CommandView) {
        self.react(handler.resume().0, handler.resume().1)
    }

    /// One step of the session: where it stands after an event, where the
    /// dispatcher stands, and what the driver is to do.
    ///
    /// From `Disconnected` a start leads to `Connecting`. From there a
    /// connection leads to `Connected`, with the backoff at its floor. A
    /// failure while connecting or connected is judged. While connected, a
    /// ping is answered; what has been sent puts the backoff at its floor; a
    /// text frame is dispatched; what has been sent or done lets the
    /// dispatcher take up a request that has been put off; a close loses the
    /// connection. Once exited, the session stays so. An event that does not
    /// apply is ignored.
    pub open spec fn step(self, handler: HandlerView, event: SessionEventView) -> (
        SessionView,
        HandlerView,
        CommandView,
    ) {
        match (self.phase, event) {
            (Phase::Exited, _) => (self, handler, CommandView::Stop { cause: None }),
            (Phase::Disconnected, SessionEventView::Start) => (
                SessionView { phase: Phase::Connecting, ..self },
                handler,
                CommandView::Connect {
                    announce: connect_line(self.reconnect),
                    timeout_secs: CONNECT_TIMEOUT_SECS,
                },
            ),
            (Phase::Connecting, SessionEventView::Connected) => (
                SessionView { phase: Phase::Connected, ..self }.alive(),
                handler,
                CommandView::Listen {
                    announce: Some(connected_line(self.reconnect)),
                    idle_secs: IDLE_TIMEOUT_SECS,
                },
            ),
            (Phase::Connecting, SessionEventView::Failed(failure)) => self.fail(
                handler,
                outcome_of(failure),
            ),
            (Phase::Connected, SessionEventView::Failed(failure)) => self.fail(
                handler,
                outcome_of(failure),
            ),
            (Phase::Connected, SessionEventView::Ping(payload)) => (
                self,
                handler,
                CommandView::SendPong { payload },
            ),
            (Phase::Connected, SessionEventView::Sent) => self.alive().resume(handler),
            (Phase::Connected, SessionEventView::Done) => self.resume(handler),
            (Phase::Connected, SessionEventView::OtherFrame) => (self, handler, listen()),
            (Phase::Connected, SessionEventView::Close) => self.lose(handler, None),
            (Phase::Connected, SessionEventView::Text(text)) => self.dispatch(
                handler,
                decoded_text(text),
            ),
            (Phase::Connected, SessionEventView::Reacted(reaction)) => self.react(
                handler,
                reaction,
            ),
            _ => (self, handler, CommandView::Ignore),
        }
    }
}

/// The session: the address, where the session stands, whether it has lost a
/// connection before, and the backoff.
pub struct Session {
    url: String,
    phase: Phase,
    reconnect: bool,
    retry: RetrySec,
}

impl View for Session {
    type V = SessionView;

    closed spec fn view(&self) -> SessionView {
        SessionView {
            url: self.url@,
            phase: self.phase,
            reconnect: self.reconnect,
            wait: self.retry@,
        }
    }
}

impl Session {
    /// A session for an address: disconnected, with the backoff at its floor.
    pub fn new(url: String) -> (session: Self)
        ensures
            session@ == (SessionView {
                url: url@,
                phase: Phase::Disconnected,
                reconnect: false,
                wait: FLOOR_SECS as int,
            }),
    {
        Session { url, phase: Phase::Disconnected, reconnect: false, retry: RetrySec::new() }
    }

    /// The address that the session connects to.
    pub fn url(&self) -> (url: &str)
        ensures
            url@ == self@.url,
    {
        self.url.as_str()
    }

    /// Where the session stands.
    pub fn phase(&self) -> (phase: Phase)
        ensures
            phase == self@.phase,
    {
        self.phase
    }

    /// Whether the session is over.
    pub fn is_exited(&self) -> (exited: bool)
        ensures
            exited == (self@.phase == Phase::Exited),
    {
        self.phase == Phase::Exited
    }

    /// Whether the session has lost a connection, or failed to make one,
    /// before.
    pub fn is_reconnect(&self) -> (reconnect: bool)
        ensures
            reconnect == self@.reconnect,
    {
        self.reconnect
    }

    /// The stored wait of the backoff, in seconds.
    pub fn wait_secs(&self) -> (secs: u64)
        ensures
            secs == self@.wait,
            FLOOR_SECS <= secs <= CEILING_SECS,
    {
        self.retry.current()
    }

    fn listen() -> (command: Command)
        ensures
            command@ == listen(),
    {
        Command::Listen { announce: None, idle_secs: IDLE_TIMEOUT_SECS }
    }

    fn lose(&mut self, handler: &mut Handler, cause: Option<Cause>) -> (command: Command)
        ensures
            (final(self)@, final(handler)@, command@) == old(self)@.lose(
                old(handler)@,
                opt_cause_view(cause),
            ),
    {
        let secs = self.retry.next();
        self.phase = Phase::Disconnected;
        self.reconnect = true;
        handler.forget_requests();
        Command::Sleep { secs, cause }
    }

    fn end(&mut self, cause: Option<Cause>) -> (command: Command)
        ensures
            final(self)@ == (SessionView { phase: Phase::Exited, ..old(self)@ }),
            command@ == (CommandView::Stop { cause: opt_cause_view(cause) }),
    {
        self.phase = Phase::Exited;
        Command::Stop { cause }
    }

    fn fail(&mut self, handler: &mut Handler, outcome: ConnectionOutcome) -> (command: Command)
        ensures
            (final(self)@, final(handler)@, command@) == old(self)@.fail(old(handler)@, outcome@),
    {
        match outcome {
            ConnectionOutcome::Recoverable { reason } => self.lose(handler, Some(reason)),
            ConnectionOutcome::Fatal { reason } => self.end(Some(reason)),
        }
    }

    /// Takes a response as the frame that it has been written to, if it could
    /// be written.
    pub fn reply(&mut self, handler: &mut Handler, frame: Option<String>, log: Option<String>) -> (command:
        Command)
        ensures
            (final(self)@, final(handler)@, command@) == old(self)@.reply(
                old(handler)@,
                opt_view(frame),
                opt_view(log),
            ),
    {
        match frame {
            Some(frame) => Command::SendText { frame, log },
            None => self.lose(handler, Some(Cause::BadReply)),
        }
    }

    /// Takes a reaction of the dispatcher while the connection stands.
    pub fn react(&mut self, handler: &mut Handler, reaction: Reaction) -> (command: Command)
        ensures
            (final(self)@, final(handler)@, command@) == old(self)@.react(
                old(handler)@,
                reaction@,
            ),
    {
        match reaction {
            Reaction::Nothing => Self::listen(),
            Reaction::Deferred => Self::listen(),
            Reaction::Show { text, copy } => {
                self.retry.reset();
                Command::Show { text, copy }
            },
            Reaction::QueryRunningGame => Command::Native(NativeCall::RunningGame),
            Reaction::CheckRemotePlay { game_uid } => Command::Native(
                NativeCall::RemotePlaySupport { game_uid },
            ),
            Reaction::SendInvite { invitee, game_uid } => Command::Native(
                NativeCall::Invite { invitee, game_uid },
            ),
            Reaction::Reply { message, log } => {
                let frame = encode_client_message(&message);
                self.reply(handler, frame, log)
            },
            Reaction::Exit => self.end(None),
        }
    }

    /// Takes a decoded text frame while the connection stands.
    pub fn dispatch(&mut self, handler: &mut Handler, decoded: Result<ServerMessage, DecodeError>) -> (command:
        Command)
        ensures
            (final(self)@, final(handler)@, command@) == old(self)@.dispatch(
                old(handler)@,
                decoded_view(decoded),
            ),
    {
        match decoded {
            Ok(msg) => {
                let reaction = handler.handle_server_message(msg);
                self.react(handler, reaction)
            },
            Err(_) => self.lose(handler, Some(Cause::BadFrame)),
        }
    }

    fn resume(&mut self, handler: &mut Handler) -> (command: Command)
        ensures
            (final(self)@, final(handler)@, command@) == old(self)@.resume(old(handler)@),
    {
        let reaction = handler.resume();
        self.react(handler, reaction)
    }

    /// Takes an event and says what the driver is to do next.
    pub fn step(&mut self, handler: &mut Handler, event: SessionEvent) -> (command: Command)
        ensures
            (final(self)@, final(handler)@, command@) == old(self)@.step(old(handler)@, event@),
    {
        match self.phase {
            Phase::Exited => Command::Stop { cause: None },
            Phase::Disconnected => match event {
                SessionEvent::Start => {
                    self.phase = Phase::Connecting;
                    Command::Connect {
                        announce: if self.reconnect {
                            Some(String::from_str("\u{21aa} Reconnecting to the server..."))
                        } else {
                            None
                        },
                        timeout_secs: CONNECT_TIMEOUT_SECS,
                    }
                },
                _ => Command::Ignore,
            },
            Phase::Connecting => match event {
                SessionEvent::Connected => {
                    self.phase = Phase::Connected;
                    self.retry.reset();
                    Command::Listen {
                        announce: Some(
                            if self.reconnect {
                                String::from_str("\u{2713} Reconnected!")
                            } else {
                                String::from_str("\u{2713} Connected to the server!")
                            },
                        ),
                        idle_secs: IDLE_TIMEOUT_SECS,
                    }
                },
                SessionEvent::Failed(failure) => self.fail(handler, handle_ws_error(failure)),
                _ => Command::Ignore,
            },
            Phase::Connected => match event {
                SessionEvent::Failed(failure) => self.fail(handler, handle_ws_error(failure)),
                SessionEvent::Ping(payload) => Command::SendPong { payload },
                SessionEvent::Sent => {
                    self.retry.reset();
                    self.resume(handler)
                },
                SessionEvent::Done => self.resume(handler),
                SessionEvent::OtherFrame => Self::listen(),
                SessionEvent::Close => self.lose(handler, None),
                SessionEvent::Text(text) => {
                    let decoded = decode_server_message(text.as_str());
                    self.dispatch(handler, decoded)
                },
                SessionEvent::Reacted(reaction) => self.react(handler, reaction),
                _ => Command::Ignore,
            },
        }
    }

    /// The line that announces the wait before the next attempt.
    pub fn lost_text(secs: u64) -> (line: String)
        ensures
            line@ == lost_line(secs),
    {
        let mut line = String::from_str("\u{21aa} Connection lost. Reconnecting in ");
        push_decimal(&mut line, secs);
        line.append(" seconds...");
        line
    }
}

/// Once the session is over it stays over: every event leaves the session
/// and the dispatcher as they are, and the driver is told to stop.
pub proof fn lemma_exited_is_final(session: SessionView, handler: HandlerView, event: SessionEventView)
    requires
        session.phase == Phase::Exited,
    ensures
        session.step(handler, event) == (session, handler, CommandView::Stop { cause: None }),
{
}

/// No step changes the address or the roster, no step takes the stored wait
/// out of its bounds, and a session that has lost a connection stays one
/// that has.
pub proof fn lemma_step_keeps(session: SessionView, handler: HandlerView, event: SessionEventView)
    requires
        FLOOR_SECS <= session.wait <= CEILING_SECS,
    ensures
        session.step(handler, event).0.url == session.url,
        session.step(handler, event).1.roster == handler.roster,
        FLOOR_SECS <= session.step(handler, event).0.wait <= CEILING_SECS,
        session.reconnect ==> session.step(handler, event).0.reconnect,
{
}

/// Every connection attempt is bounded by the connection timeout, and every
/// wait for a frame by the idle timeout.
pub proof fn lemma_waits_are_bounded(session: SessionView, handler: HandlerView, event: SessionEventView)
    ensures
        (session.step(handler, event).2 matches CommandView::Connect { timeout_secs, .. }
            ==> timeout_secs == CONNECT_TIMEOUT_SECS),
        (session.step(handler, event).2 matches CommandView::Listen { idle_secs, .. } ==> idle_secs
            == IDLE_TIMEOUT_SECS),
{
}

/// Every sign of life puts the backoff at its floor: a connection made, and
/// a pong or a response sent.
pub proof fn lemma_liveness_resets(session: SessionView, handler: HandlerView)
    ensures
        session.phase == Phase::Connecting ==> session.step(
            handler,
            SessionEventView::Connected,
        ).0.wait == FLOOR_SECS,
        session.phase == Phase::Connected ==> session.step(handler, SessionEventView::Sent)
            == session.alive().resume(handler),
        session.phase == Phase::Connected && handler.deferred.len() == 0 ==> session.step(
            handler,
            SessionEventView::Sent,
        ) == (session.alive(), handler, listen()),
{
}

/// A connection that is lost for a recoverable cause leads to a wait of the
/// next backoff value and then to another attempt, announced as reconnecting;
/// a fatal cause ends the session at once.
pub proof fn lemma_failure_is_judged(
    session: SessionView,
    handler: HandlerView,
    failure: ConnectionFailureView,
)
    requires
        session.phase == Phase::Connecting || session.phase == Phase::Connected,
        FLOOR_SECS <= session.wait <= CEILING_SECS,
    ensures
        ({
            let after = session.step(handler, SessionEventView::Failed(failure));
            let again = after.0.step(after.1, SessionEventView::Start);
            &&& outcome_of(failure) matches ConnectionOutcomeView::Recoverable { reason } ==> {
                &&& after.0.phase == Phase::Disconnected
                &&& after.0.wait == next_wait(session.wait)
                &&& !after.1.busy()
                &&& after.2 == (CommandView::Sleep {
                    secs: next_wait(session.wait) as u64,
                    cause: Some(reason),
                })
                &&& again.0.phase == Phase::Connecting
                &&& again.2 == (CommandView::Connect {
                    announce: Some("\u{21aa} Reconnecting to the server..."@),
                    timeout_secs: CONNECT_TIMEOUT_SECS,
                })
            }
            &&& outcome_of(failure) matches ConnectionOutcomeView::Fatal { reason } ==> {
                &&& after.0.phase == Phase::Exited
                &&& after.2 == (CommandView::Stop { cause: Some(reason) })
            }
        }),
{
}

} // verus!
