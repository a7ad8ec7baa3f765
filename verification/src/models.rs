//! The messages of the wire protocol and of a refused connection.

use crate::text::opt_view;
use vstd::prelude::*;

verus! {

/// Connection error message
#[derive(Debug, Clone, PartialEq, Eq)]
pub struct ConnectionErrorMessage {
    /// Error message
    pub message: Option<String>,
    pub error: ConnectionErrorType,
}

/// Error types for the daemon server
#[derive(Debug, Clone, PartialEq, Eq)]
pub enum ConnectionErrorType {
    /// Outdated daemon
    Outdated {
        /// Required version
        required: String,
        /// Download URL
        download: String,
    },
    Other,
}

/// A data structure to represent a request to the daemon
#[derive(Debug, Clone, PartialEq, Eq)]
pub struct ServerMessage {
    /// Request ID
    pub id: String,
    /// Request user
    pub user: Option<User>,
    /// Request type
    pub cmd: ServerCmd,
}

/// Request Type
#[derive(Debug, Clone, PartialEq, Eq)]
pub enum ServerCmd {
    /// Announce message
    Message {
        /// Message text
        text: String,
        /// Text to copy to clipboard
        copy: Option<String>,
    },
    /// Generate a game id
    GameId,
    /// Generate a link request
    Link {
        /// Game ID
        game: u32,
    },
    /// Exit request
    Exit,
    /// Any request that this client does not know
    Invalid,
}

/// A data structure to represent a response from the daemon
#[derive(Debug, Clone, PartialEq, Eq)]
pub struct ClientMessage {
    /// Request ID
    pub id: String,
    /// Request type
    pub cmd: ClientCmd,
}

/// Request Type
#[derive(Debug, Clone, PartialEq, Eq)]
pub enum ClientCmd {
    /// Generate a game id
    GameId {
        /// Game ID
        game: u32,
    },
    /// Generate a link request
    Link {
        /// Invite URL
        url: String,
    },
    /// Error response
    Error {
        /// Error code
        code: ErrorStatus,
    },
}

/// User information
#[derive(Debug, Clone, PartialEq, Eq)]
pub struct User {
    pub id: String,
    pub name: String,
}

/// Error statuses
#[derive(Debug, Clone, Copy, PartialEq, Eq, Structural)]
pub enum ErrorStatus {
    /// The command is invalid
    InvalidCmd,
    /// The app is not running
    InvalidApp,
    /// The app does not support remote play
    UnsupportedApp,
}

/// [`ConnectionErrorMessage`] as contracts see it, with its texts as sequences of characters.
pub struct ConnectionErrorMessageView {
    pub message: Option<Seq<char>>,
    pub error: ConnectionErrorTypeView,
}

/// [`ConnectionErrorType`] as contracts see it, with its texts as sequences of characters.
pub enum ConnectionErrorTypeView {
    Outdated { required: Seq<char>, download: Seq<char> },
    Other,
}

/// [`User`] as contracts see it, with its texts as sequences of characters.
pub struct UserView {
    pub id: Seq<char>,
    pub name: Seq<char>,
}

/// [`ServerCmd`] as contracts see it, with its texts as sequences of characters.
pub enum ServerCmdView {
    Message { text: Seq<char>, copy: Option<Seq<char>> },
    GameId,
    Link { game: u32 },
    Exit,
    Invalid,
}

/// [`ServerMessage`] as contracts see it, with its texts as sequences of characters.
pub struct ServerMessageView {
    pub id: Seq<char>,
    pub user: Option<UserView>,
    pub cmd: ServerCmdView,
}

/// [`ClientCmd`] as contracts see it, with its texts as sequences of characters.
pub enum ClientCmdView {
    GameId { game: u32 },
    Link { url: Seq<char> },
    Error { code: ErrorStatus },
}

/// [`ClientMessage`] as contracts see it, with its texts as sequences of characters.
pub struct ClientMessageView {
    pub id: Seq<char>,
    pub cmd: ClientCmdView,
}

impl View for ConnectionErrorType {
    type V = ConnectionErrorTypeView;

    open spec fn view(&self) -> ConnectionErrorTypeView {
        match self {
            ConnectionErrorType::Outdated { required, download } => ConnectionErrorTypeView::Outdated {
                required: required@,
                download: download@,
            },
            ConnectionErrorType::Other => ConnectionErrorTypeView::Other,
        }
    }
}

impl View for ConnectionErrorMessage {
    type V = ConnectionErrorMessageView;

    open spec fn view(&self) -> ConnectionErrorMessageView {
        ConnectionErrorMessageView { message: opt_view(self.message), error: self.error@ }
    }
}

impl View for User {
    type V = UserView;

    open spec fn view(&self) -> UserView {
        UserView { id: self.id@, name: self.name@ }
    }
}

/// The view of a user that may be absent.
pub open spec fn opt_user_view(user: Option<User>) -> Option<UserView> {
    match user {
        Some(u) => Some(u@),
        None => None,
    }
}

impl View for ServerCmd {
    type V = ServerCmdView;

    open spec fn view(&self) -> ServerCmdView {
        match self {
            ServerCmd::Message { text, copy } => ServerCmdView::Message {
                text: text@,
                copy: opt_view(*copy),
            },
            ServerCmd::GameId => ServerCmdView::GameId,
            ServerCmd::Link { game } => ServerCmdView::Link { game: *game },
            ServerCmd::Exit => ServerCmdView::Exit,
            ServerCmd::Invalid => ServerCmdView::Invalid,
        }
    }
}

impl View for ServerMessage {
    type V = ServerMessageView;

    open spec fn view(&self) -> ServerMessageView {
        ServerMessageView { id: self.id@, user: opt_user_view(self.user), cmd: self.cmd@ }
    }
}

impl View for ClientCmd {
    type V = ClientCmdView;

    open spec fn view(&self) -> ClientCmdView {
        match self {
            ClientCmd::GameId { game } => ClientCmdView::GameId { game: *game },
            ClientCmd::Link { url } => ClientCmdView::Link { url: url@ },
            ClientCmd::Error { code } => ClientCmdView::Error { code: *code },
        }
    }
}

impl View for ClientMessage {
    type V = ClientMessageView;

    open spec fn view(&self) -> ClientMessageView {
        ClientMessageView { id: self.id@, cmd: self.cmd@ }
    }
}

impl User {
    /// The name by which a request's sender is shown: the user's name, `?`
    /// where the request names no user.
    pub open spec fn shown_name(user: Option<UserView>) -> Seq<char> {
        match user {
            Some(u) => u.name,
            None => "?"@,
        }
    }

    /// The name by which a request's sender is shown.
    pub fn claimer(user: &Option<User>) -> (name: String)
        ensures
            name@ == Self::shown_name(opt_user_view(*user)),
    {
        match user {
            Some(u) => u.name.clone(),
            None => String::from_str("?"),
        }
    }
}

} // verus!
