//! Frames of the wire protocol: from JSON text to a request, and from a
//! response to JSON text.

use crate::json::{
    is_null, is_object, json_document, json_member, json_null, json_number, json_object,
    json_quoted, json_text, member, number_of, parse_document, quote, text_of,
};
use crate::models::{
    ClientCmd, ClientCmdView, ClientMessage, ClientMessageView, ErrorStatus, ServerCmd,
    ServerCmdView, ServerMessage, ServerMessageView, User, UserView,
};
use crate::text::{decimal, opt_view, push_decimal, same_text};
use vstd::prelude::*;

verus! {

/// Why a frame was not decoded.
#[derive(Debug, Clone, Copy, PartialEq, Eq, Structural)]
pub enum DecodeError {
    /// The text is no JSON object, or a member that the request reads holds
    /// a value of another type than the member's.
    Malformed,
    /// A member that the request needs is absent.
    MissingField,
}

/// What a frame holds under one key.
#[derive(Debug, Clone, PartialEq, Eq)]
pub enum Field {
    /// No member under the key.
    Absent,
    /// The JSON value `null`.
    Null,
    /// A string.
    Text(String),
    /// A number that is an unsigned integer of at most 64 bits.
    Number(u64),
    /// Any other value.
    Other,
}

/// [`Field`] as contracts see it, with its texts as sequences of characters.
pub enum FieldView {
    Absent,
    Null,
    Text(Seq<char>),
    Number(u64),
    Other,
}

impl View for Field {
    type V = FieldView;

    open spec fn view(&self) -> FieldView {
        match self {
            Field::Absent => FieldView::Absent,
            Field::Null => FieldView::Null,
            Field::Text(s) => FieldView::Text(s@),
            Field::Number(n) => FieldView::Number(*n),
            Field::Other => FieldView::Other,
        }
    }
}

/// The sender of a frame as the frame holds it.
#[derive(Debug, Clone, PartialEq, Eq)]
pub enum RawUser {
    /// The frame names no user: the member is absent or `null`.
    Absent,
    /// The member is neither `null` nor an object.
    Invalid,
    /// The frame holds a user, with these two members.
    Present { id: Field, name: Field },
}

/// [`RawUser`] as contracts see it, with its texts as sequences of characters.
pub enum RawUserView {
    Absent,
    Invalid,
    Present { id: FieldView, name: FieldView },
}

impl View for RawUser {
    type V = RawUserView;

    open spec fn view(&self) -> RawUserView {
        match self {
            RawUser::Absent => RawUserView::Absent,
            RawUser::Invalid => RawUserView::Invalid,
            RawUser::Present { id, name } => RawUserView::Present { id: id@, name: name@ },
        }
    }
}

/// The members of a frame that a request can read, before any of them is
/// interpreted.
#[derive(Debug, Clone, PartialEq, Eq)]
pub struct RawFrame {
    pub id: Field,
    pub user: RawUser,
    pub cmd: Field,
    pub text: Field,
    pub copy: Field,
    pub game: Field,
}

/// [`RawFrame`] as contracts see it, with its texts as sequences of characters.
pub struct RawFrameView {
    pub id: FieldView,
    pub user: RawUserView,
    pub cmd: FieldView,
    pub text: FieldView,
    pub copy: FieldView,
    pub game: FieldView,
}

impl View for RawFrame {
    type V = RawFrameView;

    open spec fn view(&self) -> RawFrameView {
        RawFrameView {
            id: self.id@,
            user: self.user@,
            cmd: self.cmd@,
            text: self.text@,
            copy: self.copy@,
            game: self.game@,
        }
    }
}

/// A field that must hold a string.
pub open spec fn required_text(field: FieldView) -> Result<Seq<char>, DecodeError> {
    match field {
        FieldView::Text(s) => Ok(s),
        FieldView::Absent => Err(DecodeError::MissingField),
        _ => Err(DecodeError::Malformed),
    }
}

/// A field that may hold a string, or be absent or `null`.
pub open spec fn optional_text(field: FieldView) -> Result<Option<Seq<char>>, DecodeError> {
    match field {
        FieldView::Text(s) => Ok(Some(s)),
        FieldView::Absent => Ok(None),
        FieldView::Null => Ok(None),
        _ => Err(DecodeError::Malformed),
    }
}

/// A field that must hold an unsigned integer of at most 32 bits.
pub open spec fn required_u32(field: FieldView) -> Result<u32, DecodeError> {
    match field {
        FieldView::Number(n) => if n <= u32::MAX {
            Ok(n as u32)
        } else {
            Err(DecodeError::Malformed)
        },
        FieldView::Absent => Err(DecodeError::MissingField),
        _ => Err(DecodeError::Malformed),
    }
}

/// The sender that a frame names, if it names one: a user is an object and
/// needs both its members.
pub open spec fn decoded_user(raw: RawUserView) -> Result<Option<UserView>, DecodeError> {
    match raw {
        RawUserView::Absent => Ok(None),
        RawUserView::Invalid => Err(DecodeError::Malformed),
        RawUserView::Present { id, name } => match required_text(id) {
            Err(e) => Err(e),
            Ok(id) => match required_text(name) {
                Err(e) => Err(e),
                Ok(name) => Ok(Some(UserView { id, name })),
            },
        },
    }
}

/// The request that a discriminator selects, with the members that this
/// request reads. A discriminator that names no request selects `Invalid`.
pub open spec fn decoded_cmd(
    tag: Seq<char>,
    text: FieldView,
    copy: FieldView,
    game: FieldView,
) -> Result<ServerCmdView, DecodeError> {
    if tag == "message"@ {
        match required_text(text) {
            Err(e) => Err(e),
            Ok(text) => match optional_text(copy) {
                Err(e) => Err(e),
                Ok(copy) => Ok(ServerCmdView::Message { text, copy }),
            },
        }
    } else if tag == "game"@ {
        Ok(ServerCmdView::GameId)
    } else if tag == "link"@ {
        match required_u32(game) {
            Err(e) => Err(e),
            Ok(game) => Ok(ServerCmdView::Link { game }),
        }
    } else if tag == "exit"@ {
        Ok(ServerCmdView::Exit)
    } else {
        Ok(ServerCmdView::Invalid)
    }
}

/// The request that the members of a frame make up: its id, then its sender,
/// then its discriminator and what the selected request reads. The first of
/// them that fails decides the error.
pub open spec fn decoded_frame(raw: RawFrameView) -> Result<ServerMessageView, DecodeError> {
    match required_text(raw.id) {
        Err(e) => Err(e),
        Ok(id) => match decoded_user(raw.user) {
            Err(e) => Err(e),
            Ok(user) => match required_text(raw.cmd) {
                Err(e) => Err(e),
                Ok(tag) => match decoded_cmd(tag, raw.text, raw.copy, raw.game) {
                    Err(e) => Err(e),
                    Ok(cmd) => Ok(ServerMessageView { id, user, cmd }),
                },
            },
        },
    }
}

/// The view of the outcome of decoding.
pub open spec fn decoded_view(outcome: Result<ServerMessage, DecodeError>) -> Result<
    ServerMessageView,
    DecodeError,
> {
    match outcome {
        Ok(msg) => Ok(msg@),
        Err(e) => Err(e),
    }
}

fn take_required_text(field: Field) -> (r: Result<String, DecodeError>)
    ensures
        (r is Ok) == (required_text(field@) is Ok),
        r matches Ok(s) ==> required_text(field@) == Ok::<Seq<char>, DecodeError>(s@),
        r matches Err(e) ==> required_text(field@) == Err::<Seq<char>, DecodeError>(e),
{
    match field {
        Field::Text(s) => Ok(s),
        Field::Absent => Err(DecodeError::MissingField),
        _ => Err(DecodeError::Malformed),
    }
}

fn take_optional_text(field: Field) -> (r: Result<Option<String>, DecodeError>)
    ensures
        (r is Ok) == (optional_text(field@) is Ok),
        r matches Ok(s) ==> optional_text(field@) == Ok::<Option<Seq<char>>, DecodeError>(
            opt_view(s),
        ),
        r matches Err(e) ==> optional_text(field@) == Err::<Option<Seq<char>>, DecodeError>(e),
{
    match field {
        Field::Text(s) => Ok(Some(s)),
        Field::Absent => Ok(None),
        Field::Null => Ok(None),
        _ => Err(DecodeError::Malformed),
    }
}

fn take_required_u32(field: Field) -> (r: Result<u32, DecodeError>)
    ensures
        r == required_u32(field@),
{
    match field {
        Field::Number(n) => if n <= 0xffff_ffff {
            Ok(n as u32)
        } else {
            Err(DecodeError::Malformed)
        },
        Field::Absent => Err(DecodeError::MissingField),
        _ => Err(DecodeError::Malformed),
    }
}

impl ServerMessage {
    /// Interprets the members of a frame: the request they make up, or the
    /// first reason why they make up none.
    pub fn from_raw(raw: RawFrame) -> (outcome: Result<ServerMessage, DecodeError>)
        ensures
            decoded_view(outcome) == decoded_frame(raw@),
    {
        let id = match take_required_text(raw.id) {
            Ok(id) => id,
            Err(e) => {
                return Err(e);
            },
        };
        let user = match raw.user {
            RawUser::Absent => None,
            RawUser::Invalid => {
                return Err(DecodeError::Malformed);
            },
            RawUser::Present { id: user_id, name } => {
                let user_id = match take_required_text(user_id) {
                    Ok(s) => s,
                    Err(e) => {
                        return Err(e);
                    },
                };
                let name = match take_required_text(name) {
                    Ok(s) => s,
                    Err(e) => {
                        return Err(e);
                    },
                };
                Some(User { id: user_id, name })
            },
        };
        let tag = match take_required_text(raw.cmd) {
            Ok(tag) => tag,
            Err(e) => {
                return Err(e);
            },
        };
        let cmd = if same_text(tag.as_str(), "message") {
            let text = match take_required_text(raw.text) {
                Ok(s) => s,
                Err(e) => {
                    return Err(e);
                },
            };
            let copy = match take_optional_text(raw.copy) {
                Ok(s) => s,
                Err(e) => {
                    return Err(e);
                },
            };
            ServerCmd::Message { text, copy }
        } else if same_text(tag.as_str(), "game") {
            ServerCmd::GameId
        } else if same_text(tag.as_str(), "link") {
            match take_required_u32(raw.game) {
                Ok(game) => ServerCmd::Link { game },
                Err(e) => {
                    return Err(e);
                },
            }
        } else if same_text(tag.as_str(), "exit") {
            ServerCmd::Exit
        } else {
            ServerCmd::Invalid
        };
        Ok(ServerMessage { id, user, cmd })
    }
}

/// What a JSON value is to a frame.
pub open spec fn field_of_value(value: serde_json::Value) -> FieldView {
    if json_null(value) {
        FieldView::Null
    } else {
        match json_text(value) {
            Some(s) => FieldView::Text(s),
            None => match json_number(value) {
                Some(n) => FieldView::Number(n),
                None => FieldView::Other,
            },
        }
    }
}

/// What a JSON value holds under a key.
pub open spec fn field_of(doc: serde_json::Value, key: Seq<char>) -> FieldView {
    match json_member(doc, key) {
        None => FieldView::Absent,
        Some(m) => field_of_value(m),
    }
}

/// The sender that a JSON value holds under the key `user`.
pub open spec fn raw_user_of(doc: serde_json::Value) -> RawUserView {
    match json_member(doc, "user"@) {
        None => RawUserView::Absent,
        Some(u) => if json_null(u) {
            RawUserView::Absent
        } else if !json_object(u) {
            RawUserView::Invalid
        } else {
            RawUserView::Present { id: field_of(u, "id"@), name: field_of(u, "name"@) }
        },
    }
}

/// The members of a JSON value that a request can read.
pub open spec fn raw_frame_of(doc: serde_json::Value) -> RawFrameView {
    RawFrameView {
        id: field_of(doc, "id"@),
        user: raw_user_of(doc),
        cmd: field_of(doc, "cmd"@),
        text: field_of(doc, "text"@),
        copy: field_of(doc, "copy"@),
        game: field_of(doc, "game"@),
    }
}

/// The request that a text frame holds: the text is read as JSON, and the
/// members of the object that it holds are interpreted as [`decoded_frame`]
/// says. A text that is no JSON document, or holds another value than an
/// object, is malformed.
pub open spec fn decoded_text(text: Seq<char>) -> Result<ServerMessageView, DecodeError> {
    match json_document(text) {
        None => Err(DecodeError::Malformed),
        Some(doc) => if json_object(doc) {
            decoded_frame(raw_frame_of(doc))
        } else {
            Err(DecodeError::Malformed)
        },
    }
}

pub(crate) fn read_field(doc: &serde_json::Value, key: &str) -> (field: Field)
    ensures
        field@ == field_of(*doc, key@),
{
    match member(doc, key) {
        None => Field::Absent,
        Some(m) => {
            if is_null(m) {
                Field::Null
            } else {
                match text_of(m) {
                    Some(s) => Field::Text(s.to_owned()),
                    None => match number_of(m) {
                        Some(n) => Field::Number(n),
                        None => Field::Other,
                    },
                }
            }
        },
    }
}

fn read_user(doc: &serde_json::Value) -> (user: RawUser)
    ensures
        user@ == raw_user_of(*doc),
{
    match member(doc, "user") {
        None => RawUser::Absent,
        Some(u) => {
            if is_null(u) {
                RawUser::Absent
            } else if !is_object(u) {
                RawUser::Invalid
            } else {
                RawUser::Present { id: read_field(u, "id"), name: read_field(u, "name") }
            }
        },
    }
}

/// Decodes a text frame into a request. A discriminator that names no request
/// gives `Invalid`; only a text that is no JSON object, a missing member or a
/// member of the wrong type gives an error.
pub fn decode_server_message(text: &str) -> (outcome: Result<ServerMessage, DecodeError>)
    ensures
        decoded_view(outcome) == decoded_text(text@),
{
    match parse_document(text) {
        None => Err(DecodeError::Malformed),
        Some(doc) => {
            if !is_object(&doc) {
                return Err(DecodeError::Malformed);
            }
            let raw = RawFrame {
                id: read_field(&doc, "id"),
                user: read_user(&doc),
                cmd: read_field(&doc, "cmd"),
                text: read_field(&doc, "text"),
                copy: read_field(&doc, "copy"),
                game: read_field(&doc, "game"),
            };
            ServerMessage::from_raw(raw)
        },
    }
}

/// A frame with an id and a discriminator that names no request decodes to
/// `Invalid`, whatever else it holds, unless it holds a user that is none.
pub proof fn lemma_unknown_discriminator(raw: RawFrameView, id: Seq<char>, tag: Seq<char>)
    requires
        raw.id == FieldView::Text(id),
        raw.cmd == FieldView::Text(tag),
        decoded_user(raw.user) is Ok,
        tag != "message"@,
        tag != "game"@,
        tag != "link"@,
        tag != "exit"@,
    ensures
        decoded_frame(raw) == Ok::<ServerMessageView, DecodeError>(
            ServerMessageView {
                id,
                user: decoded_user(raw.user).unwrap(),
                cmd: ServerCmdView::Invalid,
            },
        ),
{
}

/// Decoding fails for three reasons only: the id, the discriminator or a
/// member that the selected request needs is absent or of the wrong type; or
/// the frame holds a user that is none. A frame with an id and without a user
/// that asks for the game id or for the exit always decodes.
pub proof fn lemma_decoding_succeeds(raw: RawFrameView, id: Seq<char>)
    requires
        raw.id == FieldView::Text(id),
        raw.user is Absent,
    ensures
        raw.cmd == FieldView::Text("game"@) ==> decoded_frame(raw) == Ok::<
            ServerMessageView,
            DecodeError,
        >(ServerMessageView { id, user: None, cmd: ServerCmdView::GameId }),
        raw.cmd == FieldView::Text("exit"@) ==> decoded_frame(raw) is Ok,
        raw.cmd == FieldView::Text("link"@) ==> (decoded_frame(raw) is Ok <==> required_u32(
            raw.game,
        ) is Ok),
        raw.cmd == FieldView::Text("message"@) ==> (decoded_frame(raw) is Ok <==> required_text(
            raw.text,
        ) is Ok && optional_text(raw.copy) is Ok),
        raw.cmd is Absent ==> decoded_frame(raw) == Err::<ServerMessageView, DecodeError>(
            DecodeError::MissingField,
        ),
{
    lemma_discriminators_differ();
}

/// The four discriminators are four different words.
pub proof fn lemma_discriminators_differ()
    ensures
        "message"@ != "game"@,
        "message"@ != "link"@,
        "message"@ != "exit"@,
        "game"@ != "link"@,
        "game"@ != "exit"@,
        "link"@ != "exit"@,
{
    reveal_strlit("message");
    reveal_strlit("game");
    reveal_strlit("link");
    reveal_strlit("exit");
    assert("message"@.len() == 7);
    assert("game"@[0] == 'g');
    assert("link"@[0] == 'l');
    assert("exit"@[0] == 'e');
}

/// The word that stands for an error status in a frame.
pub open spec fn status_word(code: ErrorStatus) -> Seq<char> {
    match code {
        ErrorStatus::InvalidCmd => "invalid_cmd"@,
        ErrorStatus::InvalidApp => "invalid_app"@,
        ErrorStatus::UnsupportedApp => "unsupported_app"@,
    }
}

/// The members that follow the id in a response frame: the discriminator and
/// what the response carries. `quoted_url` is the JSON string of the URL of a
/// link, and is read for a link only.
pub open spec fn frame_tail(cmd: ClientCmdView, quoted_url: Seq<char>) -> Seq<char> {
    match cmd {
        ClientCmdView::GameId { game } => "\"cmd\":\"game\",\"game\":"@ + decimal(game as nat),
        ClientCmdView::Link { url } => "\"cmd\":\"link\",\"url\":"@ + quoted_url,
        ClientCmdView::Error { code } => "\"cmd\":\"error\",\"code\":\""@ + status_word(code)
            + "\""@,
    }
}

/// A response frame: one JSON object that holds the id and then the tail.
pub open spec fn frame_text(quoted_id: Seq<char>, tail: Seq<char>) -> Seq<char> {
    "{\"id\":"@ + quoted_id + ","@ + tail + "}"@
}


/// The text frame of a response, `None` where one of its strings cannot be
/// written as JSON.
pub open spec fn encoded_text(msg: ClientMessageView) -> Option<Seq<char>> {
    match json_quoted(msg.id) {
        None => None,
        Some(id) => match msg.cmd {
            ClientCmdView::Link { url } => match json_quoted(url) {
                None => None,
                Some(u) => Some(frame_text(id, frame_tail(msg.cmd, u))),
            },
            _ => Some(frame_text(id, frame_tail(msg.cmd, Seq::empty()))),
        },
    }
}

fn status_text(code: ErrorStatus) -> (word: &'static str)
    ensures
        word@ == status_word(code),
{
    match code {
        ErrorStatus::InvalidCmd => "invalid_cmd",
        ErrorStatus::InvalidApp => "invalid_app",
        ErrorStatus::UnsupportedApp => "unsupported_app",
    }
}

impl ClientCmd {
    /// Writes the members that follow the id in a response frame.
    pub fn write_tail(&self, quoted_url: &str) -> (tail: String)
        ensures
            tail@ == frame_tail(self@, quoted_url@),
    {
        match self {
            ClientCmd::GameId { game } => {
                let mut tail = String::from_str("\"cmd\":\"game\",\"game\":");
                push_decimal(&mut tail, *game as u64);
                tail
            },
            ClientCmd::Link { url: _ } => {
                let mut tail = String::from_str("\"cmd\":\"link\",\"url\":");
                tail.append(quoted_url);
                tail
            },
            ClientCmd::Error { code } => {
                let mut tail = String::from_str("\"cmd\":\"error\",\"code\":\"");
                tail.append(status_text(*code));
                tail.append("\"");
                tail
            },
        }
    }
}

/// Writes a response frame from the JSON string of its id and its tail.
pub fn write_frame(quoted_id: &str, tail: &str) -> (frame: String)
    ensures
        frame@ == frame_text(quoted_id@, tail@),
{
    let mut frame = String::from_str("{\"id\":");
    frame.append(quoted_id);
    frame.append(",");
    frame.append(tail);
    frame.append("}");
    frame
}

/// Encodes a response as a text frame: a JSON object with the id of the
/// request, the discriminator, and what the response carries.
pub fn encode_client_message(msg: &ClientMessage) -> (frame: Option<String>)
    ensures
        opt_view(frame) == encoded_text(msg@),
{
    let quoted_id = match quote(msg.id.as_str()) {
        Some(q) => q,
        None => {
            return None;
        },
    };
    let tail = match &msg.cmd {
        ClientCmd::Link { url } => match quote(url.as_str()) {
            Some(quoted_url) => msg.cmd.write_tail(quoted_url.as_str()),
            None => {
                return None;
            },
        },
        _ => msg.cmd.write_tail(""),
    };
    Some(write_frame(quoted_id.as_str(), tail.as_str()))
}

} // verus!
