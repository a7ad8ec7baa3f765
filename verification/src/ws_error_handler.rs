//! Classification of a failed connection attempt or a broken stream: retry
//! after a wait, or end the session.

use crate::codec::{field_of, read_field, Field, FieldView};
use crate::json::{is_object, json_document, json_member, json_object, member, parse_document};
use crate::models::{
    ConnectionErrorMessage, ConnectionErrorMessageView, ConnectionErrorType,
    ConnectionErrorTypeView,
};
use crate::text::{decimal, indent_lines, indented, opt_view, push_decimal, same_text};
use vstd::prelude::*;

verus! {

/// The status of a rejection that asks the client to upgrade.
pub const UPGRADE_REQUIRED: u16 = 426;

/// The header in which the server says why it refused the handshake.
pub const ERROR_HEADER: &'static str = "X-Error";

/// A failure of the connection, as the transport reports it.
#[derive(Debug, Clone, PartialEq, Eq)]
pub enum ConnectionFailure {
    /// Connecting, or waiting for the next frame, took too long.
    TimedOut,
    /// The transport closed or reset the connection.
    Closed,
    /// The server refused the handshake with an HTTP status, and perhaps
    /// with a payload that says why: in the header [`ERROR_HEADER`], or in
    /// the body.
    Rejected { status: u16, header: Option<String>, body: Option<String> },
    /// Any other failure of the transport, with its cause in words.
    Other { cause: String },
}

/// [`ConnectionFailure`] as contracts see it, with its texts as sequences of characters.
pub enum ConnectionFailureView {
    TimedOut,
    Closed,
    Rejected { status: u16, header: Option<Seq<char>>, body: Option<Seq<char>> },
    Other { cause: Seq<char> },
}

impl View for ConnectionFailure {
    type V = ConnectionFailureView;

    open spec fn view(&self) -> ConnectionFailureView {
        match self {
            ConnectionFailure::TimedOut => ConnectionFailureView::TimedOut,
            ConnectionFailure::Closed => ConnectionFailureView::Closed,
            ConnectionFailure::Rejected {
                status,
                header,
                body,
            } => ConnectionFailureView::Rejected {
                status: *status,
                header: opt_view(*header),
                body: opt_view(*body),
            },
            ConnectionFailure::Other { cause } => ConnectionFailureView::Other { cause: cause@ },
        }
    }
}

/// Why a connection failed.
#[derive(Debug, Clone, PartialEq, Eq)]
pub enum Cause {
    /// Connecting or waiting took too long.
    TimedOut,
    /// The connection was closed or reset.
    Closed,
    /// The server asks for a newer client.
    Outdated { required: String, download: String },
    /// The server refused the client, with a message where it gave one.
    Refused { status: u16, message: Option<String> },
    /// The transport failed in another way.
    Transport { cause: String },
    /// A frame of the server could not be decoded.
    BadFrame,
    /// A response could not be written as a frame.
    BadReply,
}

/// [`Cause`] as contracts see it, with its texts as sequences of characters.
pub enum CauseView {
    TimedOut,
    Closed,
    Outdated { required: Seq<char>, download: Seq<char> },
    Refused { status: u16, message: Option<Seq<char>> },
    Transport { cause: Seq<char> },
    BadFrame,
    BadReply,
}

impl View for Cause {
    type V = CauseView;

    open spec fn view(&self) -> CauseView {
        match self {
            Cause::TimedOut => CauseView::TimedOut,
            Cause::Closed => CauseView::Closed,
            Cause::Outdated { required, download } => CauseView::Outdated {
                required: required@,
                download: download@,
            },
            Cause::Refused { status, message } => CauseView::Refused {
                status: *status,
                message: opt_view(*message),
            },
            Cause::Transport { cause } => CauseView::Transport { cause: cause@ },
            Cause::BadFrame => CauseView::BadFrame,
            Cause::BadReply => CauseView::BadReply,
        }
    }
}

/// The verdict on a failure.
#[derive(Debug, Clone, PartialEq, Eq)]
pub enum ConnectionOutcome {
    /// Wait, then connect again.
    Recoverable { reason: Cause },
    /// End the session.
    Fatal { reason: Cause },
}

/// [`ConnectionOutcome`] as contracts see it, with its texts as sequences of characters.
pub enum ConnectionOutcomeView {
    Recoverable { reason: CauseView },
    Fatal { reason: CauseView },
}

impl View for ConnectionOutcome {
    type V = ConnectionOutcomeView;

    open spec fn view(&self) -> ConnectionOutcomeView {
        match self {
            ConnectionOutcome::Recoverable { reason } => ConnectionOutcomeView::Recoverable {
                reason: reason@,
            },
            ConnectionOutcome::Fatal { reason } => ConnectionOutcomeView::Fatal { reason: reason@ },
        }
    }
}

/// The members of a rejection payload that the classifier reads.
#[derive(Debug, Clone, PartialEq, Eq)]
pub struct RawRejection {
    /// The member `message`.
    pub message: Field,
    /// The members `tag`, `required` and `download` of the member `error`.
    pub tag: Field,
    pub required: Field,
    pub download: Field,
    /// The members `required` and `download` of the payload itself.
    pub upgrade_required: Field,
    pub upgrade_download: Field,
}

/// [`RawRejection`] as contracts see it, with its texts as sequences of characters.
pub struct RawRejectionView {
    pub message: FieldView,
    pub tag: FieldView,
    pub required: FieldView,
    pub download: FieldView,
    pub upgrade_required: FieldView,
    pub upgrade_download: FieldView,
}

impl View for RawRejection {
    type V = RawRejectionView;

    open spec fn view(&self) -> RawRejectionView {
        RawRejectionView {
            message: self.message@,
            tag: self.tag@,
            required: self.required@,
            download: self.download@,
            upgrade_required: self.upgrade_required@,
            upgrade_download: self.upgrade_download@,
        }
    }
}

/// The text of a field that holds one.
pub open spec fn text_in(field: FieldView) -> Option<Seq<char>> {
    match field {
        FieldView::Text(s) => Some(s),
        _ => None,
    }
}

/// What a payload says of the client's version. The client is outdated where
/// the error is tagged `outdated` and names the required version and the
/// download location, or where the status asks for an upgrade and the payload
/// itself names the two.
pub open spec fn rejection_error(status: u16, raw: RawRejectionView) -> ConnectionErrorTypeView {
    if text_in(raw.tag) == Some("outdated"@) && text_in(raw.required) is Some && text_in(
        raw.download,
    ) is Some {
        ConnectionErrorTypeView::Outdated {
            required: text_in(raw.required).unwrap(),
            download: text_in(raw.download).unwrap(),
        }
    } else if status == UPGRADE_REQUIRED && text_in(raw.upgrade_required) is Some && text_in(
        raw.upgrade_download,
    ) is Some {
        ConnectionErrorTypeView::Outdated {
            required: text_in(raw.upgrade_required).unwrap(),
            download: text_in(raw.upgrade_download).unwrap(),
        }
    } else {
        ConnectionErrorTypeView::Other
    }
}

/// What a payload says: its message, if it holds one, and its error.
pub open spec fn rejection_message(status: u16, raw: RawRejectionView) -> ConnectionErrorMessageView {
    ConnectionErrorMessageView {
        message: text_in(raw.message),
        error: rejection_error(status, raw),
    }
}

/// The verdict on a rejection, from its status and from what its payload
/// says, if it came with one that could be read.
pub open spec fn rejection_outcome(
    status: u16,
    said: Option<ConnectionErrorMessageView>,
) -> ConnectionOutcomeView {
    match said {
        Some(msg) => match msg.error {
            ConnectionErrorTypeView::Outdated { required, download } => ConnectionOutcomeView::Fatal {
                reason: CauseView::Outdated { required, download },
            },
            ConnectionErrorTypeView::Other => ConnectionOutcomeView::Fatal {
                reason: CauseView::Refused { status, message: msg.message },
            },
        },
        None => ConnectionOutcomeView::Fatal {
            reason: CauseView::Refused { status, message: None },
        },
    }
}

/// The members of a JSON value that the classifier reads.
pub open spec fn raw_rejection_of(doc: serde_json::Value) -> RawRejectionView {
    let error = json_member(doc, "error"@);
    RawRejectionView {
        message: field_of(doc, "message"@),
        tag: match error {
            Some(e) => field_of(e, "tag"@),
            None => FieldView::Absent,
        },
        required: match error {
            Some(e) => field_of(e, "required"@),
            None => FieldView::Absent,
        },
        download: match error {
            Some(e) => field_of(e, "download"@),
            None => FieldView::Absent,
        },
        upgrade_required: field_of(doc, "required"@),
        upgrade_download: field_of(doc, "download"@),
    }
}

/// What a payload says, `None` for a payload that is no JSON object.
pub open spec fn payload_message(status: u16, payload: Seq<char>) -> Option<
    ConnectionErrorMessageView,
> {
    match json_document(payload) {
        Some(doc) => if json_object(doc) {
            Some(rejection_message(status, raw_rejection_of(doc)))
        } else {
            None
        },
        None => None,
    }
}

/// What a rejection says: what its header says, if it has one that says
/// anything, else what its body says.
pub open spec fn rejection_said(
    status: u16,
    header: Option<Seq<char>>,
    body: Option<Seq<char>>,
) -> Option<ConnectionErrorMessageView> {
    if header is Some && payload_message(status, header.unwrap()) is Some {
        payload_message(status, header.unwrap())
    } else if body is Some {
        payload_message(status, body.unwrap())
    } else {
        None
    }
}

/// The verdict on a failure. Timeouts and closed connections are recoverable;
/// everything else is fatal.
pub open spec fn outcome_of(failure: ConnectionFailureView) -> ConnectionOutcomeView {
    match failure {
        ConnectionFailureView::TimedOut => ConnectionOutcomeView::Recoverable {
            reason: CauseView::TimedOut,
        },
        ConnectionFailureView::Closed => ConnectionOutcomeView::Recoverable {
            reason: CauseView::Closed,
        },
        ConnectionFailureView::Rejected { status, header, body } => rejection_outcome(
            status,
            rejection_said(status, header, body),
        ),
        ConnectionFailureView::Other { cause } => ConnectionOutcomeView::Fatal {
            reason: CauseView::Transport { cause },
        },
    }
}

/// The view of a cause that may be absent.
pub open spec fn opt_cause_view(cause: Option<Cause>) -> Option<CauseView> {
    match cause {
        Some(c) => Some(c@),
        None => None,
    }
}

/// The view of a message that may be absent.
pub open spec fn opt_message_view(said: Option<ConnectionErrorMessage>) -> Option<
    ConnectionErrorMessageView,
> {
    match said {
        Some(m) => Some(m@),
        None => None,
    }
}

fn take_text(field: Field) -> (text: Option<String>)
    ensures
        opt_view(text) == text_in(field@),
{
    match field {
        Field::Text(s) => Some(s),
        _ => None,
    }
}

impl ConnectionErrorMessage {
    /// Interprets the members of a rejection payload.
    pub fn from_raw(status: u16, raw: RawRejection) -> (said: ConnectionErrorMessage)
        ensures
            said@ == rejection_message(status, raw@),
    {
        let message = take_text(raw.message);
        let tagged = match &raw.tag {
            Field::Text(tag) => same_text(tag.as_str(), "outdated"),
            _ => false,
        };
        if tagged {
            match (take_text(raw.required), take_text(raw.download)) {
                (Some(required), Some(download)) => {
                    return ConnectionErrorMessage {
                        message,
                        error: ConnectionErrorType::Outdated { required, download },
                    };
                },
                _ => {},
            }
        }
        if status == UPGRADE_REQUIRED {
            match (take_text(raw.upgrade_required), take_text(raw.upgrade_download)) {
                (Some(required), Some(download)) => {
                    return ConnectionErrorMessage {
                        message,
                        error: ConnectionErrorType::Outdated { required, download },
                    };
                },
                _ => {},
            }
        }
        ConnectionErrorMessage { message, error: ConnectionErrorType::Other }
    }

    /// Reads the payload of a rejection. A payload that is no JSON object
    /// says nothing.
    pub fn parse(status: u16, payload: &str) -> (said: Option<ConnectionErrorMessage>)
        ensures
            opt_message_view(said) == payload_message(status, payload@),
    {
        match parse_document(payload) {
            None => None,
            Some(doc) => {
                if !is_object(&doc) {
                    return None;
                }
                let (tag, required, download) = match member(&doc, "error") {
                    Some(e) => (
                        read_field(e, "tag"),
                        read_field(e, "required"),
                        read_field(e, "download"),
                    ),
                    None => (Field::Absent, Field::Absent, Field::Absent),
                };
                let raw = RawRejection {
                    message: read_field(&doc, "message"),
                    tag,
                    required,
                    download,
                    upgrade_required: read_field(&doc, "required"),
                    upgrade_download: read_field(&doc, "download"),
                };
                Some(ConnectionErrorMessage::from_raw(status, raw))
            },
        }
    }
}

/// The verdict on a rejection, from its status and from what its payload
/// says: always fatal, for an outdated client where the payload says so.
pub fn classify_rejection(status: u16, said: Option<ConnectionErrorMessage>) -> (outcome:
    ConnectionOutcome)
    ensures
        outcome@ == rejection_outcome(status, opt_message_view(said)),
{
    match said {
        Some(msg) => match msg.error {
            ConnectionErrorType::Outdated { required, download } => ConnectionOutcome::Fatal {
                reason: Cause::Outdated { required, download },
            },
            ConnectionErrorType::Other => ConnectionOutcome::Fatal {
                reason: Cause::Refused { status, message: msg.message },
            },
        },
        None => ConnectionOutcome::Fatal { reason: Cause::Refused { status, message: None } },
    }
}

/// Handle WebSocket errors: the verdict on a failure of the connection.
pub fn handle_ws_error(err: ConnectionFailure) -> (outcome: ConnectionOutcome)
    ensures
        outcome@ == outcome_of(err@),
{
    match err {
        ConnectionFailure::TimedOut => ConnectionOutcome::Recoverable { reason: Cause::TimedOut },
        ConnectionFailure::Closed => ConnectionOutcome::Recoverable { reason: Cause::Closed },
        ConnectionFailure::Rejected { status, header, body } => {
            let in_header = match header {
                Some(text) => ConnectionErrorMessage::parse(status, text.as_str()),
                None => None,
            };
            let said = match in_header {
                Some(said) => Some(said),
                None => match body {
                    Some(text) => ConnectionErrorMessage::parse(status, text.as_str()),
                    None => None,
                },
            };
            classify_rejection(status, said)
        },
        ConnectionFailure::Other { cause } => ConnectionOutcome::Fatal {
            reason: Cause::Transport { cause },
        },
    }
}

/// What the user is told of a cause. `version` is the client's own version.
pub open spec fn cause_text(cause: CauseView, version: Seq<char>) -> Seq<char> {
    match cause {
        CauseView::TimedOut => "\u{2613} Connection timed out"@,
        CauseView::Closed => "\u{2613} Connection closed"@,
        CauseView::Outdated { required, download } => "\n\u{2191} Update required: "@ + version
            + " to "@ + required + "\n  Download: "@ + download + "\n"@,
        CauseView::Refused { status, message } => match message {
            Some(m) => "\n\u{2613} Connection error:\n"@ + indented(m) + "\n"@,
            None => "\u{2613} HTTP error: "@ + decimal(status as nat),
        },
        CauseView::Transport { cause } => "\u{2613} "@ + cause,
        CauseView::BadFrame => "\u{2613} Failed to deserialize JSON message from the server"@,
        CauseView::BadReply => "\u{2613} Failed to serialize JSON message for the server"@,
    }
}

impl Cause {
    /// What the user is told of the cause. `version` is the client's own
    /// version.
    pub fn describe(&self, version: &str) -> (text: String)
        ensures
            text@ == cause_text(self@, version@),
    {
        match self {
            Cause::TimedOut => String::from_str("\u{2613} Connection timed out"),
            Cause::Closed => String::from_str("\u{2613} Connection closed"),
            Cause::Outdated { required, download } => {
                let mut text = String::from_str("\n\u{2191} Update required: ");
                text.append(version);
                text.append(" to ");
                text.append(required.as_str());
                text.append("\n  Download: ");
                text.append(download.as_str());
                text.append("\n");
                text
            },
            Cause::Refused { status, message } => match message {
                Some(m) => {
                    let mut text = String::from_str("\n\u{2613} Connection error:\n");
                    let shown = indent_lines(m.as_str());
                    text.append(shown.as_str());
                    text.append("\n");
                    text
                },
                None => {
                    let mut text = String::from_str("\u{2613} HTTP error: ");
                    push_decimal(&mut text, *status as u64);
                    text
                },
            },
            Cause::Transport { cause } => {
                let mut text = String::from_str("\u{2613} ");
                text.append(cause.as_str());
                text
            },
            Cause::BadFrame => String::from_str(
                "\u{2613} Failed to deserialize JSON message from the server",
            ),
            Cause::BadReply => String::from_str(
                "\u{2613} Failed to serialize JSON message for the server",
            ),
        }
    }
}

/// The location to open in a browser: the download location of a newer
/// client, where the cause is that this one is outdated.
pub open spec fn download_of(cause: CauseView) -> Option<Seq<char>> {
    match cause {
        CauseView::Outdated { required, download } => Some(download),
        _ => None,
    }
}

impl Cause {
    /// The location to open in a browser, if the cause names one. Opening
    /// it is best effort: a failure to do so is ignored.
    pub fn download(&self) -> (location: Option<String>)
        ensures
            opt_view(location) == download_of(self@),
    {
        match self {
            Cause::Outdated { required: _, download } => Some(download.clone()),
            _ => None,
        }
    }
}

impl ConnectionOutcome {
    /// Whether the verdict is to wait and connect again.
    pub fn is_recoverable(&self) -> (recoverable: bool)
        ensures
            recoverable == self@ is Recoverable,
    {
        match self {
            ConnectionOutcome::Recoverable { .. } => true,
            ConnectionOutcome::Fatal { .. } => false,
        }
    }
}

/// A timeout and a closed connection are recoverable.
pub proof fn lemma_timeout_recoverable()
    ensures
        outcome_of(ConnectionFailureView::TimedOut) is Recoverable,
        outcome_of(ConnectionFailureView::Closed) is Recoverable,
{
}

/// Every rejection is fatal, whatever its status and payload, and so is
/// every other failure of the transport.
pub proof fn lemma_rejection_fatal(
    status: u16,
    header: Option<Seq<char>>,
    body: Option<Seq<char>>,
    cause: Seq<char>,
)
    ensures
        outcome_of(ConnectionFailureView::Rejected { status, header, body }) is Fatal,
        outcome_of(ConnectionFailureView::Other { cause }) is Fatal,
{
}

} // verus!
