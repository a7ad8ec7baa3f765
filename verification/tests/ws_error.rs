use remoteplay_inviter::codec::Field;
use remoteplay_inviter::models::{ConnectionErrorMessage, ConnectionErrorType};
use remoteplay_inviter::ws_error_handler::{
    classify_rejection, handle_ws_error, Cause, ConnectionFailure, ConnectionOutcome,
    RawRejection, ERROR_HEADER, UPGRADE_REQUIRED,
};

fn rejected(status: u16, payload: &str) -> ConnectionFailure {
    ConnectionFailure::Rejected { status, header: Some(String::from(payload)), body: None }
}

fn outdated(required: &str, download: &str) -> ConnectionOutcome {
    ConnectionOutcome::Fatal {
        reason: Cause::Outdated {
            required: String::from(required),
            download: String::from(download),
        },
    }
}

fn refused(status: u16, message: Option<&str>) -> ConnectionOutcome {
    ConnectionOutcome::Fatal {
        reason: Cause::Refused { status, message: message.map(String::from) },
    }
}

#[test]
fn outdated_rejection_is_fatal_with_the_required_version() {
    let outcome = handle_ws_error(rejected(
        400,
        r#"{"error":{"tag":"outdated","required":"2.0","download":"http://d"}}"#,
    ));
    assert_eq!(outcome, outdated("2.0", "http://d"));
    assert!(!outcome.is_recoverable());
    match outcome {
        ConnectionOutcome::Fatal { reason } => {
            assert_eq!(reason.download(), Some(String::from("http://d")))
        }
        other => panic!("not fatal: {:?}", other),
    }
}

#[test]
fn rejection_with_a_message_is_fatal_with_that_message() {
    let outcome = handle_ws_error(rejected(400, r#"{"message":"blocked"}"#));
    assert_eq!(outcome, refused(400, Some("blocked")));
    assert_eq!(Cause::Refused { status: 400, message: None }.download(), None);
    assert_eq!(Cause::TimedOut.download(), None);
}

#[test]
fn timeouts_and_closed_connections_are_recoverable() {
    let timed_out = handle_ws_error(ConnectionFailure::TimedOut);
    assert_eq!(timed_out, ConnectionOutcome::Recoverable { reason: Cause::TimedOut });
    assert!(timed_out.is_recoverable());
    let closed = handle_ws_error(ConnectionFailure::Closed);
    assert_eq!(closed, ConnectionOutcome::Recoverable { reason: Cause::Closed });
    assert!(closed.is_recoverable());
}

#[test]
fn rejection_with_another_tag_shows_the_message() {
    assert_eq!(
        handle_ws_error(rejected(403, r#"{"message":"banned","error":{"tag":"banned"}}"#)),
        refused(403, Some("banned"))
    );
    assert_eq!(handle_ws_error(rejected(403, r#"{"error":{"tag":"banned"}}"#)), refused(403, None));
    assert_eq!(
        handle_ws_error(rejected(400, r#"{"message":null,"error":{"tag":"other"}}"#)),
        refused(400, None)
    );
}

#[test]
fn rejection_without_a_readable_payload_shows_the_status() {
    assert_eq!(
        handle_ws_error(ConnectionFailure::Rejected { status: 503, header: None, body: None }),
        refused(503, None)
    );
    assert_eq!(handle_ws_error(rejected(400, "<html>no</html>")), refused(400, None));
    assert_eq!(handle_ws_error(rejected(400, "")), refused(400, None));
    assert_eq!(handle_ws_error(rejected(400, "[]")), refused(400, None));
}

#[test]
fn payload_is_read_from_the_header_and_else_from_the_body() {
    let blocked = Some(String::from(r#"{"message":"blocked"}"#));
    let busy = Some(String::from(r#"{"message":"busy"}"#));
    let junk = Some(String::from("junk"));
    assert_eq!(
        handle_ws_error(ConnectionFailure::Rejected { status: 400, header: None, body: blocked.clone() }),
        refused(400, Some("blocked"))
    );
    assert_eq!(
        handle_ws_error(ConnectionFailure::Rejected {
            status: 400,
            header: busy.clone(),
            body: blocked.clone()
        }),
        refused(400, Some("busy"))
    );
    assert_eq!(
        handle_ws_error(ConnectionFailure::Rejected { status: 400, header: junk.clone(), body: blocked }),
        refused(400, Some("blocked"))
    );
    assert_eq!(
        handle_ws_error(ConnectionFailure::Rejected { status: 400, header: busy, body: junk }),
        refused(400, Some("busy"))
    );
    assert_eq!(ERROR_HEADER, "X-Error");
}

#[test]
fn outdated_needs_both_the_version_and_the_location() {
    assert_eq!(
        handle_ws_error(rejected(400, r#"{"message":"old","error":{"tag":"outdated","required":"2.0"}}"#)),
        refused(400, Some("old"))
    );
    assert_eq!(
        handle_ws_error(rejected(400, r#"{"error":{"tag":"outdated","required":2,"download":"d"}}"#)),
        refused(400, None)
    );
}

#[test]
fn upgrade_required_payload_is_outdated() {
    assert_eq!(
        handle_ws_error(rejected(426, r#"{"required":"3.1","download":"http://up"}"#)),
        outdated("3.1", "http://up")
    );
    assert_eq!(
        handle_ws_error(rejected(400, r#"{"required":"3.1","download":"http://up"}"#)),
        refused(400, None)
    );
    assert_eq!(
        handle_ws_error(rejected(
            426,
            r#"{"required":"3.1","download":"a","error":{"tag":"outdated","required":"3.2","download":"b"}}"#
        )),
        outdated("3.2", "b")
    );
    assert_eq!(UPGRADE_REQUIRED, 426);
}

#[test]
fn other_transport_errors_are_fatal_with_their_cause() {
    assert_eq!(
        handle_ws_error(ConnectionFailure::Other { cause: String::from("tls handshake failed") }),
        ConnectionOutcome::Fatal {
            reason: Cause::Transport { cause: String::from("tls handshake failed") }
        }
    );
}

#[test]
fn payload_members_are_interpreted_from_plain_values() {
    let absent = || RawRejection {
        message: Field::Absent,
        tag: Field::Absent,
        required: Field::Absent,
        download: Field::Absent,
        upgrade_required: Field::Absent,
        upgrade_download: Field::Absent,
    };
    assert_eq!(
        ConnectionErrorMessage::from_raw(400, absent()),
        ConnectionErrorMessage { message: None, error: ConnectionErrorType::Other }
    );
    let mut raw = absent();
    raw.message = Field::Text(String::from("m"));
    raw.tag = Field::Text(String::from("outdated"));
    raw.required = Field::Text(String::from("2.0"));
    raw.download = Field::Text(String::from("http://d"));
    assert_eq!(
        ConnectionErrorMessage::from_raw(400, raw.clone()),
        ConnectionErrorMessage {
            message: Some(String::from("m")),
            error: ConnectionErrorType::Outdated {
                required: String::from("2.0"),
                download: String::from("http://d"),
            },
        }
    );
    raw.tag = Field::Text(String::from("Outdated"));
    assert_eq!(
        ConnectionErrorMessage::from_raw(400, raw.clone()),
        ConnectionErrorMessage { message: Some(String::from("m")), error: ConnectionErrorType::Other }
    );
    raw.message = Field::Number(3);
    raw.upgrade_required = Field::Text(String::from("9"));
    raw.upgrade_download = Field::Text(String::from("up"));
    assert_eq!(
        ConnectionErrorMessage::from_raw(400, raw.clone()),
        ConnectionErrorMessage { message: None, error: ConnectionErrorType::Other }
    );
    assert_eq!(
        ConnectionErrorMessage::from_raw(426, raw),
        ConnectionErrorMessage {
            message: None,
            error: ConnectionErrorType::Outdated {
                required: String::from("9"),
                download: String::from("up"),
            },
        }
    );
}

#[test]
fn parse_reads_json_only() {
    assert_eq!(ConnectionErrorMessage::parse(400, "nope"), None);
    assert_eq!(ConnectionErrorMessage::parse(400, "[]"), None);
    assert_eq!(ConnectionErrorMessage::parse(400, "\"blocked\""), None);
    assert_eq!(
        ConnectionErrorMessage::parse(400, "{}"),
        Some(ConnectionErrorMessage { message: None, error: ConnectionErrorType::Other })
    );
    assert_eq!(
        ConnectionErrorMessage::parse(400, r#"{"message":"hi","error":"outdated"}"#),
        Some(ConnectionErrorMessage {
            message: Some(String::from("hi")),
            error: ConnectionErrorType::Other
        })
    );
}

#[test]
fn classify_rejection_from_plain_values() {
    assert_eq!(classify_rejection(404, None), refused(404, None));
    assert_eq!(
        classify_rejection(
            400,
            Some(ConnectionErrorMessage {
                message: Some(String::from("ignored when outdated")),
                error: ConnectionErrorType::Outdated {
                    required: String::from("2.0"),
                    download: String::from("http://d"),
                },
            })
        ),
        outdated("2.0", "http://d")
    );
    assert_eq!(
        classify_rejection(
            400,
            Some(ConnectionErrorMessage {
                message: Some(String::from("blocked")),
                error: ConnectionErrorType::Other
            })
        ),
        refused(400, Some("blocked"))
    );
}

#[test]
fn causes_in_words() {
    assert_eq!(Cause::TimedOut.describe("1.0"), "\u{2613} Connection timed out");
    assert_eq!(Cause::Closed.describe("1.0"), "\u{2613} Connection closed");
    assert_eq!(
        Cause::Outdated { required: String::from("2.0"), download: String::from("http://d") }
            .describe("1.4.2"),
        "\n\u{2191} Update required: 1.4.2 to 2.0\n  Download: http://d\n"
    );
    assert_eq!(
        Cause::Refused { status: 400, message: Some(String::from("blocked\nfor good")) }
            .describe("1.0"),
        "\n\u{2613} Connection error:\n  blocked\n  for good\n"
    );
    assert_eq!(
        Cause::Refused { status: 503, message: None }.describe("1.0"),
        "\u{2613} HTTP error: 503"
    );
    assert_eq!(
        Cause::Transport { cause: String::from("boom") }.describe("1.0"),
        "\u{2613} boom"
    );
    assert_eq!(
        Cause::BadFrame.describe("1.0"),
        "\u{2613} Failed to deserialize JSON message from the server"
    );
    assert_eq!(
        Cause::BadReply.describe("1.0"),
        "\u{2613} Failed to serialize JSON message for the server"
    );
}
