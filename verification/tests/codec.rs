use remoteplay_inviter::codec::{
    decode_server_message, encode_client_message, write_frame, DecodeError, Field, RawFrame,
    RawUser,
};
use remoteplay_inviter::models::{
    ClientCmd, ClientMessage, ErrorStatus, ServerCmd, ServerMessage, User,
};

fn text(s: &str) -> Field {
    Field::Text(String::from(s))
}

fn bare(id: Field, cmd: Field) -> RawFrame {
    RawFrame {
        id,
        user: RawUser::Absent,
        cmd,
        text: Field::Absent,
        copy: Field::Absent,
        game: Field::Absent,
    }
}

fn request(id: &str, cmd: ServerCmd) -> ServerMessage {
    ServerMessage { id: String::from(id), user: None, cmd }
}

#[test]
fn unknown_discriminator_decodes_to_invalid() {
    assert_eq!(
        decode_server_message(r#"{"id":"x","cmd":"bogus"}"#),
        Ok(request("x", ServerCmd::Invalid))
    );
    assert_eq!(
        decode_server_message(r#"{"id":"x","cmd":""}"#),
        Ok(request("x", ServerCmd::Invalid))
    );
    assert_eq!(
        decode_server_message(r#"{"id":"x","cmd":"GAME"}"#),
        Ok(request("x", ServerCmd::Invalid))
    );
}

#[test]
fn decodes_each_request() {
    assert_eq!(
        decode_server_message(r#"{"id":"y","cmd":"game"}"#),
        Ok(request("y", ServerCmd::GameId))
    );
    assert_eq!(
        decode_server_message(r#"{"id":"1","cmd":"link","game":730}"#),
        Ok(request("1", ServerCmd::Link { game: 730 }))
    );
    assert_eq!(
        decode_server_message(r#"{"id":"e","cmd":"exit"}"#),
        Ok(request("e", ServerCmd::Exit))
    );
    assert_eq!(
        decode_server_message(r#"{"id":"m","cmd":"message","text":"hi\nthere","copy":"c"}"#),
        Ok(request(
            "m",
            ServerCmd::Message { text: String::from("hi\nthere"), copy: Some(String::from("c")) }
        ))
    );
}

#[test]
fn copy_is_optional() {
    let without = request("m", ServerCmd::Message { text: String::from("hi"), copy: None });
    assert_eq!(decode_server_message(r#"{"id":"m","cmd":"message","text":"hi"}"#), Ok(without.clone()));
    assert_eq!(
        decode_server_message(r#"{"id":"m","cmd":"message","text":"hi","copy":null}"#),
        Ok(without)
    );
}

#[test]
fn decodes_the_user() {
    let expected = ServerMessage {
        id: String::from("3"),
        user: Some(User { id: String::from("u1"), name: String::from("Ann") }),
        cmd: ServerCmd::Exit,
    };
    assert_eq!(
        decode_server_message(r#"{"id":"3","user":{"id":"u1","name":"Ann"},"cmd":"exit"}"#),
        Ok(expected)
    );
    assert_eq!(
        decode_server_message(r#"{"user":null,"cmd":"exit","id":"3"}"#),
        Ok(request("3", ServerCmd::Exit))
    );
}

#[test]
fn members_in_any_order_and_unknown_members() {
    assert_eq!(
        decode_server_message(r#" { "game" : 4294967295 , "extra" : [1, {"a": null}], "cmd" : "link", "id" : "z" } "#),
        Ok(request("z", ServerCmd::Link { game: u32::MAX }))
    );
}

#[test]
fn members_that_the_request_does_not_read_are_not_checked() {
    assert_eq!(
        decode_server_message(r#"{"id":"x","cmd":"game","text":5,"game":"no","copy":[]}"#),
        Ok(request("x", ServerCmd::GameId))
    );
}

#[test]
fn text_that_is_no_json_is_malformed() {
    assert_eq!(decode_server_message("not json"), Err(DecodeError::Malformed));
    assert_eq!(decode_server_message(""), Err(DecodeError::Malformed));
    assert_eq!(decode_server_message(r#"{"id":"x","cmd":"game""#), Err(DecodeError::Malformed));
    assert_eq!(decode_server_message(r#"{"id":"x","cmd":"game"} trailing"#), Err(DecodeError::Malformed));
}

#[test]
fn missing_members_are_reported() {
    assert_eq!(decode_server_message(r#"{"cmd":"game"}"#), Err(DecodeError::MissingField));
    assert_eq!(decode_server_message(r#"{"id":"x"}"#), Err(DecodeError::MissingField));
    assert_eq!(decode_server_message(r#"{"id":"x","cmd":"link"}"#), Err(DecodeError::MissingField));
    assert_eq!(decode_server_message(r#"{"id":"x","cmd":"message"}"#), Err(DecodeError::MissingField));
    assert_eq!(
        decode_server_message(r#"{"id":"x","cmd":"message","copy":"c"}"#),
        Err(DecodeError::MissingField)
    );
    assert_eq!(
        decode_server_message(r#"{"id":"x","user":{"id":"u"},"cmd":"game"}"#),
        Err(DecodeError::MissingField)
    );
    assert_eq!(decode_server_message("{}"), Err(DecodeError::MissingField));
}

#[test]
fn json_that_is_no_object_is_malformed() {
    assert_eq!(decode_server_message("[1,2]"), Err(DecodeError::Malformed));
    assert_eq!(decode_server_message("7"), Err(DecodeError::Malformed));
    assert_eq!(decode_server_message("null"), Err(DecodeError::Malformed));
    assert_eq!(decode_server_message(r#""game""#), Err(DecodeError::Malformed));
}

#[test]
fn members_of_the_wrong_type_are_malformed() {
    assert_eq!(decode_server_message(r#"{"id":5,"cmd":"game"}"#), Err(DecodeError::Malformed));
    assert_eq!(decode_server_message(r#"{"id":null,"cmd":"game"}"#), Err(DecodeError::Malformed));
    assert_eq!(decode_server_message(r#"{"id":"x","cmd":7}"#), Err(DecodeError::Malformed));
    assert_eq!(
        decode_server_message(r#"{"id":"x","cmd":"link","game":"7"}"#),
        Err(DecodeError::Malformed)
    );
    assert_eq!(
        decode_server_message(r#"{"id":"x","cmd":"link","game":4294967296}"#),
        Err(DecodeError::Malformed)
    );
    assert_eq!(
        decode_server_message(r#"{"id":"x","cmd":"link","game":-1}"#),
        Err(DecodeError::Malformed)
    );
    assert_eq!(
        decode_server_message(r#"{"id":"x","cmd":"link","game":1.5}"#),
        Err(DecodeError::Malformed)
    );
    assert_eq!(
        decode_server_message(r#"{"id":"x","cmd":"message","text":"t","copy":3}"#),
        Err(DecodeError::Malformed)
    );
    assert_eq!(
        decode_server_message(r#"{"id":"x","user":{"id":"u","name":1},"cmd":"game"}"#),
        Err(DecodeError::Malformed)
    );
    assert_eq!(
        decode_server_message(r#"{"id":"x","user":"Ann","cmd":"game"}"#),
        Err(DecodeError::Malformed)
    );
    assert_eq!(
        decode_server_message(r#"{"id":"x","user":[],"cmd":"game"}"#),
        Err(DecodeError::Malformed)
    );
}

#[test]
fn the_first_failing_member_decides() {
    assert_eq!(decode_server_message(r#"{"id":5}"#), Err(DecodeError::Malformed));
    assert_eq!(decode_server_message(r#"{"user":{"id":1}}"#), Err(DecodeError::MissingField));
    assert_eq!(
        decode_server_message(r#"{"id":"x","user":{"name":3},"cmd":4}"#),
        Err(DecodeError::MissingField)
    );
}

#[test]
fn from_raw_interprets_plain_members() {
    assert_eq!(
        ServerMessage::from_raw(bare(text("x"), text("bogus"))),
        Ok(request("x", ServerCmd::Invalid))
    );
    assert_eq!(
        ServerMessage::from_raw(bare(text("x"), text("game"))),
        Ok(request("x", ServerCmd::GameId))
    );
    assert_eq!(ServerMessage::from_raw(bare(Field::Absent, text("game"))), Err(DecodeError::MissingField));
    assert_eq!(ServerMessage::from_raw(bare(Field::Null, text("game"))), Err(DecodeError::Malformed));
    assert_eq!(ServerMessage::from_raw(bare(text("x"), Field::Number(1))), Err(DecodeError::Malformed));
    assert_eq!(ServerMessage::from_raw(bare(text("x"), Field::Other)), Err(DecodeError::Malformed));
    let mut link = bare(text("x"), text("link"));
    link.game = Field::Number(730);
    assert_eq!(ServerMessage::from_raw(link.clone()), Ok(request("x", ServerCmd::Link { game: 730 })));
    link.game = Field::Number(1 << 32);
    assert_eq!(ServerMessage::from_raw(link.clone()), Err(DecodeError::Malformed));
    link.game = Field::Null;
    assert_eq!(ServerMessage::from_raw(link), Err(DecodeError::Malformed));
    let mut message = bare(text("m"), text("message"));
    message.text = text("hello");
    message.copy = Field::Null;
    let mut odd = bare(text("x"), text("game"));
    odd.user = RawUser::Invalid;
    assert_eq!(ServerMessage::from_raw(odd), Err(DecodeError::Malformed));
    message.user = RawUser::Present { id: text("u"), name: text("Bo") };
    assert_eq!(
        ServerMessage::from_raw(message),
        Ok(ServerMessage {
            id: String::from("m"),
            user: Some(User { id: String::from("u"), name: String::from("Bo") }),
            cmd: ServerCmd::Message { text: String::from("hello"), copy: None },
        })
    );
}

#[test]
fn encodes_each_error_status() {
    let reply = |code| ClientMessage { id: String::from("x"), cmd: ClientCmd::Error { code } };
    assert_eq!(
        encode_client_message(&reply(ErrorStatus::InvalidCmd)).as_deref(),
        Some(r#"{"id":"x","cmd":"error","code":"invalid_cmd"}"#)
    );
    assert_eq!(
        encode_client_message(&reply(ErrorStatus::InvalidApp)).as_deref(),
        Some(r#"{"id":"x","cmd":"error","code":"invalid_app"}"#)
    );
    assert_eq!(
        encode_client_message(&reply(ErrorStatus::UnsupportedApp)).as_deref(),
        Some(r#"{"id":"x","cmd":"error","code":"unsupported_app"}"#)
    );
}

#[test]
fn encodes_a_game_id() {
    let reply = ClientMessage { id: String::from("g"), cmd: ClientCmd::GameId { game: 730 } };
    assert_eq!(encode_client_message(&reply).as_deref(), Some(r#"{"id":"g","cmd":"game","game":730}"#));
    let reply = ClientMessage { id: String::from("g"), cmd: ClientCmd::GameId { game: u32::MAX } };
    assert_eq!(
        encode_client_message(&reply).as_deref(),
        Some(r#"{"id":"g","cmd":"game","game":4294967295}"#)
    );
}

#[test]
fn encodes_a_link() {
    let reply = ClientMessage {
        id: String::from("1"),
        cmd: ClientCmd::Link { url: String::from("https://join/abc") },
    };
    assert_eq!(
        encode_client_message(&reply).as_deref(),
        Some(r#"{"id":"1","cmd":"link","url":"https://join/abc"}"#)
    );
}

#[test]
fn encoding_escapes_strings_as_json_does() {
    let reply = ClientMessage {
        id: String::from("a\"b\\c\n"),
        cmd: ClientCmd::Link { url: String::from("u\t\u{1}\u{e9}") },
    };
    assert_eq!(
        encode_client_message(&reply).as_deref(),
        Some("{\"id\":\"a\\\"b\\\\c\\n\",\"cmd\":\"link\",\"url\":\"u\\t\\u0001\u{e9}\"}")
    );
}

#[test]
fn frames_and_tails_from_plain_values() {
    assert_eq!(write_frame("\"x\"", "\"cmd\":\"exit\""), r#"{"id":"x","cmd":"exit"}"#);
    assert_eq!(ClientCmd::GameId { game: 5 }.write_tail("ignored"), r#""cmd":"game","game":5"#);
    assert_eq!(
        ClientCmd::Link { url: String::from("not read") }.write_tail("\"u\""),
        r#""cmd":"link","url":"u""#
    );
    assert_eq!(
        ClientCmd::Error { code: ErrorStatus::InvalidApp }.write_tail(""),
        r#""cmd":"error","code":"invalid_app""#
    );
}

#[test]
fn what_is_encoded_decodes_as_json_with_the_same_id() {
    let reply = ClientMessage {
        id: String::from("weird \" id"),
        cmd: ClientCmd::Error { code: ErrorStatus::InvalidCmd },
    };
    let frame = encode_client_message(&reply).unwrap();
    let back = decode_server_message(&frame).unwrap();
    assert_eq!(back.id, "weird \" id");
    assert_eq!(back.cmd, ServerCmd::Invalid);
}
