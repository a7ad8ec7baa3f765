use remoteplay_inviter::codec::{decode_server_message, encode_client_message};
use remoteplay_inviter::handlers::{Handler, Notice, Reaction, LOCAL_INVITEE, NATIVE_POLL_MILLIS};
use remoteplay_inviter::invite::PendingInvite;
use remoteplay_inviter::models::{
    ClientCmd, ClientMessage, ErrorStatus, ServerCmd, ServerMessage, User,
};

fn ask(id: &str, name: Option<&str>, cmd: ServerCmd) -> ServerMessage {
    ServerMessage {
        id: String::from(id),
        user: name.map(|n| User { id: String::from("u"), name: String::from(n) }),
        cmd,
    }
}

fn answer(id: &str, cmd: ClientCmd, log: Option<&str>) -> Reaction {
    Reaction::Reply {
        message: ClientMessage { id: String::from(id), cmd },
        log: log.map(String::from),
    }
}

fn failed(id: &str, code: ErrorStatus) -> Reaction {
    answer(id, ClientCmd::Error { code }, None)
}

fn sent_frame(reaction: &Reaction) -> String {
    match reaction {
        Reaction::Reply { message, .. } => encode_client_message(message).unwrap(),
        other => panic!("no reply: {:?}", other),
    }
}

#[test]
fn bogus_command_is_answered_with_invalid_cmd() {
    let mut handler = Handler::new();
    let msg = decode_server_message(r#"{"id":"x","cmd":"bogus"}"#).unwrap();
    assert_eq!(msg.cmd, ServerCmd::Invalid);
    let reaction = handler.handle_server_message(msg);
    assert_eq!(reaction, failed("x", ErrorStatus::InvalidCmd));
    assert_eq!(sent_frame(&reaction), r#"{"id":"x","cmd":"error","code":"invalid_cmd"}"#);
    assert!(!handler.is_busy());
}

#[test]
fn game_query_without_a_running_game_is_answered_with_invalid_app() {
    let mut handler = Handler::new();
    let msg = decode_server_message(r#"{"id":"y","cmd":"game"}"#).unwrap();
    assert_eq!(handler.handle_server_message(msg), Reaction::QueryRunningGame);
    assert!(handler.is_busy());
    let reaction = handler.on_running_game(0);
    assert_eq!(reaction, failed("y", ErrorStatus::InvalidApp));
    assert_eq!(sent_frame(&reaction), r#"{"id":"y","cmd":"error","code":"invalid_app"}"#);
    assert!(!handler.is_busy());
}

#[test]
fn game_query_for_something_that_is_no_app_is_answered_with_invalid_app() {
    let mut handler = Handler::new();
    handler.handle_server_message(ask("y", None, ServerCmd::GameId));
    assert_eq!(handler.on_running_game((1u64 << 24) | 730), failed("y", ErrorStatus::InvalidApp));
}

#[test]
fn game_query_for_a_supported_game_hands_out_the_app_id() {
    let mut handler = Handler::new();
    assert_eq!(
        handler.handle_server_message(ask("q", Some("Ann"), ServerCmd::GameId)),
        Reaction::QueryRunningGame
    );
    assert_eq!(handler.on_running_game(730), Reaction::CheckRemotePlay { game_uid: 730 });
    assert!(handler.is_busy());
    let reaction = handler.on_remote_play_support(true);
    assert_eq!(
        reaction,
        answer(
            "q",
            ClientCmd::GameId { game: 730 },
            Some("-> Create Panel       : claimer=Ann, game_id=730")
        )
    );
    assert_eq!(sent_frame(&reaction), r#"{"id":"q","cmd":"game","game":730}"#);
    assert!(!handler.is_busy());
}

#[test]
fn game_query_for_an_unsupported_game_is_answered_with_unsupported_app() {
    let mut handler = Handler::new();
    handler.handle_server_message(ask("q", None, ServerCmd::GameId));
    let uid = (9u64 << 32) | 440;
    assert_eq!(handler.on_running_game(uid), Reaction::CheckRemotePlay { game_uid: uid });
    let reaction = handler.on_remote_play_support(false);
    assert_eq!(reaction, failed("q", ErrorStatus::UnsupportedApp));
    assert_eq!(sent_frame(&reaction), r#"{"id":"q","cmd":"error","code":"unsupported_app"}"#);
}

#[test]
fn game_query_without_a_user_logs_a_question_mark() {
    let mut handler = Handler::new();
    handler.handle_server_message(ask("q", None, ServerCmd::GameId));
    handler.on_running_game(10);
    assert_eq!(
        handler.on_remote_play_support(true),
        answer(
            "q",
            ClientCmd::GameId { game: 10 },
            Some("-> Create Panel       : claimer=?, game_id=10")
        )
    );
}

#[test]
fn link_is_resolved_by_the_invite_and_claims_the_guest() {
    let mut handler = Handler::new();
    assert_eq!(
        handler.handle_server_message(ask("1", Some("Ann"), ServerCmd::Link { game: 730 })),
        Reaction::SendInvite { invitee: LOCAL_INVITEE, game_uid: 730 }
    );
    assert!(handler.is_busy());
    let reaction = handler.on_remote_invited(111, 5, "https://join/abc");
    assert_eq!(
        reaction,
        answer(
            "1",
            ClientCmd::Link { url: String::from("https://join/abc") },
            Some("-> Create Invite Link : claimer=Ann, guest_id=5, game_id=730, invite_url=https://join/abc")
        )
    );
    assert_eq!(sent_frame(&reaction), r#"{"id":"1","cmd":"link","url":"https://join/abc"}"#);
    assert!(!handler.is_busy());
    assert_eq!(handler.roster().display_name(5), "Ann");
    assert!(!handler.roster().is_active(5));
}

#[test]
fn link_without_a_user_claims_nothing() {
    let mut handler = Handler::new();
    handler.handle_server_message(ask("1", None, ServerCmd::Link { game: 730 }));
    assert_eq!(
        handler.on_remote_invited(0, 5, "u"),
        answer(
            "1",
            ClientCmd::Link { url: String::from("u") },
            Some("-> Create Invite Link : claimer=?, guest_id=5, game_id=730, invite_url=u")
        )
    );
    assert_eq!(handler.roster().display_name(5), "?");
}

#[test]
fn link_uses_the_low_24_bits_of_the_game() {
    let mut handler = Handler::new();
    assert_eq!(
        handler.handle_server_message(ask("1", None, ServerCmd::Link { game: 0x0100_0002 })),
        Reaction::SendInvite { invitee: 0, game_uid: 2 }
    );
}

#[test]
fn invite_without_a_request_is_dropped() {
    let mut handler = Handler::new();
    assert_eq!(handler.on_remote_invited(0, 5, "stale"), Reaction::Nothing);
    assert_eq!(handler.roster().display_name(5), "?");
    handler.handle_server_message(ask("1", Some("Ann"), ServerCmd::Link { game: 1 }));
    assert_eq!(
        handler.on_remote_invited(0, 6, "fresh"),
        answer(
            "1",
            ClientCmd::Link { url: String::from("fresh") },
            Some("-> Create Invite Link : claimer=Ann, guest_id=6, game_id=1, invite_url=fresh")
        )
    );
    assert_eq!(handler.on_remote_invited(0, 7, "again"), Reaction::Nothing);
}

#[test]
fn second_request_waits_until_the_first_is_done() {
    let mut handler = Handler::new();
    handler.handle_server_message(ask("first", Some("Ann"), ServerCmd::Link { game: 1 }));
    assert_eq!(
        handler.handle_server_message(ask("second", Some("Bo"), ServerCmd::Link { game: 2 })),
        Reaction::Deferred
    );
    assert_eq!(handler.handle_server_message(ask("third", None, ServerCmd::GameId)), Reaction::Deferred);
    assert_eq!(handler.deferred_count(), 2);
    assert_eq!(handler.resume(), Reaction::Nothing);
    assert_eq!(
        handler.on_remote_invited(0, 5, "url"),
        answer(
            "first",
            ClientCmd::Link { url: String::from("url") },
            Some("-> Create Invite Link : claimer=Ann, guest_id=5, game_id=1, invite_url=url")
        )
    );
    assert_eq!(handler.roster().display_name(5), "Ann");
    assert_eq!(handler.resume(), Reaction::SendInvite { invitee: 0, game_uid: 2 });
    assert_eq!(handler.deferred_count(), 1);
    assert_eq!(handler.resume(), Reaction::Nothing);
    assert_eq!(
        handler.on_remote_invited(0, 6, "other"),
        answer(
            "second",
            ClientCmd::Link { url: String::from("other") },
            Some("-> Create Invite Link : claimer=Bo, guest_id=6, game_id=2, invite_url=other")
        )
    );
    assert_eq!(handler.roster().display_name(6), "Bo");
    assert_eq!(handler.resume(), Reaction::QueryRunningGame);
    assert_eq!(handler.on_running_game(0), failed("third", ErrorStatus::InvalidApp));
    assert_eq!(handler.resume(), Reaction::Nothing);
    assert_eq!(handler.deferred_count(), 0);
}

#[test]
fn requests_put_off_are_taken_up_in_order() {
    let mut handler = Handler::new();
    handler.handle_server_message(ask("1", None, ServerCmd::Link { game: 1 }));
    assert_eq!(
        handler.handle_server_message(ask(
            "m",
            None,
            ServerCmd::Message { text: String::from("a\nb"), copy: Some(String::from("c")) }
        )),
        Reaction::Deferred
    );
    assert_eq!(handler.handle_server_message(ask("i", None, ServerCmd::Invalid)), Reaction::Deferred);
    assert_eq!(handler.handle_server_message(ask("e", None, ServerCmd::Exit)), Reaction::Deferred);
    assert!(handler.is_busy());
    handler.on_remote_invited(0, 5, "u");
    assert_eq!(
        handler.resume(),
        Reaction::Show { text: String::from("  a\n  b"), copy: Some(String::from("c")) }
    );
    assert_eq!(handler.resume(), failed("i", ErrorStatus::InvalidCmd));
    assert_eq!(handler.resume(), Reaction::Exit);
    assert_eq!(handler.resume(), Reaction::Nothing);
}

#[test]
fn message_exit_and_invalid_need_no_native_side() {
    let mut handler = Handler::new();
    assert_eq!(
        handler.handle_server_message(ask(
            "m",
            None,
            ServerCmd::Message { text: String::from("a\nb"), copy: None }
        )),
        Reaction::Show { text: String::from("  a\n  b"), copy: None }
    );
    assert_eq!(
        handler.handle_server_message(ask("i", None, ServerCmd::Invalid)),
        failed("i", ErrorStatus::InvalidCmd)
    );
    assert_eq!(handler.handle_server_message(ask("e", None, ServerCmd::Exit)), Reaction::Exit);
    assert!(!handler.is_busy());
}

#[test]
fn forgetting_requests_keeps_the_roster() {
    let mut handler = Handler::new();
    handler.handle_server_message(ask("0", Some("Ann"), ServerCmd::Link { game: 1 }));
    handler.on_remote_invited(0, 5, "u");
    handler.on_remote_started(0, 5);
    handler.handle_server_message(ask("1", None, ServerCmd::Link { game: 1 }));
    handler.handle_server_message(ask("2", None, ServerCmd::GameId));
    handler.forget_requests();
    assert!(!handler.is_busy());
    assert_eq!(handler.deferred_count(), 0);
    assert_eq!(handler.resume(), Reaction::Nothing);
    assert_eq!(handler.on_remote_invited(0, 6, "late"), Reaction::Nothing);
    assert_eq!(handler.roster().active_summary(), "[5]Ann");
    handler.handle_server_message(ask("3", None, ServerCmd::GameId));
    handler.forget_requests();
    assert_eq!(handler.on_running_game(730), Reaction::Nothing);
}

#[test]
fn answers_that_nothing_waits_for_are_dropped() {
    let mut handler = Handler::new();
    assert_eq!(handler.on_running_game(730), Reaction::Nothing);
    assert_eq!(handler.on_remote_play_support(true), Reaction::Nothing);
    handler.handle_server_message(ask("q", None, ServerCmd::GameId));
    assert_eq!(handler.on_remote_play_support(true), Reaction::Nothing);
    assert!(handler.is_busy());
    assert_eq!(handler.on_running_game(730), Reaction::CheckRemotePlay { game_uid: 730 });
    assert_eq!(handler.on_running_game(730), Reaction::Nothing);
}

#[test]
fn cancelled_invite_frees_the_handler() {
    let mut handler = Handler::new();
    assert_eq!(handler.cancel_invite(), None);
    handler.handle_server_message(ask("1", Some("Ann"), ServerCmd::Link { game: 7 }));
    assert_eq!(
        handler.cancel_invite(),
        Some(PendingInvite {
            request_id: String::from("1"),
            claimer: Some(String::from("Ann")),
            game: 7
        })
    );
    assert!(!handler.is_busy());
    assert_eq!(handler.on_remote_invited(0, 5, "late"), Reaction::Nothing);
}

#[test]
fn joining_and_leaving_guests_are_announced() {
    let mut handler = Handler::new();
    handler.handle_server_message(ask("1", Some("Ann"), ServerCmd::Link { game: 730 }));
    handler.on_remote_invited(111, 5, "https://join/abc");
    assert_eq!(
        handler.on_remote_started(111, 5),
        Notice {
            log: String::from("-> Player Joined        : claimer=Ann, guest_id=5, steam_id=111"),
            status: String::from("\u{2605} Players(1): [5]Ann"),
        }
    );
    assert_eq!(
        handler.on_remote_started(222, 3),
        Notice {
            log: String::from("-> Player Joined        : claimer=?, guest_id=3, steam_id=222"),
            status: String::from("\u{2605} Players(2): [3]?, [5]Ann"),
        }
    );
    assert!(handler.roster().is_active(5));
    assert_eq!(
        handler.on_remote_stopped(111, 5),
        Notice {
            log: String::from("-> Player Left          : claimer=Ann, guest_id=5, steam_id=111"),
            status: String::from("\u{2605} Players(1): [3]?"),
        }
    );
    assert_eq!(handler.roster().display_name(5), "?");
    assert_eq!(
        handler.on_remote_stopped(222, 3),
        Notice {
            log: String::from("-> Player Left          : claimer=?, guest_id=3, steam_id=222"),
            status: String::from("\u{2605} Players(0): "),
        }
    );
}

#[test]
fn native_side_is_polled_every_200_milliseconds() {
    assert_eq!(NATIVE_POLL_MILLIS, 200);
    assert_eq!(LOCAL_INVITEE, 0);
}
