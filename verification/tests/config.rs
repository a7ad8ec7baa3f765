use remoteplay_inviter::config::{
    choose_endpoint, session_url, write_query, Config, EndpointConfig, UrlError,
};

fn token(uuid: &str) -> Config {
    Config { uuid: String::from(uuid) }
}

#[test]
fn query_carries_version_token_and_session() {
    assert_eq!(
        write_query("1.2.3", &token("abc-def"), 42),
        "/ws?v=1.2.3&token=abc-def&session=42"
    );
    assert_eq!(write_query("", &token(""), 0), "/ws?v=&token=&session=0");
    assert_eq!(
        write_query("9", &token("t"), u32::MAX),
        "/ws?v=9&token=t&session=4294967295"
    );
}

#[test]
fn address_is_the_endpoint_with_the_query() {
    assert_eq!(
        session_url("wss://example.com", "1.2.3", &token("abc"), 7),
        Ok(String::from("wss://example.com/ws?v=1.2.3&token=abc&session=7"))
    );
    assert_eq!(
        session_url("ws://localhost:8080/old/path?x=1", "1.0", &token("t"), 1),
        Ok(String::from("ws://localhost:8080/ws?v=1.0&token=t&session=1"))
    );
}

#[test]
fn endpoint_that_is_no_address_is_a_parse_error() {
    assert_eq!(session_url("not an address", "1.0", &token("t"), 1), Err(UrlError::Parse));
    assert_eq!(session_url("", "1.0", &token("t"), 1), Err(UrlError::Parse));
}

#[test]
fn endpoint_without_a_scheme_is_a_build_error() {
    assert_eq!(session_url("example.com", "1.0", &token("t"), 1), Err(UrlError::Build));
}

#[test]
fn token_that_does_not_fit_a_query_is_a_build_error() {
    assert_eq!(session_url("wss://example.com", "1.0", &token("a b"), 1), Err(UrlError::Build));
}

#[test]
fn configured_endpoint_wins_and_is_announced() {
    assert_eq!(
        choose_endpoint(Some(EndpointConfig { url: String::from("ws://mine") }), "wss://default"),
        (
            String::from("ws://mine"),
            Some(String::from("\u{2713} Using custom endpoint URL: ws://mine"))
        )
    );
    assert_eq!(choose_endpoint(None, "wss://default"), (String::from("wss://default"), None));
}
