//! Unit tests for URL splitting, user identifiers, JSON building, the
//! endpoint request builders, and the error type.

use ruma_client::client::Endpoint;
use ruma_client::endpoints::{
    LoginEndpoint, LoginRequest, RegisterEndpoint, RegisterRequest, RegistrationKind,
    SyncEndpoint, SyncRequest,
};
use ruma_client::http::{Method, UrlParts};
use ruma_client::json::{escape_json, json_member};
use ruma_client::{Error, ErrorKind, UserId};

#[test]
fn url_parse_splits_an_absolute_url() {
    let parts = UrlParts::parse("https://matrix.org:8448/base?x=1").unwrap();
    assert_eq!(parts.scheme, "https");
    assert_eq!(parts.host, "matrix.org");
    assert_eq!(parts.port, Some(8448));
    assert_eq!(parts.path, "/base");
    assert!(parts.query.is_empty());
}

#[test]
fn url_parse_leaves_default_ports_implicit() {
    let parts = UrlParts::parse("http://localhost").unwrap();
    assert_eq!(parts.scheme, "http");
    assert_eq!(parts.host, "localhost");
    assert_eq!(parts.port, None);
    assert_eq!(parts.path, "/");
}

#[test]
fn url_parse_rejects_malformed_and_non_http_urls() {
    assert!(matches!(UrlParts::parse("not a url"), Err(Error::UrlParse(_))));
    assert!(matches!(UrlParts::parse(""), Err(Error::UrlParse(_))));
    assert!(matches!(UrlParts::parse("ftp://example.org"), Err(Error::UrlParse(_))));
    assert!(matches!(UrlParts::parse("data:text/plain,hi"), Err(Error::UrlParse(_))));
}

#[test]
fn user_id_parse_splits_at_the_first_colon() {
    let id = UserId::parse("@alice:matrix.org").unwrap();
    assert_eq!(id.localpart, "alice");
    assert_eq!(id.server_name, "matrix.org");

    let with_port = UserId::parse("@bob:server.tld:8448").unwrap();
    assert_eq!(with_port.localpart, "bob");
    assert_eq!(with_port.server_name, "server.tld:8448");
}

#[test]
fn user_id_parse_rejects_malformed_identifiers() {
    assert!(UserId::parse("").is_none());
    assert!(UserId::parse("alice").is_none());
    assert!(UserId::parse("@alice").is_none());
    assert!(UserId::parse("@:matrix.org").is_none());
    assert!(UserId::parse("@alice:").is_none());
}

#[test]
fn user_id_round_trips_through_its_display_form() {
    let id = UserId { localpart: "alice".to_string(), server_name: "matrix.org".to_string() };
    assert_eq!(id.to_matrix_id(), "@alice:matrix.org");
    assert_eq!(UserId::parse(&id.to_matrix_id()).unwrap(), id);
}

#[test]
fn escape_json_escapes_quotes_and_backslashes() {
    assert_eq!(escape_json("plain"), "plain");
    assert_eq!(escape_json("a\"b\\c"), "a\\\"b\\\\c");
    assert_eq!(escape_json(""), "");
}

#[test]
fn escape_json_escapes_control_characters() {
    assert_eq!(escape_json("line\nbreak"), "line\\nbreak");
    assert_eq!(escape_json("\r\t\u{8}\u{c}"), "\\r\\t\\b\\f");
    assert_eq!(escape_json("\u{0}"), "\\u0000");
    assert_eq!(escape_json("\u{1}x\u{1f}"), "\\u0001x\\u001f");
    assert_eq!(escape_json("\u{b}"), "\\u000b");
}

#[test]
fn json_member_writes_a_quoted_pair() {
    assert_eq!(json_member("user", "alice"), "\"user\":\"alice\"");
    assert_eq!(json_member("p", "a\"b"), "\"p\":\"a\\\"b\"");
}

#[test]
fn login_request_builds_the_password_flow_body() {
    let req = LoginRequest {
        user: "alice".to_string(),
        password: "hunter2".to_string(),
        device_id: None,
    };
    let http = <LoginEndpoint as Endpoint>::http_request(req).unwrap();
    assert_eq!(http.method, Method::Post);
    assert_eq!(http.path, "/_matrix/client/r0/login");
    assert!(http.query.is_empty());
    assert_eq!(
        http.body,
        "{\"type\":\"m.login.password\",\"user\":\"alice\",\"password\":\"hunter2\"}",
    );
}

#[test]
fn login_request_appends_the_device_id_when_given() {
    let req = LoginRequest {
        user: "alice".to_string(),
        password: "pw".to_string(),
        device_id: Some("DEV".to_string()),
    };
    let http = <LoginEndpoint as Endpoint>::http_request(req).unwrap();
    assert_eq!(
        http.body,
        "{\"type\":\"m.login.password\",\"user\":\"alice\",\"password\":\"pw\",\"device_id\":\"DEV\"}",
    );
}

#[test]
fn login_request_escapes_credentials_in_the_body() {
    let req = LoginRequest {
        user: "al\"ice".to_string(),
        password: "pa\\ss".to_string(),
        device_id: None,
    };
    let http = <LoginEndpoint as Endpoint>::http_request(req).unwrap();
    assert_eq!(
        http.body,
        "{\"type\":\"m.login.password\",\"user\":\"al\\\"ice\",\"password\":\"pa\\\\ss\"}",
    );
}

#[test]
fn register_request_bodies_carry_only_present_members() {
    let guest = RegisterRequest { kind: RegistrationKind::Guest, username: None, password: None };
    let http = <RegisterEndpoint as Endpoint>::http_request(guest).unwrap();
    assert_eq!(http.path, "/_matrix/client/r0/register");
    assert_eq!(http.query, vec![("kind".to_string(), "guest".to_string())]);
    assert_eq!(http.body, "{}");

    let user = RegisterRequest {
        kind: RegistrationKind::User,
        username: Some("bob".to_string()),
        password: Some("pw".to_string()),
    };
    let http = <RegisterEndpoint as Endpoint>::http_request(user).unwrap();
    assert_eq!(http.query, vec![("kind".to_string(), "user".to_string())]);
    assert_eq!(http.body, "{\"username\":\"bob\",\"password\":\"pw\"}");
}

#[test]
fn sync_request_builds_its_query_in_order() {
    let req = SyncRequest {
        filter: Some("f".to_string()),
        since: Some("s".to_string()),
        set_presence: false,
    };
    let http = <SyncEndpoint as Endpoint>::http_request(req).unwrap();
    assert_eq!(http.method, Method::Get);
    assert_eq!(http.path, "/_matrix/client/r0/sync");
    assert_eq!(http.body, "");
    assert_eq!(
        http.query,
        vec![
            ("filter".to_string(), "f".to_string()),
            ("since".to_string(), "s".to_string()),
            ("set_presence".to_string(), "offline".to_string()),
        ],
    );

    let bare = SyncRequest { filter: None, since: None, set_presence: true };
    let http = <SyncEndpoint as Endpoint>::http_request(bare).unwrap();
    assert!(http.query.is_empty());
}

#[test]
fn error_kinds_and_messages_follow_the_variant() {
    assert_eq!(Error::AuthenticationRequired.kind(), ErrorKind::AuthenticationRequired);
    let e = Error::UrlParse("bad scheme".to_string());
    assert_eq!(e.kind(), ErrorKind::UrlParse);
    assert_eq!(e.message(), "bad scheme");
    assert_eq!(Error::TlsInit("x".to_string()).kind(), ErrorKind::TlsInit);
    assert_eq!(Error::UriParse("y".to_string()).kind(), ErrorKind::UriParse);
    assert_eq!(Error::Serialize("z".to_string()).kind(), ErrorKind::Serialize);
}
