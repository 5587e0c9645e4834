//! End-to-end flows against a stub transport that records every call.

use ruma_client::client::{Client, Endpoint};
use ruma_client::endpoints::{
    LoginEndpoint, LoginRequest, SyncEndpoint, SyncRequest,
};
use ruma_client::http::{HttpRequest, HttpResponse, Method, Transport, TransportRequest, UrlParts};
use ruma_client::{Error, ErrorKind, Session, UserId};

struct StubTransport {
    responses: Vec<Result<HttpResponse, Error>>,
    calls: Vec<TransportRequest>,
}

impl StubTransport {
    fn new() -> StubTransport {
        StubTransport { responses: Vec::new(), calls: Vec::new() }
    }

    fn queue_ok(&mut self, status: u16, body: &str) {
        self.responses.push(Ok(HttpResponse { status, body: body.to_string() }));
    }
}

impl Transport for StubTransport {
    fn send(&mut self, request: &TransportRequest) -> Result<HttpResponse, Error> {
        self.calls.push(request.clone());
        if self.responses.is_empty() {
            Err(Error::Transport("no stubbed response left".to_string()))
        } else {
            self.responses.remove(0)
        }
    }
}

fn https_client(host: &str) -> Client<StubTransport> {
    let url = UrlParts::parse(&format!("https://{}", host)).unwrap();
    Client::new_custom(StubTransport::new(), url)
}

fn count_query_key(req: &TransportRequest, key: &str) -> usize {
    req.url.query.iter().filter(|p| p.0 == key).count()
}

fn query_value<'a>(req: &'a TransportRequest, key: &str) -> Option<&'a str> {
    req.url.query.iter().find(|p| p.0 == key).map(|p| p.1.as_str())
}

#[test]
fn log_in_stores_session_from_response() {
    let mut client = https_client("matrix.org");
    client.transport.queue_ok(
        200,
        "{\"access_token\":\"T\",\"user_id\":\"@alice:matrix.org\",\"device_id\":\"D\"}",
    );
    client.log_in("alice", "hunter2".to_string(), None).unwrap();

    let session = client.session.clone().unwrap();
    assert_eq!(session.access_token, "T");
    assert_eq!(session.user_id.localpart, "alice");
    assert_eq!(session.user_id.server_name, "matrix.org");
    assert_eq!(session.device_id, "D");

    assert_eq!(client.transport.calls.len(), 1);
    let call = &client.transport.calls[0];
    assert_eq!(call.method, Method::Post);
    assert_eq!(call.url.scheme, "https");
    assert_eq!(call.url.host, "matrix.org");
    assert!(call.url.path.contains("/login"));
    assert_eq!(count_query_key(call, "access_token"), 0);
}

#[test]
fn authed_request_carries_the_token_once() {
    let mut client = https_client("matrix.org");
    client.transport.queue_ok(
        200,
        "{\"access_token\":\"T\",\"user_id\":\"@alice:matrix.org\",\"device_id\":\"D\"}",
    );
    client.log_in("alice", "hunter2".to_string(), None).unwrap();

    client.transport.queue_ok(200, "{\"next_batch\":\"b1\"}");
    let req = SyncRequest { filter: None, since: None, set_presence: true };
    client.request::<SyncEndpoint>(req).unwrap();

    let call = &client.transport.calls[1];
    assert_eq!(count_query_key(call, "access_token"), 1);
    assert_eq!(query_value(call, "access_token"), Some("T"));
}

#[test]
fn authed_request_without_session_never_reaches_the_transport() {
    let mut client = https_client("matrix.org");
    let req = SyncRequest { filter: None, since: None, set_presence: true };
    let err = client.request::<SyncEndpoint>(req).unwrap_err();
    assert_eq!(err, Error::AuthenticationRequired);
    assert_eq!(client.transport.calls.len(), 0);
    assert!(client.session.is_none());
}

#[test]
fn sync_threads_the_cursor_between_pulls() {
    let mut client = https_client("matrix.org");
    client.transport.queue_ok(
        200,
        "{\"access_token\":\"T\",\"user_id\":\"@alice:matrix.org\",\"device_id\":\"D\"}",
    );
    client.log_in("alice", "hunter2".to_string(), None).unwrap();

    let mut stream = client.sync(None, None, true);

    client.transport.queue_ok(200, "{\"next_batch\":\"b1\"}");
    let first = stream.pull(&mut client).unwrap();
    assert_eq!(first.next_batch, "b1");

    client.transport.queue_ok(200, "{\"next_batch\":\"b2\"}");
    let second = stream.pull(&mut client).unwrap();
    assert_eq!(second.next_batch, "b2");

    let first_call = &client.transport.calls[1];
    assert_eq!(count_query_key(first_call, "since"), 0);
    let second_call = &client.transport.calls[2];
    assert_eq!(query_value(second_call, "since"), Some("b1"));
    assert_eq!(stream.since.as_deref(), Some("b2"));
}

#[test]
fn sync_error_leaves_the_cursor_in_place() {
    let mut client = https_client("matrix.org");
    client.transport.queue_ok(
        200,
        "{\"access_token\":\"T\",\"user_id\":\"@alice:matrix.org\",\"device_id\":\"D\"}",
    );
    client.log_in("alice", "hunter2".to_string(), None).unwrap();

    let mut stream = client.sync(None, Some("s0".to_string()), true);
    client.transport.queue_ok(500, "gateway exploded");
    let err = stream.pull(&mut client).unwrap_err();
    assert_eq!(err.kind(), ErrorKind::EndpointDecode);
    assert_eq!(stream.since.as_deref(), Some("s0"));

    client.transport.queue_ok(200, "{\"next_batch\":\"b9\"}");
    stream.pull(&mut client).unwrap();
    let retry_call = client.transport.calls.last().unwrap();
    assert_eq!(query_value(retry_call, "since"), Some("s0"));
    assert_eq!(stream.since.as_deref(), Some("b9"));
}

#[test]
fn sync_presence_flag_controls_the_offline_override() {
    let mut client = https_client("matrix.org");
    client.transport.queue_ok(
        200,
        "{\"access_token\":\"T\",\"user_id\":\"@alice:matrix.org\",\"device_id\":\"D\"}",
    );
    client.log_in("alice", "hunter2".to_string(), None).unwrap();

    client.transport.queue_ok(200, "{\"next_batch\":\"b1\"}");
    let mut online = client.sync(None, None, true);
    online.pull(&mut client).unwrap();
    let call = client.transport.calls.last().unwrap();
    assert_eq!(count_query_key(call, "set_presence"), 0);

    client.transport.queue_ok(200, "{\"next_batch\":\"b2\"}");
    let mut offline = client.sync(Some("f1".to_string()), None, false);
    offline.pull(&mut client).unwrap();
    let call = client.transport.calls.last().unwrap();
    assert_eq!(query_value(call, "set_presence"), Some("offline"));
    assert_eq!(query_value(call, "filter"), Some("f1"));
}

#[test]
fn register_user_failure_leaves_session_unset() {
    let mut client = https_client("matrix.org");
    client.transport.queue_ok(403, "{\"errcode\":\"M_FORBIDDEN\"}");
    let err = client.register_user(Some("bob".to_string()), "pw".to_string()).unwrap_err();
    assert_eq!(err.kind(), ErrorKind::EndpointDecode);
    assert!(client.session.is_none());

    let call = &client.transport.calls[0];
    assert_eq!(query_value(call, "kind"), Some("user"));
    assert!(call.url.path.contains("/register"));
    assert!(call.body.contains("\"username\":\"bob\""));
    assert!(call.body.contains("\"password\":\"pw\""));
}

#[test]
fn register_guest_stores_session_and_sends_guest_kind() {
    let mut client = https_client("matrix.org");
    client.transport.queue_ok(
        200,
        "{\"access_token\":\"GT\",\"user_id\":\"@guest7:matrix.org\",\"device_id\":\"GD\"}",
    );
    client.register_guest().unwrap();
    let session = client.session.clone().unwrap();
    assert_eq!(session.access_token, "GT");
    assert_eq!(session.user_id.localpart, "guest7");

    let call = &client.transport.calls[0];
    assert_eq!(query_value(call, "kind"), Some("guest"));
    assert_eq!(call.body, "{}");
}

#[test]
fn prepare_replaces_any_existing_access_token_pairs() {
    let mut client = https_client("matrix.org");
    client.session = Some(Session {
        access_token: "T".to_string(),
        user_id: UserId { localpart: "alice".to_string(), server_name: "matrix.org".to_string() },
        device_id: "D".to_string(),
    });
    let req = HttpRequest {
        method: Method::Get,
        path: "/x".to_string(),
        query: vec![
            ("access_token".to_string(), "stale".to_string()),
            ("a".to_string(), "b".to_string()),
            ("access_token".to_string(), "staler".to_string()),
        ],
        body: String::new(),
    };
    let prepared = client.prepare(true, req).unwrap();
    let tokens: Vec<&str> = prepared
        .url
        .query
        .iter()
        .filter(|p| p.0 == "access_token")
        .map(|p| p.1.as_str())
        .collect();
    assert_eq!(tokens, vec!["T"]);
    assert!(prepared.url.query.contains(&("a".to_string(), "b".to_string())));
}

#[test]
fn transport_failure_is_propagated_verbatim() {
    let mut client = https_client("matrix.org");
    let err = client.log_in("alice", "pw".to_string(), None).unwrap_err();
    assert_eq!(err, Error::Transport("no stubbed response left".to_string()));
    assert!(client.session.is_none());
}

#[test]
fn decoding_ignores_how_the_request_was_dispatched() {
    let body = "{\"access_token\":\"T\",\"user_id\":\"@alice:matrix.org\",\"device_id\":\"D\"}";

    let direct =
        <LoginEndpoint as Endpoint>::parse_response(HttpResponse {
            status: 200,
            body: body.to_string(),
        }).unwrap();

    let mut client = https_client("other.example");
    client.transport.queue_ok(200, body);
    let req = LoginRequest {
        user: "alice".to_string(),
        password: "pw".to_string(),
        device_id: Some("dev".to_string()),
    };
    let dispatched = client.request::<LoginEndpoint>(req).unwrap();

    assert_eq!(dispatched.access_token, direct.access_token);
    assert_eq!(dispatched.user_id, direct.user_id);
    assert_eq!(dispatched.device_id, direct.device_id);
}

#[test]
fn dispatch_keeps_homeserver_origin_and_port() {
    let url = UrlParts::parse("http://localhost:8008/prefix").unwrap();
    let mut client = Client::new_custom(StubTransport::new(), url);
    client.transport.queue_ok(
        200,
        "{\"access_token\":\"T\",\"user_id\":\"@a:localhost\",\"device_id\":\"D\"}",
    );
    client.log_in("a", "pw".to_string(), None).unwrap();

    let call = &client.transport.calls[0];
    assert_eq!(call.url.scheme, "http");
    assert_eq!(call.url.host, "localhost");
    assert_eq!(call.url.port, Some(8008));
    assert_eq!(call.url.path, "/_matrix/client/r0/login");
}
