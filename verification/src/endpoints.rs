//! The endpoint descriptors the client's own flows use: password login,
//! guest and user registration, and event sync.

use vstd::prelude::*;
use vstd::string::StrSliceExecFns;
use vstd::string::StringExecFns;

use crate::client::Endpoint;
use crate::error::{Error, ErrorKind};
use crate::http::{query_model, HttpRequest, HttpRequestModel, HttpResponse, HttpResponseModel, Method};
use crate::json::{json_member, json_string_field, spec_json_member, spec_json_string_field};
use crate::session::{spec_user_id_of, spec_user_id_valid, UserId, UserIdModel};

verus! {

/// The mathematical value of an optional string.
pub open spec fn opt_model(o: Option<String>) -> Option<Seq<char>> {
    match o {
        Some(s) => Some(s@),
        None => None,
    }
}

/// Whether a status code counts as success.
pub open spec fn spec_status_ok(status: u16) -> bool {
    200 <= status < 300
}

/// The `{access_token, user_id, device_id}` triple that both auth
/// endpoints return on success.
#[derive(Clone, Debug, PartialEq, Eq)]
pub struct AuthResponse {
    /// The access token issued for the new session.
    pub access_token: String,
    /// The user the token was issued for.
    pub user_id: UserId,
    /// The device the token was issued for.
    pub device_id: String,
}

/// The mathematical value of an [`AuthResponse`].
pub ghost struct AuthResponseModel {
    /// The access token.
    pub access_token: Seq<char>,
    /// The user identifier.
    pub user_id: UserIdModel,
    /// The device identifier.
    pub device_id: Seq<char>,
}

impl View for AuthResponse {
    type V = AuthResponseModel;

    open spec fn view(&self) -> AuthResponseModel {
        AuthResponseModel {
            access_token: self.access_token@,
            user_id: self.user_id@,
            device_id: self.device_id@,
        }
    }
}

/// What both auth endpoints make of a raw response: on a success status,
/// the `access_token`, `user_id` and `device_id` string members of the
/// body, with the `user_id` parsed into its parts; `None` when the
/// status is not a success, a member is missing, or the `user_id` is
/// malformed.
pub open spec fn spec_parse_auth_response(resp: HttpResponseModel) -> Option<AuthResponseModel> {
    if !spec_status_ok(resp.status) {
        None
    } else {
        let t = spec_json_string_field(resp.body, "access_token"@);
        let u = spec_json_string_field(resp.body, "user_id"@);
        let d = spec_json_string_field(resp.body, "device_id"@);
        if t is Some && u is Some && d is Some && spec_user_id_valid(u->0) {
            Some(
                AuthResponseModel {
                    access_token: t->0,
                    user_id: spec_user_id_of(u->0),
                    device_id: d->0,
                },
            )
        } else {
            None
        }
    }
}

/// Builds the typed auth response from a raw HTTP response, exactly as
/// [`spec_parse_auth_response`] says.
pub fn parse_auth_response(resp: HttpResponse) -> (r: Result<AuthResponse, Error>)
    ensures
        r matches Ok(t) ==> spec_parse_auth_response(resp@) == Some(t@),
        r matches Err(e) ==> spec_parse_auth_response(resp@) is None && e.spec_kind()
            == ErrorKind::EndpointDecode,
{
    if !(200 <= resp.status && resp.status < 300) {
        return Err(Error::EndpointDecode(String::from_str("the server returned a non-success status")));
    }
    let access_token = match json_string_field(resp.body.as_str(), "access_token") {
        Some(t) => t,
        None => {
            return Err(Error::EndpointDecode(String::from_str("the response carries no access_token")));
        },
    };
    let user_raw = match json_string_field(resp.body.as_str(), "user_id") {
        Some(u) => u,
        None => {
            return Err(Error::EndpointDecode(String::from_str("the response carries no user_id")));
        },
    };
    let device_id = match json_string_field(resp.body.as_str(), "device_id") {
        Some(d) => d,
        None => {
            return Err(Error::EndpointDecode(String::from_str("the response carries no device_id")));
        },
    };
    let user_id = match UserId::parse(user_raw.as_str()) {
        Some(u) => u,
        None => {
            return Err(Error::EndpointDecode(String::from_str("the response carries a malformed user_id")));
        },
    };
    Ok(AuthResponse { access_token, user_id, device_id })
}

/// A password login request: the user's localpart or full identifier,
/// the password, and an optional device identifier.
#[derive(Clone, Debug, PartialEq, Eq)]
pub struct LoginRequest {
    /// The user to log in as.
    pub user: String,
    /// The password; consumed with the request and not retained.
    pub password: String,
    /// The device to attach the session to, if the caller picks one.
    pub device_id: Option<String>,
}

/// The body of a password login request.
pub open spec fn spec_login_body(
    user: Seq<char>,
    password: Seq<char>,
    device_id: Option<Seq<char>>,
) -> Seq<char> {
    "{"@ + spec_json_member("type"@, "m.login.password"@) + ","@ + spec_json_member("user"@, user)
        + ","@ + spec_json_member("password"@, password) + (match device_id {
        Some(d) => ","@ + spec_json_member("device_id"@, d),
        None => Seq::<char>::empty(),
    }) + "}"@
}

/// The password login endpoint, `POST /_matrix/client/r0/login`.
pub struct LoginEndpoint {}

impl Endpoint for LoginEndpoint {
    type Request = LoginRequest;

    type Response = AuthResponse;

    open spec fn spec_requires_auth() -> bool {
        false
    }

    open spec fn spec_http_request(req: LoginRequest) -> Option<HttpRequestModel> {
        Some(
            HttpRequestModel {
                method: Method::Post,
                path: "/_matrix/client/r0/login"@,
                query: Seq::empty(),
                body: spec_login_body(req.user@, req.password@, opt_model(req.device_id)),
            },
        )
    }

    open spec fn spec_parse_ok(resp: HttpResponseModel) -> Option<AuthResponseModel> {
        spec_parse_auth_response(resp)
    }

    fn requires_auth() -> (b: bool) {
        false
    }

    fn http_request(req: LoginRequest) -> (r: Result<HttpRequest, Error>) {
        let mut body = String::from_str("{");
        let m_type = json_member("type", "m.login.password");
        body.append(m_type.as_str());
        body.append(",");
        let m_user = json_member("user", req.user.as_str());
        body.append(m_user.as_str());
        body.append(",");
        let m_password = json_member("password", req.password.as_str());
        body.append(m_password.as_str());
        match &req.device_id {
            Some(d) => {
                body.append(",");
                let m_device = json_member("device_id", d.as_str());
                body.append(m_device.as_str());
            },
            None => {},
        }
        body.append("}");
        let query: Vec<(String, String)> = Vec::new();
        proof {
            assert(query_model(query@) =~= Seq::<(Seq<char>, Seq<char>)>::empty());
            assert(body@ =~= spec_login_body(req.user@, req.password@, opt_model(req.device_id)));
        }
        Ok(
            HttpRequest {
                method: Method::Post,
                path: String::from_str("/_matrix/client/r0/login"),
                query,
                body,
            },
        )
    }

    fn parse_response(resp: HttpResponse) -> (r: Result<AuthResponse, Error>) {
        parse_auth_response(resp)
    }
}

/// Whether a registration creates a guest or a full user account.
#[derive(Clone, Copy, Debug, PartialEq, Eq, Structural)]
pub enum RegistrationKind {
    /// An ephemeral guest account.
    Guest,
    /// A persistent user account.
    User,
}

/// The wire name of a registration kind, sent as the `kind` query pair.
pub open spec fn spec_kind_str(kind: RegistrationKind) -> Seq<char> {
    match kind {
        RegistrationKind::Guest => "guest"@,
        RegistrationKind::User => "user"@,
    }
}

/// A registration request: the kind of account, and for user accounts an
/// optional username and the password.
#[derive(Clone, Debug, PartialEq, Eq)]
pub struct RegisterRequest {
    /// Guest or user registration.
    pub kind: RegistrationKind,
    /// The desired localpart; the server picks one when absent.
    pub username: Option<String>,
    /// The password; absent for guest registration.
    pub password: Option<String>,
}

/// The body of a registration request: a JSON object with the username
/// and password members that are present.
pub open spec fn spec_register_body(
    username: Option<Seq<char>>,
    password: Option<Seq<char>>,
) -> Seq<char> {
    match (username, password) {
        (Option::None, Option::None) => "{}"@,
        (Option::Some(u), Option::None) => "{"@ + spec_json_member("username"@, u) + "}"@,
        (Option::None, Option::Some(p)) => "{"@ + spec_json_member("password"@, p) + "}"@,
        (Option::Some(u), Option::Some(p)) => "{"@ + spec_json_member("username"@, u) + ","@
            + spec_json_member("password"@, p) + "}"@,
    }
}

/// The registration endpoint, `POST /_matrix/client/r0/register`.
pub struct RegisterEndpoint {}

impl Endpoint for RegisterEndpoint {
    type Request = RegisterRequest;

    type Response = AuthResponse;

    open spec fn spec_requires_auth() -> bool {
        false
    }

    open spec fn spec_http_request(req: RegisterRequest) -> Option<HttpRequestModel> {
        Some(
            HttpRequestModel {
                method: Method::Post,
                path: "/_matrix/client/r0/register"@,
                query: seq![("kind"@, spec_kind_str(req.kind))],
                body: spec_register_body(opt_model(req.username), opt_model(req.password)),
            },
        )
    }

    open spec fn spec_parse_ok(resp: HttpResponseModel) -> Option<AuthResponseModel> {
        spec_parse_auth_response(resp)
    }

    fn requires_auth() -> (b: bool) {
        false
    }

    fn http_request(req: RegisterRequest) -> (r: Result<HttpRequest, Error>) {
        let kind_value = match req.kind {
            RegistrationKind::Guest => String::from_str("guest"),
            RegistrationKind::User => String::from_str("user"),
        };
        let mut query: Vec<(String, String)> = Vec::new();
        query.push((String::from_str("kind"), kind_value));
        let mut body = String::from_str("{");
        let mut first = true;
        match &req.username {
            Some(u) => {
                let m_username = json_member("username", u.as_str());
                body.append(m_username.as_str());
                first = false;
            },
            None => {},
        }
        match &req.password {
            Some(p) => {
                if !first {
                    body.append(",");
                }
                let m_password = json_member("password", p.as_str());
                body.append(m_password.as_str());
            },
            None => {},
        }
        body.append("}");
        proof {
            assert(query_model(query@) =~= seq![("kind"@, spec_kind_str(req.kind))]);
            reveal_strlit("{");
            reveal_strlit("}");
            reveal_strlit("{}");
            assert(body@ =~= spec_register_body(opt_model(req.username), opt_model(req.password)));
        }
        Ok(
            HttpRequest {
                method: Method::Post,
                path: String::from_str("/_matrix/client/r0/register"),
                query,
                body,
            },
        )
    }

    fn parse_response(resp: HttpResponse) -> (r: Result<AuthResponse, Error>) {
        parse_auth_response(resp)
    }
}

/// A sync request: the filter and cursor reused on every pull, and the
/// presence flag. `set_presence = true` omits the presence override;
/// `set_presence = false` sends an explicit `offline`. Timeout and
/// full-state are not controllable from this facade and stay absent.
#[derive(Clone, Debug, PartialEq, Eq)]
pub struct SyncRequest {
    /// The filter, reused verbatim on every request.
    pub filter: Option<String>,
    /// The `since` cursor; absent on a fresh stream.
    pub since: Option<String>,
    /// Whether polling may mark the user online.
    pub set_presence: bool,
}

/// The query of a sync request: the `filter` and `since` pairs that are
/// present, and `set_presence=offline` when presence is suppressed.
pub open spec fn spec_sync_query(
    filter: Option<Seq<char>>,
    since: Option<Seq<char>>,
    set_presence: bool,
) -> Seq<(Seq<char>, Seq<char>)> {
    (match filter {
        Some(f) => seq![("filter"@, f)],
        None => Seq::<(Seq<char>, Seq<char>)>::empty(),
    }) + (match since {
        Some(s) => seq![("since"@, s)],
        None => Seq::<(Seq<char>, Seq<char>)>::empty(),
    }) + (if set_presence {
        Seq::<(Seq<char>, Seq<char>)>::empty()
    } else {
        seq![("set_presence"@, "offline"@)]
    })
}

/// The raw request of one sync pull.
pub open spec fn spec_sync_http_request(
    filter: Option<Seq<char>>,
    since: Option<Seq<char>>,
    set_presence: bool,
) -> HttpRequestModel {
    HttpRequestModel {
        method: Method::Get,
        path: "/_matrix/client/r0/sync"@,
        query: spec_sync_query(filter, since, set_presence),
        body: Seq::empty(),
    }
}

/// One batch of the event stream; only the cursor is modeled.
#[derive(Clone, Debug, PartialEq, Eq)]
pub struct SyncResponse {
    /// The cursor to hand to the next sync request.
    pub next_batch: String,
}

/// The mathematical value of a [`SyncResponse`].
pub ghost struct SyncResponseModel {
    /// The next cursor.
    pub next_batch: Seq<char>,
}

impl View for SyncResponse {
    type V = SyncResponseModel;

    open spec fn view(&self) -> SyncResponseModel {
        SyncResponseModel { next_batch: self.next_batch@ }
    }
}

/// What the sync endpoint makes of a raw response: the `next_batch`
/// member on a success status, `None` otherwise.
pub open spec fn spec_parse_sync_response(resp: HttpResponseModel) -> Option<SyncResponseModel> {
    if !spec_status_ok(resp.status) {
        None
    } else {
        match spec_json_string_field(resp.body, "next_batch"@) {
            Some(nb) => Some(SyncResponseModel { next_batch: nb }),
            None => None,
        }
    }
}

/// The event-sync endpoint, `GET /_matrix/client/r0/sync`; the one
/// authenticated endpoint this library itself carries.
pub struct SyncEndpoint {}

impl Endpoint for SyncEndpoint {
    type Request = SyncRequest;

    type Response = SyncResponse;

    open spec fn spec_requires_auth() -> bool {
        true
    }

    open spec fn spec_http_request(req: SyncRequest) -> Option<HttpRequestModel> {
        Some(spec_sync_http_request(opt_model(req.filter), opt_model(req.since), req.set_presence))
    }

    open spec fn spec_parse_ok(resp: HttpResponseModel) -> Option<SyncResponseModel> {
        spec_parse_sync_response(resp)
    }

    fn requires_auth() -> (b: bool) {
        true
    }

    fn http_request(req: SyncRequest) -> (r: Result<HttpRequest, Error>) {
        let mut query: Vec<(String, String)> = Vec::new();
        match &req.filter {
            Some(f) => {
                query.push((String::from_str("filter"), f.clone()));
            },
            None => {},
        }
        match &req.since {
            Some(s) => {
                query.push((String::from_str("since"), s.clone()));
            },
            None => {},
        }
        if !req.set_presence {
            query.push((String::from_str("set_presence"), String::from_str("offline")));
        }
        proof {
            assert(query_model(query@) =~= spec_sync_query(
                opt_model(req.filter),
                opt_model(req.since),
                req.set_presence,
            ));
        }
        Ok(
            HttpRequest {
                method: Method::Get,
                path: String::from_str("/_matrix/client/r0/sync"),
                query,
                body: String::new(),
            },
        )
    }

    fn parse_response(resp: HttpResponse) -> (r: Result<SyncResponse, Error>) {
        if !(200 <= resp.status && resp.status < 300) {
            return Err(Error::EndpointDecode(String::from_str("the server returned a non-success status")));
        }
        match json_string_field(resp.body.as_str(), "next_batch") {
            Some(next_batch) => Ok(SyncResponse { next_batch }),
            None => Err(Error::EndpointDecode(String::from_str("the response carries no next_batch"))),
        }
    }
}

} // verus!
