//! The client: a homeserver base URL, a transport handle, an optional
//! session, and the endpoint-generic request dispatcher.

use vstd::prelude::*;

use crate::error::{Error, ErrorKind};
use crate::http::{
    query_model, strip_key, HttpRequest, HttpRequestModel, HttpResponse, HttpResponseModel,
    Transport, TransportRequest, TransportRequestModel, UrlModel, UrlParts,
};
use crate::endpoints::{
    AuthResponseModel, LoginEndpoint, LoginRequest, RegisterEndpoint, RegisterRequest,
    RegistrationKind, spec_parse_auth_response,
};
use crate::session::{Session, SessionModel};
use crate::sync_stream::SyncStream;

verus! {

/// The session an auth response is stored as: the response's triple,
/// field for field.
pub open spec fn spec_session_of(a: AuthResponseModel) -> SessionModel {
    SessionModel { access_token: a.access_token, user_id: a.user_id, device_id: a.device_id }
}

/// The access token of a stored session, if any.
pub open spec fn spec_token(session: Option<Session>) -> Option<Seq<char>> {
    match session {
        Some(s) => Some(s.access_token@),
        None => None,
    }
}

/// The query key that carries the access token on authenticated calls.
pub open spec fn spec_access_token_key() -> Seq<char> {
    "access_token"@
}

/// The URL of a dispatched request before authentication decoration:
/// scheme, host and port are the homeserver's, path and query are the
/// endpoint's.
pub open spec fn spec_rebase(hs: UrlModel, req: HttpRequestModel) -> UrlModel {
    UrlModel {
        scheme: hs.scheme,
        host: hs.host,
        port: hs.port,
        path: req.path,
        query: req.query,
    }
}

/// The URL carrying the session's token: any query pair already named
/// `access_token` is dropped, and the token is appended as the one such
/// pair, so the final URL carries it exactly once.
pub open spec fn spec_with_token(u: UrlModel, token: Seq<char>) -> UrlModel {
    UrlModel {
        scheme: u.scheme,
        host: u.host,
        port: u.port,
        path: u.path,
        query: strip_key(u.query, spec_access_token_key()).push(
            (spec_access_token_key(), token),
        ),
    }
}

/// What dispatch makes of a raw request before any network traffic: the
/// authentication short-circuit when a session is required and missing,
/// and otherwise the rebased, decorated transport request.
pub open spec fn spec_prepare(
    requires_auth: bool,
    token: Option<Seq<char>>,
    hs: UrlModel,
    req: HttpRequestModel,
) -> Result<TransportRequestModel, Error> {
    if requires_auth && token is None {
        Err(Error::AuthenticationRequired)
    } else {
        let base = spec_rebase(hs, req);
        let url = if requires_auth {
            spec_with_token(base, token->0)
        } else {
            base
        };
        Ok(TransportRequestModel { method: req.method, url, body: req.body })
    }
}

/// One typed API call: a typed request and response, the conversions the
/// dispatcher drives, and the one metadata bit it reads. The dispatcher
/// never inspects an endpoint beyond these operations.
pub trait Endpoint {
    /// The typed request of this endpoint.
    type Request;

    /// The typed response of this endpoint; contracts speak of its view.
    type Response: View;

    /// Whether dispatch must decorate the URL with the session's token.
    spec fn spec_requires_auth() -> bool;

    /// The raw request a typed request converts to, or `None` when the
    /// conversion fails.
    spec fn spec_http_request(req: Self::Request) -> Option<HttpRequestModel>;

    /// The typed response a raw response converts to, or `None` when the
    /// conversion fails.
    spec fn spec_parse_ok(resp: HttpResponseModel) -> Option<<Self::Response as View>::V>;

    /// Returns the metadata bit.
    fn requires_auth() -> (b: bool)
        ensures
            b == Self::spec_requires_auth(),
    ;

    /// Converts the typed request into a raw HTTP request.
    fn http_request(req: Self::Request) -> (r: Result<HttpRequest, Error>)
        ensures
            r matches Ok(h) ==> Self::spec_http_request(req) == Some(h@),
            r matches Err(e) ==> Self::spec_http_request(req) is None && e.spec_kind()
                == ErrorKind::Serialize,
    ;

    /// Builds the typed response from a raw HTTP response.
    fn parse_response(resp: HttpResponse) -> (r: Result<Self::Response, Error>)
        ensures
            r matches Ok(t) ==> Self::spec_parse_ok(resp@) == Some(t@),
            r matches Err(e) ==> Self::spec_parse_ok(resp@) is None && e.spec_kind()
                == ErrorKind::EndpointDecode,
    ;
}

/// A client for the Matrix client-server API: the homeserver base URL,
/// the transport that performs the HTTP exchanges, and the current
/// session credentials, if any.
pub struct Client<T> {
    /// The homeserver base URL. Only its scheme, host and port survive
    /// dispatch; its own path and query are discarded, so a homeserver
    /// behind a path prefix is not supported.
    pub homeserver_url: UrlParts,
    /// The transport handle.
    pub transport: T,
    /// The current session credentials.
    pub session: Option<Session>,
}

impl<T: Transport> Client<T> {
    /// Creates a client from a prebuilt transport and a homeserver URL,
    /// with no session.
    pub fn new_custom(transport: T, homeserver_url: UrlParts) -> (c: Client<T>)
        ensures
            c.transport == transport,
            c.homeserver_url == homeserver_url,
            c.session is None,
    {
        Client { homeserver_url, transport, session: None }
    }

    /// Rebases a raw request onto the homeserver and, for authenticated
    /// endpoints, replaces any `access_token` query pairs with exactly
    /// one carrying the session's token. Touches no network: when
    /// authentication is required and no session is present, this is
    /// where dispatch stops.
    pub fn prepare(&self, requires_auth: bool, req: HttpRequest) -> (r: Result<
        TransportRequest,
        Error,
    >)
        ensures
            r matches Ok(t) ==> spec_prepare(
                requires_auth,
                spec_token(self.session),
                self.homeserver_url@,
                req@,
            ) == Ok::<TransportRequestModel, Error>(t@),
            r matches Err(e) ==> spec_prepare(
                requires_auth,
                spec_token(self.session),
                self.homeserver_url@,
                req@,
            ) == Err::<TransportRequestModel, Error>(e),
    {
        let HttpRequest { method, path, query, body } = req;
        let url = if requires_auth {
            match &self.session {
                Some(session) => {
                    let key = String::from_str("access_token");
                    let token = session.access_token.clone();
                    let ghost m = query_model(query@);
                    let mut kept: Vec<(String, String)> = Vec::new();
                    let mut i: usize = 0;
                    while i < query.len()
                        invariant
                            i <= query.len(),
                            key@ == spec_access_token_key(),
                            m == query_model(query@),
                            query_model(kept@) == strip_key(
                                m.take(i as int),
                                spec_access_token_key(),
                            ),
                        decreases query.len() - i,
                    {
                        let ghost kept0 = kept@;
                        proof {
                            assert(m[i as int] == (query@[i as int].0@, query@[i as int].1@));
                        }
                        if !(query[i].0 == key) {
                            kept.push((query[i].0.clone(), query[i].1.clone()));
                            proof {
                                assert(query_model(kept@) =~= query_model(kept0).push(
                                    m[i as int],
                                ));
                            }
                        }
                        proof {
                            assert(m.take(i as int + 1) =~= m.take(i as int).push(m[i as int]));
                            crate::http::lemma_strip_key_push(
                                m.take(i as int),
                                spec_access_token_key(),
                                m[i as int],
                            );
                        }
                        i = i + 1;
                    }
                    let ghost kept_stripped = kept@;
                    kept.push((key, token));
                    proof {
                        assert(m.take(query@.len() as int) =~= m);
                        assert(query_model(kept@) =~= query_model(kept_stripped).push(
                            (spec_access_token_key(), spec_token(self.session)->0),
                        ));
                    }
                    UrlParts {
                        scheme: self.homeserver_url.scheme.clone(),
                        host: self.homeserver_url.host.clone(),
                        port: self.homeserver_url.port,
                        path,
                        query: kept,
                    }
                },
                None => {
                    return Err(Error::AuthenticationRequired);
                },
            }
        } else {
            UrlParts {
                scheme: self.homeserver_url.scheme.clone(),
                host: self.homeserver_url.host.clone(),
                port: self.homeserver_url.port,
                path,
                query,
            }
        };
        Ok(TransportRequest { method, url, body })
    }

    /// Prepares the raw request and performs at most one exchange through
    /// the transport. When preparation fails — in particular with
    /// `AuthenticationRequired` when the endpoint needs a session and
    /// none is stored — the transport is never consulted and the client
    /// is left exactly as it was.
    pub fn request_raw(&mut self, requires_auth: bool, req: HttpRequest) -> (r: Result<
        HttpResponse,
        Error,
    >)
        ensures
            final(self).homeserver_url == old(self).homeserver_url,
            final(self).session == old(self).session,
            spec_prepare(
                requires_auth,
                spec_token(old(self).session),
                old(self).homeserver_url@,
                req@,
            ) matches Err(e) ==> r == Err::<HttpResponse, Error>(e) && *final(self) == *old(self),
    {
        let prepared = self.prepare(requires_auth, req);
        match prepared {
            Ok(t) => self.transport.send(&t),
            Err(e) => Err(e),
        }
    }

    /// Dispatches a typed endpoint request: converts it to a raw request,
    /// rebases the URL onto the homeserver, carries the access token as
    /// exactly one query pair when the endpoint requires authentication,
    /// performs exactly one exchange, and converts the raw response back.
    /// The session is read, never written; no retry is performed.
    pub fn request<E: Endpoint>(&mut self, req: E::Request) -> (r: Result<E::Response, Error>)
        ensures
            final(self).homeserver_url == old(self).homeserver_url,
            final(self).session == old(self).session,
            E::spec_http_request(req) is None ==> (r matches Err(e) && e.spec_kind()
                == ErrorKind::Serialize && *final(self) == *old(self)),
            E::spec_http_request(req) is Some && E::spec_requires_auth() && old(self).session
                is None ==> r == Err::<E::Response, Error>(Error::AuthenticationRequired)
                && *final(self) == *old(self),
            r matches Ok(resp) ==> E::spec_http_request(req) is Some && !(E::spec_requires_auth()
                && old(self).session is None) && (exists|raw: HttpResponseModel|
                E::spec_parse_ok(raw) == Some(resp@)),
    {
        let http_req = match E::http_request(req) {
            Ok(h) => h,
            Err(e) => {
                return Err(e);
            },
        };
        let raw = match self.request_raw(E::requires_auth(), http_req) {
            Ok(raw) => raw,
            Err(e) => {
                return Err(e);
            },
        };
        match E::parse_response(raw) {
            Ok(resp) => Ok(resp),
            Err(e) => Err(e),
        }
    }

    /// Logs in with a username and password. On success the session from
    /// the response — its token, user and device, field for field —
    /// replaces the client's stored session; on failure the stored
    /// session is left unchanged. The password is consumed by value and
    /// dropped when the call returns.
    pub fn log_in(&mut self, user: &str, password: String, device_id: Option<String>) -> (r:
        Result<(), Error>)
        ensures
            final(self).homeserver_url == old(self).homeserver_url,
            r is Err ==> final(self).session == old(self).session,
            r is Ok ==> (final(self).session matches Some(s) && (exists|raw: HttpResponseModel|
                (#[trigger] spec_parse_auth_response(raw)) matches Some(a) && s@ == spec_session_of(a))),
    {
        let req = LoginRequest { user: user.to_owned(), password, device_id };
        match self.request::<LoginEndpoint>(req) {
            Ok(resp) => {
                let ghost resp_model = resp@;
                let session = Session {
                    access_token: resp.access_token,
                    user_id: resp.user_id,
                    device_id: resp.device_id,
                };
                proof {
                    let raw = choose|raw: HttpResponseModel|
                        <LoginEndpoint as Endpoint>::spec_parse_ok(raw) == Some(resp_model);
                    assert(spec_parse_auth_response(raw) == Some(resp_model));
                    assert(session@ == spec_session_of(resp_model));
                }
                self.session = Some(session);
                Ok(())
            },
            Err(e) => Err(e),
        }
    }

    /// Registers as a guest. On success the session from the response
    /// replaces the client's stored session; on failure the stored
    /// session is left unchanged.
    pub fn register_guest(&mut self) -> (r: Result<(), Error>)
        ensures
            final(self).homeserver_url == old(self).homeserver_url,
            r is Err ==> final(self).session == old(self).session,
            r is Ok ==> (final(self).session matches Some(s) && (exists|raw: HttpResponseModel|
                (#[trigger] spec_parse_auth_response(raw)) matches Some(a) && s@ == spec_session_of(a))),
    {
        let req = RegisterRequest {
            kind: RegistrationKind::Guest,
            username: None,
            password: None,
        };
        self.register(req)
    }

    /// Registers a new user account. The username is the desired local
    /// part; when it is absent the server picks one. On success the
    /// session from the response replaces the client's stored session;
    /// on failure the stored session is left unchanged. The password is
    /// consumed by value and dropped when the call returns.
    pub fn register_user(&mut self, username: Option<String>, password: String) -> (r: Result<
        (),
        Error,
    >)
        ensures
            final(self).homeserver_url == old(self).homeserver_url,
            r is Err ==> final(self).session == old(self).session,
            r is Ok ==> (final(self).session matches Some(s) && (exists|raw: HttpResponseModel|
                (#[trigger] spec_parse_auth_response(raw)) matches Some(a) && s@ == spec_session_of(a))),
    {
        let req = RegisterRequest {
            kind: RegistrationKind::User,
            username,
            password: Some(password),
        };
        self.register(req)
    }

    /// Dispatches one registration request and stores the session it
    /// yields; the shared tail of both registration flows.
    fn register(&mut self, req: RegisterRequest) -> (r: Result<(), Error>)
        ensures
            final(self).homeserver_url == old(self).homeserver_url,
            r is Err ==> final(self).session == old(self).session,
            r is Ok ==> (final(self).session matches Some(s) && (exists|raw: HttpResponseModel|
                (#[trigger] spec_parse_auth_response(raw)) matches Some(a) && s@ == spec_session_of(a))),
    {
        match self.request::<RegisterEndpoint>(req) {
            Ok(resp) => {
                let ghost resp_model = resp@;
                let session = Session {
                    access_token: resp.access_token,
                    user_id: resp.user_id,
                    device_id: resp.device_id,
                };
                proof {
                    let raw = choose|raw: HttpResponseModel|
                        <RegisterEndpoint as Endpoint>::spec_parse_ok(raw) == Some(resp_model);
                    assert(spec_parse_auth_response(raw) == Some(resp_model));
                    assert(session@ == spec_session_of(resp_model));
                }
                self.session = Some(session);
                Ok(())
            },
            Err(e) => Err(e),
        }
    }

    /// Starts a lazy, restartable event-sync sequence. The filter is
    /// reused verbatim on every pull, the cursor starts from `since`,
    /// and `set_presence = true` omits the presence override while
    /// `set_presence = false` sends an explicit `offline` so polling
    /// does not mark the user online. The stream issues nothing until it
    /// is pulled.
    pub fn sync(&self, filter: Option<String>, since: Option<String>, set_presence: bool) -> (s:
        SyncStream)
        ensures
            s.filter == filter,
            s.since == since,
            s.set_presence == set_presence,
    {
        SyncStream { filter, since, set_presence }
    }
}

} // verus!
