//! The unified failure type shared by every operation of the client.

use vstd::prelude::*;

verus! {

/// The stage of a call that an [`Error`] belongs to, without the
/// diagnostic payload. Contracts speak of kinds so that they pin down
/// which failure is returned without fixing the wording of the cause.
#[derive(Clone, Copy, Debug, PartialEq, Eq, Structural)]
pub enum ErrorKind {
    /// The endpoint requires a session and the client has none.
    AuthenticationRequired,
    /// A homeserver URL could not be parsed.
    UrlParse,
    /// A rebased URL could not be converted into a transport URI.
    UriParse,
    /// An endpoint could not encode its request.
    Serialize,
    /// The underlying HTTP exchange failed.
    Transport,
    /// The exchange succeeded but the typed response could not be built.
    EndpointDecode,
    /// TLS initialization failed while constructing a client.
    TlsInit,
}

/// A failure of one client operation. Every variant except
/// [`Error::AuthenticationRequired`] carries a description of the
/// underlying cause for diagnostics.
#[derive(Clone, Debug, PartialEq, Eq)]
pub enum Error {
    /// The endpoint requires a session and the client has none.
    AuthenticationRequired,
    /// A homeserver URL could not be parsed.
    UrlParse(String),
    /// A rebased URL could not be converted into a transport URI.
    UriParse(String),
    /// An endpoint could not encode its request.
    Serialize(String),
    /// The underlying HTTP exchange failed.
    Transport(String),
    /// The exchange succeeded but the typed response could not be built.
    EndpointDecode(String),
    /// TLS initialization failed while constructing a client.
    TlsInit(String),
}

impl Error {
    /// The kind of this error.
    pub open spec fn spec_kind(&self) -> ErrorKind {
        match self {
            Error::AuthenticationRequired => ErrorKind::AuthenticationRequired,
            Error::UrlParse(_) => ErrorKind::UrlParse,
            Error::UriParse(_) => ErrorKind::UriParse,
            Error::Serialize(_) => ErrorKind::Serialize,
            Error::Transport(_) => ErrorKind::Transport,
            Error::EndpointDecode(_) => ErrorKind::EndpointDecode,
            Error::TlsInit(_) => ErrorKind::TlsInit,
        }
    }

    /// Returns the kind of this error.
    pub fn kind(&self) -> (k: ErrorKind)
        ensures
            k == self.spec_kind(),
    {
        match self {
            Error::AuthenticationRequired => ErrorKind::AuthenticationRequired,
            Error::UrlParse(_) => ErrorKind::UrlParse,
            Error::UriParse(_) => ErrorKind::UriParse,
            Error::Serialize(_) => ErrorKind::Serialize,
            Error::Transport(_) => ErrorKind::Transport,
            Error::EndpointDecode(_) => ErrorKind::EndpointDecode,
            Error::TlsInit(_) => ErrorKind::TlsInit,
        }
    }

    /// A description of the failure: the carried cause, or a fixed
    /// sentence for the authentication short-circuit.
    pub fn message(&self) -> (m: String)
        ensures
            (match self {
                Error::AuthenticationRequired => true,
                Error::UrlParse(c) => m@ == c@,
                Error::UriParse(c) => m@ == c@,
                Error::Serialize(c) => m@ == c@,
                Error::Transport(c) => m@ == c@,
                Error::EndpointDecode(c) => m@ == c@,
                Error::TlsInit(c) => m@ == c@,
            }),
    {
        match self {
            Error::AuthenticationRequired => String::from_str("the endpoint requires authentication but no session is present"),
            Error::UrlParse(c) => c.clone(),
            Error::UriParse(c) => c.clone(),
            Error::Serialize(c) => c.clone(),
            Error::Transport(c) => c.clone(),
            Error::EndpointDecode(c) => c.clone(),
            Error::TlsInit(c) => c.clone(),
        }
    }
}

} // verus!
