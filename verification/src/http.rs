//! Plain wire-level types: URLs as their parts, raw HTTP requests and
//! responses, and the transport interface that performs the exchange.

use vstd::prelude::*;

use crate::error::{Error, ErrorKind};

verus! {

/// The HTTP method of a request.
#[derive(Clone, Copy, Debug, PartialEq, Eq, Structural)]
pub enum Method {
    /// HTTP GET.
    Get,
    /// HTTP POST.
    Post,
    /// HTTP PUT.
    Put,
    /// HTTP DELETE.
    Delete,
}

/// An absolute URL, split into the parts this library reads and writes.
/// The query is kept as decoded key/value pairs; percent-encoding is the
/// transport's concern.
#[derive(Clone, Debug, PartialEq, Eq)]
pub struct UrlParts {
    /// The scheme, `http` or `https`.
    pub scheme: String,
    /// The host name.
    pub host: String,
    /// The port, if one is given explicitly.
    pub port: Option<u16>,
    /// The path, beginning with `/`.
    pub path: String,
    /// The query, as decoded key/value pairs.
    pub query: Vec<(String, String)>,
}

/// The mathematical value of a [`UrlParts`].
pub ghost struct UrlModel {
    /// The scheme.
    pub scheme: Seq<char>,
    /// The host name.
    pub host: Seq<char>,
    /// The explicit port, if any.
    pub port: Option<u16>,
    /// The path.
    pub path: Seq<char>,
    /// The query pairs.
    pub query: Seq<(Seq<char>, Seq<char>)>,
}

/// The mathematical value of a sequence of query pairs.
pub open spec fn query_model(q: Seq<(String, String)>) -> Seq<(Seq<char>, Seq<char>)> {
    q.map_values(|p: (String, String)| (p.0@, p.1@))
}

impl View for UrlParts {
    type V = UrlModel;

    open spec fn view(&self) -> UrlModel {
        UrlModel {
            scheme: self.scheme@,
            host: self.host@,
            port: self.port,
            path: self.path@,
            query: query_model(self.query@),
        }
    }
}

/// How many pairs of `q` carry the key `key`.
pub open spec fn count_key(q: Seq<(Seq<char>, Seq<char>)>, key: Seq<char>) -> nat
    decreases q.len(),
{
    if q.len() == 0 {
        0
    } else {
        (if q[0].0 == key {
            1nat
        } else {
            0nat
        }) + count_key(q.drop_first(), key)
    }
}

/// Appending a pair adds one occurrence of its key and none of any other.
pub proof fn lemma_count_key_push(
    q: Seq<(Seq<char>, Seq<char>)>,
    key: Seq<char>,
    p: (Seq<char>, Seq<char>),
)
    ensures
        count_key(q.push(p), key) == count_key(q, key) + (if p.0 == key {
            1nat
        } else {
            0nat
        }),
    decreases q.len(),
{
    if q.len() == 0 {
        assert(q.push(p).drop_first() =~= q);
    } else {
        assert(q.push(p).drop_first() =~= q.drop_first().push(p));
        lemma_count_key_push(q.drop_first(), key, p);
    }
}

/// Splitting a query splits the count of any key.
pub proof fn lemma_count_key_concat(
    a: Seq<(Seq<char>, Seq<char>)>,
    b: Seq<(Seq<char>, Seq<char>)>,
    key: Seq<char>,
)
    ensures
        count_key(a + b, key) == count_key(a, key) + count_key(b, key),
    decreases a.len(),
{
    if a.len() == 0 {
        assert(a + b =~= b);
    } else {
        assert((a + b)[0] == a[0]);
        assert((a + b).drop_first() =~= a.drop_first() + b);
        lemma_count_key_concat(a.drop_first(), b, key);
    }
}

/// A one-pair query counts its own key once and any other key not at all.
pub proof fn lemma_count_key_singleton(p: (Seq<char>, Seq<char>), key: Seq<char>)
    ensures
        count_key(seq![p], key) == (if p.0 == key {
            1nat
        } else {
            0nat
        }),
{
    let s = seq![p];
    assert(s.len() == 1);
    assert(s[0] == p);
    assert(s.drop_first() =~= Seq::<(Seq<char>, Seq<char>)>::empty());
    assert(count_key(Seq::<(Seq<char>, Seq<char>)>::empty(), key) == 0);
}

/// The query without any pair that carries the key `key`, order kept.
pub open spec fn strip_key(q: Seq<(Seq<char>, Seq<char>)>, key: Seq<char>) -> Seq<
    (Seq<char>, Seq<char>),
>
    decreases q.len(),
{
    if q.len() == 0 {
        Seq::empty()
    } else if q[0].0 == key {
        strip_key(q.drop_first(), key)
    } else {
        seq![q[0]] + strip_key(q.drop_first(), key)
    }
}

/// Stripping one more pair keeps it exactly when its key differs.
pub proof fn lemma_strip_key_push(
    q: Seq<(Seq<char>, Seq<char>)>,
    key: Seq<char>,
    p: (Seq<char>, Seq<char>),
)
    ensures
        strip_key(q.push(p), key) == (if p.0 == key {
            strip_key(q, key)
        } else {
            strip_key(q, key).push(p)
        }),
    decreases q.len(),
{
    if q.len() == 0 {
        assert(q.push(p)[0] == p);
        assert(q.push(p).drop_first() =~= Seq::<(Seq<char>, Seq<char>)>::empty());
        assert(strip_key(Seq::<(Seq<char>, Seq<char>)>::empty(), key) =~= Seq::<
            (Seq<char>, Seq<char>),
        >::empty());
        if p.0 != key {
            assert(strip_key(q.push(p), key) =~= strip_key(q, key).push(p));
        }
    } else {
        assert(q.push(p)[0] == q[0]);
        assert(q.push(p).drop_first() =~= q.drop_first().push(p));
        lemma_strip_key_push(q.drop_first(), key, p);
        if q[0].0 != key && p.0 != key {
            assert(seq![q[0]] + strip_key(q.drop_first(), key).push(p) =~= (seq![q[0]]
                + strip_key(q.drop_first(), key)).push(p));
        }
    }
}

/// A stripped query carries the stripped key not at all.
pub proof fn lemma_strip_key_count(q: Seq<(Seq<char>, Seq<char>)>, key: Seq<char>)
    ensures
        count_key(strip_key(q, key), key) == 0,
    decreases q.len(),
{
    if q.len() == 0 {
        assert(count_key(Seq::<(Seq<char>, Seq<char>)>::empty(), key) == 0);
    } else {
        lemma_strip_key_count(q.drop_first(), key);
        if q[0].0 != key {
            lemma_count_key_singleton(q[0], key);
            lemma_count_key_concat(seq![q[0]], strip_key(q.drop_first(), key), key);
        }
    }
}

/// A raw HTTP request as an endpoint produces it: everything but the
/// homeserver's origin, which the dispatcher supplies.
#[derive(Clone, Debug, PartialEq, Eq)]
pub struct HttpRequest {
    /// The method.
    pub method: Method,
    /// The path, beginning with `/`.
    pub path: String,
    /// The query, as decoded key/value pairs.
    pub query: Vec<(String, String)>,
    /// The body; empty for bodiless requests.
    pub body: String,
}

/// The mathematical value of an [`HttpRequest`].
pub ghost struct HttpRequestModel {
    /// The method.
    pub method: Method,
    /// The path.
    pub path: Seq<char>,
    /// The query pairs.
    pub query: Seq<(Seq<char>, Seq<char>)>,
    /// The body.
    pub body: Seq<char>,
}

impl View for HttpRequest {
    type V = HttpRequestModel;

    open spec fn view(&self) -> HttpRequestModel {
        HttpRequestModel {
            method: self.method,
            path: self.path@,
            query: query_model(self.query@),
            body: self.body@,
        }
    }
}

/// A raw HTTP request ready for the transport: a method, a full target
/// URL, and a body.
#[derive(Clone, Debug, PartialEq, Eq)]
pub struct TransportRequest {
    /// The method.
    pub method: Method,
    /// The full target URL.
    pub url: UrlParts,
    /// The body; empty for bodiless requests.
    pub body: String,
}

/// The mathematical value of a [`TransportRequest`].
pub ghost struct TransportRequestModel {
    /// The method.
    pub method: Method,
    /// The full target URL.
    pub url: UrlModel,
    /// The body.
    pub body: Seq<char>,
}

impl View for TransportRequest {
    type V = TransportRequestModel;

    open spec fn view(&self) -> TransportRequestModel {
        TransportRequestModel { method: self.method, url: self.url@, body: self.body@ }
    }
}

/// A raw HTTP response: a status code and a body.
#[derive(Clone, Debug, PartialEq, Eq)]
pub struct HttpResponse {
    /// The status code.
    pub status: u16,
    /// The body, decoded as text.
    pub body: String,
}

/// The mathematical value of an [`HttpResponse`].
pub ghost struct HttpResponseModel {
    /// The status code.
    pub status: u16,
    /// The body.
    pub body: Seq<char>,
}

impl View for HttpResponse {
    type V = HttpResponseModel;

    open spec fn view(&self) -> HttpResponseModel {
        HttpResponseModel { status: self.status, body: self.body@ }
    }
}

/// The raw HTTP exchange, supplied by the embedder of the library: an
/// implementation encodes the structured target URL into its own URI
/// form, performs one request, and hands back the response. Nothing is
/// assumed of the outcome; every caller in this library states what
/// holds whatever comes back.
pub trait Transport {
    /// Performs one HTTP exchange.
    fn send(&mut self, request: &TransportRequest) -> Result<HttpResponse, Error>;
}

/// What splitting a URL string yields: the parts, with the query
/// emptied, exactly when the string is an absolute URL with a host. The
/// result is a function of the string alone.
pub uninterp spec fn spec_split_url(s: Seq<char>) -> Option<UrlModel>;

/// Relies on `url::Url::parse` to validate an absolute URL, and on its
/// accessors `scheme`, `host_str`, `port`, `path` and `query` to split it.
/// The query pairs of the result are left empty: a homeserver URL's own
/// query is discarded on every dispatch.
#[verifier::external_body]
fn split_url(s: &str) -> (r: Option<UrlParts>)
    ensures
        r matches Some(p) ==> spec_split_url(s@) == Some(p@) && p.query@.len() == 0,
        r is None ==> spec_split_url(s@) is None,
{
    let u = url::Url::parse(s).ok()?;
    let host = u.host_str()?.to_owned();
    Some(UrlParts {
        scheme: u.scheme().to_owned(),
        host,
        port: u.port(),
        path: u.path().to_owned(),
        query: Vec::new(),
    })
}

/// Whether a split URL has a scheme this library accepts.
pub open spec fn spec_scheme_ok(u: UrlModel) -> bool {
    u.scheme == "http"@ || u.scheme == "https"@
}

impl UrlParts {
    /// Parses an absolute `http` or `https` URL into its parts. Succeeds
    /// exactly when the string splits as an absolute URL whose scheme is
    /// `http` or `https`, and then returns exactly the split parts; every
    /// failure is of kind `UrlParse`. The URL's own path is kept but is
    /// overwritten on every dispatch, so a homeserver behind a path
    /// prefix is not supported; its query is discarded outright.
    pub fn parse(s: &str) -> (r: Result<UrlParts, Error>)
        ensures
            r matches Ok(p) ==> spec_split_url(s@) == Some(p@) && spec_scheme_ok(p@)
                && p@.query.len() == 0,
            r matches Err(e) ==> e.spec_kind() == ErrorKind::UrlParse && (spec_split_url(s@)
                is None || !spec_scheme_ok(spec_split_url(s@)->0)),
    {
        match split_url(s) {
            Some(p) => {
                let http = String::from_str("http");
                let https = String::from_str("https");
                if p.scheme == http || p.scheme == https {
                    Ok(p)
                } else {
                    Err(Error::UrlParse(String::from_str("the scheme must be http or https")))
                }
            },
            None => Err(Error::UrlParse(String::from_str("the URL could not be parsed"))),
        }
    }
}

} // verus!
