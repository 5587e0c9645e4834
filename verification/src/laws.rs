//! The laws of the dispatcher and the sync stream, stated and proved
//! over the same spec functions that the functions' own contracts use.

use vstd::prelude::*;

use crate::client::{spec_access_token_key, spec_prepare};
use crate::error::Error;
use crate::http::{
    count_key, lemma_count_key_concat, lemma_count_key_push, lemma_count_key_singleton,
    lemma_strip_key_count, strip_key, HttpRequestModel, TransportRequestModel, UrlModel,
};
use crate::sync_stream::{spec_advance, spec_request_of, SyncStreamModel};

verus! {

/// An endpoint that requires authentication, dispatched with no session
/// present, fails with `AuthenticationRequired` before anything is
/// handed to the transport.
pub proof fn lemma_authentication_short_circuit(
    token: Option<Seq<char>>,
    hs: UrlModel,
    req: HttpRequestModel,
)
    requires
        token is None,
    ensures
        spec_prepare(true, token, hs, req) == Err::<TransportRequestModel, Error>(
            Error::AuthenticationRequired,
        ),
{
}

/// Whatever the endpoint produced, the dispatched request keeps the
/// homeserver's scheme, host and port, and carries the endpoint's path,
/// method and body untouched: rebasing and authentication decoration
/// change nothing that an endpoint's response conversion could see.
pub proof fn lemma_origin_preserved(
    requires_auth: bool,
    token: Option<Seq<char>>,
    hs: UrlModel,
    req: HttpRequestModel,
)
    requires
        !(requires_auth && token is None),
    ensures
        (spec_prepare(requires_auth, token, hs, req) matches Ok(t) && t.url.scheme == hs.scheme
            && t.url.host == hs.host && t.url.port == hs.port && t.url.path == req.path
            && t.method == req.method && t.body == req.body),
{
}

/// An authenticated dispatch sends the access token exactly once,
/// whatever the endpoint's own query carried: any pair already named
/// `access_token` is dropped, and the one pair appended last holds the
/// session's token at dispatch start.
pub proof fn lemma_token_appended_once(token: Seq<char>, hs: UrlModel, req: HttpRequestModel)
    ensures
        (spec_prepare(true, Some(token), hs, req) matches Ok(t) && t.url.query == strip_key(
            req.query,
            spec_access_token_key(),
        ).push((spec_access_token_key(), token)) && count_key(
            t.url.query,
            spec_access_token_key(),
        ) == 1 && t.url.query[t.url.query.len() - 1] == (spec_access_token_key(), token)),
{
    lemma_strip_key_count(req.query, spec_access_token_key());
    lemma_count_key_push(
        strip_key(req.query, spec_access_token_key()),
        spec_access_token_key(),
        (spec_access_token_key(), token),
    );
}

/// For any key, the count over the sync query is the sum of what its
/// three optional parts contribute.
proof fn lemma_sync_query_decompose(m: SyncStreamModel, key: Seq<char>)
    ensures
        count_key(spec_request_of(m).query, key) == (if m.filter is Some && "filter"@ == key {
            1nat
        } else {
            0nat
        }) + (if m.since is Some && "since"@ == key {
            1nat
        } else {
            0nat
        }) + (if !m.set_presence && "set_presence"@ == key {
            1nat
        } else {
            0nat
        }),
{
    let fpart = (match m.filter {
        Some(f) => seq![("filter"@, f)],
        None => Seq::<(Seq<char>, Seq<char>)>::empty(),
    });
    let spart = (match m.since {
        Some(c) => seq![("since"@, c)],
        None => Seq::<(Seq<char>, Seq<char>)>::empty(),
    });
    let ppart = (if m.set_presence {
        Seq::<(Seq<char>, Seq<char>)>::empty()
    } else {
        seq![("set_presence"@, "offline"@)]
    });
    assert(spec_request_of(m).query =~= fpart + spart + ppart);
    assert(count_key(Seq::<(Seq<char>, Seq<char>)>::empty(), key) == 0);
    lemma_count_key_concat(fpart + spart, ppart, key);
    lemma_count_key_concat(fpart, spart, key);
    if m.filter is Some {
        lemma_count_key_singleton(("filter"@, m.filter->0), key);
    }
    if m.since is Some {
        lemma_count_key_singleton(("since"@, m.since->0), key);
    }
    if !m.set_presence {
        lemma_count_key_singleton(("set_presence"@, "offline"@), key);
    }
}

/// The sync request carries the stream's cursor: exactly one `since`
/// pair, equal to the cursor, when one is set, and no `since` pair at
/// all on a fresh stream.
pub proof fn lemma_sync_request_since(m: SyncStreamModel)
    ensures
        m.since matches Some(c) ==> count_key(spec_request_of(m).query, "since"@) == 1 && (exists|
            i: int,
        |
            0 <= i < spec_request_of(m).query.len() && spec_request_of(m).query[i] == (
            "since"@,
            c,
            )),
        m.since is None ==> count_key(spec_request_of(m).query, "since"@) == 0,
{
    reveal_strlit("filter");
    reveal_strlit("since");
    reveal_strlit("set_presence");
    assert("filter"@.len() == 6);
    assert("since"@.len() == 5);
    assert("set_presence"@.len() == 12);
    lemma_sync_query_decompose(m, "since"@);
    if m.since is Some {
        let idx: int = if m.filter is Some {
            1
        } else {
            0
        };
        assert(spec_request_of(m).query[idx] == ("since"@, m.since->0));
        assert(exists|i: int|
            0 <= i < spec_request_of(m).query.len() && spec_request_of(m).query[i] == (
            "since"@,
            m.since->0,
            ));
    }
}

/// `set_presence = true` omits the presence override altogether;
/// `set_presence = false` sends exactly one explicit `offline` override,
/// so polling does not mark the user online.
pub proof fn lemma_sync_presence(m: SyncStreamModel)
    ensures
        m.set_presence ==> count_key(spec_request_of(m).query, "set_presence"@) == 0,
        !m.set_presence ==> count_key(spec_request_of(m).query, "set_presence"@) == 1 && (exists|
            i: int,
        |
            0 <= i < spec_request_of(m).query.len() && spec_request_of(m).query[i] == (
            "set_presence"@,
            "offline"@,
            )),
{
    reveal_strlit("filter");
    reveal_strlit("since");
    reveal_strlit("set_presence");
    reveal_strlit("offline");
    assert("filter"@.len() == 6);
    assert("since"@.len() == 5);
    assert("set_presence"@.len() == 12);
    lemma_sync_query_decompose(m, "set_presence"@);
    if !m.set_presence {
        let idx: int = (if m.filter is Some {
            1int
        } else {
            0int
        }) + (if m.since is Some {
            1int
        } else {
            0int
        });
        assert(spec_request_of(m).query[idx] == ("set_presence"@, "offline"@));
        assert(exists|i: int|
            0 <= i < spec_request_of(m).query.len() && spec_request_of(m).query[i] == (
            "set_presence"@,
            "offline"@,
            ));
    }
}

/// Cursor threading: after a successful pull whose response carried
/// `next_batch`, the stream's next request sends exactly that cursor as
/// its one `since` pair, while the filter and the presence flag are
/// reused unchanged.
pub proof fn lemma_sync_cursor_threading(m: SyncStreamModel, next_batch: Seq<char>)
    ensures
        spec_advance(m, next_batch).filter == m.filter,
        spec_advance(m, next_batch).set_presence == m.set_presence,
        count_key(spec_request_of(spec_advance(m, next_batch)).query, "since"@) == 1,
        exists|i: int|
            0 <= i < spec_request_of(spec_advance(m, next_batch)).query.len() && spec_request_of(
                spec_advance(m, next_batch),
            ).query[i] == ("since"@, next_batch),
{
    lemma_sync_request_since(spec_advance(m, next_batch));
}

} // verus!
