//! Event synchronization as a pull-driven, restartable sequence that
//! threads the `since` cursor from each response into the next request.

use vstd::prelude::*;

use crate::client::{Client, Endpoint};
use crate::endpoints::{
    opt_model, spec_parse_sync_response, spec_sync_http_request, SyncEndpoint, SyncRequest,
    SyncResponse,
};
use crate::error::Error;
use crate::http::{HttpRequestModel, HttpResponseModel, Transport};

verus! {

/// The state of the lazy event-sync sequence: the filter and presence
/// flag reused on every pull, and the cursor the next pull will send.
/// Restartable: a stream seeded with any previous `next_batch` resumes
/// from there.
pub struct SyncStream {
    /// The filter, reused verbatim on every pull.
    pub filter: Option<String>,
    /// The cursor the next pull will send; absent on a fresh stream.
    pub since: Option<String>,
    /// Whether polling may mark the user online.
    pub set_presence: bool,
}

/// The mathematical value of a [`SyncStream`].
pub ghost struct SyncStreamModel {
    /// The filter.
    pub filter: Option<Seq<char>>,
    /// The cursor.
    pub since: Option<Seq<char>>,
    /// The presence flag.
    pub set_presence: bool,
}

impl View for SyncStream {
    type V = SyncStreamModel;

    open spec fn view(&self) -> SyncStreamModel {
        SyncStreamModel {
            filter: opt_model(self.filter),
            since: opt_model(self.since),
            set_presence: self.set_presence,
        }
    }
}

/// The stream state after a successful pull whose response carried
/// `next_batch`: only the cursor moves.
pub open spec fn spec_advance(m: SyncStreamModel, next_batch: Seq<char>) -> SyncStreamModel {
    SyncStreamModel { filter: m.filter, since: Some(next_batch), set_presence: m.set_presence }
}

/// The raw request the stream's next pull will issue.
pub open spec fn spec_request_of(m: SyncStreamModel) -> HttpRequestModel {
    spec_sync_http_request(m.filter, m.since, m.set_presence)
}

/// Copies an optional string.
fn clone_opt(o: &Option<String>) -> (r: Option<String>)
    ensures
        r == *o,
{
    match o {
        Some(s) => Some(s.clone()),
        None => None,
    }
}

impl SyncStream {
    /// Issues one sync pull through the client. The request carries the
    /// stream's current cursor; on success the cursor advances to the
    /// response's `next_batch`, on failure it stays where it was and the
    /// stream may be pulled again — an error does not end the sequence.
    /// Without a session the pull fails with `AuthenticationRequired`
    /// before any exchange.
    pub fn pull<T: Transport>(&mut self, client: &mut Client<T>) -> (r: Result<
        SyncResponse,
        Error,
    >)
        ensures
            final(client).homeserver_url == old(client).homeserver_url,
            final(client).session == old(client).session,
            final(self).filter == old(self).filter,
            final(self).set_presence == old(self).set_presence,
            r is Err ==> final(self).since == old(self).since,
            r matches Ok(resp) ==> final(self)@ == spec_advance(old(self)@, resp.next_batch@) && (
            exists|raw: HttpResponseModel| spec_parse_sync_response(raw) == Some(resp@)),
            old(client).session is None ==> r == Err::<SyncResponse, Error>(
                Error::AuthenticationRequired,
            ) && final(self).since == old(self).since,
    {
        let req = SyncRequest {
            filter: clone_opt(&self.filter),
            since: clone_opt(&self.since),
            set_presence: self.set_presence,
        };
        match client.request::<SyncEndpoint>(req) {
            Ok(resp) => {
                proof {
                    let raw = choose|raw: HttpResponseModel|
                        <SyncEndpoint as Endpoint>::spec_parse_ok(raw) == Some(resp@);
                    assert(spec_parse_sync_response(raw) == Some(resp@));
                }
                self.since = Some(resp.next_batch.clone());
                Ok(resp)
            },
            Err(e) => Err(e),
        }
    }
}

} // verus!
