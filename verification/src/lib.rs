//! A typed client runtime for the Matrix client-server HTTP API.
//!
//! Typed endpoint requests are turned into raw HTTP requests against a
//! homeserver, with the homeserver's scheme, host and port always winning
//! over whatever the endpoint produced, and with the session's access token
//! appended as a query parameter on authenticated calls. Session credentials
//! are acquired by login or registration and stored in the client; event
//! synchronization is exposed as a restartable, cursor-threaded stream.

pub mod client;
pub mod endpoints;
pub mod error;
pub mod http;
pub mod json;
pub mod laws;
pub mod session;
pub mod sync_stream;

pub use crate::client::Client;
pub use crate::error::Error;
pub use crate::error::ErrorKind;
pub use crate::session::Session;
pub use crate::session::UserId;
pub use crate::sync_stream::SyncStream;
