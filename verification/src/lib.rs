//! Core of a local chat client: classification of request failures, the
//! retry policy for chat-completion calls, incremental decoding of
//! server-sent-event streams, and durable session/message storage.

pub mod api;
pub mod credentials;
pub mod retry;
pub mod store;
pub mod stream;
pub mod utils;

pub use credentials::CredentialManager;
pub use store::Database;

use vstd::prelude::*;

verus! {

} // verus!
