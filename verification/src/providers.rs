//! The capabilities that a record passes through: hashing, signing and
//! publishing. Each is a trait for the caller to implement.

mod hash_providers;
mod signature_provider;
mod stream_provider;

pub use hash_providers::{derive_hash, HashProvider};
pub use signature_provider::{failed_with, serialise_and_sign, sign_serialised, SignProvider};
pub use stream_provider::{
    advance, after, connected_iff_session_open, decide, decision, opens,
    publish_forwarded_iff_session_open, run, session_open, shuts, transport_answer,
    ConnectionState, Decision, MessageView, MessageWrapper, Publisher, Request, Session,
    SessionError,
};
