//! Provenance records for a software supply chain: the record itself, the
//! registries of tags that type its fields, and the capabilities that hash,
//! sign and publish it.

mod annotations;
mod annotator;
mod config;
pub mod constants;
mod errors;
mod providers;
pub mod wire;

pub use annotations::{
    default_host, ends_in_offset, is_crockford_digit, is_decimal_digit, is_ulid_text,
    mock_annotation, source_text, tag_follows_layer, Annotation, AnnotationList, AnnotationView,
};
pub use annotator::Annotator;
pub use config::StreamConfigWrapper;
pub use errors::{AnnotationError, AnnotationErrorView};
pub use providers::{
    advance, after, connected_iff_session_open, decide, decision, derive_hash, failed_with,
    opens, publish_forwarded_iff_session_open, run, serialise_and_sign, session_open, shuts,
    sign_serialised, transport_answer, ConnectionState, Decision, HashProvider, MessageView,
    MessageWrapper, Publisher, Request, Session, SessionError, SignProvider,
};
