use crate::constants::StreamType;
use vstd::prelude::*;

verus! {

/// What a publisher needs to know of its configuration, whatever else the
/// configuration holds.
pub trait StreamConfigWrapper {
    /// The kind of stream to publish to.
    fn stream_type(&self) -> &StreamType;
}

} // verus!
