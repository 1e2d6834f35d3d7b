use crate::annotations::Annotation;
use vstd::prelude::*;

verus! {

/// Turns content into a record of one kind: it hashes what it is given and
/// fills in the record. It neither signs nor publishes; each call stands
/// alone.
pub trait Annotator: Send + Sync {
    type Error;

    /// Makes the record of `data`.
    fn execute(&mut self, data: &[u8]) -> Result<Annotation, Self::Error>;
}

} // verus!
