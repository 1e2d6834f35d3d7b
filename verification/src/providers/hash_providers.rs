use vstd::prelude::*;

verus! {

/// Computes a digest of content. An implementation carries no state from one
/// call to the next and may be shared by callers.
pub trait HashProvider {
    /// Whether `digest` is an answer that this provider may give for `data`.
    /// A provider that says nothing of its answers leaves this as it is.
    open spec fn derives(&self, data: Seq<u8>, digest: Seq<char>) -> bool {
        true
    }

    /// Digests `data`. There is no error to return: a provider that can
    /// fail answers with a digest that stands for the failure.
    fn derive(&self, data: &[u8]) -> (digest: String)
        ensures
            self.derives(data@, digest@),
    ;
}

/// Has `hash_type` digest `data`: the provider is handed exactly `data`, and
/// its answer is passed on unchanged.
pub fn derive_hash<H: HashProvider>(hash_type: H, data: &[u8]) -> (digest: String)
    ensures
        hash_type.derives(data@, digest@),
{
    hash_type.derive(data)
}

} // verus!
