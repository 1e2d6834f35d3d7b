use crate::annotations::Annotation;
use vstd::prelude::*;
use vstd::std_specs::convert::FromSpec;

verus! {

/// Signs content and verifies signatures. Errors are for a provider that
/// cannot do its work, such as one with unusable key material; a signature
/// that does not match is the answer `false`, not an error. A provider need
/// not be able to verify what it signs.
pub trait SignProvider {
    type Error;

    /// Whether `outcome` is an answer that this provider may give when asked
    /// to sign `content`. A provider that says nothing of its answers leaves
    /// this as it is.
    open spec fn signs(&self, content: Seq<u8>, outcome: Result<String, Self::Error>) -> bool {
        true
    }

    /// Whether `outcome` is an answer that this provider may give when asked
    /// whether `signed` is a signature of `content`.
    open spec fn verifies(
        &self,
        content: Seq<u8>,
        signed: Seq<u8>,
        outcome: Result<bool, Self::Error>,
    ) -> bool {
        true
    }

    /// Signs `content` and gives the signature as text.
    fn sign(&self, content: &[u8]) -> (outcome: Result<String, Self::Error>)
        ensures
            self.signs(content@, outcome),
    ;

    /// Tells whether `signed` is a signature of `content`.
    fn verify(&self, content: &[u8], signed: &[u8]) -> (outcome: Result<bool, Self::Error>)
        ensures
            self.verifies(content@, signed@, outcome),
    ;
}

/// Whether `outcome` is the failure that a provider's error type makes of
/// `cause`.
pub open spec fn failed_with<E: From<serde_json::Error>>(
    outcome: Result<String, E>,
    cause: serde_json::Error,
) -> bool {
    &&& outcome is Err
    &&& E::obeys_from_spec() ==> outcome == Err::<String, E>(E::from_spec(cause))
}

/// Signs a record's wire form once the attempt to write it has ended. Bytes
/// are handed to the provider as they are, and its answer is passed on
/// unchanged; a failure to write becomes the provider's own kind of error and
/// the provider is not asked.
pub fn sign_serialised<P>(
    provider: &P,
    serialised: Result<Vec<u8>, serde_json::Error>,
) -> (outcome: Result<String, P::Error>) where
    P: SignProvider,
    P::Error: From<serde_json::Error>,

    ensures
        (match serialised {
            Ok(bytes) => provider.signs(bytes@, outcome),
            Err(cause) => failed_with(outcome, cause),
        }),
{
    match serialised {
        Ok(bytes) => provider.sign(bytes.as_slice()),
        Err(cause) => Err(P::Error::from(cause)),
    }
}

/// Signs a record: the provider is handed the record's wire form, whole and
/// not a digest of it, so that the signature covers every field, and its
/// answer is passed on unchanged.
pub fn serialise_and_sign<P>(
    provider: &P,
    annotation: &Annotation,
) -> (outcome: Result<String, P::Error>) where
    P: SignProvider,
    P::Error: From<serde_json::Error>,

    ensures
        provider.signs(Annotation::wire_form(annotation@), outcome),
{
    let serialised = annotation.to_wire();
    sign_serialised(provider, serialised)
}

} // verus!
