use vstd::prelude::*;
use vstd::std_specs::convert::FromSpecImpl;
use vstd::string::StringExecFns;

verus! {

/// `serde_json::Error`: what `serde_json` reports when it cannot write or read
/// a document. Nothing is known of what it holds.
#[verifier::external_type_specification]
#[verifier::external_body]
pub struct ExJsonError(serde_json::Error);

/// What can go wrong inside this crate.
#[derive(Debug)]
pub enum AnnotationError {
    /// A string that names no known annotation kind; the string is attached.
    UnknownAnnotation(String),
    /// A string that names no known layer; the string is attached.
    UnknownLayer(String),
    /// A record could not be brought into its wire form; the cause is attached.
    AnnotationSerialize(serde_json::Error),
}

/// An [`AnnotationError`] with its strings as sequences of characters.
pub enum AnnotationErrorView {
    UnknownAnnotation(Seq<char>),
    UnknownLayer(Seq<char>),
    AnnotationSerialize(serde_json::Error),
}

impl View for AnnotationError {
    type V = AnnotationErrorView;

    open spec fn view(&self) -> AnnotationErrorView {
        match *self {
            AnnotationError::UnknownAnnotation(kind) => AnnotationErrorView::UnknownAnnotation(
                kind@,
            ),
            AnnotationError::UnknownLayer(kind) => AnnotationErrorView::UnknownLayer(kind@),
            AnnotationError::AnnotationSerialize(cause) => AnnotationErrorView::AnnotationSerialize(
                cause,
            ),
        }
    }
}

impl From<serde_json::Error> for AnnotationError {
    fn from(err: serde_json::Error) -> (r: Self) {
        AnnotationError::AnnotationSerialize(err)
    }
}

impl FromSpecImpl<serde_json::Error> for AnnotationError {
    open spec fn obeys_from_spec() -> bool {
        true
    }

    open spec fn from_spec(err: serde_json::Error) -> Self {
        AnnotationError::AnnotationSerialize(err)
    }
}

/// Renders the cause with the `Display` of `serde_json::Error`. Nothing is
/// claimed of the text.
#[verifier::external_body]
fn cause_text(cause: &serde_json::Error) -> (text: String) {
    cause.to_string()
}

/// Puts `rest` behind `opening`.
fn worded(opening: &str, rest: &str) -> (text: String)
    ensures
        text@ == opening@ + rest@,
{
    opening.to_owned().concat(rest)
}

impl AnnotationError {
    /// The fixed words that open the message of each kind of error.
    pub open spec fn prefix(self) -> Seq<char> {
        match self {
            AnnotationError::UnknownAnnotation(_) => "unknown annotation type "@,
            AnnotationError::UnknownLayer(_) => "unknown layer type "@,
            AnnotationError::AnnotationSerialize(_) => "annotation failed to serialize: "@,
        }
    }

    /// The message a user is shown. For the two parse errors it ends in the
    /// offending string; for a serialization failure it ends in the cause's
    /// own description.
    pub fn message(&self) -> (text: String)
        ensures
            (match self@ {
                AnnotationErrorView::UnknownAnnotation(kind) => text@ == self.prefix() + kind,
                AnnotationErrorView::UnknownLayer(kind) => text@ == self.prefix() + kind,
                AnnotationErrorView::AnnotationSerialize(_) => exists|cause: Seq<char>|
                    text@ == self.prefix() + cause,
            }),
    {
        match self {
            AnnotationError::UnknownAnnotation(kind) => worded(
                "unknown annotation type ",
                kind.as_str(),
            ),
            AnnotationError::UnknownLayer(kind) => worded("unknown layer type ", kind.as_str()),
            AnnotationError::AnnotationSerialize(cause) => {
                let tail = cause_text(cause);
                let text = worded("annotation failed to serialize: ", tail.as_str());
                assert(text@ == self.prefix() + tail@);
                text
            },
        }
    }
}

} // verus!
