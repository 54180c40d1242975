//! Why a declaration is turned down.

use vstd::prelude::*;

verus! {

/// The reasons for which no companion type is generated.
#[derive(Clone, Copy, Debug, PartialEq, Eq, Structural)]
pub enum TransformError {
    /// The declaration is no struct with named fields.
    UnsupportedShape,
    /// An annotation on the declaration bears a name that the generator does
    /// not know.
    UnrecognizedAnnotation,
    /// A list annotation holds an element that is no bare identifier.
    InvalidListElement,
    /// The value of a `name = value` annotation is no string.
    InvalidRenameValue,
}

impl TransformError {
    /// The words of `message`, for each reason.
    pub open spec fn message_text(self) -> Seq<char> {
        match self {
            TransformError::UnsupportedShape => {
                "OptionalStruct only supports non-tuple structs for now"@
            },
            TransformError::UnrecognizedAnnotation => {
                "OptionalStruct does not support an annotation of this name"@
            },
            TransformError::InvalidListElement => {
                "Only traits name are supported inside optional_struct"@
            },
            TransformError::InvalidRenameValue => "optional_name should be a string"@,
        }
    }

    /// The reason in words, as the build reports it.
    pub fn message(&self) -> (words: &'static str)
        ensures
            words@ == self.message_text(),
    {
        match self {
            TransformError::UnsupportedShape => {
                "OptionalStruct only supports non-tuple structs for now"
            },
            TransformError::UnrecognizedAnnotation => {
                "OptionalStruct does not support an annotation of this name"
            },
            TransformError::InvalidListElement => {
                "Only traits name are supported inside optional_struct"
            },
            TransformError::InvalidRenameValue => "optional_name should be a string",
        }
    }
}

} // verus!
