//! What an operation on the stored content reports when it cannot finish.

use vstd::prelude::*;

verus! {

/// The ways in which an operation fails.
#[derive(Clone, Copy, Debug, PartialEq, Eq, Structural)]
pub enum EditorError {
    /// No dialog row has the requested id.
    DialogNotFound,
    /// No speaker row has the requested id.
    SpeakerNotFound,
    /// A text column that should hold a serialized list does not hold one.
    MalformedList,
}

impl EditorError {
    /// The message shown for this failure.
    pub open spec fn message_text(self) -> Seq<char> {
        match self {
            EditorError::DialogNotFound => "dialog not found"@,
            EditorError::SpeakerNotFound => "speaker not found"@,
            EditorError::MalformedList => "stored list is malformed"@,
        }
    }

    /// Renders the failure as a message for the user interface.
    pub fn message(&self) -> (text: String)
        ensures
            text@ == self.message_text(),
    {
        match self {
            EditorError::DialogNotFound => String::from_str("dialog not found"),
            EditorError::SpeakerNotFound => String::from_str("speaker not found"),
            EditorError::MalformedList => String::from_str("stored list is malformed"),
        }
    }
}

} // verus!
