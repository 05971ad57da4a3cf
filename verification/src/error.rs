//! The failures that the library reports.

use vstd::prelude::*;
use vstd::string::StringExecFns;

verus! {

/// Why a shell could not be recognized or its configuration file not located.
#[derive(Debug, PartialEq, Eq)]
pub enum AliasError {
    /// The current user has no home directory.
    NoHomeDirectory,
    /// A text names no supported shell; the text is kept as it was given.
    UnrecognizedShell(String),
}

impl AliasError {
    /// The text of the message that describes a failure.
    pub open spec fn message_text(self) -> Seq<char> {
        match self {
            AliasError::NoHomeDirectory => "User does not have a home dir."@,
            AliasError::UnrecognizedShell(input) => "Unrecognised shell type: "@ + input@,
        }
    }

    /// Describes the failure in words. The message for an unrecognized shell
    /// ends with the text that was given.
    pub fn message(&self) -> (text: String)
        ensures
            text@ == self.message_text(),
    {
        match self {
            AliasError::NoHomeDirectory => "User does not have a home dir.".to_owned(),
            AliasError::UnrecognizedShell(input) => {
                "Unrecognised shell type: ".to_owned().concat(input.as_str())
            },
        }
    }
}

/// The message for an unrecognized shell ends with the text that was given, so
/// the text can be read off the message.
pub proof fn lemma_message_ends_with_input(error: AliasError)
    requires
        error is UnrecognizedShell,
    ensures
        error.message_text().len() >= error->0@.len(),
        error.message_text().skip(error.message_text().len() - error->0@.len()) == error->0@,
{
}

} // verus!
