//! What goes wrong in remote control, and how it is said.

use vstd::prelude::*;

verus! {

/// What kind of failure an error is.
#[derive(Clone, Copy, Debug, PartialEq, Eq, Structural)]
pub enum ErrorKind {
    PermissionDenied,
    NotFound,
    InvalidInput,
    InvalidData,
    Other,
}

/// A failure, with the message that says what failed.
#[derive(Debug, PartialEq, Eq)]
pub struct RemoteControlError {
    pub kind: ErrorKind,
    pub message: String,
}

/// A failure, with its text.
pub struct ErrorView {
    pub kind: ErrorKind,
    pub message: Seq<char>,
}

impl View for RemoteControlError {
    type V = ErrorView;

    open spec fn view(&self) -> ErrorView {
        ErrorView { kind: self.kind, message: self.message@ }
    }
}

/// A failure of no particular kind.
pub open spec fn other_error(message: Seq<char>) -> ErrorView {
    ErrorView { kind: ErrorKind::Other, message }
}

impl RemoteControlError {
    /// A failure of no particular kind.
    pub fn other(message: String) -> (r: RemoteControlError)
        ensures
            r@ == other_error(message@),
    {
        RemoteControlError { kind: ErrorKind::Other, message }
    }
}

/// A text, or the failure in its place, with its texts.
pub open spec fn result_text(result: Result<String, RemoteControlError>) -> Result<
    Seq<char>,
    ErrorView,
> {
    match result {
        Ok(text) => Ok(text@),
        Err(err) => Err(err@),
    }
}

/// A failure of no particular kind is just that, with its message. A result that is shown with its
/// texts succeeds where it did and fails where it did, with the same text, kind and message.
pub proof fn law_failures_keep_their_kind_and_message(
    message: Seq<char>,
    result: Result<String, RemoteControlError>,
)
    ensures
        other_error(message).kind == ErrorKind::Other,
        other_error(message).message == message,
        result matches Ok(text) ==> result_text(result) == Ok::<Seq<char>, ErrorView>(text@),
        result matches Err(err) ==> result_text(result) matches Err(shown) && shown.kind == err.kind
            && shown.message == err.message@,
{
}

} // verus!
