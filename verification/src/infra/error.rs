//! The error value that components store and display.

use vstd::prelude::*;

verus! {

/// A failure to show to the operator. All that a component ever reads of a
/// failure is its message, so the message is all that the value holds.
#[derive(Clone, Debug, PartialEq, Eq)]
pub struct ErrorValue {
    pub message: String,
}

impl View for ErrorValue {
    type V = Seq<char>;

    /// The message.
    open spec fn view(&self) -> Seq<char> {
        self.message@
    }
}

impl DeepView for ErrorValue {
    type V = Seq<char>;

    open spec fn deep_view(&self) -> Seq<char> {
        self@
    }
}

/// The message of a failure `cause` qualified by `context`: the context, a
/// colon and a space, then the cause.
pub open spec fn with_context(context: Seq<char>, cause: Seq<char>) -> Seq<char> {
    context + ": "@ + cause
}

impl ErrorValue {
    /// Makes an error from its message.
    pub fn msg(message: &str) -> (error: ErrorValue)
        ensures
            error@ == message@,
    {
        ErrorValue { message: String::from_str(message) }
    }

    /// Qualifies the error with the context in which it arose.
    pub fn context(self, context: &str) -> (error: ErrorValue)
        ensures
            error@ == with_context(context@, self@),
    {
        let mut message = String::from_str(context);
        message.append(": ");
        message.append(self.message.as_str());
        ErrorValue { message }
    }

    /// Returns the message.
    pub fn to_string(&self) -> (message: String)
        ensures
            message@ == self@,
    {
        self.message.clone()
    }
}

} // verus!
