//! The ways a query can fail once the request is on its way.
//!
//! These are the failures that a run reports and survives. What goes wrong
//! before a request exists (an input line that cannot be read, an API key
//! that cannot be sent) is no `FetchError`: the functions of this library
//! leave such inputs out by `requires`, and the caller ends the process on
//! them.

use vstd::prelude::*;
use vstd::string::*;

verus! {

/// Why a query gave no temperature.
#[derive(Debug)]
pub enum FetchError {
    /// The service answered with a status outside the 2xx class. Which one it
    /// was, and what the body said, is not kept.
    Api,
    /// No complete answer arrived. Holds the transport's own message.
    Transport(String),
    /// The body was not the expected document. Holds the decoder's own
    /// message.
    Parse(String),
}

/// A `FetchError` with its messages as character sequences.
pub ghost enum FetchErrorView {
    Api,
    Transport(Seq<char>),
    Parse(Seq<char>),
}

impl View for FetchError {
    type V = FetchErrorView;

    open spec fn view(&self) -> FetchErrorView {
        match self {
            FetchError::Api => FetchErrorView::Api,
            FetchError::Transport(message) => FetchErrorView::Transport(message@),
            FetchError::Parse(message) => FetchErrorView::Parse(message@),
        }
    }
}

/// What an error says of itself: the fixed text for a refusal by the service,
/// else the message it holds, unchanged.
pub open spec fn error_message(error: FetchErrorView) -> Seq<char> {
    match error {
        FetchErrorView::Api => "Error in the API"@,
        FetchErrorView::Transport(message) => message,
        FetchErrorView::Parse(message) => message,
    }
}

impl FetchError {
    /// The error's message.
    pub fn message(&self) -> (text: String)
        ensures
            text@ == error_message(self@),
    {
        match self {
            FetchError::Api => String::from_str("Error in the API"),
            FetchError::Transport(message) => message.clone(),
            FetchError::Parse(message) => message.clone(),
        }
    }
}

} // verus!
