//! The ways in which a signup fails.

use vstd::prelude::*;

verus! {

/// Why a signup did not yield an access token.
#[derive(Debug, PartialEq, Eq)]
pub enum SignupError {
    /// The request could not be sent, or the response could not be read.
    /// Holds the transport's description of the failure.
    Transport(String),
    /// The backend answered 400, 404 or 500. Holds the message it sent.
    ServerRejected(String),
    /// The backend answered with a status that the signup does not know.
    UnexpectedStatus,
    /// The response body did not hold the record that its status calls for.
    /// Holds the parser's description of the failure.
    Deserialization(String),
}

/// A [`SignupError`] with its strings as sequences of characters.
pub ghost enum SignupErrorView {
    Transport(Seq<char>),
    ServerRejected(Seq<char>),
    UnexpectedStatus,
    Deserialization(Seq<char>),
}

impl View for SignupError {
    type V = SignupErrorView;

    open spec fn view(&self) -> SignupErrorView {
        match self {
            SignupError::Transport(description) => SignupErrorView::Transport(description@),
            SignupError::ServerRejected(message) => SignupErrorView::ServerRejected(message@),
            SignupError::UnexpectedStatus => SignupErrorView::UnexpectedStatus,
            SignupError::Deserialization(description) => SignupErrorView::Deserialization(
                description@,
            ),
        }
    }
}

/// The message of every failure on an unknown status.
pub open spec fn unexpected_status_message() -> Seq<char> {
    "Unexpected response from Xornet"@
}

impl SignupErrorView {
    /// The text that describes the failure to a reader.
    pub open spec fn message(self) -> Seq<char> {
        match self {
            SignupErrorView::Transport(description) => description,
            SignupErrorView::ServerRejected(message) => message,
            SignupErrorView::UnexpectedStatus => unexpected_status_message(),
            SignupErrorView::Deserialization(description) => description,
        }
    }
}

impl SignupError {
    /// The text that describes the failure to a reader: the backend's own
    /// message where it rejected the signup, a fixed sentence where the
    /// status was unknown, and else the description that the failure carries.
    pub fn message(&self) -> (text: String)
        ensures
            text@ == self@.message(),
    {
        match self {
            SignupError::Transport(description) => description.clone(),
            SignupError::ServerRejected(message) => message.clone(),
            SignupError::UnexpectedStatus => String::from_str("Unexpected response from Xornet"),
            SignupError::Deserialization(description) => description.clone(),
        }
    }
}

} // verus!
