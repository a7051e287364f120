//! The errors of the service client.

use crate::text::{joined, push_decimal};
use vstd::prelude::*;

verus! {

/// Why a request could not be built, sent or answered.
#[derive(Debug)]
pub enum SdkError {
    /// The transport could not deliver the request.
    Transport(String),
    /// A payload could not be written or read.
    Serialization(String),
    /// No usable access token.
    Auth(String),
    /// The service answered with a failure status.
    Api { status: u16, message: String },
    /// An argument was refused before anything was sent.
    InvalidInput(String),
}

pub type SdkResult<T> = Result<T, SdkError>;

/// An error with its texts as character sequences.
pub enum SdkErrorView {
    Transport(Seq<char>),
    Serialization(Seq<char>),
    Auth(Seq<char>),
    Api { status: u16, message: Seq<char> },
    InvalidInput(Seq<char>),
}

impl View for SdkError {
    type V = SdkErrorView;

    open spec fn view(&self) -> SdkErrorView {
        match *self {
            SdkError::Transport(msg) => SdkErrorView::Transport(msg@),
            SdkError::Serialization(msg) => SdkErrorView::Serialization(msg@),
            SdkError::Auth(msg) => SdkErrorView::Auth(msg@),
            SdkError::Api { status, message } => SdkErrorView::Api { status, message: message@ },
            SdkError::InvalidInput(msg) => SdkErrorView::InvalidInput(msg@),
        }
    }
}

/// A result with its value and its error as views.
pub open spec fn view_of<T: View>(r: SdkResult<T>) -> Result<T::V, SdkErrorView> {
    match r {
        Ok(value) => Ok(value@),
        Err(e) => Err(e@),
    }
}

/// The text of an error: the class, then the detail.
pub open spec fn error_text(e: SdkErrorView) -> Seq<char> {
    match e {
        SdkErrorView::Transport(msg) => "transport error: "@ + msg,
        SdkErrorView::Serialization(msg) => "serialization error: "@ + msg,
        SdkErrorView::Auth(msg) => "auth error: "@ + msg,
        SdkErrorView::Api { status, message } => "api error "@ + crate::text::decimal(
            status as nat,
        ) + ": "@ + message,
        SdkErrorView::InvalidInput(msg) => "invalid input: "@ + msg,
    }
}

impl SdkError {
    /// The error for a response with a failure status.
    pub fn api(status: u16, message: String) -> (e: SdkError)
        ensures
            e == (SdkError::Api { status, message }),
    {
        SdkError::Api { status, message }
    }

    /// The text of the error.
    pub fn message(&self) -> (text: String)
        ensures
            text@ == error_text(self@),
    {
        match self {
            SdkError::Transport(msg) => joined("transport error: ", msg.as_str()),
            SdkError::Serialization(msg) => joined("serialization error: ", msg.as_str()),
            SdkError::Auth(msg) => joined("auth error: ", msg.as_str()),
            SdkError::Api { status, message } => {
                let mut text = "api error ".to_owned();
                push_decimal(&mut text, *status);
                text.append(": ");
                text.append(message.as_str());
                text
            },
            SdkError::InvalidInput(msg) => joined("invalid input: ", msg.as_str()),
        }
    }
}

} // verus!
