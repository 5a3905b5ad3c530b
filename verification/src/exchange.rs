//! What passes between this library and the code that talks to the server:
//! the request to send, and what came of sending it and of reading the reply.

use crate::models::{LmStudioModelsResponse, LmStudioModelsResponseView};
use crate::status::HttpStatus;
use vstd::prelude::*;

verus! {

/// A GET request: where it goes and how long it may take.
#[derive(Clone, Debug, PartialEq, Eq)]
pub struct Request {
    pub url: String,
    pub timeout_secs: u64,
}

/// What came of sending a request.
#[derive(Clone, Debug, PartialEq, Eq)]
pub enum SendOutcome {
    /// No HTTP client could be made.
    ClientFailed { error: String },
    /// The request got no response.
    TransportFailed { error: String },
    /// The server answered.
    Responded { status: HttpStatus },
}

/// A `SendOutcome` with its texts as sequences of characters.
pub enum SendOutcomeView {
    ClientFailed { error: Seq<char> },
    TransportFailed { error: Seq<char> },
    Responded { code: u16 },
}

impl View for SendOutcome {
    type V = SendOutcomeView;

    open spec fn view(&self) -> SendOutcomeView {
        match self {
            SendOutcome::ClientFailed { error } => SendOutcomeView::ClientFailed { error: error@ },
            SendOutcome::TransportFailed { error } => SendOutcomeView::TransportFailed {
                error: error@,
            },
            SendOutcome::Responded { status } => SendOutcomeView::Responded { code: status@ },
        }
    }
}

/// What came of reading and decoding a response's body.
#[derive(Clone, Debug, PartialEq, Eq)]
pub enum BodyOutcome {
    /// The body could not be read.
    ReadFailed { error: String },
    /// The body was read and is not a list of models.
    DecodeFailed { error: String, body: String },
    /// The body is this list of models.
    Decoded { response: LmStudioModelsResponse },
}

/// A `BodyOutcome` with its texts as sequences of characters.
pub enum BodyOutcomeView {
    ReadFailed { error: Seq<char> },
    DecodeFailed { error: Seq<char>, body: Seq<char> },
    Decoded { response: LmStudioModelsResponseView },
}

impl View for BodyOutcome {
    type V = BodyOutcomeView;

    open spec fn view(&self) -> BodyOutcomeView {
        match self {
            BodyOutcome::ReadFailed { error } => BodyOutcomeView::ReadFailed { error: error@ },
            BodyOutcome::DecodeFailed { error, body } => BodyOutcomeView::DecodeFailed {
                error: error@,
                body: body@,
            },
            BodyOutcome::Decoded { response } => BodyOutcomeView::Decoded { response: response@ },
        }
    }
}

} // verus!
