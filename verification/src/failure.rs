//! The ways a request to LM Studio fails, and what each is called.

use crate::status::{
    canonical_reason_of, code_digits, phrase_view, reason_or, status_line_text, valid_code,
    HttpStatus,
};
use crate::text::{
    contains_text, lemma_contains_transitive, lemma_end_is_contained, lemma_part_is_contained,
};
use vstd::prelude::*;
use vstd::string::*;

verus! {

/// How loudly a failure is reported.
#[derive(Clone, Copy, Debug, PartialEq, Eq, Structural)]
pub enum Severity {
    Error,
    Warning,
}

/// A request that did not yield a list of models.
#[derive(Clone, Debug, PartialEq, Eq)]
pub enum Failure {
    /// No HTTP client could be made; `error` says why.
    ClientBuild { error: String },
    /// The request to `url` got no response; `error` says why.
    Connect { url: String, error: String },
    /// The server answered with a status other than success.
    Status { status: HttpStatus },
    /// The response's body could not be read; `error` says why.
    ReadBody { error: String },
    /// The body is not a list of models; `error` says why.
    Parse { error: String, body: String },
    /// The list names no model.
    NoModels,
}

/// A failure with its texts as sequences of characters.
pub enum FailureView {
    ClientBuild { error: Seq<char> },
    Connect { url: Seq<char>, error: Seq<char> },
    Status { code: u16 },
    ReadBody { error: Seq<char> },
    Parse { error: Seq<char>, body: Seq<char> },
    NoModels,
}

impl View for Failure {
    type V = FailureView;

    open spec fn view(&self) -> FailureView {
        match self {
            Failure::ClientBuild { error } => FailureView::ClientBuild { error: error@ },
            Failure::Connect { url, error } => FailureView::Connect { url: url@, error: error@ },
            Failure::Status { status } => FailureView::Status { code: status@ },
            Failure::ReadBody { error } => FailureView::ReadBody { error: error@ },
            Failure::Parse { error, body } => FailureView::Parse { error: error@, body: body@ },
            Failure::NoModels => FailureView::NoModels,
        }
    }
}

/// The message for the status that is written `line` and has the reason
/// phrase `reason`, if it has one.
pub open spec fn status_message_text(line: Seq<char>, reason: Option<Seq<char>>) -> Seq<char> {
    "LM Studio returned status "@ + line + ": "@ + match reason {
        Some(phrase) => phrase,
        None => "Unknown error"@,
    }
}

/// Writes the message for a status other than success, from the status as
/// it is written out and its reason phrase.
pub fn status_message(line: &str, reason: Option<&str>) -> (text: String)
    ensures
        text@ == status_message_text(line@, phrase_view(reason)),
{
    let phrase = match reason {
        Some(phrase) => phrase,
        None => "Unknown error",
    };
    "LM Studio returned status ".to_owned().concat(line).concat(": ").concat(phrase)
}

impl FailureView {
    /// The message that reports the failure.
    pub open spec fn message(self) -> Seq<char> {
        match self {
            FailureView::ClientBuild { error } => "Failed to create HTTP client: "@ + error,
            FailureView::Connect { url, error } => "Failed to connect to LM Studio at "@ + url
                + ": "@ + error,
            FailureView::Status { code } => status_message_text(
                status_line_text(code),
                canonical_reason_of(code),
            ),
            FailureView::ReadBody { error } => "Failed to read response text: "@ + error,
            FailureView::Parse { error, body } => "Failed to parse models response: "@ + error
                + ". Response was: "@ + body,
            FailureView::NoModels => "No models found in LM Studio. Make sure a model is loaded."@,
        }
    }

    /// Whether two failures are of one kind.
    pub open spec fn same_kind(self, other: FailureView) -> bool {
        match self {
            FailureView::ClientBuild { .. } => other is ClientBuild,
            FailureView::Connect { .. } => other is Connect,
            FailureView::Status { .. } => other is Status,
            FailureView::ReadBody { .. } => other is ReadBody,
            FailureView::Parse { .. } => other is Parse,
            FailureView::NoModels => other is NoModels,
        }
    }

    /// An empty list is a warning; every other failure is an error.
    pub open spec fn severity(self) -> Severity {
        match self {
            FailureView::NoModels => Severity::Warning,
            _ => Severity::Error,
        }
    }
}

/// Failures of different kinds have different messages.
pub proof fn lemma_message_tells_kind(first: FailureView, second: FailureView)
    requires
        first.message() == second.message(),
    ensures
        first.same_kind(second),
{
    lemma_message_start(first);
    lemma_message_start(second);
}

/// The characters of a message by which its kind is told.
proof fn lemma_message_start(failure: FailureView)
    ensures
        failure.message().len() >= 12,
        failure is ClientBuild ==> failure.message()[0] == 'F' && failure.message()[10] == 'c'
            && failure.message()[11] == 'r',
        failure is Connect ==> failure.message()[0] == 'F' && failure.message()[10] == 'c'
            && failure.message()[11] == 'o',
        failure is Status ==> failure.message()[0] == 'L',
        failure is ReadBody ==> failure.message()[0] == 'F' && failure.message()[10] == 'r',
        failure is Parse ==> failure.message()[0] == 'F' && failure.message()[10] == 'p',
        failure is NoModels ==> failure.message()[0] == 'N',
{
    reveal_strlit("Failed to create HTTP client: ");
    reveal_strlit("Failed to connect to LM Studio at ");
    reveal_strlit("LM Studio returned status ");
    reveal_strlit("Failed to read response text: ");
    reveal_strlit("Failed to parse models response: ");
    reveal_strlit("No models found in LM Studio. Make sure a model is loaded.");
}

/// The message for a status other than success contains the status code,
/// written in decimal.
pub proof fn lemma_status_message_names_code(code: u16)
    requires
        valid_code(code),
    ensures
        contains_text((FailureView::Status { code }).message(), code_digits(code)),
{
    let message = (FailureView::Status { code }).message();
    let line = status_line_text(code);
    let after_digits = " "@ + reason_or(code, "<unknown status code>"@);
    let after_line = ": "@ + reason_or(code, "Unknown error"@);
    assert(line =~= Seq::<char>::empty() + code_digits(code) + after_digits);
    lemma_part_is_contained(Seq::empty(), code_digits(code), after_digits);
    assert(message =~= "LM Studio returned status "@ + line + after_line);
    lemma_part_is_contained("LM Studio returned status "@, line, after_line);
    lemma_contains_transitive(message, line, code_digits(code));
}

/// The message for a body that could not be decoded contains the decoder's
/// error and the body as it was read.
pub proof fn lemma_parse_message_quotes_error_and_body(error: Seq<char>, body: Seq<char>)
    ensures
        contains_text((FailureView::Parse { error, body }).message(), error),
        contains_text((FailureView::Parse { error, body }).message(), body),
{
    let message = (FailureView::Parse { error, body }).message();
    lemma_end_is_contained("Failed to parse models response: "@ + error + ". Response was: "@, body);
    assert(message =~= "Failed to parse models response: "@ + error + (". Response was: "@ + body));
    lemma_part_is_contained("Failed to parse models response: "@, error, ". Response was: "@ + body);
}

/// The message for a request without a response contains the address that
/// was requested and the transport's error.
pub proof fn lemma_connect_message_names_address(url: Seq<char>, error: Seq<char>)
    ensures
        contains_text((FailureView::Connect { url, error }).message(), url),
        contains_text((FailureView::Connect { url, error }).message(), error),
{
    let message = (FailureView::Connect { url, error }).message();
    lemma_end_is_contained("Failed to connect to LM Studio at "@ + url + ": "@, error);
    assert(message =~= "Failed to connect to LM Studio at "@ + url + (": "@ + error));
    lemma_part_is_contained("Failed to connect to LM Studio at "@, url, ": "@ + error);
}

impl Failure {
    /// Writes the message that reports the failure.
    pub fn message(&self) -> (text: String)
        ensures
            text@ == self@.message(),
    {
        match self {
            Failure::ClientBuild { error } => "Failed to create HTTP client: ".to_owned().concat(
                error.as_str(),
            ),
            Failure::Connect { url, error } => "Failed to connect to LM Studio at ".to_owned()
                .concat(url.as_str()).concat(": ").concat(error.as_str()),
            Failure::Status { status } => {
                let line = status.to_text();
                status_message(line.as_str(), status.canonical_reason())
            },
            Failure::ReadBody { error } => "Failed to read response text: ".to_owned().concat(
                error.as_str(),
            ),
            Failure::Parse { error, body } => "Failed to parse models response: ".to_owned()
                .concat(error.as_str()).concat(". Response was: ").concat(body.as_str()),
            Failure::NoModels => "No models found in LM Studio. Make sure a model is loaded."
                .to_owned(),
        }
    }

    /// How loudly the failure is reported.
    pub fn severity(&self) -> (level: Severity)
        ensures
            level == self@.severity(),
    {
        match self {
            Failure::NoModels => Severity::Warning,
            _ => Severity::Error,
        }
    }
}

} // verus!
