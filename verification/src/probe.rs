//! Testing whether the server can be reached.

use crate::endpoint::{models_url, models_url_text, PROBE_TIMEOUT_SECS};
use crate::exchange::{Request, SendOutcome, SendOutcomeView};
use crate::failure::{Failure, FailureView};
use crate::status::success_code;
use vstd::prelude::*;

verus! {

/// What a probe reports: whether the server answered with success. Only a
/// client that could not be made is a failure; a request without a response
/// is a server that cannot be reached.
pub open spec fn probe_result(sent: SendOutcomeView) -> Result<bool, FailureView> {
    match sent {
        SendOutcomeView::ClientFailed { error } => Err(FailureView::ClientBuild { error }),
        SendOutcomeView::TransportFailed { error } => Ok(false),
        SendOutcomeView::Responded { code } => Ok(success_code(code)),
    }
}

/// A probe's result, with its texts as sequences of characters.
pub open spec fn result_view(result: Result<bool, Failure>) -> Result<bool, FailureView> {
    match result {
        Ok(reachable) => Ok(reachable),
        Err(failure) => Err(failure@),
    }
}

/// A server that cannot be reached is a negative result, not a failure.
pub proof fn lemma_unreachable_is_negative(error: Seq<char>)
    ensures
        probe_result(SendOutcomeView::TransportFailed { error }) == Ok::<_, FailureView>(false),
{
}

/// A server that answers is reported as healthy exactly when its status is
/// one of 200 to 299.
pub proof fn lemma_answer_is_judged_by_status(code: u16)
    ensures
        probe_result(SendOutcomeView::Responded { code }) == Ok::<_, FailureView>(
            200 <= code <= 299,
        ),
{
}

/// A probe fails only where no client could be made.
pub proof fn lemma_probe_fails_without_client_only(sent: SendOutcomeView)
    ensures
        probe_result(sent) is Err <==> sent is ClientFailed,
{
}

/// The request that probes the server at `base_url`.
pub fn request(base_url: &str) -> (request: Request)
    ensures
        request.url@ == models_url_text(base_url@),
        request.timeout_secs == PROBE_TIMEOUT_SECS,
{
    Request { url: models_url(base_url), timeout_secs: PROBE_TIMEOUT_SECS }
}

/// Gives the probe's result, once the request was sent.
pub fn connection_result(sent: SendOutcome) -> (result: Result<bool, Failure>)
    ensures
        result_view(result) == probe_result(sent@),
{
    match sent {
        SendOutcome::ClientFailed { error } => Err(Failure::ClientBuild { error }),
        SendOutcome::TransportFailed { error: _ } => Ok(false),
        SendOutcome::Responded { status } => Ok(status.is_success()),
    }
}

} // verus!
