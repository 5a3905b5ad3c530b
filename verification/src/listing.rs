//! Listing the models that the server has loaded.
//!
//! The caller sends the request of [`request`] and says in a `SendOutcome`
//! what came of it. Where [`check_response`] lets it go on, it reads and
//! decodes the body and says in a `BodyOutcome` what came of that;
//! [`listing_result`] then gives the list, or the failure.

use crate::endpoint::{models_url, models_url_text, LISTING_TIMEOUT_SECS};
use crate::exchange::{BodyOutcome, BodyOutcomeView, Request, SendOutcome, SendOutcomeView};
use crate::failure::{
    lemma_parse_message_quotes_error_and_body, lemma_status_message_names_code, Failure,
    FailureView,
};
use crate::models::{
    empty_count, lemma_loaded_ids_count, lemma_nothing_loaded, loaded_ids, model_ids,
    LmStudioModelsResponseView,
};
use crate::status::{code_digits, success_code, valid_code};
use crate::text::contains_text;
use vstd::prelude::*;

verus! {

/// The failure that ends a listing after the request to `url` was sent, if
/// one does: no client, no response, or a status other than success.
pub open spec fn response_failure(url: Seq<char>, sent: SendOutcomeView) -> Option<FailureView> {
    match sent {
        SendOutcomeView::ClientFailed { error } => Some(FailureView::ClientBuild { error }),
        SendOutcomeView::TransportFailed { error } => Some(FailureView::Connect { url, error }),
        SendOutcomeView::Responded { code } => if success_code(code) {
            None
        } else {
            Some(FailureView::Status { code })
        },
    }
}

/// What a listing yields once the body was dealt with: the identifiers that
/// are not empty, in the server's order, if there is one; else a failure.
pub open spec fn body_result(body: BodyOutcomeView) -> Result<Seq<Seq<char>>, FailureView> {
    match body {
        BodyOutcomeView::ReadFailed { error } => Err(FailureView::ReadBody { error }),
        BodyOutcomeView::DecodeFailed { error, body } => Err(FailureView::Parse { error, body }),
        BodyOutcomeView::Decoded { response } => if loaded_ids(response.data).len() > 0 {
            Ok(loaded_ids(response.data))
        } else {
            Err(FailureView::NoModels)
        },
    }
}

/// A listing's result, with its texts as sequences of characters.
pub open spec fn result_view(result: Result<Vec<String>, Failure>) -> Result<
    Seq<Seq<char>>,
    FailureView,
> {
    match result {
        Ok(ids) => Ok(ids.deep_view()),
        Err(failure) => Err(failure@),
    }
}

/// A reply of N records, M of them without an identifier and M less than N,
/// yields the N - M identifiers that are not empty, in the records' order.
pub proof fn lemma_listing_of_reply(response: LmStudioModelsResponseView)
    requires
        empty_count(response.data) < response.data.len(),
    ensures
        body_result(BodyOutcomeView::Decoded { response }) == Ok::<_, FailureView>(
            loaded_ids(response.data),
        ),
        loaded_ids(response.data).len() == response.data.len() - empty_count(response.data),
{
    lemma_loaded_ids_count(response.data);
}

/// A reply in which no record has an identifier yields the failure that says
/// that no model is loaded.
pub proof fn lemma_listing_without_identifiers(response: LmStudioModelsResponseView)
    requires
        forall|p: int| 0 <= p < response.data.len() ==> (#[trigger] response.data[p]).id.len() == 0,
    ensures
        body_result(BodyOutcomeView::Decoded { response }) == Err::<Seq<Seq<char>>, _>(
            FailureView::NoModels,
        ),
        FailureView::NoModels.message()
            == "No models found in LM Studio. Make sure a model is loaded."@,
{
    lemma_nothing_loaded(response.data);
}

/// A status other than success ends the listing with a failure whose message
/// contains the status code.
pub proof fn lemma_listing_rejects_other_statuses(url: Seq<char>, code: u16)
    requires
        valid_code(code),
        !success_code(code),
    ensures
        response_failure(url, SendOutcomeView::Responded { code }) == Some(
            FailureView::Status { code },
        ),
        contains_text((FailureView::Status { code }).message(), code_digits(code)),
{
    lemma_status_message_names_code(code);
}

/// A body that could not be decoded ends the listing with a failure whose
/// message contains the decoder's error and the body as it was read.
pub proof fn lemma_listing_reports_undecoded_body(error: Seq<char>, body: Seq<char>)
    ensures
        body_result(BodyOutcomeView::DecodeFailed { error, body }) == Err::<Seq<Seq<char>>, _>(
            FailureView::Parse { error, body },
        ),
        contains_text((FailureView::Parse { error, body }).message(), error),
        contains_text((FailureView::Parse { error, body }).message(), body),
{
    lemma_parse_message_quotes_error_and_body(error, body);
}

/// The request that lists the models of the server at `base_url`.
pub fn request(base_url: &str) -> (request: Request)
    ensures
        request.url@ == models_url_text(base_url@),
        request.timeout_secs == LISTING_TIMEOUT_SECS,
{
    Request { url: models_url(base_url), timeout_secs: LISTING_TIMEOUT_SECS }
}

/// Decides, once the request to `url` was sent, whether the listing goes on
/// to the response's body.
pub fn check_response(url: &str, sent: SendOutcome) -> (go_on: Result<(), Failure>)
    ensures
        match go_on {
            Ok(_) => response_failure(url@, sent@) is None,
            Err(failure) => response_failure(url@, sent@) == Some(failure@),
        },
{
    match sent {
        SendOutcome::ClientFailed { error } => Err(Failure::ClientBuild { error }),
        SendOutcome::TransportFailed { error } => Err(
            Failure::Connect { url: url.to_owned(), error },
        ),
        SendOutcome::Responded { status } => {
            if status.is_success() {
                Ok(())
            } else {
                Err(Failure::Status { status })
            }
        },
    }
}

/// Gives the listing's result, once the body was read and decoded.
pub fn listing_result(outcome: BodyOutcome) -> (result: Result<Vec<String>, Failure>)
    ensures
        result_view(result) == body_result(outcome@),
{
    match outcome {
        BodyOutcome::ReadFailed { error } => Err(Failure::ReadBody { error }),
        BodyOutcome::DecodeFailed { error, body } => Err(Failure::Parse { error, body }),
        BodyOutcome::Decoded { response } => {
            let ids = model_ids(&response);
            if ids.len() == 0 {
                Err(Failure::NoModels)
            } else {
                Ok(ids)
            }
        },
    }
}

} // verus!
