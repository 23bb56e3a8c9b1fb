//! What a service answers, whatever its handler did.

use crate::response::{
    error_response, failure, fallback, good_response, reply_to, sendable, HandlerResponse,
    HandlerResponseView, Reply, ReplyView,
};
use vstd::prelude::*;

verus! {

/// How a call of the handler ended.
#[derive(Debug)]
pub enum HandlerOutcome {
    /// The handler returned a response.
    Returned(HandlerResponse),
    /// The handler reported an error, described by the text.
    Failed(String),
    /// The handler panicked.
    Panicked,
}

pub enum HandlerOutcomeView {
    Returned(HandlerResponseView),
    Failed(Seq<char>),
    Panicked,
}

impl View for HandlerOutcome {
    type V = HandlerOutcomeView;

    open spec fn view(&self) -> HandlerOutcomeView {
        match self {
            HandlerOutcome::Returned(response) => HandlerOutcomeView::Returned(response@),
            HandlerOutcome::Failed(description) => HandlerOutcomeView::Failed(description@),
            HandlerOutcome::Panicked => HandlerOutcomeView::Panicked,
        }
    }
}

/// The reply to a request whose handler ended with `outcome`.
///
/// A response is passed on as `reply_to` says. A reported error and a panic
/// both give the fallback; the error's description, or a fixed message for
/// the panic, is recorded and not sent.
pub open spec fn answer(outcome: HandlerOutcomeView) -> ReplyView {
    match outcome {
        HandlerOutcomeView::Returned(response) => reply_to(response),
        HandlerOutcomeView::Failed(description) => failure(description),
        HandlerOutcomeView::Panicked => failure("Application handler paniced"@),
    }
}

/// Decides what is sent for a request once its handler has ended.
pub fn respond(outcome: HandlerOutcome) -> (reply: Reply)
    ensures
        reply@ == answer(outcome@),
        sendable(reply@.response),
        reply@.error is Some ==> reply@.response == fallback(),
{
    match outcome {
        HandlerOutcome::Returned(response) => good_response(response),
        HandlerOutcome::Failed(description) => error_response(description.as_str()),
        HandlerOutcome::Panicked => error_response("Application handler paniced"),
    }
}

/// Every request is answered: however its handler ended, there is a reply,
/// and the transport can send its response as it stands.
pub proof fn lemma_every_outcome_is_answered(outcome: HandlerOutcomeView)
    ensures
        sendable(answer(outcome).response),
{
    if let HandlerOutcomeView::Returned(response) = outcome {
        crate::response::lemma_reply_is_sendable(response);
    }
}

/// Every failure looks the same to the client: whenever something is
/// recorded, the fallback is sent, and it holds nothing of what was recorded.
/// A handler that reported an error or panicked is always answered so.
pub proof fn lemma_failures_look_alike(outcome: HandlerOutcomeView)
    ensures
        answer(outcome).error is Some ==> answer(outcome).response == fallback(),
        !(outcome is Returned) ==> answer(outcome).error is Some,
        outcome matches HandlerOutcomeView::Failed(description) ==> answer(outcome).error == Some(
            description,
        ),
{
}

} // verus!
