//! The exchange that asks whether a blob was included: one question to the
//! inclusion service, and what the client makes of the answer.

use crate::blob_id::{parse_blob_id, BlobId, BlobIdView};
use crate::error::{failure, worth_retrying, Cause, DAError, DAErrorView};
use vstd::prelude::*;

verus! {

/// The proof that a blob was included.
#[derive(Clone, Debug, PartialEq, Eq)]
pub struct InclusionData {
    pub data: Vec<u8>,
}

impl View for InclusionData {
    type V = Seq<u8>;

    open spec fn view(&self) -> Seq<u8> {
        self.data@
    }
}

/// How far the inclusion service is with a blob: done, or anything else.
#[derive(Clone, Copy, Debug, PartialEq, Eq, Structural)]
pub enum InclusionStatus {
    /// The proof is finished.
    Complete,
    /// The proof is not finished yet; the question may be asked again.
    Incomplete,
}

/// What the inclusion service answers: a status, and the proof where it sent
/// one.
#[derive(Clone, Debug, PartialEq, Eq)]
pub struct InclusionResponse {
    pub status: InclusionStatus,
    pub proof: Option<Vec<u8>>,
}

/// An answer over mathematical sequences.
pub struct InclusionResponseView {
    pub status: InclusionStatus,
    pub proof: Option<Seq<u8>>,
}

impl View for InclusionResponse {
    type V = InclusionResponseView;

    open spec fn view(&self) -> InclusionResponseView {
        InclusionResponseView {
            status: self.status,
            proof: match self.proof {
                Some(proof) => Some(proof@),
                None => None,
            },
        }
    }
}

/// Where an inclusion query stands.
#[derive(Clone, Copy, Debug, PartialEq, Eq, Structural)]
pub enum InclusionState {
    /// Nothing has been asked yet.
    Idle,
    /// The inclusion service has the question.
    Querying,
    /// The caller has its answer.
    Done,
}

/// What happened outside.
#[derive(Debug, PartialEq, Eq)]
pub enum InclusionEvent {
    /// A caller asks about the blob that `blob_id` stands for.
    Requested { blob_id: String },
    /// The inclusion service answered, or could not be reached.
    Answered(Result<InclusionResponse, String>),
}

/// An event over mathematical sequences.
pub enum InclusionEventView {
    Requested { blob_id: Seq<char> },
    Answered(Result<InclusionResponseView, Seq<char>>),
}

impl View for InclusionEvent {
    type V = InclusionEventView;

    open spec fn view(&self) -> InclusionEventView {
        match *self {
            InclusionEvent::Requested { blob_id } => InclusionEventView::Requested {
                blob_id: blob_id@,
            },
            InclusionEvent::Answered(Ok(response)) => InclusionEventView::Answered(Ok(response@)),
            InclusionEvent::Answered(Err(said)) => InclusionEventView::Answered(Err(said@)),
        }
    }
}

/// What the client asks of the outside next.
#[derive(Debug, PartialEq, Eq)]
pub enum InclusionAction {
    /// Ask the inclusion service about this blob.
    Query { blob_id: BlobId },
    /// Hand the caller its answer: the proof, or nothing yet, or a failure.
    Finish(Result<Option<InclusionData>, DAError>),
}

/// An action over mathematical sequences.
pub enum InclusionActionView {
    Query { blob_id: BlobIdView },
    Finish(Result<Option<Seq<u8>>, DAErrorView>),
}

impl View for InclusionAction {
    type V = InclusionActionView;

    open spec fn view(&self) -> InclusionActionView {
        match *self {
            InclusionAction::Query { blob_id } => InclusionActionView::Query { blob_id: blob_id@ },
            InclusionAction::Finish(Ok(Some(proof))) => InclusionActionView::Finish(
                Ok(Some(proof@)),
            ),
            InclusionAction::Finish(Ok(None)) => InclusionActionView::Finish(Ok(None)),
            InclusionAction::Finish(Err(e)) => InclusionActionView::Finish(Err(e@)),
        }
    }
}

/// The end of a query in a failure that the policy classifies.
pub open spec fn inclusion_fails(cause: Cause, detail: Seq<char>) -> (
    InclusionState,
    InclusionActionView,
) {
    (InclusionState::Done, InclusionActionView::Finish(Err(failure(cause, detail))))
}

/// What the client makes of an answer: the proof where the status is complete
/// and a proof came with it; a failure where the status is complete and none
/// came; nothing yet on any other status, whatever came with it.
pub open spec fn read_response(response: InclusionResponseView) -> Result<
    Option<Seq<u8>>,
    DAErrorView,
> {
    match response.status {
        InclusionStatus::Complete => match response.proof {
            Some(proof) => Ok(Some(proof)),
            None => Err(failure(Cause::ProofMissing, Seq::empty())),
        },
        InclusionStatus::Incomplete => Ok(None),
    }
}

/// One step of an inclusion query: the state that follows `state` on `event`,
/// and what the client asks of the outside next.
///
/// A request reads the identifier and asks the service about it; the answer is
/// handed to the caller as read. A text that stands for no identifier, an
/// unreachable service and an event that the state was not waiting for end the
/// exchange in a failure.
pub open spec fn inclusion_step(state: InclusionState, event: InclusionEventView) -> (
    InclusionState,
    InclusionActionView,
) {
    match (state, event) {
        (InclusionState::Idle, InclusionEventView::Requested { blob_id }) => {
            match parse_blob_id(blob_id) {
                Some(id) => (InclusionState::Querying, InclusionActionView::Query { blob_id: id }),
                None => inclusion_fails(Cause::BlobIdMalformed, Seq::empty()),
            }
        },
        (InclusionState::Querying, InclusionEventView::Answered(outcome)) => {
            match outcome {
                Ok(response) => (
                    InclusionState::Done,
                    InclusionActionView::Finish(read_response(response)),
                ),
                Err(said) => inclusion_fails(Cause::InclusionQueryFailed, said),
            }
        },
        _ => inclusion_fails(Cause::OutOfTurn, Seq::empty()),
    }
}

/// What a whole inclusion query hands its caller, given what the service did:
/// a failure where the text stands for no identifier or the service could not
/// be reached, and else the answer as read.
pub open spec fn inclusion_result(
    blob_id: Seq<char>,
    answered: Result<InclusionResponseView, Seq<char>>,
) -> Result<Option<Seq<u8>>, DAErrorView> {
    match parse_blob_id(blob_id) {
        None => Err(failure(Cause::BlobIdMalformed, Seq::empty())),
        Some(_) => match answered {
            Err(said) => Err(failure(Cause::InclusionQueryFailed, said)),
            Ok(response) => read_response(response),
        },
    }
}

/// The answer of a query that is driven step by step: the service's answer is
/// handed over only where the request did not end the exchange.
pub open spec fn driven_inclusion_result(
    blob_id: Seq<char>,
    answered: Result<InclusionResponseView, Seq<char>>,
) -> Option<Result<Option<Seq<u8>>, DAErrorView>> {
    let first = inclusion_step(InclusionState::Idle, InclusionEventView::Requested { blob_id });
    match first.1 {
        InclusionActionView::Finish(answer) => Some(answer),
        InclusionActionView::Query { blob_id } => match inclusion_step(
            first.0,
            InclusionEventView::Answered(answered),
        ).1 {
            InclusionActionView::Finish(answer) => Some(answer),
            InclusionActionView::Query { blob_id } => None,
        },
    }
}

/// Driving the two steps in their order gives the answer of the whole query,
/// and the service is asked about the identifier that the text stands for.
pub proof fn lemma_driven_inclusion(
    blob_id: Seq<char>,
    answered: Result<InclusionResponseView, Seq<char>>,
)
    ensures
        driven_inclusion_result(blob_id, answered) == Some(inclusion_result(blob_id, answered)),
        parse_blob_id(blob_id) matches Some(id) ==> inclusion_step(
            InclusionState::Idle,
            InclusionEventView::Requested { blob_id },
        ) == (InclusionState::Querying, InclusionActionView::Query { blob_id: id }),
{
}

/// A text that stands for no identifier is refused for good, and the service
/// is not asked.
pub proof fn lemma_malformed_id_is_final(
    blob_id: Seq<char>,
    answered: Result<InclusionResponseView, Seq<char>>,
)
    requires
        parse_blob_id(blob_id) is None,
    ensures
        inclusion_step(InclusionState::Idle, InclusionEventView::Requested { blob_id })
            == inclusion_fails(Cause::BlobIdMalformed, Seq::empty()),
        inclusion_result(blob_id, answered) matches Err(e) && e.cause == Cause::BlobIdMalformed
            && !e.is_retriable,
{
}

/// A complete status without a proof is a failure that no further attempt
/// cures, and its cause says that the proof is missing. It is never read as
/// "not ready yet".
pub proof fn lemma_complete_without_proof(blob_id: Seq<char>)
    requires
        parse_blob_id(blob_id) is Some,
    ensures
        inclusion_result(
            blob_id,
            Ok(InclusionResponseView { status: InclusionStatus::Complete, proof: None }),
        ) matches Err(e) && e.cause == Cause::ProofMissing && !e.is_retriable,
{
}

/// A complete status with a proof hands the caller that proof, byte for byte.
pub proof fn lemma_complete_with_proof(blob_id: Seq<char>, proof: Seq<u8>)
    requires
        parse_blob_id(blob_id) is Some,
    ensures
        inclusion_result(
            blob_id,
            Ok(InclusionResponseView { status: InclusionStatus::Complete, proof: Some(proof) }),
        ) == Ok::<Option<Seq<u8>>, DAErrorView>(Some(proof)),
{
}

/// Any status but complete hands the caller nothing yet, and no failure,
/// whatever came with it.
pub proof fn lemma_incomplete_is_not_yet(blob_id: Seq<char>, proof: Option<Seq<u8>>)
    requires
        parse_blob_id(blob_id) is Some,
    ensures
        inclusion_result(
            blob_id,
            Ok(InclusionResponseView { status: InclusionStatus::Incomplete, proof }),
        ) == Ok::<Option<Seq<u8>>, DAErrorView>(None),
{
}

/// Every failure that a step hands out carries the flag that the policy gives
/// its cause, and the one failure of a query that is worth another attempt is
/// an unreachable service.
pub proof fn lemma_inclusion_failures(state: InclusionState, event: InclusionEventView)
    ensures
        inclusion_step(state, event).1 matches InclusionActionView::Finish(Err(e)) ==> {
            &&& e.is_retriable == worth_retrying(e.cause)
            &&& e.is_retriable <==> state == InclusionState::Querying
                && event matches InclusionEventView::Answered(Err(_))
        },
{
}

} // verus!
