//! The exchange that hands one blob to the network: what the client asks of
//! the outside at each step, and what it makes of each answer.

use crate::blob::{can_form_blob, share_commitment, Commitment};
use crate::blob_id::{blob_id_text, BlobId, BlobIdView};
use crate::error::{failure, worth_retrying, Cause, DAError, DAErrorView};
use crate::hex_text::parse_hex;
use crate::namespace::{
    is_namespace, is_v0_id, lemma_v0_namespace_is_namespace, v0_namespace, Namespace,
};
use vstd::prelude::*;
use vstd::utf8::*;

verus! {

/// What a caller gets for a blob that was taken: the text of its identifier.
#[derive(Clone, Debug, PartialEq, Eq)]
pub struct DispatchResponse {
    pub blob_id: String,
}

impl View for DispatchResponse {
    type V = Seq<char>;

    open spec fn view(&self) -> Seq<char> {
        self.blob_id@
    }
}

/// Where a dispatch stands.
#[derive(Clone, Copy, Debug, PartialEq, Eq)]
pub enum DispatchState {
    /// Nothing has been asked yet.
    Idle,
    /// The blob is formed; the submission is being prepared and signed.
    Signing { namespace: Namespace, commitment: Commitment },
    /// The signed submission is on its way to the network.
    Submitting { namespace: Namespace, commitment: Commitment },
    /// The network took the blob; the inclusion service is being told.
    Registering { blob_id: BlobId },
    /// The caller has its answer.
    Done,
}

/// A dispatch's state over mathematical sequences.
pub enum DispatchStateView {
    Idle,
    Signing { namespace: Seq<u8>, commitment: Seq<u8> },
    Submitting { namespace: Seq<u8>, commitment: Seq<u8> },
    Registering { blob_id: BlobIdView },
    Done,
}

impl View for DispatchState {
    type V = DispatchStateView;

    open spec fn view(&self) -> DispatchStateView {
        match *self {
            DispatchState::Idle => DispatchStateView::Idle,
            DispatchState::Signing { namespace, commitment } => DispatchStateView::Signing {
                namespace: namespace@,
                commitment: commitment@,
            },
            DispatchState::Submitting { namespace, commitment } => DispatchStateView::Submitting {
                namespace: namespace@,
                commitment: commitment@,
            },
            DispatchState::Registering { blob_id } => DispatchStateView::Registering {
                blob_id: blob_id@,
            },
            DispatchState::Done => DispatchStateView::Done,
        }
    }
}

/// What happened outside. A failure carries what the other side said of it.
#[derive(Debug, PartialEq, Eq)]
pub enum DispatchEvent {
    /// A caller asks for `payload` to be dispatched. The batch number is the
    /// caller's own bookkeeping.
    Requested { batch_number: u32, payload: Vec<u8> },
    /// The submission was prepared and signed, or could not be.
    Signed(Result<(), String>),
    /// The network took the submission at a height, or did not take it.
    Submitted(Result<u64, String>),
    /// The inclusion service was told of the blob, or could not be reached.
    Registered(Result<(), String>),
}

/// An event over mathematical sequences.
pub enum DispatchEventView {
    Requested { batch_number: u32, payload: Seq<u8> },
    Signed(Result<(), Seq<char>>),
    Submitted(Result<u64, Seq<char>>),
    Registered(Result<(), Seq<char>>),
}

/// The view of an outcome whose failure is a text.
pub open spec fn outcome_view<T>(outcome: Result<T, String>) -> Result<T, Seq<char>> {
    match outcome {
        Ok(value) => Ok(value),
        Err(said) => Err(said@),
    }
}

impl View for DispatchEvent {
    type V = DispatchEventView;

    open spec fn view(&self) -> DispatchEventView {
        match *self {
            DispatchEvent::Requested { batch_number, payload } => DispatchEventView::Requested {
                batch_number,
                payload: payload@,
            },
            DispatchEvent::Signed(outcome) => DispatchEventView::Signed(outcome_view(outcome)),
            DispatchEvent::Submitted(outcome) => DispatchEventView::Submitted(
                outcome_view(outcome),
            ),
            DispatchEvent::Registered(outcome) => DispatchEventView::Registered(
                outcome_view(outcome),
            ),
        }
    }
}

/// What the client asks of the outside next.
#[derive(Debug, PartialEq, Eq)]
pub enum DispatchAction {
    /// Form the blob of `payload` under `namespace`, and prepare and sign a
    /// submission that holds it.
    Sign { namespace: Namespace, payload: Vec<u8> },
    /// Send the signed submission to the network.
    Submit,
    /// Tell the inclusion service of the blob.
    Register { blob_id: BlobId },
    /// Hand the caller its answer.
    Finish(Result<DispatchResponse, DAError>),
}

/// An action over mathematical sequences.
pub enum DispatchActionView {
    Sign { namespace: Seq<u8>, payload: Seq<u8> },
    Submit,
    Register { blob_id: BlobIdView },
    Finish(Result<Seq<char>, DAErrorView>),
}

impl View for DispatchAction {
    type V = DispatchActionView;

    open spec fn view(&self) -> DispatchActionView {
        match *self {
            DispatchAction::Sign { namespace, payload } => DispatchActionView::Sign {
                namespace: namespace@,
                payload: payload@,
            },
            DispatchAction::Submit => DispatchActionView::Submit,
            DispatchAction::Register { blob_id } => DispatchActionView::Register {
                blob_id: blob_id@,
            },
            DispatchAction::Finish(Ok(response)) => DispatchActionView::Finish(Ok(response@)),
            DispatchAction::Finish(Err(e)) => DispatchActionView::Finish(Err(e@)),
        }
    }
}

/// The namespace that a configuration names: its text is hexadecimal, and the
/// bytes it spells name a version-0 namespace. Otherwise, why it names none.
pub open spec fn configured_namespace(text: Seq<char>) -> Result<Seq<u8>, Cause> {
    match parse_hex(encode_utf8(text)) {
        None => Err(Cause::NamespaceNotHex),
        Some(id) => if is_v0_id(id) {
            Ok(v0_namespace(id))
        } else {
            Err(Cause::NamespaceInvalid)
        },
    }
}

/// The end of an exchange in a failure that the policy classifies.
pub open spec fn dispatch_fails(cause: Cause, detail: Seq<char>) -> (
    DispatchStateView,
    DispatchActionView,
) {
    (DispatchStateView::Done, DispatchActionView::Finish(Err(failure(cause, detail))))
}

/// One step of a dispatch under a configured namespace: the state that
/// follows `state` on `event`, and what the client asks of the outside next.
///
/// A request forms the blob and asks for a signature; a signature asks for the
/// submission; a height makes the identifier and asks for its registration; a
/// registration hands the caller the identifier's text. A failure at any step
/// ends the exchange, and so does an event that the state was not waiting for.
pub open spec fn dispatch_step(
    namespace_text: Seq<char>,
    state: DispatchStateView,
    event: DispatchEventView,
) -> (DispatchStateView, DispatchActionView) {
    match (state, event) {
        (DispatchStateView::Idle, DispatchEventView::Requested { batch_number, payload }) => {
            match configured_namespace(namespace_text) {
                Err(cause) => dispatch_fails(cause, Seq::empty()),
                Ok(namespace) => if can_form_blob(payload) {
                    (
                        DispatchStateView::Signing {
                            namespace,
                            commitment: share_commitment(namespace, payload),
                        },
                        DispatchActionView::Sign { namespace, payload },
                    )
                } else {
                    dispatch_fails(Cause::BlobRefused, Seq::empty())
                },
            }
        },
        (DispatchStateView::Signing { namespace, commitment }, DispatchEventView::Signed(outcome)) => {
            match outcome {
                Ok(_) => (
                    DispatchStateView::Submitting { namespace, commitment },
                    DispatchActionView::Submit,
                ),
                Err(said) => dispatch_fails(Cause::SigningFailed, said),
            }
        },
        (
            DispatchStateView::Submitting { namespace, commitment },
            DispatchEventView::Submitted(outcome),
        ) => {
            match outcome {
                Ok(height) => {
                    let blob_id = BlobIdView { commitment, namespace, height };
                    (
                        DispatchStateView::Registering { blob_id },
                        DispatchActionView::Register { blob_id },
                    )
                },
                Err(said) => dispatch_fails(Cause::SubmissionFailed, said),
            }
        },
        (DispatchStateView::Registering { blob_id }, DispatchEventView::Registered(outcome)) => {
            match outcome {
                Ok(_) => (
                    DispatchStateView::Done,
                    DispatchActionView::Finish(Ok(blob_id_text(blob_id))),
                ),
                Err(said) => dispatch_fails(Cause::RegistrationFailed, said),
            }
        },
        _ => dispatch_fails(Cause::OutOfTurn, Seq::empty()),
    }
}

/// Whether a state is one that a dispatch can be in: the namespace it holds is
/// one that the network knows.
pub open spec fn dispatch_state_wf(state: DispatchStateView) -> bool {
    match state {
        DispatchStateView::Signing { namespace, commitment } => is_namespace(namespace),
        DispatchStateView::Submitting { namespace, commitment } => is_namespace(namespace),
        DispatchStateView::Registering { blob_id } => is_namespace(blob_id.namespace),
        _ => true,
    }
}

/// What a whole dispatch hands its caller, given what the outside did at each
/// step: the first failure in the order of the steps, or the text of the
/// identifier made of the blob's commitment, the configured namespace and the
/// height that the network gave.
pub open spec fn dispatch_result(
    namespace_text: Seq<char>,
    payload: Seq<u8>,
    signed: Result<(), Seq<char>>,
    submitted: Result<u64, Seq<char>>,
    registered: Result<(), Seq<char>>,
) -> Result<Seq<char>, DAErrorView> {
    match configured_namespace(namespace_text) {
        Err(cause) => Err(failure(cause, Seq::empty())),
        Ok(namespace) => if !can_form_blob(payload) {
            Err(failure(Cause::BlobRefused, Seq::empty()))
        } else {
            match (signed, submitted, registered) {
                (Err(said), _, _) => Err(failure(Cause::SigningFailed, said)),
                (Ok(_), Err(said), _) => Err(failure(Cause::SubmissionFailed, said)),
                (Ok(_), Ok(_), Err(said)) => Err(failure(Cause::RegistrationFailed, said)),
                (Ok(_), Ok(height), Ok(_)) => Ok(
                    blob_id_text(
                        BlobIdView {
                            commitment: share_commitment(namespace, payload),
                            namespace,
                            height,
                        },
                    ),
                ),
            }
        },
    }
}

/// The answer that a chain of steps ends in, where it has ended.
pub open spec fn finished(step: (DispatchStateView, DispatchActionView)) -> Option<
    Result<Seq<char>, DAErrorView>,
> {
    match step.1 {
        DispatchActionView::Finish(answer) => Some(answer),
        _ => None,
    }
}

/// The answer of a dispatch that is driven step by step: each event is handed
/// over only while the exchange has not ended.
pub open spec fn driven_result(
    namespace_text: Seq<char>,
    batch_number: u32,
    payload: Seq<u8>,
    signed: Result<(), Seq<char>>,
    submitted: Result<u64, Seq<char>>,
    registered: Result<(), Seq<char>>,
) -> Option<Result<Seq<char>, DAErrorView>> {
    let first = dispatch_step(
        namespace_text,
        DispatchStateView::Idle,
        DispatchEventView::Requested { batch_number, payload },
    );
    if finished(first) is Some {
        finished(first)
    } else {
        let second = dispatch_step(namespace_text, first.0, DispatchEventView::Signed(signed));
        if finished(second) is Some {
            finished(second)
        } else {
            let third = dispatch_step(
                namespace_text,
                second.0,
                DispatchEventView::Submitted(submitted),
            );
            if finished(third) is Some {
                finished(third)
            } else {
                finished(
                    dispatch_step(namespace_text, third.0, DispatchEventView::Registered(registered)),
                )
            }
        }
    }
}

/// Driving the steps in their order gives the answer of the whole dispatch,
/// whatever the outside did, and the batch number has no part in it.
pub proof fn lemma_driven_dispatch(
    namespace_text: Seq<char>,
    batch_number: u32,
    payload: Seq<u8>,
    signed: Result<(), Seq<char>>,
    submitted: Result<u64, Seq<char>>,
    registered: Result<(), Seq<char>>,
)
    ensures
        driven_result(namespace_text, batch_number, payload, signed, submitted, registered) == Some(
            dispatch_result(namespace_text, payload, signed, submitted, registered),
        ),
{
}

/// Every step keeps a dispatch in a state that it can be in, and what it asks
/// to sign or to register lies under a namespace that the network knows.
pub proof fn lemma_dispatch_step_wf(
    namespace_text: Seq<char>,
    state: DispatchStateView,
    event: DispatchEventView,
)
    requires
        dispatch_state_wf(state),
    ensures
        dispatch_state_wf(dispatch_step(namespace_text, state, event).0),
        dispatch_step(namespace_text, state, event).1 matches DispatchActionView::Sign {
            namespace,
            payload,
        } ==> is_namespace(namespace) && can_form_blob(payload),
        dispatch_step(namespace_text, state, event).1 matches DispatchActionView::Register {
            blob_id,
        } ==> is_namespace(blob_id.namespace),
{
    if configured_namespace(namespace_text) is Ok {
        lemma_v0_namespace_is_namespace(parse_hex(encode_utf8(namespace_text)).unwrap());
    }
}

/// Every failure that a step hands out carries the flag that the policy gives
/// its cause, and the one failure of a dispatch that is worth another attempt
/// is the registration's.
pub proof fn lemma_dispatch_failures(
    namespace_text: Seq<char>,
    state: DispatchStateView,
    event: DispatchEventView,
)
    ensures
        dispatch_step(namespace_text, state, event).1 matches DispatchActionView::Finish(Err(e))
            ==> {
            &&& e.is_retriable == worth_retrying(e.cause)
            &&& e.is_retriable <==> state is Registering && event matches DispatchEventView::Registered(
                Err(_),
            )
        },
{
}

/// An answer is only ever handed out at the end: a step that finishes leaves
/// the dispatch done, and a dispatch that is done takes no further event.
pub proof fn lemma_dispatch_ends(
    namespace_text: Seq<char>,
    state: DispatchStateView,
    event: DispatchEventView,
)
    ensures
        dispatch_step(namespace_text, state, event).1 is Finish <==> dispatch_step(
            namespace_text,
            state,
            event,
        ).0 is Done,
        state is Done ==> dispatch_step(namespace_text, state, event) == dispatch_fails(
            Cause::OutOfTurn,
            Seq::empty(),
        ),
        dispatch_step(namespace_text, state, event).1 matches DispatchActionView::Finish(Ok(_))
            ==> state is Registering && event matches DispatchEventView::Registered(Ok(_)),
{
}

/// The identifier of the blob that holds `payload` under the configured
/// namespace, once the network has taken it at `height`.
pub open spec fn dispatched_id(namespace_text: Seq<char>, payload: Seq<u8>, height: u64) -> BlobIdView
    recommends
        configured_namespace(namespace_text) is Ok,
{
    let namespace = configured_namespace(namespace_text)->Ok_0;
    BlobIdView { commitment: share_commitment(namespace, payload), namespace, height }
}

/// Under a configuration that names a namespace, a payload that can form a
/// blob is dispatched whenever the outside does its part: the caller gets the
/// text of an identifier that lies under the configured namespace, holds the
/// commitment of the payload, and stands at the height that the network gave.
pub proof fn lemma_dispatch_succeeds(namespace_text: Seq<char>, payload: Seq<u8>, height: u64)
    requires
        configured_namespace(namespace_text) is Ok,
        can_form_blob(payload),
    ensures
        dispatch_result(namespace_text, payload, Ok(()), Ok(height), Ok(())) == Ok::<
            Seq<char>,
            DAErrorView,
        >(blob_id_text(dispatched_id(namespace_text, payload, height))),
        dispatched_id(namespace_text, payload, height).namespace == configured_namespace(
            namespace_text,
        )->Ok_0,
        dispatched_id(namespace_text, payload, height).height == height,
        is_namespace(dispatched_id(namespace_text, payload, height).namespace),
{
    lemma_v0_namespace_is_namespace(parse_hex(encode_utf8(namespace_text)).unwrap());
}

/// Two dispatches of the same bytes under one configuration make identifiers
/// with the same commitment and the same namespace, at whatever heights the
/// network takes them: the commitment follows from the content alone.
pub proof fn lemma_equal_payloads_equal_commitments(
    namespace_text: Seq<char>,
    first: Seq<u8>,
    second: Seq<u8>,
    first_height: u64,
    second_height: u64,
)
    requires
        first == second,
    ensures
        dispatched_id(namespace_text, first, first_height).commitment == dispatched_id(
            namespace_text,
            second,
            second_height,
        ).commitment,
        dispatched_id(namespace_text, first, first_height).namespace == dispatched_id(
            namespace_text,
            second,
            second_height,
        ).namespace,
        first_height != second_height ==> dispatched_id(namespace_text, first, first_height)
            != dispatched_id(namespace_text, second, second_height),
{
}

} // verus!
