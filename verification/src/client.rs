//! The client: its configuration, and the operations that the pipeline calls.

use crate::blob::Commitment;
use crate::blob_id::{parse_blob_id, BlobId};
use crate::dispatch::{
    dispatch_step, DispatchAction, DispatchEvent, DispatchResponse, DispatchState,
};
use crate::error::{classify, failure, Cause, DAError};
use crate::hex_text::decode;
use crate::inclusion::{
    inclusion_step, InclusionAction, InclusionData, InclusionEvent, InclusionResponse,
    InclusionState, InclusionStatus,
};
use crate::namespace::Namespace;
use crate::startup::{
    startup_step, Service, StartupActionView, StartupError, StartupEvent, StartupState,
};
use crate::text::{debug_quoted, quoted};
use vstd::prelude::*;
use vstd::string::*;

verus! {

/// The advisory upper bound on a payload, in bytes: a little under two
/// mebibytes, which leaves room for the network's framing.
pub const BLOB_SIZE_LIMIT: usize = 1973786;

/// What stands for a client in a log: its name, the address of the network's
/// node and the namespace, the two as a programmer would write them. Nothing
/// else of the configuration is shown, and the client holds no secret.
pub open spec fn description(api_node_url: Seq<char>, namespace: Seq<char>) -> Seq<char> {
    "CelestiaClient { config.api_node_url: "@ + quoted(api_node_url) + ", config.namespace: "@
        + quoted(namespace) + " }"@
}

/// What the client is set up with. It does not change once the client exists.
#[derive(Clone, Debug, PartialEq, Eq)]
pub struct CelestiaConfig {
    /// Address of the network's node.
    pub api_node_url: String,
    /// Address of the inclusion service.
    pub integration_service_url: String,
    /// The namespace of this rollup's blobs, in hexadecimal.
    pub namespace: String,
    /// The chain that the submissions are signed for.
    pub chain_id: String,
    /// The bound on every call to either service, in milliseconds.
    pub timeout_ms: u64,
}

/// A configuration over mathematical text.
pub struct CelestiaConfigView {
    pub api_node_url: Seq<char>,
    pub integration_service_url: Seq<char>,
    pub namespace: Seq<char>,
    pub chain_id: Seq<char>,
    pub timeout_ms: u64,
}

impl View for CelestiaConfig {
    type V = CelestiaConfigView;

    open spec fn view(&self) -> CelestiaConfigView {
        CelestiaConfigView {
            api_node_url: self.api_node_url@,
            integration_service_url: self.integration_service_url@,
            namespace: self.namespace@,
            chain_id: self.chain_id@,
            timeout_ms: self.timeout_ms,
        }
    }
}

/// The client of one data-availability network. It decides; the two channels
/// that carry out what it decides live with its caller.
#[derive(Clone, Debug, PartialEq, Eq)]
pub struct CelestiaClient {
    config: CelestiaConfig,
}

impl View for CelestiaClient {
    type V = CelestiaConfigView;

    /// A client is known by the configuration that it was made with.
    closed spec fn view(&self) -> CelestiaConfigView {
        self.config@
    }
}

/// What is asked of the outside next while a client is made.
#[derive(Debug, PartialEq, Eq)]
pub enum StartupAction {
    /// Open the channel to `service` at `url`, with every call through it
    /// bound by `timeout_ms` milliseconds.
    Connect { service: Service, url: String, timeout_ms: u64 },
    /// Both channels are open: here is the client.
    Ready(CelestiaClient),
    /// No client comes into being.
    Abort(StartupError),
}

impl View for StartupAction {
    type V = StartupActionView;

    open spec fn view(&self) -> StartupActionView {
        match *self {
            StartupAction::Connect { service, url, timeout_ms } => StartupActionView::Connect {
                service,
                url: url@,
                timeout_ms,
            },
            StartupAction::Ready(client) => StartupActionView::Ready(client@),
            StartupAction::Abort(e) => StartupActionView::Abort(e@),
        }
    }
}

impl CelestiaClient {
    /// One step of the making of a client: takes what happened, and says
    /// where the startup stands now and what to do next. The client is handed
    /// out by the step that learns that both channels are open.
    pub fn new(config: &CelestiaConfig, state: StartupState, event: StartupEvent) -> (r: (StartupState, StartupAction))
        ensures
            (r.0, r.1@) == startup_step(config@, state, event@),
    {
        match (state, event) {
            (StartupState::Fresh, StartupEvent::Requested) => (
                StartupState::OpeningNetwork,
                StartupAction::Connect {
                    service: Service::Network,
                    url: config.api_node_url.clone(),
                    timeout_ms: config.timeout_ms,
                },
            ),
            (StartupState::OpeningNetwork, StartupEvent::Connected) => (
                StartupState::OpeningInclusion,
                StartupAction::Connect {
                    service: Service::Inclusion,
                    url: config.integration_service_url.clone(),
                    timeout_ms: config.timeout_ms,
                },
            ),
            (StartupState::OpeningNetwork, StartupEvent::Refused(said)) => (
                StartupState::Done,
                StartupAction::Abort(StartupError::Unreachable { service: Service::Network, said }),
            ),
            (StartupState::OpeningInclusion, StartupEvent::Connected) => {
                let config = CelestiaConfig {
                    api_node_url: config.api_node_url.clone(),
                    integration_service_url: config.integration_service_url.clone(),
                    namespace: config.namespace.clone(),
                    chain_id: config.chain_id.clone(),
                    timeout_ms: config.timeout_ms,
                };
                (StartupState::Done, StartupAction::Ready(CelestiaClient { config }))
            },
            (StartupState::OpeningInclusion, StartupEvent::Refused(said)) => (
                StartupState::Done,
                StartupAction::Abort(
                    StartupError::Unreachable { service: Service::Inclusion, said },
                ),
            ),
            _ => (StartupState::Done, StartupAction::Abort(StartupError::OutOfTurn)),
        }
    }

    /// The configuration that this client was made with.
    pub fn config(&self) -> (config: &CelestiaConfig)
        ensures
            config@ == self@,
    {
        &self.config
    }

    /// What stands for this client in a log.
    pub fn describe(&self) -> (text: String)
        ensures
            text@ == description(self@.api_node_url, self@.namespace),
    {
        let url = debug_quoted(self.config.api_node_url.as_str());
        let namespace = debug_quoted(self.config.namespace.as_str());
        let mut text = String::from_str("CelestiaClient { config.api_node_url: ");
        text.append(url.as_str());
        text.append(", config.namespace: ");
        text.append(namespace.as_str());
        text.append(" }");
        assert(text@ =~= description(self@.api_node_url, self@.namespace));
        text
    }

    /// The advisory bound on a payload. A dispatch does not enforce it.
    pub fn blob_size_limit(&self) -> (limit: Option<usize>)
        ensures
            limit == Some(BLOB_SIZE_LIMIT),
    {
        Some(BLOB_SIZE_LIMIT)
    }

    /// What is reported of a balance query: the balance, or a failure that is
    /// never worth another attempt.
    pub fn balance(&self, outcome: Result<u64, String>) -> (r: Result<u64, DAError>)
        ensures
            outcome matches Ok(amount) ==> r == Ok::<u64, DAError>(amount),
            outcome matches Err(said) ==> r matches Err(e) && e@ == failure(
                Cause::BalanceQueryFailed,
                said@,
            ) && !e.is_retriable,
    {
        match outcome {
            Ok(amount) => Ok(amount),
            Err(said) => Err(classify(Cause::BalanceQueryFailed, said)),
        }
    }

    /// One step of a dispatch: takes what happened, and says where the
    /// dispatch stands now and what to do next.
    pub fn dispatch_blob(&self, state: DispatchState, event: DispatchEvent) -> (r: (DispatchState, DispatchAction))
        ensures
            (r.0@, r.1@) == dispatch_step(self@.namespace, state@, event@),
            r.1 matches DispatchAction::Finish(Ok(response)) ==> state matches DispatchState::Registering {
                blob_id,
            } && parse_blob_id(response@) == Some(blob_id@),
    {
        match (state, event) {
            (DispatchState::Idle, DispatchEvent::Requested { batch_number: _, payload }) => {
                match decode(self.config.namespace.as_str().as_bytes()) {
                    Err(_) => dispatch_halt(Cause::NamespaceNotHex, String::new()),
                    Ok(id) => match Namespace::new_v0(id.as_slice()) {
                        None => dispatch_halt(Cause::NamespaceInvalid, String::new()),
                        Some(namespace) => match Commitment::from_blob(&namespace, payload) {
                            None => dispatch_halt(Cause::BlobRefused, String::new()),
                            Some((commitment, payload)) => (
                                DispatchState::Signing { namespace, commitment },
                                DispatchAction::Sign { namespace, payload },
                            ),
                        },
                    },
                }
            },
            (DispatchState::Signing { namespace, commitment }, DispatchEvent::Signed(outcome)) => {
                match outcome {
                    Ok(_) => (
                        DispatchState::Submitting { namespace, commitment },
                        DispatchAction::Submit,
                    ),
                    Err(said) => dispatch_halt(Cause::SigningFailed, said),
                }
            },
            (
                DispatchState::Submitting { namespace, commitment },
                DispatchEvent::Submitted(outcome),
            ) => {
                match outcome {
                    Ok(height) => {
                        let blob_id = BlobId { commitment, namespace, height };
                        (DispatchState::Registering { blob_id }, DispatchAction::Register { blob_id })
                    },
                    Err(said) => dispatch_halt(Cause::SubmissionFailed, said),
                }
            },
            (DispatchState::Registering { blob_id }, DispatchEvent::Registered(outcome)) => {
                match outcome {
                    Ok(_) => (
                        DispatchState::Done,
                        DispatchAction::Finish(Ok(DispatchResponse { blob_id: blob_id.encode() })),
                    ),
                    Err(said) => dispatch_halt(Cause::RegistrationFailed, said),
                }
            },
            _ => dispatch_halt(Cause::OutOfTurn, String::new()),
        }
    }

    /// One step of an inclusion query: takes what happened, and says where
    /// the query stands now and what to do next.
    pub fn get_inclusion_data(&self, state: InclusionState, event: InclusionEvent) -> (r: (InclusionState, InclusionAction))
        ensures
            (r.0, r.1@) == inclusion_step(state, event@),
    {
        match (state, event) {
            (InclusionState::Idle, InclusionEvent::Requested { blob_id }) => {
                match BlobId::decode(blob_id.as_str()) {
                    Some(blob_id) => (InclusionState::Querying, InclusionAction::Query { blob_id }),
                    None => inclusion_halt(Cause::BlobIdMalformed, String::new()),
                }
            },
            (InclusionState::Querying, InclusionEvent::Answered(outcome)) => {
                match outcome {
                    Ok(response) => (
                        InclusionState::Done,
                        InclusionAction::Finish(read(response)),
                    ),
                    Err(said) => inclusion_halt(Cause::InclusionQueryFailed, said),
                }
            },
            _ => inclusion_halt(Cause::OutOfTurn, String::new()),
        }
    }
}

/// Ends a dispatch in a classified failure.
fn dispatch_halt(cause: Cause, detail: String) -> (r: (DispatchState, DispatchAction))
    ensures
        (r.0@, r.1@) == crate::dispatch::dispatch_fails(cause, detail@),
{
    (DispatchState::Done, DispatchAction::Finish(Err(classify(cause, detail))))
}

/// Ends an inclusion query in a classified failure.
fn inclusion_halt(cause: Cause, detail: String) -> (r: (InclusionState, InclusionAction))
    ensures
        (r.0, r.1@) == crate::inclusion::inclusion_fails(cause, detail@),
{
    (InclusionState::Done, InclusionAction::Finish(Err(classify(cause, detail))))
}

/// Reads an answer of the inclusion service.
fn read(response: InclusionResponse) -> (r: Result<Option<InclusionData>, DAError>)
    ensures
        (InclusionAction::Finish(r))@ == crate::inclusion::InclusionActionView::Finish(
            crate::inclusion::read_response(response@),
        ),
{
    match response.status {
        InclusionStatus::Complete => match response.proof {
            Some(data) => Ok(Some(InclusionData { data })),
            None => Err(classify(Cause::ProofMissing, String::new())),
        },
        InclusionStatus::Incomplete => Ok(None),
    }
}

} // verus!
