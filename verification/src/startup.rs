//! How a client comes into being: its two channels are opened one after the
//! other before the first call, and a channel that cannot be opened leaves no
//! client behind.

use crate::client::CelestiaConfigView;
use vstd::prelude::*;

verus! {

/// One of the two services that a client talks to.
#[derive(Clone, Copy, Debug, PartialEq, Eq, Structural)]
pub enum Service {
    /// The data-availability network.
    Network,
    /// The service that proves inclusion.
    Inclusion,
}

/// Where the making of a client stands.
#[derive(Clone, Copy, Debug, PartialEq, Eq, Structural)]
pub enum StartupState {
    /// Nothing has been opened yet.
    Fresh,
    /// The channel to the network is being opened.
    OpeningNetwork,
    /// The network is connected; the channel to the inclusion service is
    /// being opened.
    OpeningInclusion,
    /// The client exists, or never will.
    Done,
}

/// What happened outside.
#[derive(Debug, PartialEq, Eq)]
pub enum StartupEvent {
    /// A client is asked for.
    Requested,
    /// The channel that was asked for is open.
    Connected,
    /// The channel that was asked for could not be opened.
    Refused(String),
}

/// An event over mathematical text.
pub enum StartupEventView {
    Requested,
    Connected,
    Refused(Seq<char>),
}

impl View for StartupEvent {
    type V = StartupEventView;

    open spec fn view(&self) -> StartupEventView {
        match *self {
            StartupEvent::Requested => StartupEventView::Requested,
            StartupEvent::Connected => StartupEventView::Connected,
            StartupEvent::Refused(said) => StartupEventView::Refused(said@),
        }
    }
}

/// Why no client came into being.
#[derive(Debug, PartialEq, Eq)]
pub enum StartupError {
    /// A channel could not be opened.
    Unreachable { service: Service, said: String },
    /// An event arrived that the startup was not waiting for.
    OutOfTurn,
}

/// A startup failure over mathematical text.
pub enum StartupErrorView {
    Unreachable { service: Service, said: Seq<char> },
    OutOfTurn,
}

impl View for StartupError {
    type V = StartupErrorView;

    open spec fn view(&self) -> StartupErrorView {
        match *self {
            StartupError::Unreachable { service, said } => StartupErrorView::Unreachable {
                service,
                said: said@,
            },
            StartupError::OutOfTurn => StartupErrorView::OutOfTurn,
        }
    }
}

/// What is asked of the outside next, over mathematical text: a channel to
/// open under a bound on every call through it, the client at last, or the end
/// without one. The client is shown by its configuration.
pub enum StartupActionView {
    Connect { service: Service, url: Seq<char>, timeout_ms: u64 },
    Ready(CelestiaConfigView),
    Abort(StartupErrorView),
}

/// One step of a startup under a configuration: the state that follows
/// `state` on `event`, and what is asked of the outside next.
///
/// The network's channel is opened first and the inclusion service's second,
/// each at its configured address and under the configured timeout. The client
/// is handed out when both are open. A channel that cannot be opened ends the
/// startup at once, and so does an event that the state was not waiting for.
pub open spec fn startup_step(
    config: CelestiaConfigView,
    state: StartupState,
    event: StartupEventView,
) -> (StartupState, StartupActionView) {
    match (state, event) {
        (StartupState::Fresh, StartupEventView::Requested) => (
            StartupState::OpeningNetwork,
            StartupActionView::Connect {
                service: Service::Network,
                url: config.api_node_url,
                timeout_ms: config.timeout_ms,
            },
        ),
        (StartupState::OpeningNetwork, StartupEventView::Connected) => (
            StartupState::OpeningInclusion,
            StartupActionView::Connect {
                service: Service::Inclusion,
                url: config.integration_service_url,
                timeout_ms: config.timeout_ms,
            },
        ),
        (StartupState::OpeningNetwork, StartupEventView::Refused(said)) => (
            StartupState::Done,
            StartupActionView::Abort(
                StartupErrorView::Unreachable { service: Service::Network, said },
            ),
        ),
        (StartupState::OpeningInclusion, StartupEventView::Connected) => (
            StartupState::Done,
            StartupActionView::Ready(config),
        ),
        (StartupState::OpeningInclusion, StartupEventView::Refused(said)) => (
            StartupState::Done,
            StartupActionView::Abort(
                StartupErrorView::Unreachable { service: Service::Inclusion, said },
            ),
        ),
        _ => (StartupState::Done, StartupActionView::Abort(StartupErrorView::OutOfTurn)),
    }
}

/// What a whole startup ends in, given how the opening of each channel went:
/// the client, or the first channel that could not be opened.
pub open spec fn startup_result(
    config: CelestiaConfigView,
    network: Result<(), Seq<char>>,
    inclusion: Result<(), Seq<char>>,
) -> Result<CelestiaConfigView, StartupErrorView> {
    match network {
        Err(said) => Err(StartupErrorView::Unreachable { service: Service::Network, said }),
        Ok(_) => match inclusion {
            Err(said) => Err(StartupErrorView::Unreachable { service: Service::Inclusion, said }),
            Ok(_) => Ok(config),
        },
    }
}

/// The event that tells how the opening of a channel went.
pub open spec fn opening_event(outcome: Result<(), Seq<char>>) -> StartupEventView {
    match outcome {
        Ok(_) => StartupEventView::Connected,
        Err(said) => StartupEventView::Refused(said),
    }
}

/// The end of a startup that is driven step by step: each channel is opened
/// only while the startup has not ended.
pub open spec fn driven_startup(
    config: CelestiaConfigView,
    network: Result<(), Seq<char>>,
    inclusion: Result<(), Seq<char>>,
) -> Option<Result<CelestiaConfigView, StartupErrorView>> {
    let first = startup_step(config, StartupState::Fresh, StartupEventView::Requested);
    let second = startup_step(config, first.0, opening_event(network));
    match second.1 {
        StartupActionView::Ready(client) => Some(Ok(client)),
        StartupActionView::Abort(e) => Some(Err(e)),
        StartupActionView::Connect { .. } => match startup_step(
            config,
            second.0,
            opening_event(inclusion),
        ).1 {
            StartupActionView::Ready(client) => Some(Ok(client)),
            StartupActionView::Abort(e) => Some(Err(e)),
            StartupActionView::Connect { .. } => None,
        },
    }
}

/// Driving the steps in their order gives the end of the whole startup: the
/// network's channel is asked for first, the inclusion service's only once the
/// network is connected, each at its configured address under the configured
/// timeout, and the client is the one of the configuration.
pub proof fn lemma_driven_startup(
    config: CelestiaConfigView,
    network: Result<(), Seq<char>>,
    inclusion: Result<(), Seq<char>>,
)
    ensures
        driven_startup(config, network, inclusion) == Some(
            startup_result(config, network, inclusion),
        ),
        startup_step(config, StartupState::Fresh, StartupEventView::Requested).1
            == (StartupActionView::Connect {
            service: Service::Network,
            url: config.api_node_url,
            timeout_ms: config.timeout_ms,
        }),
        network is Ok ==> startup_step(
            config,
            StartupState::OpeningNetwork,
            opening_event(network),
        ).1 == (StartupActionView::Connect {
            service: Service::Inclusion,
            url: config.integration_service_url,
            timeout_ms: config.timeout_ms,
        }),
{
}

/// A client is handed out by one step only: the one that learns that the
/// inclusion service is connected, which is asked for only after the network
/// is. Every other step that ends a startup leaves no client.
pub proof fn lemma_no_partial_client(
    config: CelestiaConfigView,
    state: StartupState,
    event: StartupEventView,
)
    ensures
        startup_step(config, state, event).1 is Ready <==> state == StartupState::OpeningInclusion
            && event is Connected,
        startup_step(config, state, event).0 == StartupState::OpeningInclusion <==> state
            == StartupState::OpeningNetwork && event is Connected,
        startup_step(config, state, event).0 == StartupState::Done <==> !(startup_step(
            config,
            state,
            event,
        ).1 is Connect),
{
}

} // verus!
