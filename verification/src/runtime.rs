//! The process as a whole: in which order it starts up, when it serves, and
//! when it ends.
//!
//! As with the sampler, nothing is performed here. The driver asks for the
//! next action, performs it, and reports the outcome as an event.

use vstd::prelude::*;

verus! {

/// Name of the environment variable that holds the node's endpoint.
pub const RPC_URL_VAR: &'static str = "RPC_URL";

/// Port on which the exporter listens.
pub const LISTEN_PORT: u16 = 8000;

/// Exit code of the process. It ends only by failing, so there is no other.
pub const EXIT_FAILURE: i32 = 1;

/// An IPv4 socket address as plain values.
#[derive(Clone, Copy, Debug, PartialEq, Eq)]
pub struct ListenAddress {
    pub octets: [u8; 4],
    pub port: u16,
}

/// The address on which the exporter listens: all interfaces, port 8000.
pub open spec fn spec_listen_address() -> ListenAddress {
    ListenAddress { octets: [0u8, 0u8, 0u8, 0u8], port: LISTEN_PORT }
}

/// The address on which the exporter listens: all interfaces, port 8000.
pub fn listen_address() -> (r: ListenAddress)
    ensures
        r == spec_listen_address(),
        r.octets@ == seq![0u8, 0u8, 0u8, 0u8],
        r.port == 8000,
{
    let r = ListenAddress { octets: [0, 0, 0, 0], port: LISTEN_PORT };
    assert(r.octets@ =~= seq![0u8, 0u8, 0u8, 0u8]);
    assert(r.octets@ =~= spec_listen_address().octets@);
    r
}

/// The two units of work that run side by side.
#[derive(Clone, Copy, Debug, PartialEq, Eq, Structural)]
pub enum Unit {
    Sampler,
    Exporter,
}

/// Why the process ended.
#[derive(Clone, Copy, Debug, PartialEq, Eq, Structural)]
pub enum ExitReason {
    /// The metric set could not be built.
    MetricsFailed,
    /// The endpoint variable is not set.
    RpcUrlMissing,
    /// The endpoint variable does not hold a usable endpoint.
    RpcUrlInvalid,
    /// One of the two units came to an end.
    UnitExited(Unit),
    /// The driver reported something that it was not asked for.
    UnexpectedEvent,
}

/// Where the process stands.
#[derive(Clone, Copy, Debug, PartialEq, Eq, Structural)]
pub enum RuntimeState {
    /// The metric set is to be built.
    BuildingMetrics,
    /// The endpoint variable is to be read.
    ReadingRpcUrl,
    /// The chain reader is to be made from the endpoint.
    Connecting,
    /// Both units are to run; the process is alive as long as both are.
    Running,
    /// The process has ended.
    Terminated(ExitReason),
}

/// What the driver is to do next.
#[derive(Clone, Copy, Debug, PartialEq, Eq)]
pub enum RuntimeAction {
    /// Build the metric set.
    BuildMetrics,
    /// Read the endpoint variable.
    ReadRpcUrl,
    /// Make the chain reader from the endpoint.
    Connect,
    /// Bind the listener to `address`, run the sampler and the exporter side
    /// by side, and report the first of them that ends.
    Serve { address: ListenAddress },
    /// Report `reason` and leave the process with `code`.
    Exit { code: i32, reason: ExitReason },
}

/// The outcome of an action.
#[derive(Clone, Copy, Debug, PartialEq, Eq, Structural)]
pub enum RuntimeEvent {
    MetricsBuilt,
    MetricsFailed,
    RpcUrlFound,
    RpcUrlMissing,
    Connected,
    ConnectFailed,
    UnitExited(Unit),
}

/// The process.
#[derive(Clone, Copy, Debug, PartialEq, Eq, Structural)]
pub struct Runtime {
    pub state: RuntimeState,
}

impl Runtime {
    /// The action that belongs to the state.
    pub open spec fn spec_next_action(self) -> RuntimeAction {
        match self.state {
            RuntimeState::BuildingMetrics => RuntimeAction::BuildMetrics,
            RuntimeState::ReadingRpcUrl => RuntimeAction::ReadRpcUrl,
            RuntimeState::Connecting => RuntimeAction::Connect,
            RuntimeState::Running => RuntimeAction::Serve { address: spec_listen_address() },
            RuntimeState::Terminated(reason) => RuntimeAction::Exit { code: EXIT_FAILURE, reason },
        }
    }

    /// The state after `event`.
    ///
    /// Startup goes on while each step succeeds, and ends the process where
    /// one fails. Once both units run, the end of either ends the process. An
    /// event that was not asked for ends it too, and an ended process stays
    /// ended.
    pub open spec fn spec_step(self, event: RuntimeEvent) -> Runtime {
        Runtime {
            state: match (self.state, event) {
                (RuntimeState::BuildingMetrics, RuntimeEvent::MetricsBuilt) => {
                    RuntimeState::ReadingRpcUrl
                },
                (RuntimeState::BuildingMetrics, RuntimeEvent::MetricsFailed) => {
                    RuntimeState::Terminated(ExitReason::MetricsFailed)
                },
                (RuntimeState::ReadingRpcUrl, RuntimeEvent::RpcUrlFound) => {
                    RuntimeState::Connecting
                },
                (RuntimeState::ReadingRpcUrl, RuntimeEvent::RpcUrlMissing) => {
                    RuntimeState::Terminated(ExitReason::RpcUrlMissing)
                },
                (RuntimeState::Connecting, RuntimeEvent::Connected) => RuntimeState::Running,
                (RuntimeState::Connecting, RuntimeEvent::ConnectFailed) => {
                    RuntimeState::Terminated(ExitReason::RpcUrlInvalid)
                },
                (RuntimeState::Running, RuntimeEvent::UnitExited(unit)) => {
                    RuntimeState::Terminated(ExitReason::UnitExited(unit))
                },
                (RuntimeState::Terminated(reason), _) => RuntimeState::Terminated(reason),
                _ => RuntimeState::Terminated(ExitReason::UnexpectedEvent),
            },
        }
    }

    /// A process that has done nothing yet.
    pub open spec fn spec_new() -> Runtime {
        Runtime { state: RuntimeState::BuildingMetrics }
    }

    /// A process that has done nothing yet.
    pub fn new() -> (r: Runtime)
        ensures
            r == Runtime::spec_new(),
    {
        Runtime { state: RuntimeState::BuildingMetrics }
    }

    /// What the driver is to do next.
    ///
    /// The listener is bound only in the state `Running`, and a process that
    /// has ended leaves with a code that is not zero.
    pub fn next_action(&self) -> (r: RuntimeAction)
        ensures
            r == self.spec_next_action(),
            (r is Serve) == (self.state == RuntimeState::Running),
            r matches RuntimeAction::Exit { code, .. } ==> code != 0,
    {
        match self.state {
            RuntimeState::BuildingMetrics => RuntimeAction::BuildMetrics,
            RuntimeState::ReadingRpcUrl => RuntimeAction::ReadRpcUrl,
            RuntimeState::Connecting => RuntimeAction::Connect,
            RuntimeState::Running => RuntimeAction::Serve { address: listen_address() },
            RuntimeState::Terminated(reason) => RuntimeAction::Exit { code: EXIT_FAILURE, reason },
        }
    }

    /// Takes the outcome of the last action.
    pub fn step(&mut self, event: RuntimeEvent)
        ensures
            *final(self) == old(self).spec_step(event),
    {
        let state = match (self.state, event) {
            (RuntimeState::BuildingMetrics, RuntimeEvent::MetricsBuilt) => {
                RuntimeState::ReadingRpcUrl
            },
            (RuntimeState::BuildingMetrics, RuntimeEvent::MetricsFailed) => {
                RuntimeState::Terminated(ExitReason::MetricsFailed)
            },
            (RuntimeState::ReadingRpcUrl, RuntimeEvent::RpcUrlFound) => RuntimeState::Connecting,
            (RuntimeState::ReadingRpcUrl, RuntimeEvent::RpcUrlMissing) => {
                RuntimeState::Terminated(ExitReason::RpcUrlMissing)
            },
            (RuntimeState::Connecting, RuntimeEvent::Connected) => RuntimeState::Running,
            (RuntimeState::Connecting, RuntimeEvent::ConnectFailed) => {
                RuntimeState::Terminated(ExitReason::RpcUrlInvalid)
            },
            (RuntimeState::Running, RuntimeEvent::UnitExited(unit)) => {
                RuntimeState::Terminated(ExitReason::UnitExited(unit))
            },
            (RuntimeState::Terminated(reason), _) => RuntimeState::Terminated(reason),
            _ => RuntimeState::Terminated(ExitReason::UnexpectedEvent),
        };
        self.state = state;
    }

}

/// The process after the events `events`, in order, from `start`.
pub open spec fn after_events(start: Runtime, events: Seq<RuntimeEvent>) -> Runtime
    decreases events.len(),
{
    if events.len() == 0 {
        start
    } else {
        after_events(start, events.drop_last()).spec_step(events.last())
    }
}

/// Once both units run, the end of either one ends the process, and an ended
/// process stays ended whatever is reported to it.
pub proof fn lemma_unit_exit_terminates(runtime: Runtime, unit: Unit, later: RuntimeEvent)
    requires
        runtime.state == RuntimeState::Running,
    ensures
        runtime.spec_step(RuntimeEvent::UnitExited(unit)).state == RuntimeState::Terminated(
            ExitReason::UnitExited(unit),
        ),
        runtime.spec_step(RuntimeEvent::UnitExited(unit)).spec_step(later)
            == runtime.spec_step(RuntimeEvent::UnitExited(unit)),
{
}

/// While the endpoint variable has not been found, the process never asks
/// for the listener to be bound: after any events among which none reports
/// the variable as found, the next action is not `Serve`.
pub proof fn lemma_no_serve_without_rpc_url(events: Seq<RuntimeEvent>)
    requires
        forall|i: int| 0 <= i < events.len() ==> events[i] != RuntimeEvent::RpcUrlFound,
    ensures
        !(after_events(Runtime::spec_new(), events).spec_next_action()
            is Serve),
        after_events(Runtime::spec_new(), events).state
            != RuntimeState::Connecting,
        after_events(Runtime::spec_new(), events).state
            != RuntimeState::Running,
    decreases events.len(),
{
    if events.len() > 0 {
        lemma_no_serve_without_rpc_url(events.drop_last());
        assert(events.last() == events[events.len() - 1]);
    }
}

/// There is one way through startup: a process that has not ended has seen
/// exactly the successful outcomes of the steps before its state, in order.
/// So the listener is bound only once the metric set is built, the endpoint
/// variable found and the chain reader made.
pub proof fn lemma_startup_order(events: Seq<RuntimeEvent>)
    ensures
        match after_events(Runtime::spec_new(), events).state {
            RuntimeState::BuildingMetrics => events == Seq::<RuntimeEvent>::empty(),
            RuntimeState::ReadingRpcUrl => events == seq![RuntimeEvent::MetricsBuilt],
            RuntimeState::Connecting => events == seq![
                RuntimeEvent::MetricsBuilt,
                RuntimeEvent::RpcUrlFound,
            ],
            RuntimeState::Running => events == seq![
                RuntimeEvent::MetricsBuilt,
                RuntimeEvent::RpcUrlFound,
                RuntimeEvent::Connected,
            ],
            RuntimeState::Terminated(_) => events.len() > 0,
        },
    decreases events.len(),
{
    if events.len() == 0 {
        assert(events =~= Seq::<RuntimeEvent>::empty());
    } else {
        let earlier = events.drop_last();
        lemma_startup_order(earlier);
        assert(events =~= earlier.push(events.last()));
        match after_events(Runtime::spec_new(), events).state {
            RuntimeState::BuildingMetrics => {},
            RuntimeState::ReadingRpcUrl => {
                assert(events =~= seq![RuntimeEvent::MetricsBuilt]);
            },
            RuntimeState::Connecting => {
                assert(events =~= seq![RuntimeEvent::MetricsBuilt, RuntimeEvent::RpcUrlFound]);
            },
            RuntimeState::Running => {
                assert(events =~= seq![
                    RuntimeEvent::MetricsBuilt,
                    RuntimeEvent::RpcUrlFound,
                    RuntimeEvent::Connected,
                ]);
            },
            RuntimeState::Terminated(_) => {},
        }
    }
}

/// Where the endpoint variable is not set, the process ends at once, with a
/// code that is not zero.
pub proof fn lemma_missing_rpc_url_is_fatal(runtime: Runtime)
    requires
        runtime.state == RuntimeState::ReadingRpcUrl,
    ensures
        runtime.spec_step(RuntimeEvent::RpcUrlMissing).spec_next_action() == (RuntimeAction::Exit {
            code: EXIT_FAILURE,
            reason: ExitReason::RpcUrlMissing,
        }),
        EXIT_FAILURE != 0,
{
}

} // verus!
