//! The executor: the state machine that takes each backend of a drone
//! through its lifecycle.
//!
//! The executor decides; it does not act. Working on a backend goes in
//! rounds: the executor names a call ([`StepCall`]), the caller performs it
//! while listening for a [`Signal`], and reports what came first
//! ([`TaskEvent`]). From the state of the backend and that event alone the
//! executor says what the backend's state is now, whether the state is to be
//! announced, and what to do next ([`TaskOutput`]).

use crate::concurrent::{
    members, registry_contains, registry_insert, registry_new, registry_remove,
};
use crate::drone::engine::{EngineBackendStatus, IpAddress, SocketAddress};
use crate::messages::agent::{BackendState, BackendStateMessage, SpawnRequest, TerminationRequest};
use crate::text::concat2;
use crate::time::Timestamp;
use crate::types::{BackendId, ClusterName};
use dashmap::DashMap;
use vstd::prelude::*;

verus! {

/// What reaches the task of a backend from outside its own step.
#[derive(Clone, Copy, Debug, PartialEq, Eq, Structural)]
pub enum Signal {
    /// The engine has seen the container change by itself: the step in
    /// progress is to be abandoned and begun again, so that it looks at the
    /// container anew.
    Interrupt,
    /// The backend is to be terminated.
    Terminate,
}

/// The signals that can wait for the task of one backend at a time.
pub const SIGNAL_SLOTS: usize = 1;

/// How hard the sender of a signal tries.
#[derive(Clone, Copy, Debug, PartialEq, Eq, Structural)]
pub enum Delivery {
    /// The signal is offered once and dropped where no slot is free: the
    /// signal that waits there makes the task look again anyway.
    MayDrop,
    /// The sender waits for a free slot.
    MustArrive,
}

impl Signal {
    pub open spec fn spec_delivery(&self) -> Delivery {
        match self {
            Signal::Interrupt => Delivery::MayDrop,
            Signal::Terminate => Delivery::MustArrive,
        }
    }

    /// How this signal is to be sent.
    #[verifier::when_used_as_spec(spec_delivery)]
    pub fn delivery(&self) -> (delivery: Delivery)
        ensures
            delivery == self.spec_delivery(),
    {
        match self {
            Signal::Interrupt => Delivery::MayDrop,
            Signal::Terminate => Delivery::MustArrive,
        }
    }
}

/// One piece of outside work that a step asks for.
#[derive(Clone, Copy, Debug, PartialEq, Eq, Structural)]
pub enum StepCall {
    /// Have the engine fetch the image and create and start the container.
    Load,
    /// Ask the engine for the status of the backend.
    BackendStatus,
    /// Wait until the port at `addr` accepts connections.
    WaitPortReady { addr: SocketAddress },
    /// Record in the local store that the backend, under its identifier as
    /// host name label, is reached at `addr`.
    InsertProxyRoute { addr: SocketAddress },
    /// Read from the local store when the backend was last active, and read
    /// the clock.
    LastActive,
    /// Sleep for `nanos` nanoseconds.
    Sleep { nanos: u128 },
    /// Have the engine stop the container.
    Stop,
}

/// What the caller reports to a step about the call that the step asked
/// for.
#[derive(Clone, Copy, Debug, PartialEq, Eq, Structural)]
pub enum StepReply {
    /// [`StepCall::Load`] succeeded.
    Loaded,
    /// [`StepCall::BackendStatus`] gave this status.
    Status(EngineBackendStatus),
    /// [`StepCall::WaitPortReady`] found the port at `addr` ready.
    PortReady { addr: SocketAddress },
    /// [`StepCall::InsertProxyRoute`] succeeded.
    ProxyRouteInserted,
    /// [`StepCall::LastActive`] found the backend last active at
    /// `last_active`, and the clock at `now`.
    LastActive { last_active: Timestamp, now: Timestamp },
    /// [`StepCall::Sleep`] is over.
    Slept,
    /// [`StepCall::Stop`] succeeded.
    Stopped,
    /// The call failed.
    Failed,
}

/// Why a step failed.
#[derive(Clone, Copy, Debug, PartialEq, Eq, Structural)]
pub enum StepError {
    /// A call to the engine, the store or the network failed.
    CallFailed,
    /// The moment at which the backend counts as idle cannot be expressed.
    IdleDeadlineOverflow,
    /// The report does not answer any call that a step makes in this state.
    UnexpectedReply,
}

/// Where a step stands after a report.
#[derive(Clone, Copy, Debug, PartialEq, Eq, Structural)]
pub enum StepOutput {
    /// The step goes on with this call.
    Call(StepCall),
    /// The step is over. With a state, the backend has entered it; without
    /// one, the container is stopped and nothing is left to do.
    Done(Option<BackendState>),
    /// The step has failed.
    Failed(StepError),
}

/// The call with which a step in `state` begins.
pub open spec fn first_call(state: BackendState) -> StepCall {
    match state {
        BackendState::Loading => StepCall::Load,
        BackendState::Starting | BackendState::Ready => StepCall::BackendStatus,
        _ => StepCall::Stop,
    }
}

/// What a step in `Ready` does once it knows when the backend was last
/// active: the backend is swept when its idle time has passed, that is when
/// `now >= last_active + max_idle_secs`; else the step sleeps until then.
pub open spec fn idle_check(max_idle_secs: u64, last_active: Timestamp, now: Timestamp) -> StepOutput {
    if last_active.secs + max_idle_secs > i64::MAX {
        StepOutput::Failed(StepError::IdleDeadlineOverflow)
    } else {
        let deadline = last_active.instant() + max_idle_secs * 1_000_000_000;
        if deadline <= now.instant() {
            StepOutput::Done(Some(BackendState::Swept))
        } else {
            StepOutput::Call(StepCall::Sleep { nanos: (deadline - now.instant()) as u128 })
        }
    }
}

/// The step of a backend in `state`, after the report `reply`; without a
/// report, the step begins.
///
/// | state | report | outcome |
/// |---|---|---|
/// | any | none | call [`first_call`] |
/// | any | `Failed` | failed |
/// | `Loading` | `Loaded` | `Starting` |
/// | `Starting` | `Status(Running { addr })` | call `WaitPortReady` |
/// | `Starting` | another status | `ErrorStarting` |
/// | `Starting` | `PortReady { addr }` | call `InsertProxyRoute` |
/// | `Starting` | `ProxyRouteInserted` | `Ready` |
/// | `Ready` | `Status(Failed)` | `Failed` |
/// | `Ready` | `Status(Exited)` | `Exited` |
/// | `Ready` | `Status(Terminated)` | `Swept` |
/// | `Ready` | another status, or `Slept` | call `LastActive` |
/// | `Ready` | `LastActive` | see [`idle_check`] |
/// | terminal | `Stopped` | done, with no state |
///
/// Every other pair fails as an unexpected report.
pub open spec fn step_spec(
    max_idle_secs: u64,
    state: BackendState,
    reply: Option<StepReply>,
) -> StepOutput {
    match reply {
        None => StepOutput::Call(first_call(state)),
        Some(reply) => after_reply(max_idle_secs, state, reply),
    }
}

/// The step of a backend in `state`, after the report `reply`.
pub open spec fn after_reply(max_idle_secs: u64, state: BackendState, reply: StepReply) -> StepOutput {
    match reply {
        StepReply::Failed => StepOutput::Failed(StepError::CallFailed),
        _ => match state {
            BackendState::Loading => match reply {
                StepReply::Loaded => StepOutput::Done(Some(BackendState::Starting)),
                _ => StepOutput::Failed(StepError::UnexpectedReply),
            },
            BackendState::Starting => match reply {
                StepReply::Status(EngineBackendStatus::Running { addr }) => StepOutput::Call(
                    StepCall::WaitPortReady { addr },
                ),
                StepReply::Status(_) => StepOutput::Done(Some(BackendState::ErrorStarting)),
                StepReply::PortReady { addr } => StepOutput::Call(
                    StepCall::InsertProxyRoute { addr },
                ),
                StepReply::ProxyRouteInserted => StepOutput::Done(Some(BackendState::Ready)),
                _ => StepOutput::Failed(StepError::UnexpectedReply),
            },
            BackendState::Ready => match reply {
                StepReply::Status(EngineBackendStatus::Failed) => StepOutput::Done(
                    Some(BackendState::Failed),
                ),
                StepReply::Status(EngineBackendStatus::Exited) => StepOutput::Done(
                    Some(BackendState::Exited),
                ),
                StepReply::Status(EngineBackendStatus::Terminated) => StepOutput::Done(
                    Some(BackendState::Swept),
                ),
                StepReply::Status(_) => StepOutput::Call(StepCall::LastActive),
                StepReply::Slept => StepOutput::Call(StepCall::LastActive),
                StepReply::LastActive { last_active, now } => idle_check(
                    max_idle_secs,
                    last_active,
                    now,
                ),
                _ => StepOutput::Failed(StepError::UnexpectedReply),
            },
            _ => match reply {
                StepReply::Stopped => StepOutput::Done(None),
                _ => StepOutput::Failed(StepError::UnexpectedReply),
            },
        },
    }
}

/// Whether a backend may pass from `from` directly to `to`.
///
/// A backend is loaded, then started, then ready; loading and starting may
/// fail; a ready backend fails, exits or is swept; and a termination request
/// takes a backend from any state but `Swept` to `Terminated`.
pub open spec fn valid_transition(from: BackendState, to: BackendState) -> bool {
    ||| from == BackendState::Loading && to == BackendState::Starting
    ||| from == BackendState::Loading && to == BackendState::ErrorLoading
    ||| from == BackendState::Starting && to == BackendState::Ready
    ||| from == BackendState::Starting && to == BackendState::ErrorStarting
    ||| from == BackendState::Ready && to == BackendState::Failed
    ||| from == BackendState::Ready && to == BackendState::Exited
    ||| from == BackendState::Ready && to == BackendState::Swept
    ||| from != BackendState::Swept && to == BackendState::Terminated
}

/// What happened while a call was in progress.
#[derive(Clone, Copy, Debug, PartialEq, Eq, Structural)]
pub enum TaskEvent {
    /// The call came to its end first, with this report.
    Reply(StepReply),
    /// A signal came first. `None`: every sender of signals is gone.
    Signal(Option<Signal>),
}

/// What the task of a backend does next.
#[derive(Clone, Copy, Debug, PartialEq, Eq, Structural)]
pub enum TaskNext {
    /// Abandon the call in progress, if any, and perform this one.
    Call(StepCall),
    /// Leave the call in progress alone and go on waiting for its report.
    Wait,
    /// The work on the backend is over.
    Exit,
    /// The task ends at once: nothing is announced and the container is
    /// left alone, so that the backend can be resumed later from the state
    /// that the local store holds.
    Abort,
}

impl TaskNext {
    /// Whether the task of the backend is over with this.
    pub open spec fn spec_is_end(&self) -> bool {
        *self == TaskNext::Exit || *self == TaskNext::Abort
    }

    /// Whether the task of the backend is over with this. A task that is
    /// over has neither listener nor monitor.
    #[verifier::when_used_as_spec(spec_is_end)]
    pub fn is_end(&self) -> (end: bool)
        ensures
            end == self.spec_is_end(),
    {
        match self {
            TaskNext::Exit | TaskNext::Abort => true,
            _ => false,
        }
    }
}

/// What the executor makes of an event.
#[derive(Clone, Copy, Debug, PartialEq, Eq, Structural)]
pub struct TaskOutput {
    /// The state of the backend from now on.
    pub state: BackendState,
    /// The state to record in the local store and then to announce on the
    /// bus, if any.
    pub publish: Option<BackendState>,
    /// Whether a monitor for the backend is to be installed, in place of an
    /// earlier one.
    pub install_monitor: bool,
    pub next: TaskNext,
}

/// The output in which nothing changes and nothing is announced.
pub open spec fn unchanged(state: BackendState, next: TaskNext) -> TaskOutput {
    TaskOutput { state, publish: None, install_monitor: false, next }
}

/// The output with which the backend enters `state`.
pub open spec fn entered(state: BackendState, next: TaskNext) -> TaskOutput {
    TaskOutput { state, publish: Some(state), install_monitor: state.spec_running(), next }
}

/// What the executor makes of `event` for a backend in `state`.
///
/// While a backend is swept its task takes no signals. Otherwise an
/// interrupt begins the step anew in the same state; a termination request
/// makes the backend `Terminated`, which leads to stopping the container;
/// and when the senders are gone the task aborts, with the state as it is
/// and nothing announced. A report is handed to the
/// step: a new state is entered and announced, and its step begins; a step
/// that is done without a state ends the task; and a failed step ends the
/// task too, after `ErrorLoading` was entered where the backend was
/// `Loading`.
pub open spec fn run_spec(max_idle_secs: u64, state: BackendState, event: TaskEvent) -> TaskOutput {
    match event {
        TaskEvent::Signal(signal) => if state == BackendState::Swept {
            unchanged(state, TaskNext::Wait)
        } else {
            match signal {
                Some(Signal::Interrupt) => unchanged(state, TaskNext::Call(first_call(state))),
                Some(Signal::Terminate) => entered(
                    BackendState::Terminated,
                    TaskNext::Call(StepCall::Stop),
                ),
                None => unchanged(state, TaskNext::Abort),
            }
        },
        TaskEvent::Reply(reply) => match step_spec(max_idle_secs, state, Some(reply)) {
            StepOutput::Call(call) => unchanged(state, TaskNext::Call(call)),
            StepOutput::Done(Some(new_state)) => entered(
                new_state,
                TaskNext::Call(first_call(new_state)),
            ),
            StepOutput::Done(None) => unchanged(state, TaskNext::Exit),
            StepOutput::Failed(_) => if state == BackendState::Loading {
                entered(BackendState::ErrorLoading, TaskNext::Exit)
            } else {
                unchanged(state, TaskNext::Exit)
            },
        },
    }
}


/// A backend as the local store holds it.
#[derive(Debug)]
pub struct Backend {
    pub backend_id: BackendId,
    pub state: BackendState,
    pub spec: SpawnRequest,
    pub last_active_at: Timestamp,
    /// The address to which the proxy sends the backend's traffic, once known.
    pub proxy_route: Option<SocketAddress>,
}

/// Why the executor refused a request.
#[derive(Debug)]
pub enum ExecutorError {
    /// The executor runs no task for this backend.
    UnknownBackend(BackendId),
}

impl ExecutorError {
    pub open spec fn spec_message(&self) -> Seq<char> {
        match self {
            ExecutorError::UnknownBackend(id) => "Unknown backend "@ + id@,
        }
    }

    /// The error in words.
    pub fn message(&self) -> (text: String)
        ensures
            text@ == self.spec_message(),
    {
        match self {
            ExecutorError::UnknownBackend(id) => concat2("Unknown backend ", id.id()),
        }
    }
}

/// The identifiers of those among `backends` that are in a running state.
pub open spec fn running_ids(backends: Seq<Backend>) -> Set<Seq<char>> {
    Set::new(
        |id: Seq<char>|
            exists|i: int|
                0 <= i < backends.len() && (#[trigger] backends[i]).state.spec_running()
                    && backends[i].backend_id@ == id,
    )
}

/// The executor of one drone.
pub struct Executor {
    /// The backends that have a monitor.
    backend_to_monitor: DashMap<String, ()>,
    /// The backends whose task listens for signals.
    backend_to_listener: DashMap<String, ()>,
    /// The IP address of this drone.
    ip: IpAddress,
    /// The cluster to which this drone belongs.
    cluster: ClusterName,
}

fn check_idle(max_idle_secs: u64, last_active: Timestamp, now: Timestamp) -> (out: StepOutput)
    ensures
        out == idle_check(max_idle_secs, last_active, now),
{
    match last_active.checked_add_secs(max_idle_secs) {
        None => StepOutput::Failed(StepError::IdleDeadlineOverflow),
        Some(deadline) => {
            if now.is_before(&deadline) {
                StepOutput::Call(StepCall::Sleep { nanos: deadline.nanos_since(&now) })
            } else {
                StepOutput::Done(Some(BackendState::Swept))
            }
        },
    }
}

fn begin(state: BackendState) -> (call: StepCall)
    ensures
        call == first_call(state),
{
    match state {
        BackendState::Loading => StepCall::Load,
        BackendState::Starting | BackendState::Ready => StepCall::BackendStatus,
        _ => StepCall::Stop,
    }
}

impl Executor {
    /// The backends that have a monitor, by the text of their identifiers.
    pub closed spec fn monitored(&self) -> Set<Seq<char>> {
        members(self.backend_to_monitor)
    }

    /// The backends whose task listens for signals.
    pub closed spec fn listening(&self) -> Set<Seq<char>> {
        members(self.backend_to_listener)
    }

    pub closed spec fn spec_ip(&self) -> IpAddress {
        self.ip
    }

    pub closed spec fn spec_cluster(&self) -> ClusterName {
        self.cluster
    }

    /// An executor that works on no backend yet.
    pub fn new(ip: IpAddress, cluster: ClusterName) -> (executor: Self)
        ensures
            executor.monitored() == Set::<Seq<char>>::empty(),
            executor.listening() == Set::<Seq<char>>::empty(),
            executor.spec_ip() == ip,
            executor.spec_cluster() == cluster,
    {
        Executor {
            backend_to_monitor: registry_new(),
            backend_to_listener: registry_new(),
            ip,
            cluster,
        }
    }

    #[verifier::when_used_as_spec(spec_ip)]
    pub fn ip(&self) -> (ip: IpAddress)
        ensures
            ip == self.spec_ip(),
    {
        self.ip
    }

    pub fn cluster(&self) -> (cluster: &ClusterName)
        ensures
            *cluster == self.spec_cluster(),
    {
        &self.cluster
    }

    /// Whether the task of `backend_id` listens for signals.
    pub fn has_listener(&self, backend_id: &BackendId) -> (listening: bool)
        ensures
            listening == self.listening().contains(backend_id@),
    {
        registry_contains(&self.backend_to_listener, backend_id.id())
    }

    /// Whether `backend_id` has a monitor.
    pub fn has_monitor(&self, backend_id: &BackendId) -> (monitored: bool)
        ensures
            monitored == self.monitored().contains(backend_id@),
    {
        registry_contains(&self.backend_to_monitor, backend_id.id())
    }

    /// Whether the task of a backend in `state` takes signals while its
    /// call is in progress. A backend that is being swept is not disturbed:
    /// what happens to its container then is of its own making.
    pub fn interruptible(state: BackendState) -> (interruptible: bool)
        ensures
            interruptible == (state != BackendState::Swept),
    {
        match state {
            BackendState::Swept => false,
            _ => true,
        }
    }

    /// One round of the step of a backend in `state`: what the step does
    /// after the report `reply`. A step begins without a report and goes on
    /// until it is done or has failed.
    pub fn step(spawn_request: &SpawnRequest, state: BackendState, reply: Option<StepReply>) -> (out:
        StepOutput)
        ensures
            out == step_spec(spawn_request.max_idle_secs, state, reply),
            out matches StepOutput::Done(Some(new_state)) ==> valid_transition(state, new_state),
            out == StepOutput::Done(None) <==> state.spec_terminal() && reply == Some(
                StepReply::Stopped,
            ),
    {
        let reply = match reply {
            None => {
                return StepOutput::Call(begin(state));
            },
            Some(reply) => reply,
        };
        match reply {
            StepReply::Failed => StepOutput::Failed(StepError::CallFailed),
            _ => match state {
                BackendState::Loading => match reply {
                    StepReply::Loaded => StepOutput::Done(Some(BackendState::Starting)),
                    _ => StepOutput::Failed(StepError::UnexpectedReply),
                },
                BackendState::Starting => match reply {
                    StepReply::Status(EngineBackendStatus::Running { addr }) => StepOutput::Call(
                        StepCall::WaitPortReady { addr },
                    ),
                    StepReply::Status(_) => StepOutput::Done(Some(BackendState::ErrorStarting)),
                    StepReply::PortReady { addr } => StepOutput::Call(
                        StepCall::InsertProxyRoute { addr },
                    ),
                    StepReply::ProxyRouteInserted => StepOutput::Done(Some(BackendState::Ready)),
                    _ => StepOutput::Failed(StepError::UnexpectedReply),
                },
                BackendState::Ready => match reply {
                    StepReply::Status(EngineBackendStatus::Failed) => StepOutput::Done(
                        Some(BackendState::Failed),
                    ),
                    StepReply::Status(EngineBackendStatus::Exited) => StepOutput::Done(
                        Some(BackendState::Exited),
                    ),
                    StepReply::Status(EngineBackendStatus::Terminated) => StepOutput::Done(
                        Some(BackendState::Swept),
                    ),
                    StepReply::Status(_) => StepOutput::Call(StepCall::LastActive),
                    StepReply::Slept => StepOutput::Call(StepCall::LastActive),
                    StepReply::LastActive { last_active, now } => check_idle(
                        spawn_request.max_idle_secs,
                        last_active,
                        now,
                    ),
                    _ => StepOutput::Failed(StepError::UnexpectedReply),
                },
                _ => match reply {
                    StepReply::Stopped => StepOutput::Done(None),
                    _ => StepOutput::Failed(StepError::UnexpectedReply),
                },
            },
        }
    }

    /// The announcement that the backend of `spawn_request` has entered
    /// `state`. The state goes to the local store first and to the bus
    /// second, so that what the store holds is never behind what was
    /// announced.
    pub fn update_backend_state(spawn_request: &SpawnRequest, state: BackendState, now: Timestamp) -> (message:
        BackendStateMessage)
        ensures
            message.state == state,
            message.backend == spawn_request.backend_id,
            message.time == now,
    {
        BackendStateMessage::new(state, spawn_request.backend_id.clone(), now)
    }

    /// Takes on a new backend. The caller records the order in the local
    /// store, announces the returned message (the backend is `Loading`), and
    /// performs the returned call, as after [`Executor::run_backend`].
    pub fn start_backend(&mut self, spawn_request: &SpawnRequest, now: Timestamp) -> (started: (
        BackendStateMessage,
        StepCall,
    ))
        ensures
            started.0.state == BackendState::Loading,
            started.0.backend == spawn_request.backend_id,
            started.0.time == now,
            started.1 == StepCall::Load,
            final(self).listening() == old(self).listening().insert(spawn_request.backend_id@),
            final(self).monitored() == old(self).monitored(),
            final(self).spec_ip() == old(self).spec_ip(),
            final(self).spec_cluster() == old(self).spec_cluster(),
    {
        let message = Self::update_backend_state(spawn_request, BackendState::Loading, now);
        let call = self.run_backend(spawn_request, BackendState::Loading);
        (message, call)
    }

    /// Begins the task of a backend that is in `state`: from now on the
    /// backend takes signals, and the returned call is the first to perform.
    pub fn run_backend(&mut self, spawn_request: &SpawnRequest, state: BackendState) -> (call:
        StepCall)
        ensures
            call == first_call(state),
            final(self).listening() == old(self).listening().insert(spawn_request.backend_id@),
            final(self).monitored() == old(self).monitored(),
            final(self).spec_ip() == old(self).spec_ip(),
            final(self).spec_cluster() == old(self).spec_cluster(),
    {
        registry_insert(&mut self.backend_to_listener, spawn_request.backend_id.id());
        begin(state)
    }

    /// Continues the task of a backend that is in `state`, after `event`.
    ///
    /// The output is [`run_spec`]. With it the executor's own records
    /// change: a backend that enters a running state has a monitor from then
    /// on, and a backend whose task is over, by exit or by abort, has
    /// neither monitor nor listener.
    pub fn handle(
        &mut self,
        spawn_request: &SpawnRequest,
        state: BackendState,
        event: TaskEvent,
    ) -> (out: TaskOutput)
        ensures
            out == run_spec(spawn_request.max_idle_secs, state, event),
            final(self).monitored() == if out.next == TaskNext::Exit || out.next
                == TaskNext::Abort {
                old(self).monitored().remove(spawn_request.backend_id@)
            } else if out.install_monitor {
                old(self).monitored().insert(spawn_request.backend_id@)
            } else {
                old(self).monitored()
            },
            final(self).listening() == if out.next == TaskNext::Exit || out.next
                == TaskNext::Abort {
                old(self).listening().remove(spawn_request.backend_id@)
            } else {
                old(self).listening()
            },
            final(self).spec_ip() == old(self).spec_ip(),
            final(self).spec_cluster() == old(self).spec_cluster(),
    {
        let out = match event {
            TaskEvent::Signal(signal) => {
                if !Self::interruptible(state) {
                    TaskOutput { state, publish: None, install_monitor: false, next: TaskNext::Wait }
                } else {
                    match signal {
                        Some(Signal::Interrupt) => TaskOutput {
                            state,
                            publish: None,
                            install_monitor: false,
                            next: TaskNext::Call(begin(state)),
                        },
                        Some(Signal::Terminate) => TaskOutput {
                            state: BackendState::Terminated,
                            publish: Some(BackendState::Terminated),
                            install_monitor: false,
                            next: TaskNext::Call(StepCall::Stop),
                        },
                        None => TaskOutput {
                            state,
                            publish: None,
                            install_monitor: false,
                            next: TaskNext::Abort,
                        },
                    }
                }
            },
            TaskEvent::Reply(reply) => match Self::step(spawn_request, state, Some(reply)) {
                StepOutput::Call(call) => TaskOutput {
                    state,
                    publish: None,
                    install_monitor: false,
                    next: TaskNext::Call(call),
                },
                StepOutput::Done(Some(new_state)) => TaskOutput {
                    state: new_state,
                    publish: Some(new_state),
                    install_monitor: new_state.running(),
                    next: TaskNext::Call(begin(new_state)),
                },
                StepOutput::Done(None) => TaskOutput {
                    state,
                    publish: None,
                    install_monitor: false,
                    next: TaskNext::Exit,
                },
                StepOutput::Failed(_) => match state {
                    BackendState::Loading => TaskOutput {
                        state: BackendState::ErrorLoading,
                        publish: Some(BackendState::ErrorLoading),
                        install_monitor: false,
                        next: TaskNext::Exit,
                    },
                    _ => TaskOutput {
                        state,
                        publish: None,
                        install_monitor: false,
                        next: TaskNext::Exit,
                    },
                },
            },
        };
        if out.next.is_end() {
            registry_remove(&mut self.backend_to_monitor, spawn_request.backend_id.id());
            registry_remove(&mut self.backend_to_listener, spawn_request.backend_id.id());
        } else if out.install_monitor {
            registry_insert(&mut self.backend_to_monitor, spawn_request.backend_id.id());
        }
        out
    }

    /// Takes up the backends that the local store holds, after a restart.
    ///
    /// The answer says of each backend, in the order given, whether its task
    /// is to be run again (with [`Executor::run_backend`], from the state
    /// that the store holds): that is so for every backend that is not in
    /// a terminal state. The backends in a running state have a monitor at
    /// once.
    pub fn resume_backends(&mut self, backends: &Vec<Backend>) -> (resume: Vec<bool>)
        ensures
            resume@.len() == backends@.len(),
            forall|i: int|
                0 <= i < backends@.len() ==> resume@[i] == !(#[trigger] backends@[i])
                    .state.spec_terminal(),
            final(self).monitored() == old(self).monitored().union(running_ids(backends@)),
            final(self).listening() == old(self).listening(),
            final(self).spec_ip() == old(self).spec_ip(),
            final(self).spec_cluster() == old(self).spec_cluster(),
    {
        let mut resume: Vec<bool> = Vec::new();
        let mut i: usize = 0;
        assert(self.monitored() =~= old(self).monitored().union(running_ids(backends@.take(0))));
        while i < backends.len()
            invariant
                i <= backends@.len(),
                resume@.len() == i,
                forall|j: int|
                    0 <= j < i ==> resume@[j] == !(#[trigger] backends@[j]).state.spec_terminal(),
                self.monitored() == old(self).monitored().union(
                    running_ids(backends@.take(i as int)),
                ),
                self.listening() == old(self).listening(),
                self.spec_ip() == old(self).spec_ip(),
                self.spec_cluster() == old(self).spec_cluster(),
            decreases backends@.len() - i,
        {
            let backend = &backends[i];
            let ghost before = backends@.take(i as int);
            let ghost after = backends@.take(i + 1);
            if backend.state.running() {
                registry_insert(&mut self.backend_to_monitor, backend.backend_id.id());
            }
            resume.push(!backend.state.terminal());
            proof {
                assert(after[i as int] == backends@[i as int]);
                assert forall|id: Seq<char>| running_ids(after).contains(id) <==> (
                running_ids(before).contains(id) || (backend.state.spec_running()
                    && backend.backend_id@ == id)) by {
                    if running_ids(after).contains(id) {
                        let k = choose|k: int|
                            0 <= k < after.len() && (#[trigger] after[k]).state.spec_running()
                                && after[k].backend_id@ == id;
                        if k < i {
                            assert(before[k] == after[k]);
                        }
                    }
                    if running_ids(before).contains(id) {
                        let k = choose|k: int|
                            0 <= k < before.len() && (#[trigger] before[k]).state.spec_running()
                                && before[k].backend_id@ == id;
                        assert(after[k] == before[k]);
                    }
                }
                assert(self.monitored() =~= old(self).monitored().union(running_ids(after)));
            }
            i = i + 1;
        }
        assert(backends@.take(i as int) =~= backends@);
        resume
    }

    /// The signal to send to the task of the backend that
    /// `termination_request` names: [`Signal::Terminate`], which must not be
    /// lost, so that the caller waits until the task can take it. A backend
    /// without a task is refused as unknown.
    pub fn kill_backend(&self, termination_request: &TerminationRequest) -> (signal: Result<
        Signal,
        ExecutorError,
    >)
        ensures
            self.listening().contains(termination_request.backend_id@) ==> signal == Ok::<
                Signal,
                ExecutorError,
            >(Signal::Terminate),
            !self.listening().contains(termination_request.backend_id@) ==> signal == Err::<
                Signal,
                ExecutorError,
            >(ExecutorError::UnknownBackend(termination_request.backend_id)),
    {
        if self.has_listener(&termination_request.backend_id) {
            Ok(Signal::Terminate)
        } else {
            Err(ExecutorError::UnknownBackend(termination_request.backend_id.clone()))
        }
    }

    /// The signal to offer to the task of `backend_id` when the engine has
    /// seen its container change: [`Signal::Interrupt`], which may be dropped
    /// where the task has a signal waiting already. Nothing for a backend
    /// without a task.
    pub fn container_event(&self, backend_id: &BackendId) -> (signal: Option<Signal>)
        ensures
            signal == if self.listening().contains(backend_id@) {
                Some(Signal::Interrupt)
            } else {
                None
            },
    {
        if self.has_listener(backend_id) {
            Some(Signal::Interrupt)
        } else {
            None
        }
    }
}

} // verus!
