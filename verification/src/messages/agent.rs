//! Messages to and from the agent that runs on each drone.

use crate::messages::{Retention, SubscribeSubject, TypedMessage};
use crate::subjects::{
    spawn_subject, spec_spawn_subject, spec_state_subject, spec_status_subject,
    spec_terminate_subject, state_subject, status_subject, terminate_subject,
};
use crate::time::Timestamp;
use crate::types::{BackendId, ClusterName, DroneId};
use std::collections::HashMap;
use vstd::prelude::*;
use vstd::string::StringExecFns;

verus! {

/// A heartbeat of a drone.
#[derive(Clone, Debug)]
pub struct DroneStatusMessage {
    pub drone_id: DroneId,
    pub cluster: ClusterName,
    pub drone_version: String,
    /// Whether the drone accepts backends.
    pub ready: bool,
    pub running_backends: Option<Vec<BackendId>>,
}

impl TypedMessage for DroneStatusMessage {
    type Response = ();

    open spec fn spec_subject(&self) -> Seq<char> {
        spec_status_subject(self.cluster, self.drone_id)
    }

    fn subject(&self) -> (subject: String) {
        status_subject(&self.cluster, &self.drone_id)
    }

    open spec fn spec_retention() -> Retention {
        Retention::LastPerSubject
    }

    fn retention() -> (retention: Retention) {
        Retention::LastPerSubject
    }
}

impl DroneStatusMessage {
    /// The heartbeats of every drone of every cluster.
    pub fn subscribe_subject() -> (subscription: SubscribeSubject<DroneStatusMessage>)
        ensures
            subscription.subject@ == "cluster.*.drone.*.status"@,
    {
        SubscribeSubject::new(String::from_str("cluster.*.drone.*.status"))
    }
}

/// Credentials for pulling an image.
#[derive(Debug)]
pub struct DockerCredentials {
    pub username: String,
    pub password: String,
}

impl Clone for DockerCredentials {
    fn clone(&self) -> (copy: Self)
        ensures
            copy == *self,
    {
        DockerCredentials { username: self.username.clone(), password: self.password.clone() }
    }
}

/// Limits on what a backend may consume. Each one is optional.
#[derive(Clone, Copy, Debug, PartialEq, Eq, Structural)]
pub struct ResourceLimits {
    /// Length of a CPU accounting period, in microseconds.
    pub cpu_period_micros: Option<u64>,
    /// Share of each period the backend may use, in percent.
    pub cpu_period_percent: Option<u8>,
    /// Total CPU time the backend may use, in minutes.
    pub cpu_time_limit_minutes: Option<u64>,
    pub memory_limit_bytes: Option<u64>,
    pub disk_limit_bytes: Option<u64>,
}

impl ResourceLimits {
    pub open spec fn unlimited() -> ResourceLimits {
        ResourceLimits {
            cpu_period_micros: None,
            cpu_period_percent: None,
            cpu_time_limit_minutes: None,
            memory_limit_bytes: None,
            disk_limit_bytes: None,
        }
    }
}

impl Default for ResourceLimits {
    fn default() -> (limits: Self)
        ensures
            limits == ResourceLimits::unlimited(),
    {
        ResourceLimits {
            cpu_period_micros: None,
            cpu_period_percent: None,
            cpu_time_limit_minutes: None,
            memory_limit_bytes: None,
            disk_limit_bytes: None,
        }
    }
}

/// What to run: the image and how to start it.
#[derive(Debug)]
pub struct DockerExecutableConfig {
    pub image: String,
    pub env: HashMap<String, String>,
    pub credentials: Option<DockerCredentials>,
    pub resource_limits: ResourceLimits,
}

impl DockerExecutableConfig {
    /// Whether `other` asks for the same image, started in the same way.
    pub open spec fn same_as(&self, other: &DockerExecutableConfig) -> bool {
        &&& other.image == self.image
        &&& other.env@ == self.env@
        &&& other.credentials == self.credentials
        &&& other.resource_limits == self.resource_limits
    }
}

impl Clone for DockerExecutableConfig {
    fn clone(&self) -> (copy: Self)
        ensures
            self.same_as(&copy),
    {
        let credentials = match &self.credentials {
            Some(credentials) => Some(credentials.clone()),
            None => None,
        };
        DockerExecutableConfig {
            image: self.image.clone(),
            env: self.env.clone(),
            credentials,
            resource_limits: self.resource_limits,
        }
    }
}

/// The order from the scheduler to a drone to run a backend.
#[derive(Debug)]
pub struct SpawnRequest {
    pub drone_id: DroneId,
    pub backend_id: BackendId,
    /// Seconds without activity after which the backend is swept.
    pub max_idle_secs: u64,
    pub metadata: HashMap<String, String>,
    pub executable: DockerExecutableConfig,
    pub bearer_token: Option<String>,
}

impl SpawnRequest {
    /// Whether `other` is the same order.
    pub open spec fn same_as(&self, other: &SpawnRequest) -> bool {
        &&& other.drone_id == self.drone_id
        &&& other.backend_id == self.backend_id
        &&& other.max_idle_secs == self.max_idle_secs
        &&& other.metadata@ == self.metadata@
        &&& self.executable.same_as(&other.executable)
        &&& other.bearer_token == self.bearer_token
    }

    /// The subject on which the drone `drone_id` of `cluster` takes its orders.
    pub fn subscribe_subject(cluster: &ClusterName, drone_id: &DroneId) -> (subscription:
        SubscribeSubject<SpawnRequest>)
        ensures
            subscription.subject@ == spec_spawn_subject(*cluster, *drone_id),
    {
        SubscribeSubject::new(spawn_subject(cluster, drone_id))
    }
}

impl Clone for SpawnRequest {
    fn clone(&self) -> (copy: Self)
        ensures
            self.same_as(&copy),
    {
        let bearer_token = match &self.bearer_token {
            Some(token) => Some(token.clone()),
            None => None,
        };
        SpawnRequest {
            drone_id: self.drone_id.clone(),
            backend_id: self.backend_id.clone(),
            max_idle_secs: self.max_idle_secs,
            metadata: self.metadata.clone(),
            executable: self.executable.clone(),
            bearer_token,
        }
    }
}

/// The states of a backend, in the order of its progress.
#[derive(Clone, Copy, Debug, PartialEq, Eq, Structural, Hash)]
pub enum BackendState {
    /// The image is being fetched and the container created.
    Loading,
    /// The container runs; its port does not answer yet.
    Starting,
    /// The backend answers on its port.
    Ready,
    /// Loading failed.
    ErrorLoading,
    /// The container did not come up.
    ErrorStarting,
    /// The port did not answer in time.
    TimedOutBeforeReady,
    /// The container ended with an error.
    Failed,
    /// The container ended by itself.
    Exited,
    /// The backend was idle for too long and is taken down.
    Swept,
    /// The backend was terminated on request.
    Terminated,
}

impl BackendState {
    pub open spec fn spec_running(&self) -> bool {
        *self == BackendState::Starting || *self == BackendState::Ready
    }

    /// Whether a container of this backend is expected to run.
    #[verifier::when_used_as_spec(spec_running)]
    pub fn running(&self) -> (running: bool)
        ensures
            running == self.spec_running(),
    {
        match self {
            BackendState::Starting | BackendState::Ready => true,
            _ => false,
        }
    }

    pub open spec fn spec_terminal(&self) -> bool {
        !(*self == BackendState::Loading || *self == BackendState::Starting || *self
            == BackendState::Ready)
    }

    /// Whether nothing but stopping the container is left to do.
    #[verifier::when_used_as_spec(spec_terminal)]
    pub fn terminal(&self) -> (terminal: bool)
        ensures
            terminal == self.spec_terminal(),
    {
        match self {
            BackendState::Loading | BackendState::Starting | BackendState::Ready => false,
            _ => true,
        }
    }

    /// How far a backend in this state has come. A transition other than a
    /// repeated termination leads to a higher rank.
    pub open spec fn rank(self) -> nat {
        match self {
            BackendState::Loading => 0,
            BackendState::Starting => 1,
            BackendState::Ready => 2,
            BackendState::ErrorLoading => 3,
            BackendState::ErrorStarting => 3,
            BackendState::TimedOutBeforeReady => 3,
            BackendState::Failed => 3,
            BackendState::Exited => 3,
            BackendState::Swept => 3,
            BackendState::Terminated => 4,
        }
    }

    /// The name under which the state is stored and shown.
    pub open spec fn name(self) -> Seq<char> {
        match self {
            BackendState::Loading => "Loading"@,
            BackendState::Starting => "Starting"@,
            BackendState::Ready => "Ready"@,
            BackendState::ErrorLoading => "ErrorLoading"@,
            BackendState::ErrorStarting => "ErrorStarting"@,
            BackendState::TimedOutBeforeReady => "TimedOutBeforeReady"@,
            BackendState::Failed => "Failed"@,
            BackendState::Exited => "Exited"@,
            BackendState::Swept => "Swept"@,
            BackendState::Terminated => "Terminated"@,
        }
    }

    pub fn to_string(&self) -> (name: String)
        ensures
            name@ == self.name(),
    {
        match self {
            BackendState::Loading => String::from_str("Loading"),
            BackendState::Starting => String::from_str("Starting"),
            BackendState::Ready => String::from_str("Ready"),
            BackendState::ErrorLoading => String::from_str("ErrorLoading"),
            BackendState::ErrorStarting => String::from_str("ErrorStarting"),
            BackendState::TimedOutBeforeReady => String::from_str("TimedOutBeforeReady"),
            BackendState::Failed => String::from_str("Failed"),
            BackendState::Exited => String::from_str("Exited"),
            BackendState::Swept => String::from_str("Swept"),
            BackendState::Terminated => String::from_str("Terminated"),
        }
    }
}

/// The announcement that a backend has entered a state.
#[derive(Clone, Debug)]
pub struct BackendStateMessage {
    pub state: BackendState,
    pub backend: BackendId,
    pub time: Timestamp,
}

impl TypedMessage for BackendStateMessage {
    type Response = ();

    open spec fn spec_subject(&self) -> Seq<char> {
        spec_state_subject(self.backend)
    }

    fn subject(&self) -> (subject: String) {
        state_subject(&self.backend)
    }

    open spec fn spec_retention() -> Retention {
        Retention::Log
    }

    fn retention() -> (retention: Retention) {
        Retention::Log
    }
}

impl BackendStateMessage {
    /// The announcement that `backend` entered `state` at `time`.
    pub fn new(state: BackendState, backend: BackendId, time: Timestamp) -> (message: Self)
        ensures
            message.state == state,
            message.backend == backend,
            message.time == time,
    {
        BackendStateMessage { state, backend, time }
    }

    /// The state transitions of one backend.
    pub fn subscribe_subject(backend: &BackendId) -> (subscription: SubscribeSubject<
        BackendStateMessage,
    >)
        ensures
            subscription.subject@ == spec_state_subject(*backend),
    {
        SubscribeSubject::new(state_subject(backend))
    }

    /// The state transitions of every backend.
    pub fn wildcard_subject() -> (subscription: SubscribeSubject<BackendStateMessage>)
        ensures
            subscription.subject@ == "backend.*.state"@,
    {
        SubscribeSubject::new(String::from_str("backend.*.state"))
    }
}

/// The request to terminate the backend `backend_id`.
#[derive(Clone, Debug)]
pub struct TerminationRequest {
    pub cluster_id: ClusterName,
    pub backend_id: BackendId,
}

impl TypedMessage for TerminationRequest {
    type Response = ();

    open spec fn spec_subject(&self) -> Seq<char> {
        spec_terminate_subject(self.backend_id)
    }

    fn subject(&self) -> (subject: String) {
        terminate_subject(&self.backend_id)
    }

    open spec fn spec_retention() -> Retention {
        Retention::Ephemeral
    }

    fn retention() -> (retention: Retention) {
        Retention::Ephemeral
    }
}

} // verus!
