//! Messages to and from the scheduler of a cluster.

use crate::messages::agent::{DockerExecutableConfig, SpawnRequest};
use crate::messages::{Retention, SubscribeSubject, TypedMessage};
use crate::subjects::{drain_subject, schedule_subject, spec_drain_subject, spec_schedule_subject};
use crate::random::is_alphanumeric;
use crate::types::{BackendId, ClusterName, DroneId, RANDOM_ID_LEN};
use std::collections::HashMap;
use vstd::prelude::*;
use vstd::string::StringExecFns;

verus! {

/// The request of a client to run a backend somewhere on a cluster.
#[derive(Clone, Debug)]
pub struct ScheduleRequest {
    pub cluster: ClusterName,
    /// The name of the backend, which forms part of the host name under which
    /// it is reached. Where it is missing the scheduler generates one.
    pub backend_id: Option<BackendId>,
    /// Seconds without activity after which the backend is shut down. More
    /// than zero in a valid request.
    pub max_idle_secs: u64,
    /// Added to log messages; of no other effect.
    pub metadata: HashMap<String, String>,
    pub executable: DockerExecutableConfig,
    pub require_bearer_token: bool,
}

impl ScheduleRequest {
    /// A valid request allows some idle time.
    pub open spec fn valid(&self) -> bool {
        self.max_idle_secs > 0
    }

    #[verifier::when_used_as_spec(valid)]
    pub fn is_valid(&self) -> (valid: bool)
        ensures
            valid == self.valid(),
    {
        self.max_idle_secs > 0
    }

    /// Whether `spawn` is the order that this request gives to `drone_id`
    /// for a backend named `backend_id`: everything is taken over from the
    /// request, and no bearer token is issued.
    pub open spec fn orders(&self, drone_id: DroneId, backend_id: BackendId, spawn: SpawnRequest) -> bool {
        &&& spawn.drone_id == drone_id
        &&& spawn.backend_id == backend_id
        &&& spawn.max_idle_secs == self.max_idle_secs
        &&& spawn.metadata@ == self.metadata@
        &&& self.executable.same_as(&spawn.executable)
        &&& spawn.bearer_token is None
    }

    /// The order to `drone_id` for a backend named `backend_id`.
    pub fn schedule_as(&self, drone_id: &DroneId, backend_id: BackendId) -> (spawn: SpawnRequest)
        ensures
            self.orders(*drone_id, backend_id, spawn),
    {
        SpawnRequest {
            drone_id: drone_id.clone(),
            backend_id,
            max_idle_secs: self.max_idle_secs,
            metadata: self.metadata.clone(),
            executable: self.executable.clone(),
            bearer_token: None,
        }
    }

    /// The order to `drone_id` that answers this request. The backend keeps
    /// the name that the request gives it; where it gives none, a random one
    /// is generated. A request for a bearer token is not honoured: the order
    /// carries none.
    pub fn schedule(&self, drone_id: &DroneId) -> (spawn: SpawnRequest)
        ensures
            self.orders(*drone_id, spawn.backend_id, spawn),
            self.backend_id matches Some(id) ==> spawn.backend_id == id,
            self.backend_id is None ==> spawn.backend_id@.len() == RANDOM_ID_LEN && is_alphanumeric(
                spawn.backend_id@,
            ),
    {
        let backend_id = match &self.backend_id {
            Some(id) => id.clone(),
            None => BackendId::new_random(),
        };
        self.schedule_as(drone_id, backend_id)
    }

    /// The schedule requests of every cluster.
    pub fn subscribe_subject() -> (subscription: SubscribeSubject<ScheduleRequest>)
        ensures
            subscription.subject@ == "cluster.*.schedule"@,
    {
        SubscribeSubject::new(String::from_str("cluster.*.schedule"))
    }
}

impl TypedMessage for ScheduleRequest {
    type Response = ScheduleResponse;

    open spec fn spec_subject(&self) -> Seq<char> {
        spec_schedule_subject(self.cluster)
    }

    fn subject(&self) -> (subject: String) {
        schedule_subject(&self.cluster)
    }

    open spec fn spec_retention() -> Retention {
        Retention::Ephemeral
    }

    fn retention() -> (retention: Retention) {
        Retention::Ephemeral
    }
}

/// The scheduler's answer to a [`ScheduleRequest`].
#[derive(Clone, Debug, PartialEq, Eq)]
pub enum ScheduleResponse {
    /// The drone `drone` has accepted the backend `backend_id`.
    Scheduled { drone: DroneId, backend_id: BackendId, bearer_token: Option<String> },
    /// No drone of the cluster could take the backend.
    NoDroneAvailable,
}

/// The request to a drone to start draining, or to stop doing so.
#[derive(Clone, Debug, PartialEq, Eq)]
pub struct DrainDrone {
    pub drone: DroneId,
    pub cluster: ClusterName,
    pub drain: bool,
}

impl TypedMessage for DrainDrone {
    type Response = ();

    open spec fn spec_subject(&self) -> Seq<char> {
        spec_drain_subject(self.cluster, self.drone)
    }

    fn subject(&self) -> (subject: String) {
        drain_subject(&self.cluster, &self.drone)
    }

    open spec fn spec_retention() -> Retention {
        Retention::Ephemeral
    }

    fn retention() -> (retention: Retention) {
        Retention::Ephemeral
    }
}

impl DrainDrone {
    /// The drain requests to the drone `drone` of `cluster`.
    pub fn subscribe_subject(drone: DroneId, cluster: ClusterName) -> (subscription:
        SubscribeSubject<DrainDrone>)
        ensures
            subscription.subject@ == spec_drain_subject(cluster, drone),
    {
        SubscribeSubject::new(drain_subject(&cluster, &drone))
    }
}

} // verus!
