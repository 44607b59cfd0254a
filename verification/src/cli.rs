//! What the command line client makes of its arguments and of the answers
//! it gets.

use crate::messages::agent::{
    BackendStateMessage, DockerExecutableConfig, DroneStatusMessage, ResourceLimits,
    TerminationRequest,
};
use crate::messages::scheduler::{DrainDrone, ScheduleRequest};
use crate::text::{concat3, signed_decimal, to_signed_decimal};
use crate::types::{BackendId, ClusterName, DroneId};
use std::collections::HashMap;
use vstd::prelude::*;
use vstd::string::StringExecFns;

verus! {

/// The bus that the client talks to unless it is told another.
pub const DEFAULT_NATS_URL: &'static str = "nats://localhost";

/// The seconds of idle time that `spawn` asks for unless it is told another
/// number.
pub const DEFAULT_SPAWN_TIMEOUT_SECS: u64 = 300;

/// The request of `spawn <cluster> <image> --timeout <timeout>`: the image
/// as it comes, without environment, credentials or limits, under a name
/// that the scheduler is to choose.
pub fn spawn_request(cluster: &str, image: String, timeout: u64) -> (request: ScheduleRequest)
    ensures
        request.cluster@ == cluster@,
        request.backend_id is None,
        request.max_idle_secs == timeout,
        request.metadata@ == Map::<String, String>::empty(),
        request.executable.image == image,
        request.executable.env@ == Map::<String, String>::empty(),
        request.executable.credentials is None,
        request.executable.resource_limits == ResourceLimits::unlimited(),
        !request.require_bearer_token,
{
    ScheduleRequest {
        backend_id: None,
        cluster: ClusterName::new(cluster),
        max_idle_secs: timeout,
        metadata: HashMap::new(),
        executable: DockerExecutableConfig {
            image,
            env: HashMap::new(),
            credentials: None,
            resource_limits: ResourceLimits::default(),
        },
        require_bearer_token: false,
    }
}

/// `https://<backend>.<cluster>`
pub open spec fn spec_backend_url(backend_id: BackendId, cluster: Seq<char>) -> Seq<char> {
    "https://"@ + backend_id@ + "."@ + cluster
}

/// The URL under which a scheduled backend is reached.
pub fn backend_url(backend_id: &BackendId, cluster: &str) -> (url: String)
    ensures
        url@ == spec_backend_url(*backend_id, cluster@),
{
    let mut url = concat3("https://", backend_id.id(), ".");
    url.append(cluster);
    url
}

/// The request of `drain <drone> <cluster>`, which starts draining, and of
/// the same with `--cancel`, which stops it.
pub fn drain_request(drone: String, cluster: &str, cancel: bool) -> (request: DrainDrone)
    ensures
        request.drone@ == drone@,
        request.cluster@ == cluster@,
        request.drain == !cancel,
{
    DrainDrone { cluster: ClusterName::new(cluster), drone: DroneId::new(drone), drain: !cancel }
}

/// The request of `terminate <cluster> <backend>`.
pub fn terminate_request(cluster: &str, backend: String) -> (request: TerminationRequest)
    ensures
        request.cluster_id@ == cluster@,
        request.backend_id@ == backend@,
{
    TerminationRequest { backend_id: BackendId::new(backend), cluster_id: ClusterName::new(cluster) }
}

/// The line of `list-drones` for one drone: identifier and cluster with a
/// tabulator between them.
pub fn drone_line(status: &DroneStatusMessage) -> (line: String)
    ensures
        line@ == status.drone_id@ + "\t"@ + status.cluster@,
{
    concat3(status.drone_id.id(), "\t", status.cluster.hostname())
}

/// The line of `status` for one transition, when its time is written
/// `time`: backend, state and time with tabulators between them. A time that
/// cannot be written as a date stands as its seconds since the epoch.
pub open spec fn spec_state_line(message: BackendStateMessage, time: Option<Seq<char>>) -> Seq<char> {
    message.backend@ + "\t"@ + message.state.name() + "\t"@ + match time {
        Some(written) => written,
        None => signed_decimal(message.time.secs as int),
    }
}

/// The line of `status` for one transition, when its time is written
/// `time`.
pub fn state_line_with(message: &BackendStateMessage, time: Option<&str>) -> (line: String)
    ensures
        line@ == spec_state_line(
            *message,
            match time {
                Some(written) => Some(written@),
                None => None,
            },
        ),
{
    let state = message.state.to_string();
    let mut line = concat3(message.backend.id(), "\t", state.as_str());
    line.append("\t");
    match time {
        Some(written) => {
            line.append(written);
        },
        None => {
            let seconds = to_signed_decimal(message.time.secs);
            line.append(seconds.as_str());
        },
    }
    line
}

/// The line of `status` for one transition: backend, state and time, the
/// time as a date and a time of day in UTC.
pub fn state_line(message: &BackendStateMessage) -> (line: String)
    ensures
        line@ == spec_state_line(*message, message.time.spec_to_text()),
{
    match message.time.to_text() {
        Some(written) => state_line_with(message, Some(written.as_str())),
        None => state_line_with(message, None),
    }
}

/// The message of `drain` after the drone has confirmed.
pub fn drain_message(drain: bool) -> (text: &'static str)
    ensures
        text@ == if drain {
            "Draining started on drone."@
        } else {
            "Draining cancelled on drone."@
        },
{
    if drain {
        "Draining started on drone."
    } else {
        "Draining cancelled on drone."
    }
}

} // verus!
