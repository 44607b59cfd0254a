//! Random names and addresses, polling, and requests that are ready made.

use crate::collections::{holds_only, single_entry};
use crate::drone::engine::IpAddress;
use crate::messages::agent::{DockerExecutableConfig, ResourceLimits, SpawnRequest};
use crate::messages::scheduler::ScheduleRequest;
use crate::random::{is_alphanumeric, sample_range};
use crate::text::concat3;
use crate::types::{BackendId, ClusterName, DroneId, RANDOM_ID_LEN};
use vstd::prelude::*;
use vstd::string::StringExecFns;

pub use crate::random::random_string;

verus! {

/// Milliseconds between two attempts of a poll.
pub const POLL_LOOP_SLEEP: u64 = 10;

/// The image that the ready-made requests ask for.
pub const TEST_IMAGE: &'static str = "ghcr.io/drifting-in-space/test-image:latest";

/// The cluster that the ready-made schedule request names.
pub const TEST_CLUSTER: &'static str = "plane.test";

/// Six random letters and digits, a hyphen, and `suffix`.
pub fn random_prefix(suffix: &str) -> (name: String)
    ensures
        name@.len() == 7 + suffix@.len(),
        is_alphanumeric(name@.take(6)),
        name@.subrange(6, 7) == "-"@,
        name@.skip(7) == suffix@,
{
    let prefix: String = random_string(6);
    let name = concat3(prefix.as_str(), "-", suffix);
    proof {
        reveal_strlit("-");
        assert(name@.take(6) =~= prefix@);
        assert(name@.subrange(6, 7) =~= "-"@);
        assert(name@.skip(7) =~= suffix@);
    }
    name
}

/// A loopback address `127.x.y.z` with each of `x`, `y` and `z` drawn at
/// random from 1 to 253.
pub fn random_loopback_ip() -> (ip: IpAddress)
    ensures
        ip matches IpAddress::V4(a, b, c, d) && a == 127 && 1 <= b < 254 && 1 <= c < 254 && 1
            <= d < 254,
{
    let v1 = sample_range(1, 254);
    let v2 = sample_range(1, 254);
    let v3 = sample_range(1, 254);
    IpAddress::V4(127, v1, v2, v3)
}

/// What happened to an attempt of a poll.
#[derive(Clone, Copy, Debug, PartialEq, Eq, Structural)]
pub enum PollEvent {
    /// Nothing yet: the poll begins.
    Begin,
    /// The attempt succeeded.
    Succeeded,
    /// The attempt failed, `elapsed_ms` milliseconds after the poll began.
    Failed { elapsed_ms: u128 },
    /// The pause after a failed attempt is over.
    Slept,
}

/// What a poll does next.
#[derive(Clone, Copy, Debug, PartialEq, Eq, Structural)]
pub enum PollStep {
    /// Make an attempt.
    Attempt,
    /// Pause for `millis` milliseconds.
    Sleep { millis: u64 },
    /// The poll is over: what was waited for is there.
    Ready,
    /// The poll is over: the time allowed has passed.
    TimedOut,
}

/// The next step of a poll that allows `timeout_ms` milliseconds.
///
/// A poll makes an attempt, and makes another one [`POLL_LOOP_SLEEP`]
/// milliseconds after each that fails, until one succeeds or one fails more
/// than `timeout_ms` milliseconds after the poll began.
pub open spec fn spec_poll(timeout_ms: u128, event: PollEvent) -> PollStep {
    match event {
        PollEvent::Begin => PollStep::Attempt,
        PollEvent::Succeeded => PollStep::Ready,
        PollEvent::Failed { elapsed_ms } => if elapsed_ms > timeout_ms {
            PollStep::TimedOut
        } else {
            PollStep::Sleep { millis: POLL_LOOP_SLEEP }
        },
        PollEvent::Slept => PollStep::Attempt,
    }
}

#[verifier::when_used_as_spec(spec_poll)]
pub fn poll(timeout_ms: u128, event: PollEvent) -> (step: PollStep)
    ensures
        step == spec_poll(timeout_ms, event),
{
    match event {
        PollEvent::Begin => PollStep::Attempt,
        PollEvent::Succeeded => PollStep::Ready,
        PollEvent::Failed { elapsed_ms } => if elapsed_ms > timeout_ms {
            PollStep::TimedOut
        } else {
            PollStep::Sleep { millis: POLL_LOOP_SLEEP }
        },
        PollEvent::Slept => PollStep::Attempt,
    }
}

/// Whether `config` is what the ready-made requests run: the test image
/// with `PORT=8080` in its environment, without credentials or limits.
pub open spec fn is_test_executable(config: DockerExecutableConfig) -> bool {
    &&& config.image@ == TEST_IMAGE@
    &&& holds_only(config.env@, "PORT"@, "8080"@)
    &&& config.credentials is None
    &&& config.resource_limits == ResourceLimits::unlimited()
}

fn test_executable() -> (config: DockerExecutableConfig)
    ensures
        is_test_executable(config),
{
    DockerExecutableConfig {
        image: String::from_str(TEST_IMAGE),
        env: single_entry("PORT", "8080"),
        credentials: None,
        resource_limits: ResourceLimits::default(),
    }
}

/// An order to spawn the test image, with random identifiers for backend
/// and drone, ten seconds of idle time and the metadata `foo=bar`.
pub fn base_spawn_request() -> (request: SpawnRequest)
    ensures
        request.backend_id@.len() == RANDOM_ID_LEN,
        is_alphanumeric(request.backend_id@),
        request.drone_id@.len() == RANDOM_ID_LEN,
        is_alphanumeric(request.drone_id@),
        holds_only(request.metadata@, "foo"@, "bar"@),
        request.max_idle_secs == 10,
        is_test_executable(request.executable),
        request.bearer_token is None,
{
    SpawnRequest {
        backend_id: BackendId::new_random(),
        drone_id: DroneId::new_random(),
        metadata: single_entry("foo", "bar"),
        max_idle_secs: 10,
        executable: test_executable(),
        bearer_token: None,
    }
}

/// A request to schedule the test image on the cluster [`TEST_CLUSTER`],
/// under a name that the scheduler is to choose, with ten seconds of idle
/// time and the metadata `foo=bar`.
pub fn base_scheduler_request() -> (request: ScheduleRequest)
    ensures
        request.cluster@ == TEST_CLUSTER@,
        holds_only(request.metadata@, "foo"@, "bar"@),
        request.backend_id is None,
        request.max_idle_secs == 10,
        is_test_executable(request.executable),
        !request.require_bearer_token,
        request.valid(),
{
    ScheduleRequest {
        cluster: ClusterName::new(TEST_CLUSTER),
        metadata: single_entry("foo", "bar"),
        backend_id: None,
        max_idle_secs: 10,
        executable: test_executable(),
        require_bearer_token: false,
    }
}

} // verus!
