use plane::dev::util::{
    base_scheduler_request, base_spawn_request, poll, random_loopback_ip, random_prefix,
    random_string, PollEvent, PollStep, POLL_LOOP_SLEEP,
};
use plane::drone::engine::IpAddress;

#[test]
fn random_strings_are_alphanumeric() {
    for len in [0usize, 1, 6, 16, 100] {
        let s = random_string(len);
        assert_eq!(s.chars().count(), len);
        assert!(s.chars().all(|c| c.is_ascii_alphanumeric()));
    }
    assert_ne!(random_string(32), random_string(32));
}

#[test]
fn random_prefix_keeps_the_suffix() {
    let name = random_prefix("backend");
    assert_eq!(name.len(), 14);
    assert!(name.ends_with("-backend"));
    assert!(name[..6].chars().all(|c| c.is_ascii_alphanumeric()));
    assert_eq!(random_prefix("").len(), 7);
    assert!(random_prefix("ü").ends_with("-ü"));
}

#[test]
fn random_loopback_ip_is_a_loopback_address() {
    for _ in 0..200 {
        match random_loopback_ip() {
            IpAddress::V4(a, b, c, d) => {
                assert_eq!(a, 127);
                for v in [b, c, d] {
                    assert!((1..254).contains(&v));
                }
            }
            other => panic!("an IPv4 address, not {:?}", other),
        }
    }
}

#[test]
fn poll_tries_again_until_the_time_is_up() {
    assert_eq!(POLL_LOOP_SLEEP, 10);
    assert_eq!(poll(1_000, PollEvent::Begin), PollStep::Attempt);
    assert_eq!(poll(1_000, PollEvent::Succeeded), PollStep::Ready);
    assert_eq!(poll(1_000, PollEvent::Failed { elapsed_ms: 0 }), PollStep::Sleep { millis: 10 });
    assert_eq!(poll(1_000, PollEvent::Failed { elapsed_ms: 1_000 }), PollStep::Sleep { millis: 10 });
    assert_eq!(poll(1_000, PollEvent::Failed { elapsed_ms: 1_001 }), PollStep::TimedOut);
    assert_eq!(poll(1_000, PollEvent::Slept), PollStep::Attempt);
    assert_eq!(poll(0, PollEvent::Failed { elapsed_ms: 0 }), PollStep::Sleep { millis: 10 });
    assert_eq!(poll(0, PollEvent::Failed { elapsed_ms: 1 }), PollStep::TimedOut);
}

#[test]
fn ready_made_requests() {
    let spawn = base_spawn_request();
    assert_eq!(spawn.backend_id.id().len(), 16);
    assert_eq!(spawn.drone_id.id().len(), 16);
    assert_eq!(spawn.max_idle_secs, 10);
    assert_eq!(spawn.metadata.len(), 1);
    assert_eq!(spawn.metadata["foo"], "bar");
    assert_eq!(spawn.executable.image, "ghcr.io/drifting-in-space/test-image:latest");
    assert_eq!(spawn.executable.env.len(), 1);
    assert_eq!(spawn.executable.env["PORT"], "8080");
    assert!(spawn.executable.credentials.is_none());
    assert!(spawn.bearer_token.is_none());
    assert_ne!(base_spawn_request().backend_id, spawn.backend_id);

    let request = base_scheduler_request();
    assert_eq!(request.cluster.hostname(), "plane.test");
    assert!(request.backend_id.is_none());
    assert_eq!(request.max_idle_secs, 10);
    assert_eq!(request.metadata["foo"], "bar");
    assert_eq!(request.executable.env["PORT"], "8080");
    assert!(!request.require_bearer_token);
}
