use plane::cli::{state_line, state_line_with, backend_url, drain_message, drain_request, drone_line, spawn_request, terminate_request, DEFAULT_NATS_URL, DEFAULT_SPAWN_TIMEOUT_SECS};
use plane::controller::config::{default_bind_ip, default_port, DnsOptions};
use plane::drone::engine::IpAddress;
use plane::messages::agent::{
    BackendState, BackendStateMessage, DroneStatusMessage, ResourceLimits, SpawnRequest,
    TerminationRequest,
};
use plane::messages::scheduler::{DrainDrone, ScheduleRequest};
use plane::messages::{Retention, TypedMessage};
use plane::subjects::dns_subject;
use plane::text::{to_signed_decimal, lower_char, replace, take_before, text_eq, to_ascii_lower, to_decimal};
use plane::time::{split_nanos, Timestamp};
use plane::types::{BackendId, ClusterName, DroneId};

#[test]
fn cluster_enters_subjects_as_one_token() {
    assert_eq!(ClusterName::new("plane.test").subject_name(), "plane_test");
    assert_eq!(ClusterName::new("a.b.c.d").subject_name(), "a_b_c_d");
    assert_eq!(ClusterName::new("local").subject_name(), "local");
    assert_eq!(ClusterName::new("").subject_name(), "");
    assert_eq!(ClusterName::new("Plane.TEST").subject_name(), "plane_test");
    assert_eq!(ClusterName::new("AZ.az.@[`{").subject_name(), "az_az_@[`{");
    assert_eq!(ClusterName::new("Ünï.Code").subject_name(), "Ünï_code");
    assert_eq!(ClusterName::new("plane.test").hostname(), "plane.test");
}

#[test]
fn subjects_follow_the_grammar() {
    let cluster = ClusterName::new("plane.test");
    let drone = DroneId::new("D1".to_string());
    let backend = BackendId::new("B7".to_string());

    let mut request = plane::dev::util::base_scheduler_request();
    assert_eq!(request.subject(), "cluster.plane_test.schedule");
    request.cluster = ClusterName::new("eu.west.example.com");
    assert_eq!(request.subject(), "cluster.eu_west_example_com.schedule");
    assert_eq!(ScheduleRequest::subscribe_subject().subject, "cluster.*.schedule");

    assert_eq!(
        SpawnRequest::subscribe_subject(&cluster, &drone).subject,
        "cluster.plane_test.drone.D1.spawn"
    );

    let status = DroneStatusMessage {
        drone_id: drone.clone(),
        cluster: cluster.clone(),
        drone_version: "0.1.0".to_string(),
        ready: true,
        running_backends: Some(vec![backend.clone()]),
    };
    assert_eq!(status.subject(), "cluster.plane_test.drone.D1.status");
    assert_eq!(DroneStatusMessage::subscribe_subject().subject, "cluster.*.drone.*.status");

    let state = BackendStateMessage::new(BackendState::Ready, backend.clone(), Timestamp::new(1, 2));
    assert_eq!(state.subject(), "backend.B7.state");
    assert_eq!(BackendStateMessage::subscribe_subject(&backend).subject, "backend.B7.state");
    assert_eq!(BackendStateMessage::wildcard_subject().subject, "backend.*.state");

    let drain = DrainDrone { drone: drone.clone(), cluster: cluster.clone(), drain: true };
    assert_eq!(drain.subject(), "cluster.plane_test.drone.D1.drain");
    assert_eq!(
        DrainDrone::subscribe_subject(drone.clone(), cluster.clone()).subject,
        "cluster.plane_test.drone.D1.drain"
    );

    let terminate = TerminationRequest { cluster_id: cluster.clone(), backend_id: backend.clone() };
    assert_eq!(terminate.subject(), "backend.B7.terminate");

    assert_eq!(dns_subject(&cluster, "www"), "cluster.plane_test.dns.www");
}

#[test]
fn retention_of_each_subject() {
    assert_eq!(DroneStatusMessage::retention(), Retention::LastPerSubject);
    assert_eq!(BackendStateMessage::retention(), Retention::Log);
    assert_eq!(ScheduleRequest::retention(), Retention::Ephemeral);
    assert_eq!(DrainDrone::retention(), Retention::Ephemeral);
    assert_eq!(TerminationRequest::retention(), Retention::Ephemeral);
}

#[test]
fn schedule_takes_the_request_over() {
    let mut request = plane::dev::util::base_scheduler_request();
    request.require_bearer_token = true;
    let drone = DroneId::new("D1".to_string());
    let spawn = request.schedule(&drone);
    assert_eq!(spawn.drone_id, drone);
    assert_eq!(spawn.max_idle_secs, 10);
    assert_eq!(spawn.metadata.len(), 1);
    assert_eq!(spawn.metadata.get("foo").map(String::as_str), Some("bar"));
    assert_eq!(spawn.executable.image, "ghcr.io/drifting-in-space/test-image:latest");
    assert_eq!(spawn.executable.env.len(), 1);
    assert_eq!(spawn.executable.env.get("PORT").map(String::as_str), Some("8080"));
    assert!(spawn.executable.credentials.is_none());
    assert_eq!(spawn.executable.resource_limits, ResourceLimits::default());
    assert_eq!(spawn.bearer_token, None);
    assert_eq!(spawn.backend_id.id().len(), 16);
    assert!(spawn.backend_id.id().chars().all(|c| c.is_ascii_alphanumeric()));

    let named = request.schedule_as(&drone, BackendId::new("b".to_string()));
    assert_eq!(named.backend_id.id(), "b");
    assert!(request.is_valid());
    request.max_idle_secs = 0;
    assert!(!request.is_valid());
}

#[test]
fn random_identifiers_differ() {
    let a = BackendId::new_random();
    let b = BackendId::new_random();
    assert_ne!(a, b);
    let d = DroneId::new_random();
    assert_eq!(d.id().len(), 16);
    assert!(d.id().chars().all(|c| c.is_ascii_alphanumeric()));
    assert_eq!(d.clone(), d);
    assert_eq!(d.to_string(), d.id());
}

#[test]
fn decimal_numbers() {
    assert_eq!(to_decimal(0), "0");
    assert_eq!(to_decimal(7), "7");
    assert_eq!(to_decimal(10), "10");
    assert_eq!(to_decimal(8080), "8080");
    assert_eq!(to_decimal(65535), "65535");
    assert_eq!(to_decimal(u64::MAX), "18446744073709551615");
}

#[test]
fn signed_decimal_numbers() {
    assert_eq!(to_signed_decimal(0), "0");
    assert_eq!(to_signed_decimal(-1), "-1");
    assert_eq!(to_signed_decimal(1700000000), "1700000000");
    assert_eq!(to_signed_decimal(i64::MAX), "9223372036854775807");
    assert_eq!(to_signed_decimal(i64::MIN), "-9223372036854775808");
}

#[test]
fn status_lines() {
    let message = BackendStateMessage::new(
        BackendState::Ready,
        BackendId::new("abc".to_string()),
        Timestamp::new(1431648000, 0),
    );
    assert_eq!(Timestamp::new(1431648000, 0).to_text().unwrap(), "2015-05-15 00:00:00 UTC");
    assert_eq!(state_line(&message), "abc\tReady\t2015-05-15 00:00:00 UTC");
    assert_eq!(state_line_with(&message, Some("now")), "abc\tReady\tnow");
    assert_eq!(state_line_with(&message, None), "abc\tReady\t1431648000");

    let swept = BackendStateMessage::new(
        BackendState::Swept,
        BackendId::new("b".to_string()),
        Timestamp::new(0, 500_000_000),
    );
    assert_eq!(state_line(&swept), "b\tSwept\t1970-01-01 00:00:00.500 UTC");

    let far = BackendStateMessage::new(
        BackendState::Failed,
        BackendId::new("b".to_string()),
        Timestamp::new(i64::MIN, 0),
    );
    assert_eq!(Timestamp::new(i64::MIN, 0).to_text(), None);
    assert_eq!(Timestamp::new(0, 2_000_000_000).to_text(), None);
    assert_eq!(state_line(&far), "b\tFailed\t-9223372036854775808");
}

#[test]
fn text_helpers() {
    assert_eq!(replace("a.b.c", '.', '_'), "a_b_c");
    assert_eq!(replace("", '.', '_'), "");
    assert_eq!(replace("...", '.', '-'), "---");
    assert_eq!(replace("äö.ü", '.', '_'), "äö_ü");
    assert_eq!(take_before("health_status: healthy", ':'), "health_status");
    assert_eq!(take_before("die", ':'), "die");
    assert_eq!(take_before(":x", ':'), "");
    assert_eq!(take_before("a:b:c", ':'), "a");
    assert_eq!(to_ascii_lower("Hello, World"), "hello, world");
    assert_eq!(lower_char('A'), 'a');
    assert_eq!(lower_char('Z'), 'z');
    assert_eq!(lower_char('@'), '@');
    assert_eq!(lower_char('['), '[');
    assert_eq!(lower_char('Ä'), 'Ä');
    assert!(text_eq("abc", "abc"));
    assert!(!text_eq("abc", "abd"));
    assert!(!text_eq("abc", "ab"));
}

#[test]
fn timestamps_compare_by_instant() {
    let a = Timestamp::new(10, 999_999_999);
    let b = Timestamp::new(11, 0);
    assert!(a.is_before(&b));
    assert!(!b.is_before(&a));
    assert!(!a.is_before(&a));
    assert!(Timestamp::new(-1, 5).is_before(&Timestamp::new(0, 0)));
    assert_eq!(a.nanos_since_epoch(), 10_999_999_999);
    assert_eq!(Timestamp::new(-2, 1).nanos_since_epoch(), -1_999_999_999);
    assert_eq!(b.nanos_since(&a), 1);
    assert_eq!(a.nanos_since(&b), 0);
    assert_eq!(a.checked_add_secs(5), Some(Timestamp::new(15, 999_999_999)));
    assert_eq!(Timestamp::new(i64::MAX, 0).checked_add_secs(1), None);
    assert_eq!(Timestamp::new(i64::MAX - 1, 3).checked_add_secs(1), Some(Timestamp::new(i64::MAX, 3)));
    assert_eq!(Timestamp::new(-5, 0).checked_add_secs(u64::MAX), None);
    assert_eq!(split_nanos(0), (0, 0));
    assert_eq!(split_nanos(7_500_000_001), (7, 500_000_001));
    assert_eq!(split_nanos(u64::MAX as u128 * 1_000_000_000 + 5), (u64::MAX, 5));
    assert_eq!(split_nanos((u64::MAX as u128 + 1) * 1_000_000_000), (u64::MAX, 999_999_999));
    assert!(Timestamp::new(100, 1).is_within(Timestamp::new(105, 0), 5));
    assert!(!Timestamp::new(100, 0).is_within(Timestamp::new(105, 0), 5));
    assert!(Timestamp::new(i64::MIN, 0).is_within(Timestamp::new(i64::MIN, 0), 5));
}

#[test]
fn configuration_defaults() {
    assert_eq!(default_port(), 53);
    assert_eq!(default_bind_ip(), IpAddress::V4(0, 0, 0, 0));
    let options = DnsOptions::with_defaults(Some("admin@example.com".to_string()));
    assert_eq!(options.port, 53);
    assert_eq!(options.bind_ip, IpAddress::V4(0, 0, 0, 0));
    assert_eq!(options.soa_email.as_deref(), Some("admin@example.com"));
}

#[test]
fn command_line_requests() {
    assert_eq!(DEFAULT_NATS_URL, "nats://localhost");
    assert_eq!(DEFAULT_SPAWN_TIMEOUT_SECS, 300);
    let request = spawn_request("plane.test", "test:latest".to_string(), 300);
    assert_eq!(request.cluster.to_string(), "plane.test");
    assert_eq!(request.executable.image, "test:latest");
    assert_eq!(request.max_idle_secs, 300);
    assert!(request.backend_id.is_none());
    assert!(request.metadata.is_empty());
    assert!(request.executable.env.is_empty());
    assert!(!request.require_bearer_token);

    assert_eq!(
        backend_url(&BackendId::new("abc123".to_string()), "plane.test"),
        "https://abc123.plane.test"
    );

    let drain = drain_request("D1".to_string(), "plane.test", false);
    assert_eq!(
        drain,
        DrainDrone {
            drone: DroneId::new("D1".to_string()),
            cluster: ClusterName::new("plane.test"),
            drain: true
        }
    );
    assert!(!drain_request("D1".to_string(), "plane.test", true).drain);
    assert_eq!(drain_message(true), "Draining started on drone.");
    assert_eq!(drain_message(false), "Draining cancelled on drone.");

    let terminate = terminate_request("plane.test", "B".to_string());
    assert_eq!(terminate.backend_id.id(), "B");
    assert_eq!(terminate.cluster_id.hostname(), "plane.test");

    let status = DroneStatusMessage {
        drone_id: DroneId::new("D1".to_string()),
        cluster: ClusterName::new("plane.test"),
        drone_version: "0.1.0".to_string(),
        ready: true,
        running_backends: None,
    };
    assert_eq!(drone_line(&status), "D1\tplane.test");
}
