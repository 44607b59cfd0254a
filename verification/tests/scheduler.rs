use chrono::{DateTime, Utc};
use plane::controller::scheduler::{Scheduler, SchedulerAction, SchedulerError, SPAWN_TIMEOUT_SECS};
use plane::dev::util::base_scheduler_request;
use plane::messages::agent::{DroneStatusMessage, SpawnRequest};
use plane::messages::scheduler::ScheduleResponse;
use plane::time::Timestamp;
use plane::types::{BackendId, ClusterName, DroneId};

const PLANE_VERSION: &str = "0.1.0";

fn date(date: &str) -> Timestamp {
    let parsed: DateTime<Utc> = DateTime::parse_from_rfc3339(date).unwrap().into();
    Timestamp::new(parsed.timestamp(), parsed.timestamp_subsec_nanos())
}

fn status(drone_id: &DroneId, cluster: &str, ready: bool) -> DroneStatusMessage {
    DroneStatusMessage {
        drone_id: drone_id.clone(),
        cluster: ClusterName::new(cluster),
        drone_version: PLANE_VERSION.to_string(),
        ready,
        running_backends: None,
    }
}

#[test]
fn test_no_drones() {
    let scheduler = Scheduler::default();
    let timestamp = date("2020-01-01T05:00:00+00:00");
    assert_eq!(
        Err(SchedulerError::NoDroneAvailable),
        scheduler.schedule(&ClusterName::new("mycluster.test"), timestamp)
    );
}

#[test]
fn test_one_drone() {
    let mut scheduler = Scheduler::default();
    let drone_id = DroneId::new_random();

    scheduler.update_status(
        date("2020-01-01T05:00:00+00:00"),
        &DroneStatusMessage {
            drone_id: drone_id.clone(),
            cluster: ClusterName::new("mycluster.test"),
            drone_version: PLANE_VERSION.to_string(),
            ready: true,
            running_backends: None,
        },
    );

    assert_eq!(
        Ok(drone_id),
        scheduler.schedule(
            &ClusterName::new("mycluster.test"),
            date("2020-01-01T05:00:03+00:00")
        )
    );
}

#[test]
fn test_one_drone_wrong_cluster() {
    let mut scheduler = Scheduler::default();

    scheduler.update_status(
        date("2020-01-01T05:00:00+00:00"),
        &DroneStatusMessage {
            drone_id: DroneId::new_random(),
            cluster: ClusterName::new("mycluster1.test"),
            drone_version: PLANE_VERSION.to_string(),
            ready: true,
            running_backends: None,
        },
    );

    assert_eq!(
        Err(SchedulerError::NoDroneAvailable),
        scheduler.schedule(
            &ClusterName::new("mycluster2.test"),
            date("2020-01-01T05:00:03+00:00")
        )
    );
}

#[test]
fn test_one_drone_expired() {
    let mut scheduler = Scheduler::default();

    scheduler.update_status(
        date("2020-01-01T05:00:00+00:00"),
        &DroneStatusMessage {
            drone_id: DroneId::new_random(),
            cluster: ClusterName::new("mycluster.test"),
            drone_version: PLANE_VERSION.to_string(),
            ready: true,
            running_backends: None,
        },
    );

    assert_eq!(
        Err(SchedulerError::NoDroneAvailable),
        scheduler.schedule(
            &ClusterName::new("mycluster.test"),
            date("2020-01-01T05:00:09+00:00")
        )
    );
}

#[test]
fn drone_is_live_until_the_window_closes() {
    let mut scheduler = Scheduler::default();
    let drone = DroneId::new("d".to_string());
    let cluster = ClusterName::new("c.test");
    scheduler.update_status(Timestamp::new(100, 500), &status(&drone, "c.test", true));

    // One nanosecond before the window closes.
    assert_eq!(Ok(drone.clone()), scheduler.schedule(&cluster, Timestamp::new(105, 499)));
    // Exactly five seconds after the heartbeat the drone is no longer live.
    assert_eq!(
        Err(SchedulerError::NoDroneAvailable),
        scheduler.schedule(&cluster, Timestamp::new(105, 500))
    );
    // A heartbeat from the future counts.
    assert_eq!(Ok(drone), scheduler.schedule(&cluster, Timestamp::new(0, 0)));
}

#[test]
fn live_drones_lists_each_live_drone_once() {
    let mut scheduler = Scheduler::default();
    let cluster = ClusterName::new("c.test");
    let old = DroneId::new("old".to_string());
    let a = DroneId::new("a".to_string());
    let b = DroneId::new("b".to_string());
    scheduler.update_status(Timestamp::new(10, 0), &status(&old, "c.test", true));
    scheduler.update_status(Timestamp::new(20, 0), &status(&a, "c.test", true));
    scheduler.update_status(Timestamp::new(21, 0), &status(&b, "c.test", true));
    scheduler.update_status(Timestamp::new(22, 0), &status(&a, "c.test", true));
    scheduler.update_status(Timestamp::new(22, 0), &status(&b, "other.test", true));

    let mut live: Vec<String> = scheduler
        .live_drones(&cluster, Timestamp::new(23, 0))
        .iter()
        .map(|d| d.to_string())
        .collect();
    live.sort();
    assert_eq!(live, vec!["a".to_string(), "b".to_string()]);

    for _ in 0..50 {
        let picked = scheduler.schedule(&cluster, Timestamp::new(23, 0)).unwrap();
        assert!(picked == a || picked == b);
    }
    assert!(scheduler.live_drones(&ClusterName::new("none.test"), Timestamp::new(23, 0)).is_empty());
}

#[test]
fn later_heartbeat_replaces_the_time() {
    let mut scheduler = Scheduler::default();
    let cluster = ClusterName::new("c.test");
    let drone = DroneId::new("a".to_string());
    scheduler.update_status(Timestamp::new(10, 0), &status(&drone, "c.test", true));
    assert!(scheduler.schedule(&cluster, Timestamp::new(17, 0)).is_err());
    scheduler.update_status(Timestamp::new(16, 0), &status(&drone, "c.test", true));
    assert_eq!(Ok(drone), scheduler.schedule(&cluster, Timestamp::new(17, 0)));
}

#[test]
fn ready_then_not_ready_is_as_never_heard() {
    let mut scheduler = Scheduler::default();
    let cluster = ClusterName::new("c.test");
    let drone = DroneId::new("a".to_string());
    let other = DroneId::new("b".to_string());
    scheduler.update_status(Timestamp::new(10, 0), &status(&other, "c.test", true));
    scheduler.update_status(Timestamp::new(10, 0), &status(&drone, "c.test", true));
    scheduler.update_status(Timestamp::new(11, 0), &status(&drone, "c.test", false));
    let live = scheduler.live_drones(&cluster, Timestamp::new(12, 0));
    assert_eq!(live, vec![other]);
}

#[test]
fn no_drone_available() {
    let scheduler = Scheduler::default();
    let request = base_scheduler_request();
    assert_eq!(request.cluster.to_string(), "plane.test");
    assert_eq!(request.executable.image, "ghcr.io/drifting-in-space/test-image:latest");
    assert_eq!(request.max_idle_secs, 10);
    let action = scheduler.handle_request(&request, Timestamp::new(0, 0));
    assert!(matches!(action, SchedulerAction::Decline));
}

#[test]
fn one_drone_available() {
    let mut scheduler = Scheduler::default();
    let drone_id = DroneId::new("D1".to_string());
    scheduler.update_status(Timestamp::new(1_000, 0), &status(&drone_id, "plane.test", true));

    let request = base_scheduler_request();
    let action = scheduler.handle_request(&request, Timestamp::new(1_000, 100_000_000));
    let (subject, spawn, timeout_secs) = match action {
        SchedulerAction::Spawn { subject, request, timeout_secs } => (subject, request, timeout_secs),
        SchedulerAction::Decline => panic!("a drone is live"),
    };
    // The order goes where the agent of the drone listens.
    assert_eq!(
        subject,
        SpawnRequest::subscribe_subject(&ClusterName::new("plane.test"), &drone_id).subject
    );
    assert_eq!(timeout_secs, 10);
    assert_eq!(timeout_secs, SPAWN_TIMEOUT_SECS);
    assert_eq!(spawn.drone_id, drone_id);
    assert_eq!(spawn.max_idle_secs, 10);
    assert_eq!(spawn.metadata, request.metadata);
    assert_eq!(spawn.executable.image, request.executable.image);
    assert_eq!(spawn.executable.env, request.executable.env);
    assert_eq!(spawn.bearer_token, None);
    // The request names no backend: the scheduler has generated a name.
    assert!(request.backend_id.is_none());
    assert_eq!(spawn.backend_id.id().len(), 16);
    assert!(spawn.backend_id.id().chars().all(|c| c.is_ascii_alphanumeric()));

    let result = Scheduler::conclude(&spawn, Some(true));
    assert!(matches!(&result, ScheduleResponse::Scheduled { drone, .. } if *drone == drone_id));
    assert_eq!(
        result,
        ScheduleResponse::Scheduled {
            drone: drone_id,
            backend_id: spawn.backend_id.clone(),
            bearer_token: None
        }
    );
}

#[test]
fn drone_rejects_or_stays_silent() {
    let mut scheduler = Scheduler::default();
    let drone_id = DroneId::new("D1".to_string());
    scheduler.update_status(Timestamp::new(1_000, 0), &status(&drone_id, "plane.test", true));
    let action = scheduler.handle_request(&base_scheduler_request(), Timestamp::new(1_001, 0));
    let spawn = match action {
        SchedulerAction::Spawn { request, .. } => request,
        SchedulerAction::Decline => panic!("a drone is live"),
    };
    assert_eq!(Scheduler::conclude(&spawn, Some(false)), ScheduleResponse::NoDroneAvailable);
    assert_eq!(Scheduler::conclude(&spawn, None), ScheduleResponse::NoDroneAvailable);
}

#[test]
fn drone_not_ready() {
    let mut scheduler = Scheduler::default();
    let drone_id = DroneId::new("D1".to_string());
    scheduler.update_status(Timestamp::new(1_000, 0), &status(&drone_id, "plane.test", false));
    let action = scheduler.handle_request(&base_scheduler_request(), Timestamp::new(1_000, 1));
    assert!(matches!(action, SchedulerAction::Decline));
}

#[test]
fn drone_becomes_not_ready() {
    let mut scheduler = Scheduler::default();
    let drone_id = DroneId::new("D1".to_string());
    scheduler.update_status(Timestamp::new(1_000, 0), &status(&drone_id, "plane.test", true));
    scheduler.update_status(Timestamp::new(1_000, 1), &status(&drone_id, "plane.test", false));
    let action = scheduler.handle_request(&base_scheduler_request(), Timestamp::new(1_005, 1));
    assert!(matches!(action, SchedulerAction::Decline));
    // Not even at once.
    let action = scheduler.handle_request(&base_scheduler_request(), Timestamp::new(1_000, 2));
    assert!(matches!(action, SchedulerAction::Decline));
}

#[test]
fn drone_liveness_expires() {
    let mut scheduler = Scheduler::default();
    let drone_id = DroneId::new("D1".to_string());
    let heard = date("2023-03-01T12:00:00+00:00");
    scheduler.update_status(heard, &status(&drone_id, "plane.test", true));
    let action = scheduler.handle_request(&base_scheduler_request(), date("2023-03-01T12:00:09+00:00"));
    assert!(matches!(action, SchedulerAction::Decline));
}

#[test]
fn request_keeps_its_backend_name() {
    let mut scheduler = Scheduler::default();
    let drone_id = DroneId::new("D1".to_string());
    scheduler.update_status(Timestamp::new(1_000, 0), &status(&drone_id, "plane.test", true));
    let mut request = base_scheduler_request();
    request.backend_id = Some(BackendId::new("mine".to_string()));
    request.require_bearer_token = true;
    let spawn = request.schedule(&drone_id);
    assert_eq!(spawn.backend_id, BackendId::new("mine".to_string()));
    assert_eq!(spawn.bearer_token, None);
    match scheduler.handle_request(&request, Timestamp::new(1_001, 0)) {
        SchedulerAction::Spawn { request: spawn, .. } => {
            assert_eq!(spawn.backend_id.id(), "mine");
            assert_eq!(spawn.bearer_token, None);
        }
        SchedulerAction::Decline => panic!("a drone is live"),
    }
}

#[test]
fn scheduler_error_in_words() {
    assert_eq!(SchedulerError::NoDroneAvailable.to_string(), "NoDroneAvailable");
}
