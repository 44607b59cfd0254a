use plane::drone::docker::{
    get_ip_of_container, make_exposed_ports, AllowNotFound, ContainerEvent, ContainerEventType,
    ContainerInspectResponse, DockerError, EndpointSettings, EventActor, EventMessage,
    InspectError, MinuteExt, NetworkSettings, Polled, Stats, StatsStream, StatsWindow,
};
use plane::types::BackendId;
use std::time::Duration;

fn event(action: Option<&str>, attributes: Option<Vec<(&str, &str)>>) -> EventMessage {
    EventMessage {
        action: action.map(str::to_string),
        actor: Some(EventActor::new(attributes.map(|pairs| {
            pairs.into_iter().map(|(k, v)| (k.to_string(), v.to_string())).collect()
        }))),
    }
}

#[test]
fn minutes_of_a_duration() {
    assert_eq!(Duration::from_secs(0).as_minutes(), 0);
    assert_eq!(Duration::from_secs(59).as_minutes(), 0);
    assert_eq!(Duration::from_secs(60).as_minutes(), 1);
    assert_eq!(Duration::from_secs(150).as_minutes(), 2);
    assert_eq!(Duration::from_millis(179_999).as_minutes(), 2);
    assert_eq!(Duration::from_secs(u64::MAX).as_minutes(), 307445734561825860);
}

#[test]
fn exposed_ports_hold_the_one_port() {
    let ports = make_exposed_ports(8080).unwrap();
    assert_eq!(ports.len(), 1);
    assert!(ports.get("8080/tcp").unwrap().is_empty());
    let ports = make_exposed_ports(0).unwrap();
    assert_eq!(ports.keys().collect::<Vec<_>>(), vec!["0/tcp"]);
    let ports = make_exposed_ports(65535).unwrap();
    assert!(ports.contains_key("65535/tcp"));
}

#[test]
fn not_found_is_allowed() {
    let gone: Result<u8, DockerError> = Err(DockerError::DockerResponseServerError {
        status_code: 404,
        message: "No such container".to_string(),
    });
    assert!(gone.allow_not_found().is_ok());

    let done: Result<u8, DockerError> = Ok(3);
    assert!(done.allow_not_found().is_ok());

    let broken: Result<u8, DockerError> = Err(DockerError::DockerResponseServerError {
        status_code: 500,
        message: "boom".to_string(),
    });
    match broken.allow_not_found() {
        Err(DockerError::DockerResponseServerError { status_code, message }) => {
            assert_eq!(status_code, 500);
            assert_eq!(message, "boom");
        }
        other => panic!("the error is handed on, not {:?}", other),
    }

    let other: Result<(), DockerError> = Err(DockerError::Other { message: "timeout".to_string() });
    match other.allow_not_found() {
        Err(DockerError::Other { message }) => assert_eq!(message, "timeout"),
        other => panic!("the error is handed on, not {:?}", other),
    }
}

#[test]
fn every_kind_of_event_is_known_by_its_word() {
    let words = [
        ("attach", ContainerEventType::Attach),
        ("commit", ContainerEventType::Commit),
        ("copy", ContainerEventType::Copy),
        ("create", ContainerEventType::Create),
        ("destroy", ContainerEventType::Destroy),
        ("detach", ContainerEventType::Detach),
        ("die", ContainerEventType::Die),
        ("exec_create", ContainerEventType::ExecCreate),
        ("exec_detach", ContainerEventType::ExecDetach),
        ("exec_die", ContainerEventType::ExecDie),
        ("exec_start", ContainerEventType::ExecStart),
        ("export", ContainerEventType::Export),
        ("health_status", ContainerEventType::HealthStatus),
        ("kill", ContainerEventType::Kill),
        ("oom", ContainerEventType::Oom),
        ("pause", ContainerEventType::Pause),
        ("rename", ContainerEventType::Rename),
        ("resize", ContainerEventType::Resize),
        ("restart", ContainerEventType::Restart),
        ("start", ContainerEventType::Start),
        ("stop", ContainerEventType::Stop),
        ("top", ContainerEventType::Top),
        ("unpause", ContainerEventType::Unpause),
        ("update", ContainerEventType::Update),
    ];
    assert_eq!(ContainerEventType::all().len(), words.len());
    for (word, kind) in words {
        assert_eq!(kind.action(), word);
        assert_eq!(ContainerEventType::from_action(word), Some(kind));
        let found = ContainerEvent::from_event_message(&event(Some(word), Some(vec![("name", "c1")])))
            .unwrap();
        assert_eq!(found.event, kind);
        assert_eq!(found.name, "c1");
    }
    assert_eq!(ContainerEventType::from_action("Attach"), None);
    assert_eq!(ContainerEventType::from_action(""), None);
    assert_eq!(ContainerEventType::from_action("exec"), None);
}

#[test]
fn event_detail_after_a_colon_is_dropped() {
    let found = ContainerEvent::from_event_message(&event(
        Some("health_status: healthy"),
        Some(vec![("image", "x"), ("name", "backend-1")]),
    ))
    .unwrap();
    assert_eq!(found.event, ContainerEventType::HealthStatus);
    assert_eq!(found.name, "backend-1");

    let found = ContainerEvent::from_event_message(&event(
        Some("exec_start: /bin/sh -c true"),
        Some(vec![("name", "a"), ("name", "b")]),
    ))
    .unwrap();
    assert_eq!(found.event, ContainerEventType::ExecStart);
    assert_eq!(found.name, "b");
}

#[test]
fn events_without_kind_or_name_are_passed_over() {
    assert!(ContainerEvent::from_event_message(&event(None, Some(vec![("name", "c")]))).is_none());
    assert!(ContainerEvent::from_event_message(&event(Some("die"), None)).is_none());
    assert!(ContainerEvent::from_event_message(&event(Some("die"), Some(vec![]))).is_none());
    assert!(
        ContainerEvent::from_event_message(&event(Some("die"), Some(vec![("image", "x")]))).is_none()
    );
    assert!(
        ContainerEvent::from_event_message(&event(Some("mount"), Some(vec![("name", "c")]))).is_none()
    );
    assert!(
        ContainerEvent::from_event_message(&event(Some(":die"), Some(vec![("name", "c")]))).is_none()
    );
    let no_actor = EventMessage { action: Some("die".to_string()), actor: None };
    assert!(ContainerEvent::from_event_message(&no_actor).is_none());
}

fn inspect(ip: Option<&str>, networks: Option<Vec<(&str, Option<&str>)>>) -> ContainerInspectResponse {
    ContainerInspectResponse {
        network_settings: Some(NetworkSettings {
            ip_address: ip.map(str::to_string),
            networks: networks.map(|list| {
                list.into_iter()
                    .map(|(name, ip)| {
                        (name.to_string(), EndpointSettings { ip_address: ip.map(str::to_string) })
                    })
                    .collect()
            }),
        }),
    }
}

#[test]
fn container_address_comes_from_the_default_network_first() {
    assert_eq!(
        get_ip_of_container(&inspect(Some("172.17.0.2"), Some(vec![("n", Some("10.0.0.9"))]))),
        Ok("172.17.0.2".to_string())
    );
    assert_eq!(get_ip_of_container(&inspect(Some("172.17.0.2"), None)), Ok("172.17.0.2".to_string()));
}

#[test]
fn container_address_comes_from_the_only_network_else() {
    assert_eq!(
        get_ip_of_container(&inspect(Some(""), Some(vec![("plane", Some("10.0.0.9"))]))),
        Ok("10.0.0.9".to_string())
    );
    assert_eq!(
        get_ip_of_container(&inspect(None, Some(vec![("plane", Some("fd00::9"))]))),
        Ok("fd00::9".to_string())
    );
}

#[test]
fn container_address_errors() {
    let nothing = ContainerInspectResponse { network_settings: None };
    assert_eq!(get_ip_of_container(&nothing), Err(InspectError::NoNetworkSettings));
    assert_eq!(get_ip_of_container(&inspect(None, None)), Err(InspectError::NoIpOrNetworks));
    assert_eq!(get_ip_of_container(&inspect(Some(""), None)), Err(InspectError::NoIpOrNetworks));
    assert_eq!(
        get_ip_of_container(&inspect(None, Some(vec![]))),
        Err(InspectError::NetworkCount(0))
    );
    assert_eq!(
        get_ip_of_container(&inspect(
            None,
            Some(vec![("a", Some("10.0.0.1")), ("b", Some("10.0.0.2"))])
        )),
        Err(InspectError::NetworkCount(2))
    );
    assert_eq!(
        get_ip_of_container(&inspect(None, Some(vec![("a", None)]))),
        Err(InspectError::NoIpOnNetwork)
    );

    assert_eq!(
        InspectError::NoNetworkSettings.message(),
        "Inspect did not return network settings."
    );
    assert_eq!(InspectError::NoIpOrNetworks.message(), "Inspect did not return an IP or networks.");
    assert_eq!(InspectError::NetworkCount(12).message(), "Expected exactly one network, got 12");
    assert_eq!(
        InspectError::NoIpOnNetwork.message(),
        "One network found, but did not have IP address."
    );
}

fn sample(n: u64) -> Stats {
    Stats {
        cpu_total_usage: 100 * n,
        system_cpu_usage: Some(1_000 * n),
        memory_usage: Some(n),
        memory_limit: Some(1 << 30),
    }
}

#[test]
fn stats_stream_drops_the_first_sample_and_pairs_the_rest() {
    let id = BackendId::new("b".to_string());
    let mut stream = StatsStream::new(id.clone());

    assert!(matches!(stream.poll_next(Polled::Pending), Polled::Pending));
    assert!(matches!(stream.poll_next(Polled::Ready(Some(sample(1)))), Polled::Pending));
    assert!(matches!(stream.poll_next(Polled::Pending), Polled::Pending));
    for n in 2..6 {
        match stream.poll_next(Polled::Ready(Some(sample(n)))) {
            Polled::Ready(Some(window)) => {
                assert_eq!(window.backend_id, id);
                assert_eq!(window.previous, sample(n - 1));
                assert_eq!(window.current, sample(n));
            }
            other => panic!("a window, not {:?}", other),
        }
    }
    assert!(matches!(stream.poll_next(Polled::Ready(None)), Polled::Ready(None)));
    // The end of the underlying stream does not forget the last sample.
    match stream.poll_next(Polled::Ready(Some(sample(9)))) {
        Polled::Ready(Some(window)) => assert_eq!(window.previous, sample(5)),
        other => panic!("a window, not {:?}", other),
    }
}

#[test]
fn stats_window_deltas() {
    let mut window = StatsWindow {
        backend_id: BackendId::new("b".to_string()),
        previous: sample(3),
        current: sample(7),
    };
    assert_eq!(window.cpu_delta(), 400);
    assert_eq!(window.system_cpu_delta(), Some(4_000));
    window.current = sample(1);
    assert_eq!(window.cpu_delta(), 0);
    assert_eq!(window.system_cpu_delta(), Some(0));
    window.current.system_cpu_usage = None;
    assert_eq!(window.system_cpu_delta(), None);
}

#[test]
fn stats_stream_without_samples_ends() {
    let mut stream = StatsStream::new(BackendId::new("b".to_string()));
    assert!(matches!(stream.poll_next(Polled::Ready(None)), Polled::Ready(None)));
}
