use butler::pterodactyl::lifecycle::{
    after_command, after_first_orb_status, command_arguments, container_recovery_action, is_ready_body, may_stop_owned, ownership_marker_text,
    parse_container_inspection, parse_orb_status, poll, read_ownership_marker,
    ContainerRecoveryAction, ContainerSnapshot, DockerContainerInspection, DockerPortBinding,
    runtime_warning, ContainerCommand, OrbStackNext, OrbStackStatus, PollNext, Supervision,
};
use butler::pterodactyl::supervisor::{RuntimeAction, RuntimeEvent, RuntimePhase};

#[test]
fn parses_orbstack_exit_codes() {
    assert_eq!(parse_orb_status(Some(0)).unwrap(), OrbStackStatus::Running);
    assert_eq!(parse_orb_status(Some(1)).unwrap(), OrbStackStatus::Stopped);
    assert_eq!(parse_orb_status(Some(2)).unwrap(), OrbStackStatus::Starting);
    assert!(parse_orb_status(Some(3)).is_err());
    assert!(parse_orb_status(None).is_err());
}

fn inspection(host_ip: &str) -> DockerContainerInspection {
    DockerContainerInspection {
        id: "abcdef123456".to_string(),
        running: true,
        image: "ghcr.io/flaresolverr/flaresolverr@sha256:abc".to_string(),
        labels: vec![("com.docker.compose.service".to_string(), "flaresolverr".to_string())],
        restart_policy: "no".to_string(),
        port_bindings: vec![(
            "8191/tcp".to_string(),
            Some(vec![DockerPortBinding {
                host_ip: host_ip.to_string(),
                host_port: "8191".to_string(),
            }]),
        )],
    }
}

#[test]
fn validates_secured_container_inspection() {
    assert_eq!(
        parse_container_inspection(Some(vec![inspection("127.0.0.1")]), 8191).unwrap(),
        ContainerSnapshot { id: "abcdef123456".to_string(), running: true }
    );
    assert!(parse_container_inspection(Some(vec![inspection("0.0.0.0")]), 8191).is_err());
    assert!(parse_container_inspection(Some(vec![inspection("127.0.0.1")]), 9999).is_err());
    assert!(parse_container_inspection(None, 8191).is_err());
}

#[test]
fn validates_readiness_body() {
    assert!(is_ready_body(br#"{"msg":"FlareSolverr is ready!"}"#));
    assert!(!is_ready_body(br#"{"msg":"starting"}"#));
    assert!(!is_ready_body(b"not json"));
}

#[test]
fn selects_identity_safe_container_recovery_actions() {
    let running = ContainerSnapshot { id: "container-a".to_string(), running: true };
    let stopped = ContainerSnapshot { id: "container-a".to_string(), running: false };

    assert_eq!(
        container_recovery_action(&running, Some("container-a")),
        ContainerRecoveryAction::RestartOwned
    );
    assert_eq!(
        container_recovery_action(&stopped, Some("container-a")),
        ContainerRecoveryAction::StartOwned
    );
    assert_eq!(
        container_recovery_action(&stopped, None),
        ContainerRecoveryAction::StartAndAdopt
    );
    assert_eq!(
        container_recovery_action(&running, None),
        ContainerRecoveryAction::RefuseUnownedRunning
    );
    assert_eq!(
        container_recovery_action(&running, Some("container-b")),
        ContainerRecoveryAction::IdentityChanged
    );
}

#[test]
fn ownership_marker_is_read_back() {
    let text = ownership_marker_text("abcdef123456");
    assert_eq!(read_ownership_marker(&text).as_deref(), Some("abcdef123456"));
    assert_eq!(read_ownership_marker("  \n"), None);
    let container = ContainerSnapshot { id: "abcdef123456".to_string(), running: true };
    assert!(may_stop_owned(&container, "abcdef123456").is_ok());
    assert!(may_stop_owned(&container, "other").is_err());
}

#[test]
fn polling_ends_at_its_deadline() {
    assert!(matches!(poll(0, 10, None), PollNext::Look));
    assert!(matches!(poll(0, 10, Some(true)), PollNext::Ready));
    assert!(matches!(poll(0, 10_000, Some(false)), PollNext::Pause { .. }));
    assert!(matches!(poll(10, 10, None), PollNext::GiveUp));
}

#[test]
fn supervision_recovers_after_three_failures() {
    let fresh: Supervision = Supervision { owned_container_id: None, health_failures: 0 };
    let (once, recover) = fresh.after_look(false);
    assert!(!recover);
    let (twice, recover) = once.after_look(false);
    assert!(!recover);
    let (_, recover) = twice.after_look(false);
    assert!(recover);
}

#[test]
fn a_running_container_of_others_is_left_alone() {
    let (mut phase, mut action) = RuntimePhase::bring_up();
    let mut steps = 0;
    let end = loop {
        steps += 1;
        assert!(steps < 30);
        let event = match action {
            RuntimeAction::Finish { end } => break end,
            RuntimeAction::CheckReady => RuntimeEvent::Looked { ready: true },
            RuntimeAction::Inspect { .. } => RuntimeEvent::Inspected {
                result: Ok(ContainerSnapshot { id: "container-a".to_string(), running: true }),
            },
            RuntimeAction::ReadMarker => RuntimeEvent::Marker { exists: false, id: Ok(None) },
            RuntimeAction::StartContainer { .. }
            | RuntimeAction::RestartContainer { .. }
            | RuntimeAction::StopContainer { .. }
            | RuntimeAction::StopOwned { .. } => panic!("the container is not ours"),
            _ => RuntimeEvent::Done { result: Ok(()) },
        };
        let (next, asked) = phase.advance(event, "flaresolverr");
        phase = next;
        action = asked;
    };
    assert_eq!(end, Ok(None));
}

#[test]
fn a_stopped_machine_is_started_and_awaited() {
    assert_eq!(after_first_orb_status(OrbStackStatus::Running), OrbStackNext::Ready);
    assert_eq!(after_first_orb_status(OrbStackStatus::Starting), OrbStackNext::Wait);
    assert_eq!(after_first_orb_status(OrbStackStatus::Stopped), OrbStackNext::StartThenWait);
}

#[test]
fn recoveries_adopt_only_where_nothing_is_owned() {
    let nothing: Supervision = Supervision { owned_container_id: None, health_failures: 5 };
    let adopted = nothing.after_recovery(Some("a1".to_string()));
    assert_eq!(adopted.owned_container_id.as_deref(), Some("a1"));
    assert_eq!(adopted.health_failures, 0);
    let kept = adopted.after_recovery(Some("b2".to_string()));
    assert_eq!(kept.owned_container_id.as_deref(), Some("a1"));
}

#[test]
fn an_owned_container_is_restarted() {
    let (mut phase, mut action) = RuntimePhase::ensure_runtime_healthy(Some("a1".to_string()));
    let mut restarted = 0;
    let end = loop {
        let event = match action {
            RuntimeAction::Finish { end } => break end,
            RuntimeAction::CheckReady => RuntimeEvent::Looked { ready: false },
            RuntimeAction::Inspect { reference } => {
                assert_eq!(reference, "flaresolverr");
                RuntimeEvent::Inspected {
                    result: Ok(ContainerSnapshot { id: "a1".to_string(), running: true }),
                }
            }
            RuntimeAction::RestartContainer { id } => {
                assert_eq!(id, "a1");
                restarted += 1;
                RuntimeEvent::Done { result: Ok(()) }
            }
            _ => RuntimeEvent::Done { result: Ok(()) },
        };
        let (next, asked) = phase.advance(event, "flaresolverr");
        phase = next;
        action = asked;
    };
    assert_eq!(end, Ok(Some("a1".to_string())));
    assert_eq!(restarted, 1);
}

#[test]
fn commands_have_arguments_and_named_failures() {
    assert_eq!(command_arguments(ContainerCommand::Inspect, "a1"), ["inspect", "a1"]);
    assert_eq!(
        command_arguments(ContainerCommand::Stop, "a1"),
        ["stop", "--time", "10", "a1"]
    );
    assert_eq!(after_command(ContainerCommand::Start, true), Ok(()));
    assert_eq!(
        after_command(ContainerCommand::Restart, false),
        Err("FlareSolverrUnavailable: unhealthy container could not be restarted".to_string())
    );
    assert_eq!(
        runtime_warning("supervisor join failed", "it  \n broke"),
        "supervisor join failed; error it broke"
    );
}
