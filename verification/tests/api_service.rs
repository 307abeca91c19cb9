use sidecar_supervisor::api_service::{
    api_service_health_check_loop, drain_process_event, get_api_service_port, health_check_url,
    is_alive, log_tag, manage_api_service_lifecycle, service_arguments, start_api_service,
    start_error_message, stop_api_service, DrainAction, HealthAction, HealthEvent,
    LifecycleAction, LifecycleEvent, OutputStream, ProbeOutcome, ProcessEvent, SpawnRequest,
    StartError, HEALTH_CHECK_INTERVAL_SECS, HEALTH_CHECK_TIMEOUT_SECS, LIFECYCLE_POLL_SECS,
    PORT_AVAILABLE_EVENT, RETRY_BACKOFF_SECS, SERVICE_ERROR_EVENT,
};
use sidecar_supervisor::ports::ProbeStep;
use sidecar_supervisor::service_manager::ServiceManager;

const NOT_RUNNING: &str = "API Service is not running or port is not available";

fn running_on(port: u16, child: u32) -> ServiceManager<u32> {
    let mut manager = ServiceManager::new();
    manager.start(port, child);
    manager
}

#[test]
fn intervals_are_fixed() {
    assert_eq!(LIFECYCLE_POLL_SECS, 5);
    assert_eq!(RETRY_BACKOFF_SECS, 10);
    assert_eq!(HEALTH_CHECK_INTERVAL_SECS, 5);
    assert_eq!(HEALTH_CHECK_TIMEOUT_SECS, 2);
}

#[test]
fn notification_names() {
    assert_eq!(PORT_AVAILABLE_EVENT, "service-port-available");
    assert_eq!(SERVICE_ERROR_EVENT, "service-error");
}

#[test]
fn query_on_a_new_record_is_an_error() {
    let manager: ServiceManager<u32> = ServiceManager::new();
    assert_eq!(get_api_service_port(&manager), Err(NOT_RUNNING.to_string()));
}

#[test]
fn query_twice_gives_the_same_answer() {
    let manager = running_on(49501, 1);
    assert_eq!(get_api_service_port(&manager), get_api_service_port(&manager));
    assert_eq!(get_api_service_port(&manager), Ok("49501".to_string()));
    let idle: ServiceManager<u32> = ServiceManager::new();
    assert_eq!(get_api_service_port(&idle), get_api_service_port(&idle));
}

#[test]
fn scenario_spawn_succeeds_on_port_51000() {
    let mut manager: ServiceManager<u32> = ServiceManager::new();
    assert_eq!(
        manage_api_service_lifecycle(&mut manager, LifecycleEvent::Poll),
        LifecycleAction::Start { stale: None }
    );
    assert_eq!(
        manage_api_service_lifecycle(
            &mut manager,
            LifecycleEvent::Started { port: 51000, child: 7 }
        ),
        LifecycleAction::Announce { port: 51000, payload: "51000".to_string(), replaced: None }
    );
    assert!(manager.is_running());
    assert_eq!(manager.port(), Some(51000));
    assert_eq!(get_api_service_port(&manager), Ok("51000".to_string()));
    assert_eq!(
        manage_api_service_lifecycle(&mut manager, LifecycleEvent::Poll),
        LifecycleAction::Idle { sleep_secs: 5 }
    );
    assert_eq!(get_api_service_port(&manager), Ok("51000".to_string()));
}

#[test]
fn scenario_spawn_fails() {
    let mut manager: ServiceManager<u32> = ServiceManager::new();
    assert_eq!(
        manage_api_service_lifecycle(&mut manager, LifecycleEvent::Poll),
        LifecycleAction::Start { stale: None }
    );
    let failure = StartError::SpawnFailed("No such file or directory (os error 2)".to_string());
    assert_eq!(
        manage_api_service_lifecycle(&mut manager, LifecycleEvent::StartFailed(failure)),
        LifecycleAction::ReportError {
            message: "Failed to spawn API service: No such file or directory (os error 2)"
                .to_string(),
            retry_after_secs: 10,
        }
    );
    assert!(!manager.is_running());
    assert_eq!(manager.port(), None);
    assert_eq!(get_api_service_port(&manager), Err(NOT_RUNNING.to_string()));
    assert_eq!(
        manage_api_service_lifecycle(&mut manager, LifecycleEvent::Poll),
        LifecycleAction::Start { stale: None }
    );
}

#[test]
fn scenario_health_probe_times_out_twice() {
    let mut manager = running_on(51000, 7);
    for child in [8u32, 9u32] {
        assert_eq!(
            api_service_health_check_loop(&mut manager, HealthEvent::Tick),
            HealthAction::Probe {
                port: 51000,
                url: "http://127.0.0.1:51000/".to_string(),
                timeout_secs: 2,
            }
        );
        assert_eq!(
            api_service_health_check_loop(
                &mut manager,
                HealthEvent::Probed(ProbeOutcome::TimedOut)
            ),
            HealthAction::MarkedDown
        );
        assert!(!manager.is_running());
        assert_eq!(manager.port(), None);
        assert!(!manager.has_process());
        assert_eq!(
            api_service_health_check_loop(&mut manager, HealthEvent::Tick),
            HealthAction::Skip
        );
        assert_eq!(
            manage_api_service_lifecycle(&mut manager, LifecycleEvent::Poll),
            LifecycleAction::Start { stale: None }
        );
        assert_eq!(
            manage_api_service_lifecycle(
                &mut manager,
                LifecycleEvent::Started { port: 51000, child }
            ),
            LifecycleAction::Announce {
                port: 51000,
                payload: "51000".to_string(),
                replaced: None,
            }
        );
        assert!(manager.is_running());
    }
}

#[test]
fn scenario_stop_while_running() {
    let mut manager = running_on(51000, 7);
    assert_eq!(stop_api_service(&mut manager), (Some(7), Ok("API Service stopped".to_string())));
    assert!(!manager.is_running());
    assert_eq!(manager.port(), None);
    assert_eq!(get_api_service_port(&manager), Err(NOT_RUNNING.to_string()));
}

#[test]
fn stop_while_not_running_is_an_error() {
    let mut manager: ServiceManager<u32> = ServiceManager::new();
    assert_eq!(
        stop_api_service(&mut manager),
        (None, Err("API Service is not running".to_string()))
    );
    assert!(!manager.is_running());
    assert_eq!(manager.port(), None);
    let mut stopped = running_on(51000, 7);
    stop_api_service(&mut stopped);
    assert_eq!(
        stop_api_service(&mut stopped),
        (None, Err("API Service is not running".to_string()))
    );
}

#[test]
fn scenario_shutdown_while_running() {
    let mut manager = running_on(51000, 7);
    assert_eq!(manager.kill_process(), Some(7));
    assert_eq!(manager.kill_process(), None);
    assert!(!manager.has_process());
    assert!(!manager.is_running());
}

#[test]
fn start_error_messages() {
    assert_eq!(start_error_message(&StartError::PortExhausted), "Failed to find available port");
    assert_eq!(
        start_error_message(&StartError::SpawnFailed("denied".to_string())),
        "Failed to spawn API service: denied"
    );
    assert_eq!(
        start_error_message(&StartError::SpawnFailed(String::new())),
        "Failed to spawn API service: "
    );
}

#[test]
fn port_exhaustion_is_reported_and_retried() {
    let mut manager: ServiceManager<u32> = ServiceManager::new();
    assert_eq!(
        manage_api_service_lifecycle(
            &mut manager,
            LifecycleEvent::StartFailed(StartError::PortExhausted)
        ),
        LifecycleAction::ReportError {
            message: "Failed to find available port".to_string(),
            retry_after_secs: 10,
        }
    );
    assert_eq!(
        manage_api_service_lifecycle(&mut manager, LifecycleEvent::Poll),
        LifecycleAction::Start { stale: None }
    );
}

#[test]
fn failed_start_clears_a_running_record() {
    let mut manager = running_on(51000, 7);
    let action = manage_api_service_lifecycle(
        &mut manager,
        LifecycleEvent::StartFailed(StartError::PortExhausted),
    );
    assert!(matches!(action, LifecycleAction::ReportError { .. }));
    assert!(!manager.is_running());
    assert_eq!(manager.port(), None);
    assert!(!manager.has_process());
}

#[test]
fn start_over_a_running_record_hands_back_the_old_handle() {
    let mut manager = running_on(51000, 7);
    assert_eq!(
        manage_api_service_lifecycle(
            &mut manager,
            LifecycleEvent::Started { port: 51001, child: 8 }
        ),
        LifecycleAction::Announce {
            port: 51001,
            payload: "51001".to_string(),
            replaced: Some(7),
        }
    );
    assert_eq!(manager.port(), Some(51001));
}

#[test]
fn service_arguments_carry_paths_and_port() {
    assert_eq!(
        service_arguments("/opt/app/resources/api", 51000, "/home/user/.local/share/app"),
        vec![
            "run".to_string(),
            "/opt/app/resources/api".to_string(),
            "--port".to_string(),
            "51000".to_string(),
            "--app-resources-path".to_string(),
            "/opt/app/resources/api".to_string(),
            "--app-data-dir".to_string(),
            "/home/user/.local/share/app".to_string(),
        ]
    );
}

#[test]
fn start_plan_uses_the_first_free_port() {
    let attempt = |port: u16, step: ProbeStep| port >= 51000 && step != ProbeStep::ConnectTcp;
    assert_eq!(
        start_api_service("res", "data", attempt),
        Ok(SpawnRequest { port: 51000, arguments: service_arguments("res", 51000, "data") })
    );
}

#[test]
fn start_plan_fails_when_no_port_is_free() {
    assert_eq!(
        start_api_service("res", "data", |_port: u16, _step: ProbeStep| false),
        Err(StartError::PortExhausted)
    );
}

#[test]
fn health_url_ends_in_the_liveness_path() {
    assert_eq!(health_check_url(51000), "http://127.0.0.1:51000/");
    assert_eq!(health_check_url(49501), "http://127.0.0.1:49501/");
    assert_eq!(health_check_url(80), "http://127.0.0.1:80/");
}

#[test]
fn only_success_status_codes_are_alive() {
    assert!(!is_alive(&ProbeOutcome::Status(0)));
    assert!(!is_alive(&ProbeOutcome::Status(199)));
    assert!(is_alive(&ProbeOutcome::Status(200)));
    assert!(is_alive(&ProbeOutcome::Status(204)));
    assert!(is_alive(&ProbeOutcome::Status(299)));
    assert!(!is_alive(&ProbeOutcome::Status(300)));
    assert!(!is_alive(&ProbeOutcome::Status(404)));
    assert!(!is_alive(&ProbeOutcome::Status(500)));
    assert!(!is_alive(&ProbeOutcome::Status(u16::MAX)));
    assert!(!is_alive(&ProbeOutcome::TimedOut));
    assert!(!is_alive(&ProbeOutcome::ConnectionRefused));
    assert!(!is_alive(&ProbeOutcome::TransportError));
}

#[test]
fn health_tick_skips_a_service_that_does_not_run() {
    let mut manager: ServiceManager<u32> = ServiceManager::new();
    assert_eq!(api_service_health_check_loop(&mut manager, HealthEvent::Tick), HealthAction::Skip);
    assert!(!manager.is_running());
}

#[test]
fn healthy_probe_changes_nothing() {
    let mut manager = running_on(51000, 7);
    assert_eq!(
        api_service_health_check_loop(&mut manager, HealthEvent::Probed(ProbeOutcome::Status(200))),
        HealthAction::Alive
    );
    assert!(manager.is_running());
    assert_eq!(manager.port(), Some(51000));
    assert_eq!(manager.kill_process(), Some(7));
}

#[test]
fn every_failed_probe_marks_the_service_down() {
    for outcome in [
        ProbeOutcome::TimedOut,
        ProbeOutcome::ConnectionRefused,
        ProbeOutcome::TransportError,
        ProbeOutcome::Status(503),
        ProbeOutcome::Status(301),
    ] {
        let mut manager = running_on(51000, 7);
        assert_eq!(
            api_service_health_check_loop(&mut manager, HealthEvent::Probed(outcome)),
            HealthAction::MarkedDown
        );
        assert!(!manager.is_running());
        assert_eq!(manager.port(), None);
        assert!(!manager.has_process());
        assert_eq!(get_api_service_port(&manager), Err(NOT_RUNNING.to_string()));
    }
}

#[test]
fn output_is_forwarded_and_changes_nothing() {
    let mut manager = running_on(51000, 7);
    assert_eq!(
        drain_process_event(&mut manager, ProcessEvent::Stdout(b"listening\n".to_vec())),
        DrainAction::Forward { stream: OutputStream::Stdout, line: b"listening\n".to_vec() }
    );
    assert_eq!(
        drain_process_event(&mut manager, ProcessEvent::Stderr(vec![0xff, 0xfe])),
        DrainAction::Forward { stream: OutputStream::Stderr, line: vec![0xff, 0xfe] }
    );
    assert_eq!(drain_process_event(&mut manager, ProcessEvent::Other), DrainAction::Ignore);
    assert!(manager.is_running());
    assert_eq!(manager.port(), Some(51000));
    assert!(manager.has_process());
}

#[test]
fn process_error_marks_the_service_down() {
    let mut manager = running_on(51000, 7);
    assert_eq!(
        drain_process_event(&mut manager, ProcessEvent::Error("broken pipe".to_string())),
        DrainAction::ReportFailure { reason: "broken pipe".to_string() }
    );
    assert!(!manager.is_running());
    assert_eq!(manager.port(), None);
    assert!(!manager.has_process());
}

#[test]
fn process_exit_marks_the_service_down() {
    let mut manager = running_on(51000, 7);
    assert_eq!(
        drain_process_event(&mut manager, ProcessEvent::Terminated(Some(1))),
        DrainAction::ReportExit { code: Some(1) }
    );
    assert!(!manager.is_running());
    assert_eq!(manager.port(), None);
    assert!(!manager.has_process());
    assert_eq!(
        manage_api_service_lifecycle(&mut manager, LifecycleEvent::Poll),
        LifecycleAction::Start { stale: None }
    );
}

#[test]
fn exit_and_failed_probe_in_either_order_leave_the_same_record() {
    let mut first = running_on(51000, 7);
    drain_process_event(&mut first, ProcessEvent::Terminated(None));
    api_service_health_check_loop(&mut first, HealthEvent::Probed(ProbeOutcome::TimedOut));
    let mut second = running_on(51000, 7);
    api_service_health_check_loop(&mut second, HealthEvent::Probed(ProbeOutcome::TimedOut));
    drain_process_event(&mut second, ProcessEvent::Terminated(None));
    for manager in [&first, &second] {
        assert!(!manager.is_running());
        assert_eq!(manager.port(), None);
        assert!(!manager.has_process());
    }
}

#[test]
fn log_tags_name_the_stream() {
    assert_eq!(
        log_tag(&DrainAction::Forward { stream: OutputStream::Stdout, line: Vec::new() }),
        Some("[API::stdout]")
    );
    assert_eq!(
        log_tag(&DrainAction::Forward { stream: OutputStream::Stderr, line: Vec::new() }),
        Some("[API::stderr]")
    );
    assert_eq!(
        log_tag(&DrainAction::ReportFailure { reason: String::new() }),
        Some("[API::error]")
    );
    assert_eq!(log_tag(&DrainAction::ReportExit { code: None }), Some("[API::terminated]"));
    assert_eq!(log_tag(&DrainAction::Ignore), None);
}
