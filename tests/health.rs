use ployer::health::{classify_probe, plan_health_tick, probe_target, probe_url, restart_event, ProbeOutcome};
use ployer::health_checks::HealthResultLog;
use ployer::liveness::{default_port, default_username, observed_status, probe_address, server_tick};
use ployer::models::{HealthCheckResult, HealthCheckStatus, Server, ServerStatus, WsEvent};
use HealthCheckStatus::{Healthy, Unhealthy, Unknown};

fn result(app: &str, status: HealthCheckStatus, t: i64) -> HealthCheckResult {
    HealthCheckResult {
        id: format!("r{}", t),
        application_id: app.to_string(),
        container_id: "C".to_string(),
        status,
        response_time_ms: None,
        status_code: None,
        error_message: None,
        checked_at: t,
    }
}

/// Runs the controller over a sequence of probe statuses; returns the
/// number of restarts and the announced statuses.
fn simulate(statuses: &[HealthCheckStatus], threshold: i32) -> (usize, Vec<HealthCheckStatus>) {
    let app = "app".to_string();
    let mut log = HealthResultLog::new();
    let mut restarts = 0;
    let mut events = Vec::new();
    for (t, s) in statuses.iter().enumerate() {
        let previous = log.recent_statuses("app", 1).first().copied();
        log.record_result(result("app", *s, t as i64));
        let recent = log.recent_statuses("app", threshold as usize);
        let plan = plan_health_tick(&app, previous, *s, &recent, threshold);
        if let Some(WsEvent::AppHealth { status, .. }) = plan.health_event {
            events.push(status);
        }
        if plan.restart {
            restarts += 1;
            if let WsEvent::AppHealth { status, .. } = restart_event(&app) {
                events.push(status);
            }
        }
    }
    (restarts, events)
}

#[test]
fn three_unhealthy_probes_restart_once() {
    let (restarts, events) = simulate(&[Unhealthy, Unhealthy, Unhealthy], 3);
    assert_eq!(restarts, 1);
    assert_eq!(events, vec![Unhealthy, Unknown]);
}

#[test]
fn a_healthy_probe_breaks_the_streak() {
    let (restarts, _) = simulate(&[Unhealthy, Healthy, Unhealthy], 3);
    assert_eq!(restarts, 0);
}

#[test]
fn one_event_per_change_of_health() {
    let (_, events) = simulate(&[Healthy, Healthy, Unhealthy, Healthy, Unknown], 5);
    assert_eq!(events, vec![Healthy, Unhealthy, Healthy, Unknown]);
}

#[test]
fn tick_plan_on_concrete_values() {
    let app = "a".to_string();
    let p = plan_health_tick(&app, None, Unknown, &vec![Unknown], 3);
    assert!(p.health_event.is_none());
    assert!(!p.restart);
    let p = plan_health_tick(&app, Some(Unhealthy), Unhealthy, &vec![Unhealthy, Unhealthy], 3);
    assert!(p.health_event.is_none());
    assert!(!p.restart);
    let p = plan_health_tick(&app, Some(Healthy), Unhealthy, &vec![Unhealthy], 1);
    assert!(p.restart);
    assert!(matches!(p.health_event, Some(WsEvent::AppHealth { status: Unhealthy, .. })));
}

#[test]
fn recent_results_are_newest_first_per_application() {
    let mut log = HealthResultLog::new();
    log.record_result(result("a", Healthy, 1));
    log.record_result(result("b", Unknown, 2));
    log.record_result(result("a", Unhealthy, 3));
    log.record_result(result("a", Unknown, 4));
    assert_eq!(log.recent_statuses("a", 2), vec![Unknown, Unhealthy]);
    assert_eq!(log.recent_statuses("a", 10), vec![Unknown, Unhealthy, Healthy]);
    assert_eq!(log.recent_statuses("b", 10), vec![Unknown]);
    assert_eq!(log.recent_statuses("c", 10), vec![]);
    assert_eq!(log.recent_statuses("a", 0), vec![]);
}

#[test]
fn probes_are_classified() {
    let ok = classify_probe(ProbeOutcome::Responded { status_code: 204, elapsed_ms: 12 });
    assert_eq!(ok.status, Healthy);
    assert_eq!(ok.status_code, Some(204));
    assert_eq!(ok.response_time_ms, Some(12));
    assert_eq!(classify_probe(ProbeOutcome::Responded { status_code: 199, elapsed_ms: 1 }).status, Unhealthy);
    assert_eq!(classify_probe(ProbeOutcome::Responded { status_code: 300, elapsed_ms: 1 }).status, Unhealthy);
    assert_eq!(classify_probe(ProbeOutcome::Responded { status_code: 503, elapsed_ms: 1 }).status, Unhealthy);
    let failed = classify_probe(ProbeOutcome::RequestFailed { error: "timeout".to_string(), elapsed_ms: 5000 });
    assert_eq!(failed.status, Unhealthy);
    assert_eq!(failed.error_message.as_deref(), Some("timeout"));
    let none = classify_probe(ProbeOutcome::NoPort);
    assert_eq!(none.status, Unknown);
    assert_eq!(none.error_message.as_deref(), Some("No port mapping found for container"));
    let insp = classify_probe(ProbeOutcome::InspectFailed("gone".to_string()));
    assert_eq!(insp.error_message.as_deref(), Some("Failed to inspect container: gone"));
    assert_eq!(probe_url("32768", "/health"), "http://localhost:32768/health");
}

#[test]
fn probe_target_needs_a_container() {
    assert!(probe_target(None, None).is_none());
}

#[test]
fn local_server_is_always_online() {
    assert_eq!(observed_status(true, Some(false)), ServerStatus::Online);
    assert_eq!(observed_status(true, None), ServerStatus::Online);
    assert_eq!(observed_status(false, Some(true)), ServerStatus::Online);
    assert_eq!(observed_status(false, Some(false)), ServerStatus::Offline);
    assert_eq!(observed_status(false, None), ServerStatus::Offline);
}

#[test]
fn server_changes_are_persisted_and_announced() {
    let mut s = Server {
        id: "srv-a".to_string(),
        name: "box".to_string(),
        host: "10.0.0.2".to_string(),
        port: default_port(),
        username: default_username(),
        ssh_key_encrypted: None,
        is_local: false,
        status: ServerStatus::Unknown,
        last_seen_at: None,
        created_at: 0,
        updated_at: 0,
    };
    assert_eq!(probe_address(&s.host, s.port), "10.0.0.2:22");
    assert_eq!(s.username, "root");
    let e = server_tick(&mut s, Some(true), 100);
    assert!(matches!(e, Some(WsEvent::ServerHealth { status: ServerStatus::Online, .. })));
    assert_eq!(s.last_seen_at, Some(100));
    assert!(server_tick(&mut s, Some(true), 200).is_none());
    assert_eq!(s.last_seen_at, Some(100));
    let e = server_tick(&mut s, None, 300);
    assert!(matches!(e, Some(WsEvent::ServerHealth { status: ServerStatus::Offline, .. })));
}

#[test]
fn old_results_are_dropped() {
    let mut log = HealthResultLog::new();
    for t in 0..5 {
        log.record_result(result("a", Healthy, t * 10));
    }
    assert_eq!(log.cleanup_old_results(25), 3);
    let times: Vec<i64> = log.rows.iter().map(|r| r.checked_at).collect();
    assert_eq!(times, vec![30, 40]);
    assert_eq!(log.cleanup_old_results(0), 0);
}
