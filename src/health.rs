//! Decisions of the health controller: classifying a probe, announcing a
//! change of health, and restarting after a streak of unhealthy results.
use vstd::prelude::*;
use crate::deployment::Deployment;
use crate::models::{Application, HealthCheckStatus, WsEvent};
use crate::text::{concat2, concat3};

verus! {

/// What probing a container gave.
#[derive(Clone, Debug)]
pub enum ProbeOutcome {
    /// The container could not be inspected.
    InspectFailed(String),
    /// The container exposes no host port.
    NoPort,
    /// The endpoint answered with this HTTP status.
    Responded { status_code: u16, elapsed_ms: i32 },
    /// The request failed to connect or ran out of time.
    RequestFailed { error: String, elapsed_ms: i32 },
}

/// A classified probe, as it is recorded.
#[derive(Clone, Debug)]
pub struct ProbeResult {
    pub status: HealthCheckStatus,
    pub response_time_ms: Option<i32>,
    pub status_code: Option<i32>,
    pub error_message: Option<String>,
}

/// The URL probed: `http://localhost:{host_port}{path}`.
pub fn probe_url(host_port: &str, path: &str) -> (r: String)
    ensures
        r@ == "http://localhost:"@ + host_port@ + path@,
{
    concat3("http://localhost:", host_port, path)
}

/// Classifies a probe: a 2xx answer is healthy, any other answer or a
/// failed request unhealthy, and a container that cannot be inspected or
/// has no port unknown.
pub fn classify_probe(outcome: ProbeOutcome) -> (r: ProbeResult)
    ensures
        match outcome {
            ProbeOutcome::InspectFailed(e) => r.status == HealthCheckStatus::Unknown
                && r.response_time_ms is None && r.status_code is None && (r.error_message matches Some(
                m,
            ) && m@ == "Failed to inspect container: "@ + e@),
            ProbeOutcome::NoPort => r.status == HealthCheckStatus::Unknown && r.response_time_ms is None
                && r.status_code is None && (r.error_message matches Some(m) && m@
                == "No port mapping found for container"@),
            ProbeOutcome::Responded { status_code, elapsed_ms } => r.status == (if 200 <= status_code
                <= 299 {
                HealthCheckStatus::Healthy
            } else {
                HealthCheckStatus::Unhealthy
            }) && r.response_time_ms == Some(elapsed_ms) && r.status_code == Some(status_code as i32)
                && r.error_message is None,
            ProbeOutcome::RequestFailed { error, elapsed_ms } => r.status
                == HealthCheckStatus::Unhealthy && r.response_time_ms == Some(elapsed_ms)
                && r.status_code is None && r.error_message == Some(error),
        },
{
    match outcome {
        ProbeOutcome::InspectFailed(e) => ProbeResult {
            status: HealthCheckStatus::Unknown,
            response_time_ms: None,
            status_code: None,
            error_message: Some(concat2("Failed to inspect container: ", e.as_str())),
        },
        ProbeOutcome::NoPort => ProbeResult {
            status: HealthCheckStatus::Unknown,
            response_time_ms: None,
            status_code: None,
            error_message: Some(String::from_str("No port mapping found for container")),
        },
        ProbeOutcome::Responded { status_code, elapsed_ms } => {
            let status = if 200 <= status_code && status_code <= 299 {
                HealthCheckStatus::Healthy
            } else {
                HealthCheckStatus::Unhealthy
            };
            ProbeResult {
                status,
                response_time_ms: Some(elapsed_ms),
                status_code: Some(status_code as i32),
                error_message: None,
            }
        },
        ProbeOutcome::RequestFailed { error, elapsed_ms } => ProbeResult {
            status: HealthCheckStatus::Unhealthy,
            response_time_ms: Some(elapsed_ms),
            status_code: None,
            error_message: Some(error),
        },
    }
}

/// The container a health check probes: the one of the application's
/// running deployment, when the application exists and that deployment has
/// a container.
pub fn probe_target(app: Option<&Application>, running: Option<&Deployment>) -> (r: Option<String>)
    ensures
        r is Some <==> (app is Some && (running matches Some(d) && d.container_id is Some)),
        r is Some ==> r == running.unwrap().container_id,
{
    match (app, running) {
        (Some(_), Some(d)) => d.container_id.clone(),
        _ => None,
    }
}

/// The first `threshold` results, newest first, are all unhealthy.
pub open spec fn unhealthy_streak(recent: Seq<HealthCheckStatus>, threshold: int) -> bool {
    recent.len() >= threshold && forall|i: int|
        0 <= i < threshold ==> recent[i] == HealthCheckStatus::Unhealthy
}

/// What one tick of the controller does for one application.
#[derive(Clone, Debug)]
pub struct TickPlan {
    /// The change of health to announce.
    pub health_event: Option<WsEvent>,
    /// Restart the current container.
    pub restart: bool,
}

/// Counts the unhealthy results at the front of `recent`, up to `limit`.
fn leading_unhealthy(recent: &Vec<HealthCheckStatus>, limit: usize) -> (n: usize)
    ensures
        n <= limit,
        n <= recent@.len(),
        forall|i: int| 0 <= i < n ==> recent@[i] == HealthCheckStatus::Unhealthy,
        n < limit && n < recent@.len() ==> recent@[n as int] != HealthCheckStatus::Unhealthy,
{
    let mut n: usize = 0;
    while n < limit && n < recent.len()
        invariant
            n <= limit,
            n <= recent@.len(),
            forall|i: int| 0 <= i < n ==> recent@[i] == HealthCheckStatus::Unhealthy,
        decreases recent@.len() - n,
    {
        if recent[n] != HealthCheckStatus::Unhealthy {
            return n;
        }
        n = n + 1;
    }
    n
}

/// Plans one tick for the application `app_id`, after its newest result
/// `latest` was recorded. `previous` is the status recorded before it (none
/// reads as unknown) and `recent` the newest results, newest first, as
/// recorded now.
///
/// The change is announced exactly when `latest` differs from the previous
/// status, with the new status; the container restarts exactly when
/// `latest` is unhealthy and so are the newest `unhealthy_threshold`
/// results.
pub fn plan_health_tick(
    app_id: &String,
    previous: Option<HealthCheckStatus>,
    latest: HealthCheckStatus,
    recent: &Vec<HealthCheckStatus>,
    unhealthy_threshold: i32,
) -> (r: TickPlan)
    requires
        unhealthy_threshold >= 1,
    ensures
        r.health_event is Some <==> latest != (match previous {
            Some(p) => p,
            None => HealthCheckStatus::Unknown,
        }),
        r.health_event matches Some(e) ==> e matches WsEvent::AppHealth { app_id: a, status } && a
            == *app_id && status == latest,
        r.restart == (latest == HealthCheckStatus::Unhealthy && unhealthy_streak(
            recent@,
            unhealthy_threshold as int,
        )),
{
    let old_status = match previous {
        Some(p) => p,
        None => HealthCheckStatus::Unknown,
    };
    let health_event = if old_status != latest {
        Some(WsEvent::AppHealth { app_id: app_id.clone(), status: latest })
    } else {
        None
    };
    let restart = if latest == HealthCheckStatus::Unhealthy {
        let t = unhealthy_threshold as usize;
        let n = leading_unhealthy(recent, t);
        proof {
            if n < t && unhealthy_streak(recent@, unhealthy_threshold as int) {
                assert(recent@[n as int] == HealthCheckStatus::Unhealthy);
            }
        }
        n == t
    } else {
        false
    };
    TickPlan { health_event, restart }
}

/// The event announced after a successful restart: health is unknown again.
pub fn restart_event(app_id: &String) -> (r: WsEvent)
    ensures
        r matches WsEvent::AppHealth { app_id: a, status } && a == *app_id && status
            == HealthCheckStatus::Unknown,
{
    WsEvent::AppHealth { app_id: app_id.clone(), status: HealthCheckStatus::Unknown }
}

} // verus!
