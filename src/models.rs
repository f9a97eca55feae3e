//! The platform's records and their status enumerations.
//!
//! Timestamps are seconds since the Unix epoch; identifiers are opaque
//! strings.
use vstd::prelude::*;
use crate::text::{lowercase, lower_of, str_eq};

verus! {

/// How an application's image is built.
#[derive(Clone, Copy, Debug, PartialEq, Eq, Structural)]
pub enum BuildStrategy {
    Dockerfile,
    Nixpacks,
    DockerCompose,
}

impl BuildStrategy {
    pub open spec fn name(self) -> Seq<char> {
        match self {
            BuildStrategy::Dockerfile => "dockerfile"@,
            BuildStrategy::Nixpacks => "nixpacks"@,
            BuildStrategy::DockerCompose => "docker_compose"@,
        }
    }

    /// Unknown names read as `Dockerfile`.
    pub open spec fn parse(s: Seq<char>) -> BuildStrategy {
        if s == "nixpacks"@ {
            BuildStrategy::Nixpacks
        } else if s == "docker_compose"@ {
            BuildStrategy::DockerCompose
        } else {
            BuildStrategy::Dockerfile
        }
    }

    pub fn as_str(&self) -> (r: &'static str)
        ensures
            r@ == self.name(),
    {
        match self {
            BuildStrategy::Dockerfile => "dockerfile",
            BuildStrategy::Nixpacks => "nixpacks",
            BuildStrategy::DockerCompose => "docker_compose",
        }
    }

    pub fn from_str(s: &str) -> (r: BuildStrategy)
        ensures
            r == BuildStrategy::parse(s@),
    {
        if str_eq(s, "nixpacks") {
            BuildStrategy::Nixpacks
        } else if str_eq(s, "docker_compose") {
            BuildStrategy::DockerCompose
        } else {
            BuildStrategy::Dockerfile
        }
    }
}

impl Default for BuildStrategy {
    fn default() -> (r: BuildStrategy)
        ensures
            r == BuildStrategy::Dockerfile,
    {
        BuildStrategy::Dockerfile
    }
}

/// Lifecycle status of an application.
#[derive(Clone, Copy, Debug, PartialEq, Eq, Structural)]
pub enum AppStatus {
    Idle,
    Building,
    Running,
    Stopped,
    Failed,
}

impl AppStatus {
    pub open spec fn name(self) -> Seq<char> {
        match self {
            AppStatus::Idle => "idle"@,
            AppStatus::Building => "building"@,
            AppStatus::Running => "running"@,
            AppStatus::Stopped => "stopped"@,
            AppStatus::Failed => "failed"@,
        }
    }

    /// Unknown names read as `Idle`.
    pub open spec fn parse(s: Seq<char>) -> AppStatus {
        if s == "building"@ {
            AppStatus::Building
        } else if s == "running"@ {
            AppStatus::Running
        } else if s == "stopped"@ {
            AppStatus::Stopped
        } else if s == "failed"@ {
            AppStatus::Failed
        } else {
            AppStatus::Idle
        }
    }

    pub fn as_str(&self) -> (r: &'static str)
        ensures
            r@ == self.name(),
    {
        match self {
            AppStatus::Idle => "idle",
            AppStatus::Building => "building",
            AppStatus::Running => "running",
            AppStatus::Stopped => "stopped",
            AppStatus::Failed => "failed",
        }
    }

    pub fn from_str(s: &str) -> (r: AppStatus)
        ensures
            r == AppStatus::parse(s@),
    {
        if str_eq(s, "building") {
            AppStatus::Building
        } else if str_eq(s, "running") {
            AppStatus::Running
        } else if str_eq(s, "stopped") {
            AppStatus::Stopped
        } else if str_eq(s, "failed") {
            AppStatus::Failed
        } else {
            AppStatus::Idle
        }
    }
}

/// Status of one deployment attempt.
///
/// The pipeline runs `Queued -> Cloning -> Building -> Deploying -> Running`;
/// `Failed` and `Cancelled` end it early and `RolledBack` marks a deployment
/// that a newer one replaced.
#[derive(Clone, Copy, Debug, PartialEq, Eq, Structural)]
pub enum DeploymentStatus {
    Queued,
    Cloning,
    Building,
    Deploying,
    Running,
    Failed,
    Cancelled,
    RolledBack,
}

impl DeploymentStatus {
    pub open spec fn name(self) -> Seq<char> {
        match self {
            DeploymentStatus::Queued => "queued"@,
            DeploymentStatus::Cloning => "cloning"@,
            DeploymentStatus::Building => "building"@,
            DeploymentStatus::Deploying => "deploying"@,
            DeploymentStatus::Running => "running"@,
            DeploymentStatus::Failed => "failed"@,
            DeploymentStatus::Cancelled => "cancelled"@,
            DeploymentStatus::RolledBack => "rolled_back"@,
        }
    }

    /// Unknown names read as `Queued`.
    pub open spec fn parse(s: Seq<char>) -> DeploymentStatus {
        if s == "cloning"@ {
            DeploymentStatus::Cloning
        } else if s == "building"@ {
            DeploymentStatus::Building
        } else if s == "deploying"@ {
            DeploymentStatus::Deploying
        } else if s == "running"@ {
            DeploymentStatus::Running
        } else if s == "failed"@ {
            DeploymentStatus::Failed
        } else if s == "cancelled"@ {
            DeploymentStatus::Cancelled
        } else if s == "rolled_back"@ {
            DeploymentStatus::RolledBack
        } else {
            DeploymentStatus::Queued
        }
    }

    /// A deployment in one of these states carries a finish time.
    pub open spec fn is_finished(self) -> bool {
        match self {
            DeploymentStatus::Running | DeploymentStatus::Failed | DeploymentStatus::Cancelled
            | DeploymentStatus::RolledBack => true,
            _ => false,
        }
    }

    pub fn as_str(&self) -> (r: &'static str)
        ensures
            r@ == self.name(),
    {
        match self {
            DeploymentStatus::Queued => "queued",
            DeploymentStatus::Cloning => "cloning",
            DeploymentStatus::Building => "building",
            DeploymentStatus::Deploying => "deploying",
            DeploymentStatus::Running => "running",
            DeploymentStatus::Failed => "failed",
            DeploymentStatus::Cancelled => "cancelled",
            DeploymentStatus::RolledBack => "rolled_back",
        }
    }

    pub fn from_str(s: &str) -> (r: DeploymentStatus)
        ensures
            r == DeploymentStatus::parse(s@),
    {
        if str_eq(s, "cloning") {
            DeploymentStatus::Cloning
        } else if str_eq(s, "building") {
            DeploymentStatus::Building
        } else if str_eq(s, "deploying") {
            DeploymentStatus::Deploying
        } else if str_eq(s, "running") {
            DeploymentStatus::Running
        } else if str_eq(s, "failed") {
            DeploymentStatus::Failed
        } else if str_eq(s, "cancelled") {
            DeploymentStatus::Cancelled
        } else if str_eq(s, "rolled_back") {
            DeploymentStatus::RolledBack
        } else {
            DeploymentStatus::Queued
        }
    }

    /// Whether a row in this status carries a finish time.
    pub fn is_terminal(&self) -> (r: bool)
        ensures
            r == self.is_finished(),
    {
        match self {
            DeploymentStatus::Running | DeploymentStatus::Failed | DeploymentStatus::Cancelled
            | DeploymentStatus::RolledBack => true,
            _ => false,
        }
    }
}

/// Outcome of one health probe.
#[derive(Clone, Copy, Debug, PartialEq, Eq, Structural)]
pub enum HealthCheckStatus {
    Healthy,
    Unhealthy,
    Unknown,
}

impl HealthCheckStatus {
    pub open spec fn name(self) -> Seq<char> {
        match self {
            HealthCheckStatus::Healthy => "healthy"@,
            HealthCheckStatus::Unhealthy => "unhealthy"@,
            HealthCheckStatus::Unknown => "unknown"@,
        }
    }

    /// Unknown names read as `Unknown`.
    pub open spec fn parse(s: Seq<char>) -> HealthCheckStatus {
        if s == "healthy"@ {
            HealthCheckStatus::Healthy
        } else if s == "unhealthy"@ {
            HealthCheckStatus::Unhealthy
        } else {
            HealthCheckStatus::Unknown
        }
    }

    pub fn as_str(&self) -> (r: &'static str)
        ensures
            r@ == self.name(),
    {
        match self {
            HealthCheckStatus::Healthy => "healthy",
            HealthCheckStatus::Unhealthy => "unhealthy",
            HealthCheckStatus::Unknown => "unknown",
        }
    }

    pub fn from_str(s: &str) -> (r: HealthCheckStatus)
        ensures
            r == HealthCheckStatus::parse(s@),
    {
        if str_eq(s, "healthy") {
            HealthCheckStatus::Healthy
        } else if str_eq(s, "unhealthy") {
            HealthCheckStatus::Unhealthy
        } else {
            HealthCheckStatus::Unknown
        }
    }
}

/// Reachability of a registered host.
#[derive(Clone, Copy, Debug, PartialEq, Eq, Structural)]
pub enum ServerStatus {
    Online,
    Offline,
    Unknown,
}

impl ServerStatus {
    pub open spec fn name(self) -> Seq<char> {
        match self {
            ServerStatus::Online => "online"@,
            ServerStatus::Offline => "offline"@,
            ServerStatus::Unknown => "unknown"@,
        }
    }

    /// Unknown names read as `Unknown`.
    pub open spec fn parse(s: Seq<char>) -> ServerStatus {
        if s == "online"@ {
            ServerStatus::Online
        } else if s == "offline"@ {
            ServerStatus::Offline
        } else {
            ServerStatus::Unknown
        }
    }

    pub fn as_str(&self) -> (r: &'static str)
        ensures
            r@ == self.name(),
    {
        match self {
            ServerStatus::Online => "online",
            ServerStatus::Offline => "offline",
            ServerStatus::Unknown => "unknown",
        }
    }

    pub fn from_str(s: &str) -> (r: ServerStatus)
        ensures
            r == ServerStatus::parse(s@),
    {
        if str_eq(s, "online") {
            ServerStatus::Online
        } else if str_eq(s, "offline") {
            ServerStatus::Offline
        } else {
            ServerStatus::Unknown
        }
    }
}

/// Outcome recorded for one webhook delivery.
#[derive(Clone, Copy, Debug, PartialEq, Eq, Structural)]
pub enum WebhookDeliveryStatus {
    Success,
    Failed,
    Skipped,
}

impl WebhookDeliveryStatus {
    pub open spec fn name(self) -> Seq<char> {
        match self {
            WebhookDeliveryStatus::Success => "success"@,
            WebhookDeliveryStatus::Failed => "failed"@,
            WebhookDeliveryStatus::Skipped => "skipped"@,
        }
    }

    /// Unknown names read as `Failed`.
    pub open spec fn parse(s: Seq<char>) -> WebhookDeliveryStatus {
        if s == "success"@ {
            WebhookDeliveryStatus::Success
        } else if s == "skipped"@ {
            WebhookDeliveryStatus::Skipped
        } else {
            WebhookDeliveryStatus::Failed
        }
    }

    pub fn as_str(&self) -> (r: &'static str)
        ensures
            r@ == self.name(),
    {
        match self {
            WebhookDeliveryStatus::Success => "success",
            WebhookDeliveryStatus::Failed => "failed",
            WebhookDeliveryStatus::Skipped => "skipped",
        }
    }

    pub fn from_str(s: &str) -> (r: WebhookDeliveryStatus)
        ensures
            r == WebhookDeliveryStatus::parse(s@),
    {
        if str_eq(s, "success") {
            WebhookDeliveryStatus::Success
        } else if str_eq(s, "skipped") {
            WebhookDeliveryStatus::Skipped
        } else {
            WebhookDeliveryStatus::Failed
        }
    }
}

/// Source-hosting provider that sends push webhooks.
#[derive(Clone, Copy, Debug, PartialEq, Eq, Structural)]
pub enum WebhookProvider {
    GitHub,
    GitLab,
}

impl WebhookProvider {
    pub open spec fn name(self) -> Seq<char> {
        match self {
            WebhookProvider::GitHub => "github"@,
            WebhookProvider::GitLab => "gitlab"@,
        }
    }

    /// Reads an already lower-cased name; anything but `gitlab` is GitHub.
    pub open spec fn parse_lower(s: Seq<char>) -> WebhookProvider {
        if s == "gitlab"@ {
            WebhookProvider::GitLab
        } else {
            WebhookProvider::GitHub
        }
    }

    pub fn as_str(&self) -> (r: &'static str)
        ensures
            r@ == self.name(),
    {
        match self {
            WebhookProvider::GitHub => "github",
            WebhookProvider::GitLab => "gitlab",
        }
    }

    /// The provider named by a lower-cased name.
    pub fn from_lowercase(s: &str) -> (r: WebhookProvider)
        ensures
            r == WebhookProvider::parse_lower(s@),
    {
        if str_eq(s, "gitlab") {
            WebhookProvider::GitLab
        } else {
            WebhookProvider::GitHub
        }
    }

    /// The provider named by `s`, in any letter case.
    pub fn from_str(s: &str) -> (r: WebhookProvider)
        ensures
            r == WebhookProvider::parse_lower(lower_of(s@)),
    {
        let l = lowercase(s);
        WebhookProvider::from_lowercase(l.as_str())
    }
}

/// Branch an application follows when none is given.
pub fn default_branch() -> (r: String)
    ensures
        r@ == "main"@,
{
    String::from_str("main")
}

/// A user-declared service with one source and one build recipe.
#[derive(Clone, Debug)]
pub struct Application {
    pub id: String,
    pub name: String,
    pub server_id: String,
    pub git_url: Option<String>,
    pub git_branch: String,
    pub build_strategy: BuildStrategy,
    pub dockerfile_path: Option<String>,
    pub port: Option<u16>,
    pub status: AppStatus,
    pub auto_deploy: bool,
    pub created_at: i64,
    pub updated_at: i64,
}

/// An environment variable of an application; the value is sealed.
#[derive(Clone, Debug)]
pub struct EnvironmentVariable {
    pub id: String,
    pub application_id: String,
    pub key: String,
    pub value_encrypted: String,
    pub created_at: i64,
}

/// The key pair an application clones its private repository with; the
/// private half is sealed.
#[derive(Clone, Debug)]
pub struct DeployKey {
    pub id: String,
    pub application_id: String,
    pub public_key: String,
    pub private_key_encrypted: String,
    pub created_at: i64,
}

/// A host that runs containers.
#[derive(Clone, Debug)]
pub struct Server {
    pub id: String,
    pub name: String,
    pub host: String,
    pub port: u16,
    pub username: String,
    pub ssh_key_encrypted: Option<String>,
    pub is_local: bool,
    pub status: ServerStatus,
    pub last_seen_at: Option<i64>,
    pub created_at: i64,
    pub updated_at: i64,
}

/// A host name routed to an application.
#[derive(Clone, Debug)]
pub struct Domain {
    pub id: String,
    pub application_id: String,
    pub domain: String,
    pub is_primary: bool,
    pub ssl_active: bool,
    pub created_at: i64,
}

/// The push webhook of an application.
#[derive(Clone, Debug)]
pub struct Webhook {
    pub id: String,
    pub application_id: String,
    pub provider: WebhookProvider,
    pub secret: String,
    pub enabled: bool,
    pub created_at: i64,
    pub updated_at: i64,
}

/// The audit record of one received webhook.
#[derive(Clone, Debug)]
pub struct WebhookDelivery {
    pub id: String,
    pub webhook_id: String,
    pub application_id: String,
    pub provider: WebhookProvider,
    pub event_type: String,
    pub branch: Option<String>,
    pub commit_sha: Option<String>,
    pub commit_message: Option<String>,
    pub author: Option<String>,
    pub status: WebhookDeliveryStatus,
    pub response_code: Option<i32>,
    pub error_message: Option<String>,
    pub deployment_id: Option<String>,
    pub delivered_at: i64,
}

/// Health-probe configuration of an application.
#[derive(Clone, Debug)]
pub struct HealthCheck {
    pub id: String,
    pub application_id: String,
    pub path: String,
    pub interval_seconds: i32,
    pub timeout_seconds: i32,
    pub healthy_threshold: i32,
    pub unhealthy_threshold: i32,
    pub created_at: i64,
}

impl HealthCheck {
    /// All intervals and thresholds are at least one.
    pub open spec fn wf(&self) -> bool {
        self.interval_seconds >= 1 && self.timeout_seconds >= 1 && self.healthy_threshold >= 1
            && self.unhealthy_threshold >= 1
    }
}

impl Default for HealthCheck {
    /// Probe `/` every 30 s with a 5 s deadline; two healthy or three
    /// unhealthy results in a row change the regime.
    fn default() -> (r: HealthCheck)
        ensures
            r.path@ == "/"@,
            r.interval_seconds == 30,
            r.timeout_seconds == 5,
            r.healthy_threshold == 2,
            r.unhealthy_threshold == 3,
            r.id@.len() == 0,
            r.application_id@.len() == 0,
            r.wf(),
    {
        HealthCheck {
            id: String::new(),
            application_id: String::new(),
            path: String::from_str("/"),
            interval_seconds: 30,
            timeout_seconds: 5,
            healthy_threshold: 2,
            unhealthy_threshold: 3,
            created_at: 0,
        }
    }
}

/// One recorded health probe.
#[derive(Clone, Debug)]
pub struct HealthCheckResult {
    pub id: String,
    pub application_id: String,
    pub container_id: String,
    pub status: HealthCheckStatus,
    pub response_time_ms: Option<i32>,
    pub status_code: Option<i32>,
    pub error_message: Option<String>,
    pub checked_at: i64,
}

/// An event on the process-wide bus.
///
/// Container statistics travel in fixed point: hundredths of a percent of
/// one CPU and kibibytes of memory.
#[derive(Clone, Debug)]
pub enum WsEvent {
    DeploymentStatus { deployment_id: String, app_id: String, status: DeploymentStatus },
    DeploymentLog { deployment_id: String, line: String },
    ContainerStats { container_id: String, cpu_centipercent: u64, memory_kib: u64 },
    ServerHealth { server_id: String, status: ServerStatus },
    AppHealth { app_id: String, status: HealthCheckStatus },
}

} // verus!
