use ployer::config::AppConfig;
use ployer::docker::{default_driver, default_tail, first_host_port, PortInfo};
use ployer::error::PloyerError;
use ployer::git::{deploy_key_from_parts, openssh_public_key, GitService};
use DeploymentStatus::{Building, Cancelled, Cloning, Deploying, Failed, Queued, RolledBack, Running};
use ployer::models::{
    default_branch, AppStatus, BuildStrategy, DeploymentStatus, HealthCheckStatus, ServerStatus,
    WebhookDeliveryStatus, WebhookProvider,
};

#[test]
fn deployment_status_names_round_trip() {
    for s in [Queued, Cloning, Building, Deploying, Running, Failed, Cancelled, RolledBack] {
        assert_eq!(DeploymentStatus::from_str(s.as_str()), s);
    }
    assert_eq!(RolledBack.as_str(), "rolled_back");
    assert_eq!(DeploymentStatus::from_str("bogus"), Queued);
    assert!(Running.is_terminal() && RolledBack.is_terminal() && Failed.is_terminal() && Cancelled.is_terminal());
    assert!(!Queued.is_terminal() && !Deploying.is_terminal());
}

#[test]
fn other_status_names() {
    for s in [AppStatus::Idle, AppStatus::Building, AppStatus::Running, AppStatus::Stopped, AppStatus::Failed] {
        assert_eq!(AppStatus::from_str(s.as_str()), s);
    }
    assert_eq!(AppStatus::from_str("?"), AppStatus::Idle);
    for s in [BuildStrategy::Dockerfile, BuildStrategy::Nixpacks, BuildStrategy::DockerCompose] {
        assert_eq!(BuildStrategy::from_str(s.as_str()), s);
    }
    assert_eq!(BuildStrategy::from_str("?"), BuildStrategy::Dockerfile);
    assert_eq!(BuildStrategy::default(), BuildStrategy::Dockerfile);
    for s in [HealthCheckStatus::Healthy, HealthCheckStatus::Unhealthy, HealthCheckStatus::Unknown] {
        assert_eq!(HealthCheckStatus::from_str(s.as_str()), s);
    }
    for s in [ServerStatus::Online, ServerStatus::Offline, ServerStatus::Unknown] {
        assert_eq!(ServerStatus::from_str(s.as_str()), s);
    }
    for s in [WebhookDeliveryStatus::Success, WebhookDeliveryStatus::Failed, WebhookDeliveryStatus::Skipped] {
        assert_eq!(WebhookDeliveryStatus::from_str(s.as_str()), s);
    }
    assert_eq!(WebhookDeliveryStatus::from_str("?"), WebhookDeliveryStatus::Failed);
}

#[test]
fn provider_names_ignore_case() {
    assert_eq!(WebhookProvider::from_str("GitLab"), WebhookProvider::GitLab);
    assert_eq!(WebhookProvider::from_str("GITHUB"), WebhookProvider::GitHub);
    assert_eq!(WebhookProvider::from_str("other"), WebhookProvider::GitHub);
    assert_eq!(WebhookProvider::GitLab.as_str(), "gitlab");
    assert_eq!(WebhookProvider::from_lowercase("gitlab"), WebhookProvider::GitLab);
}

#[test]
fn defaults() {
    assert_eq!(default_branch(), "main");
    assert_eq!(default_tail(), 100);
    assert_eq!(default_driver(), "bridge");
    let cfg = AppConfig::default();
    assert_eq!(cfg.server.port, 3001);
    assert_eq!(cfg.server.public_url, "http://localhost:3001");
    assert_eq!(cfg.auth.token_expiry_hours, 24);
    let _ = GitService::new();
}

#[test]
fn error_codes_and_messages() {
    assert_eq!(PloyerError::NotFound("app".to_string()).status_code(), 404);
    assert_eq!(PloyerError::Unauthorized("x".to_string()).status_code(), 401);
    assert_eq!(PloyerError::BadRequest("x".to_string()).status_code(), 400);
    assert_eq!(PloyerError::Docker("x".to_string()).status_code(), 503);
    assert_eq!(PloyerError::Database("x".to_string()).status_code(), 500);
    assert_eq!(PloyerError::NotFound("app".to_string()).message(), "Not found: app");
    assert_eq!(PloyerError::Ssh("down".to_string()).message(), "SSH error: down");
}

#[test]
fn first_exposed_port() {
    let ports = vec![
        PortInfo { container_port: 80, host_port: None, protocol: "tcp".to_string() },
        PortInfo { container_port: 8080, host_port: Some(32768), protocol: "tcp".to_string() },
    ];
    assert_eq!(first_host_port(&ports), Some(32768));
    assert_eq!(first_host_port(&vec![]), None);
}

#[test]
fn openssh_line_of_a_known_key() {
    assert_eq!(
        openssh_public_key(&[1, 0, 1], &[0xc0, 0x01]),
        "ssh-rsa AAAAB3NzaC1yc2EAAAADAQABAAAAAwDAAQ== ployer-deploy-key"
    );
    assert_eq!(openssh_public_key(&[0x7f], &[]), "ssh-rsa AAAAB3NzaC1yc2EAAAABfwAAAAA= ployer-deploy-key");
}

#[test]
fn deploy_key_from_known_parts() {
    let (public, pem) = deploy_key_from_parts(&[1, 0, 1], &[0xc0, 0x01], "PEM".to_string()).unwrap();
    assert_eq!(public, "ssh-rsa AAAAB3NzaC1yc2EAAAADAQABAAAAAwDAAQ== ployer-deploy-key");
    assert_eq!(pem, "PEM");
}
