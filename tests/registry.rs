use ployer::deployment::DeploymentRepository;
use ployer::executor::{cancel_deployment, trigger_deployment};
use ployer::models::{AppStatus, Application, BuildStrategy, DeploymentStatus, WebhookProvider, WsEvent};
use ployer::subscriptions::ConnectionManager;
use ployer::webhook::new_webhook_secret;
use ployer::webhooks::WebhookRepository;

fn app() -> Application {
    Application {
        id: "app1".to_string(),
        name: "web".to_string(),
        server_id: "srv".to_string(),
        git_url: Some("https://github.com/u/r.git".to_string()),
        git_branch: "main".to_string(),
        build_strategy: BuildStrategy::Nixpacks,
        dockerfile_path: None,
        port: None,
        status: AppStatus::Idle,
        auto_deploy: true,
        created_at: 0,
        updated_at: 0,
    }
}

#[test]
fn trigger_creates_a_queued_row() {
    let mut repo = DeploymentRepository::new();
    let i = trigger_deployment(&mut repo, &app(), 77).unwrap();
    let row = &repo.rows[i];
    assert_eq!(row.status, DeploymentStatus::Queued);
    assert_eq!(row.started_at, 77);
    assert_eq!(row.finished_at, None);
    assert_eq!(row.application_id, "app1");
    assert!(row.image_tag.starts_with("ployer-web:"));
    let j = trigger_deployment(&mut repo, &app(), 78).unwrap();
    assert_ne!(repo.rows[i].image_tag, repo.rows[j].image_tag);
    assert_ne!(repo.rows[i].id, repo.rows[j].id);
}

#[test]
fn cancelling_announces_the_change() {
    let mut repo = DeploymentRepository::new();
    let i = trigger_deployment(&mut repo, &app(), 1).unwrap();
    let id = repo.rows[i].id.clone();
    let (changed, event) = cancel_deployment(&mut repo, &id, 2);
    assert!(changed);
    match event {
        Some(WsEvent::DeploymentStatus { deployment_id, app_id, status }) => {
            assert_eq!(deployment_id, id);
            assert_eq!(app_id, "app1");
            assert_eq!(status, DeploymentStatus::Cancelled);
        }
        other => panic!("unexpected {:?}", other),
    }
    let (again, none) = cancel_deployment(&mut repo, &id, 3);
    assert!(!again);
    assert!(none.is_none());
}

#[test]
fn subscriptions_follow_subscribe_and_cleanup() {
    let mut m = ConnectionManager::new();
    m.subscribe("c1", "deployments");
    m.subscribe("c1", "deployments");
    m.subscribe("c1", "servers");
    m.subscribe("c2", "deployments");
    assert_eq!(m.entries.len(), 3);
    assert!(m.is_subscribed("c1", "servers"));
    m.unsubscribe("c1", "deployments");
    assert!(!m.is_subscribed("c1", "deployments"));
    assert!(m.is_subscribed("c2", "deployments"));
    m.cleanup("c1");
    assert!(!m.is_subscribed("c1", "servers"));
    assert!(m.is_subscribed("c2", "deployments"));
    assert_eq!(m.entries.len(), 1);
}

#[test]
fn one_webhook_per_application() {
    let mut repo = WebhookRepository::new();
    let first_secret = new_webhook_secret();
    let i = repo.configure("app1".to_string(), WebhookProvider::GitHub, first_secret.clone(), 1);
    assert!(repo.hooks[i].enabled);
    let second_secret = new_webhook_secret();
    let j = repo.configure("app1".to_string(), WebhookProvider::GitLab, second_secret.clone(), 2);
    assert_eq!(i, j);
    assert_eq!(repo.hooks.len(), 1);
    assert_eq!(repo.hooks[i].secret, second_secret);
    assert_eq!(repo.hooks[i].provider, WebhookProvider::GitHub);
    assert!(repo.set_enabled("app1", false, 3));
    assert!(!repo.hooks[i].enabled);
    assert!(!repo.set_enabled("other", true, 3));
    assert!(repo.delete("app1"));
    assert_eq!(repo.find_by_application("app1"), None);
}
