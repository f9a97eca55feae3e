use ployer::crypto::encrypt;
use ployer::deployment::{Deployment, DeploymentRepository};
use ployer::executor::{
    container_config, container_name, env_entries, image_tag, new_image_tag, plan_clone, plan_domain,
    subdomain, swap_target, upstream, workspace_dir, DeployError, DeploymentRun, Directive, StepOutcome,
};
use ployer::models::{AppStatus, Application, BuildStrategy, DeployKey, DeploymentStatus, EnvironmentVariable, WsEvent};

fn app(port: Option<u16>, git: bool) -> Application {
    Application {
        id: "app1".to_string(),
        name: "web".to_string(),
        server_id: "srv".to_string(),
        git_url: if git { Some("https://github.com/u/r.git".to_string()) } else { None },
        git_branch: "main".to_string(),
        build_strategy: BuildStrategy::Dockerfile,
        dockerfile_path: None,
        port,
        status: AppStatus::Idle,
        auto_deploy: true,
        created_at: 0,
        updated_at: 0,
    }
}

fn finished_iff_terminal(d: &Deployment) -> bool {
    d.finished_at.is_some() == d.status.is_terminal()
}

#[test]
fn names_derived_from_the_application() {
    assert_eq!(image_tag("web", "u-1"), "ployer-web:u-1");
    assert_eq!(workspace_dir("/tmp/ployer-builds", "d1"), "/tmp/ployer-builds/d1");
    assert_eq!(container_name("web", "d1"), "web-d1");
    assert_eq!(subdomain("web", "example.com"), "web.example.com");
    assert_eq!(upstream(8080), "localhost:8080");
    assert_eq!(upstream(0), "localhost:0");
    assert_eq!(upstream(65535), "localhost:65535");
}

#[test]
fn image_tags_are_never_reused() {
    let a = new_image_tag("web");
    let b = new_image_tag("web");
    assert!(a.starts_with("ployer-web:"));
    assert_eq!(a.len(), "ployer-web:".len() + 36);
    assert_ne!(a, b);
}

#[test]
fn clone_needs_a_source() {
    let key = [9u8; 32];
    assert!(matches!(plan_clone(&app(None, false), None, &key, "/b", "d1"), Err(DeployError::MissingSource)));
    let plan = plan_clone(&app(None, true), None, &key, "/b", "d1").unwrap();
    assert_eq!(plan.url, "https://github.com/u/r.git");
    assert_eq!(plan.branch, "main");
    assert_eq!(plan.dest, "/b/d1");
    assert!(plan.private_key.is_none());
    assert_eq!(DeployError::MissingSource.message(), "Application has no git_url configured");
}

#[test]
fn clone_unseals_the_deploy_key() {
    let key = [9u8; 32];
    let dk = DeployKey {
        id: "k".to_string(),
        application_id: "app1".to_string(),
        public_key: "ssh-rsa AAA x".to_string(),
        private_key_encrypted: encrypt("PRIVATE", &key).unwrap(),
        created_at: 0,
    };
    let plan = plan_clone(&app(None, true), Some(&dk), &key, "/b", "d1").unwrap();
    assert_eq!(plan.private_key.as_deref(), Some("PRIVATE"));
    let err = plan_clone(&app(None, true), Some(&dk), &[1u8; 32], "/b", "d1").unwrap_err();
    assert!(matches!(err, DeployError::Crypto(_)));
    assert_eq!(err.message(), "decryption failed");
}

#[test]
fn env_is_unsealed_into_key_value_pairs() {
    let key = [4u8; 32];
    let vars = vec![
        EnvironmentVariable { id: "1".to_string(), application_id: "a".to_string(), key: "A".to_string(), value_encrypted: encrypt("1", &key).unwrap(), created_at: 0 },
        EnvironmentVariable { id: "2".to_string(), application_id: "a".to_string(), key: "B_C".to_string(), value_encrypted: encrypt("x=y", &key).unwrap(), created_at: 0 },
    ];
    assert_eq!(env_entries(&vars, &key).unwrap(), vec!["A=1".to_string(), "B_C=x=y".to_string()]);
    assert!(matches!(env_entries(&vars, &[5u8; 32]), Err(DeployError::Crypto(_))));
    assert!(env_entries(&Vec::new(), &key).unwrap().is_empty());
}

#[test]
fn container_spec_binds_the_port() {
    let c = container_config(&app(Some(3000), true), "d1", "ployer-web:t", vec!["A=1".to_string()]);
    assert_eq!(c.image, "ployer-web:t");
    assert_eq!(c.name.as_deref(), Some("web-d1"));
    assert_eq!(c.ports, Some(vec![("3000/tcp".to_string(), "3000".to_string())]));
    assert_eq!(c.network.as_deref(), Some("bridge"));
    assert_eq!(c.env, Some(vec!["A=1".to_string()]));
    let n = container_config(&app(None, true), "d1", "t", vec![]);
    assert!(n.ports.is_none());
}

#[test]
fn domain_plan_routes_when_proxy_and_port() {
    let p = plan_domain(&app(Some(8080), true), "example.com", false, true);
    assert_eq!(p.domain, "web.example.com");
    assert!(p.create_domain);
    let r = p.route.unwrap();
    assert_eq!(r.domain, "web.example.com");
    assert_eq!(r.upstream, "localhost:8080");
    assert!(r.enable_https);
    assert!(plan_domain(&app(Some(8080), true), "example.com", true, false).route.is_none());
    assert!(!plan_domain(&app(None, true), "example.com", true, true).create_domain);
    assert!(plan_domain(&app(None, true), "example.com", false, true).route.is_none());
}

#[test]
fn rolling_swap_retires_the_previous_running_deployment() {
    let mut repo = DeploymentRepository::new();
    let d1 = repo.create("app1".to_string(), "srv".to_string(), None, None, "ployer-web:1".to_string(), 10).unwrap();
    let d1_id = repo.rows[d1].id.clone();
    repo.set_container_id(&d1_id, "C1".to_string());
    repo.update_status(&d1_id, DeploymentStatus::Running, 20);

    let d2 = repo.create("app1".to_string(), "srv".to_string(), None, None, "ployer-web:2".to_string(), 30).unwrap();
    let d2_id = repo.rows[d2].id.clone();
    let mut run = DeploymentRun::new(d2_id.clone(), "app1".to_string());
    for _ in 0..3 {
        let persisted = repo.rows[d2].status;
        match run.step(persisted, StepOutcome::Succeeded) {
            Directive::Advance(s) => { repo.update_status(&d2_id, s, 40); }
            other => panic!("unexpected {:?}", other),
        }
    }
    assert_eq!(repo.rows[d2].status, DeploymentStatus::Deploying);
    repo.set_container_id(&d2_id, "C2".to_string());

    let prev = repo.get_latest_running("app1").map(|i| &repo.rows[i]);
    let (old_id, old_container) = swap_target("C2", prev).unwrap();
    assert_eq!(old_id, d1_id);
    assert_eq!(old_container, "C1");
    repo.update_status(&old_id, DeploymentStatus::RolledBack, 50);

    let persisted = repo.rows[d2].status;
    assert!(matches!(run.step(persisted, StepOutcome::Succeeded), Directive::Advance(DeploymentStatus::Running)));
    repo.update_status(&d2_id, DeploymentStatus::Running, 60);
    match run.status_event() {
        WsEvent::DeploymentStatus { deployment_id, app_id, status } => {
            assert_eq!(deployment_id, d2_id);
            assert_eq!(app_id, "app1");
            assert_eq!(status, DeploymentStatus::Running);
        }
        other => panic!("unexpected {:?}", other),
    }
    assert_eq!(repo.rows[d1].status, DeploymentStatus::RolledBack);
    assert_eq!(repo.rows[d2].status, DeploymentStatus::Running);
    assert_eq!(repo.rows[d1].finished_at, Some(50));
    assert_eq!(repo.rows[d2].finished_at, Some(60));
    assert!(repo.rows.iter().all(finished_iff_terminal));
}

#[test]
fn swap_skips_same_or_missing_container() {
    let mut repo = DeploymentRepository::new();
    let i = repo.create("a".to_string(), "s".to_string(), None, None, "t".to_string(), 1).unwrap();
    assert!(swap_target("C", Some(&repo.rows[i])).is_none());
    repo.rows[i].container_id = Some("C".to_string());
    assert!(swap_target("C", Some(&repo.rows[i])).is_none());
    assert!(swap_target("D", Some(&repo.rows[i])).is_some());
    assert!(swap_target("D", None).is_none());
}

#[test]
fn cancellation_race() {
    let mut repo = DeploymentRepository::new();
    let d = repo.create("app1".to_string(), "srv".to_string(), None, None, "t".to_string(), 1).unwrap();
    let id = repo.rows[d].id.clone();
    assert_eq!(repo.rows[d].status, DeploymentStatus::Queued);
    assert!(repo.cancel(&id, 2));
    assert_eq!(repo.rows[d].status, DeploymentStatus::Cancelled);
    assert_eq!(repo.rows[d].finished_at, Some(2));
    assert!(!repo.cancel(&id, 3));
    assert_eq!(repo.rows[d].finished_at, Some(2));

    let mut run = DeploymentRun::new(id.clone(), "app1".to_string());
    let directive = run.step(repo.rows[d].status, StepOutcome::Succeeded);
    assert!(matches!(directive, Directive::Abort));
    assert_eq!(run.status, DeploymentStatus::Cancelled);
    assert!(!run.in_progress());
    assert!(repo.rows[d].container_id.is_none());
}

#[test]
fn running_deployments_cannot_be_cancelled() {
    let mut repo = DeploymentRepository::new();
    let d = repo.create("a".to_string(), "s".to_string(), None, None, "t".to_string(), 1).unwrap();
    let id = repo.rows[d].id.clone();
    repo.update_status(&id, DeploymentStatus::Running, 5);
    assert!(!repo.cancel(&id, 6));
    assert_eq!(repo.rows[d].status, DeploymentStatus::Running);
    assert!(!repo.cancel("missing", 6));
}

#[test]
fn failure_is_recorded_with_the_error_text() {
    let mut repo = DeploymentRepository::new();
    let d = repo.create("a".to_string(), "s".to_string(), None, None, "t".to_string(), 1).unwrap();
    let id = repo.rows[d].id.clone();
    let mut run = DeploymentRun::new(id.clone(), "a".to_string());
    let dir = run.step(DeploymentStatus::Queued, StepOutcome::Errored(DeployError::MissingSource));
    match dir {
        Directive::Fail(msg) => {
            repo.update_status(&id, DeploymentStatus::Failed, 9);
            repo.append_log(&id, &msg);
        }
        other => panic!("unexpected {:?}", other),
    }
    assert_eq!(run.history, vec![DeploymentStatus::Queued, DeploymentStatus::Failed]);
    assert_eq!(repo.rows[d].build_log.as_deref(), Some("Application has no git_url configured\n"));
    assert_eq!(repo.rows[d].finished_at, Some(9));
}

#[test]
fn build_log_appends_lines() {
    let mut repo = DeploymentRepository::new();
    let d = repo.create("a".to_string(), "s".to_string(), None, None, "t".to_string(), 1).unwrap();
    let id = repo.rows[d].id.clone();
    assert!(repo.append_log(&id, "one"));
    assert!(repo.append_log(&id, "two"));
    assert_eq!(repo.rows[d].build_log.as_deref(), Some("one\ntwo\n"));
    assert!(!repo.append_log("nope", "x"));
}

#[test]
fn finish_time_set_exactly_for_terminal_states() {
    let mut repo = DeploymentRepository::new();
    let d = repo.create("a".to_string(), "s".to_string(), None, None, "t".to_string(), 1).unwrap();
    let id = repo.rows[d].id.clone();
    for (s, t) in [
        (DeploymentStatus::Cloning, 2),
        (DeploymentStatus::Building, 3),
        (DeploymentStatus::Deploying, 4),
        (DeploymentStatus::Running, 5),
        (DeploymentStatus::RolledBack, 6),
    ] {
        repo.update_status(&id, s, t);
        assert!(finished_iff_terminal(&repo.rows[d]));
    }
    assert_eq!(repo.rows[d].finished_at, Some(6));
    assert!(!repo.update_status("missing", DeploymentStatus::Failed, 7));
}

#[test]
fn pipeline_history_only_moves_forward() {
    let mut run = DeploymentRun::new("d".to_string(), "a".to_string());
    let mut persisted = DeploymentStatus::Queued;
    while run.in_progress() {
        match run.step(persisted, StepOutcome::Succeeded) {
            Directive::Advance(s) => persisted = s,
            other => panic!("unexpected {:?}", other),
        }
    }
    assert_eq!(
        run.history,
        vec![
            DeploymentStatus::Queued,
            DeploymentStatus::Cloning,
            DeploymentStatus::Building,
            DeploymentStatus::Deploying,
            DeploymentStatus::Running
        ]
    );
}

#[test]
fn latest_running_prefers_the_newest_start() {
    let mut repo = DeploymentRepository::new();
    let a = repo.create("app".to_string(), "s".to_string(), None, None, "t1".to_string(), 10).unwrap();
    let b = repo.create("app".to_string(), "s".to_string(), None, None, "t2".to_string(), 20).unwrap();
    let c = repo.create("other".to_string(), "s".to_string(), None, None, "t3".to_string(), 30).unwrap();
    for i in [a, b, c] {
        let id = repo.rows[i].id.clone();
        repo.update_status(&id, DeploymentStatus::Running, 40);
    }
    assert_eq!(repo.get_latest_running("app"), Some(b));
    assert_eq!(repo.get_latest_running("none"), None);
    let found = repo.find_by_id(&repo.rows[c].id.clone()).unwrap();
    assert_eq!(found.application_id, "other");
}

/// Two deployments of one application run side by side; each swap retires
/// whichever deployment was running at that instant.
#[test]
fn concurrent_deployments_are_not_serialised() {
    let mut repo = DeploymentRepository::new();
    let ids: Vec<String> = (0..3)
        .map(|k| {
            let i = repo.create("app1".to_string(), "srv".to_string(), None, None, format!("t{}", k), 10 + k).unwrap();
            repo.rows[i].id.clone()
        })
        .collect();
    repo.set_container_id(&ids[0], "C0".to_string());
    repo.update_status(&ids[0], DeploymentStatus::Running, 20);
    for (k, id) in ids.iter().enumerate().skip(1) {
        let container = format!("C{}", k);
        repo.set_container_id(id, container.clone());
        let prev = repo.get_latest_running("app1").map(|i| &repo.rows[i]);
        let (old, _) = swap_target(&container, prev).unwrap();
        assert_eq!(old, ids[k - 1]);
        repo.update_status(&old, DeploymentStatus::RolledBack, 30 + k as i64);
        repo.update_status(id, DeploymentStatus::Running, 30 + k as i64);
    }
    let statuses: Vec<DeploymentStatus> = repo.rows.iter().map(|d| d.status).collect();
    assert_eq!(statuses, vec![DeploymentStatus::RolledBack, DeploymentStatus::RolledBack, DeploymentStatus::Running]);
}

#[test]
fn deployment_ids_and_tags_are_fresh() {
    let mut repo = DeploymentRepository::new();
    repo.insert_with_id("d1".to_string(), "a".to_string(), "s".to_string(), None, None, "t1".to_string(), 1).unwrap();
    let same_id = repo.insert_with_id("d1".to_string(), "a".to_string(), "s".to_string(), None, None, "t2".to_string(), 2);
    assert!(matches!(same_id, Err(ployer::error::PloyerError::Internal(_))));
    let same_tag = repo.insert_with_id("d2".to_string(), "a".to_string(), "s".to_string(), None, None, "t1".to_string(), 2);
    assert!(same_tag.is_err());
    assert_eq!(repo.rows.len(), 1);
    assert!(repo.insert_with_id("d2".to_string(), "a".to_string(), "s".to_string(), None, None, "t2".to_string(), 3).is_ok());
}

#[test]
fn commit_is_recorded_on_the_row() {
    let mut repo = DeploymentRepository::new();
    let d = repo.create("a".to_string(), "s".to_string(), None, None, "t".to_string(), 1).unwrap();
    let id = repo.rows[d].id.clone();
    assert!(repo.set_commit(&id, "abc123".to_string(), "Fix bug".to_string()));
    assert_eq!(repo.rows[d].commit_sha.as_deref(), Some("abc123"));
    assert_eq!(repo.rows[d].commit_message.as_deref(), Some("Fix bug"));
    assert_eq!(repo.rows[d].status, DeploymentStatus::Queued);
    assert!(!repo.set_commit("missing", "x".to_string(), "y".to_string()));
}
