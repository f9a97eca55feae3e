use ployer::deploy_keys::DeployKeyRepository;
use ployer::domains::DomainRepository;
use ployer::error::PloyerError;
use ployer::health_checks::HealthCheckRepository;
use ployer::models::HealthCheck;
use ployer::servers::ServerRepository;
use ployer::stats::{retention_cutoff, ContainerStatsRepository, ContainerStatsSample, RETENTION_HOURS};
use ployer::applications::{dns_label, ApplicationRepository};
use ployer::crypto::decrypt;
use ployer::env_vars::EnvVarRepository;
use ployer::models::{AppStatus, BuildStrategy};

fn primaries(repo: &DomainRepository, app: &str) -> Vec<String> {
    repo.rows.iter().filter(|d| d.application_id == app && d.is_primary).map(|d| d.domain.clone()).collect()
}

#[test]
fn one_primary_domain_per_application() {
    let mut repo = DomainRepository::new();
    let a = repo.create("app".to_string(), "a.example.com".to_string(), true, 1).unwrap();
    let b = repo.create("app".to_string(), "b.example.com".to_string(), false, 2).unwrap();
    repo.create("other".to_string(), "c.example.com".to_string(), true, 3).unwrap();
    assert_eq!(primaries(&repo, "app"), vec!["a.example.com".to_string()]);
    let b_id = repo.rows[b].id.clone();
    repo.set_primary(&b_id).unwrap();
    assert_eq!(primaries(&repo, "app"), vec!["b.example.com".to_string()]);
    assert_eq!(primaries(&repo, "other"), vec!["c.example.com".to_string()]);
    assert!(!repo.rows[a].is_primary);
    repo.create("app".to_string(), "d.example.com".to_string(), true, 4).unwrap();
    assert_eq!(primaries(&repo, "app"), vec!["d.example.com".to_string()]);
}

#[test]
fn set_primary_is_idempotent() {
    let mut repo = DomainRepository::new();
    repo.create("app".to_string(), "a.example.com".to_string(), true, 1).unwrap();
    let b = repo.create("app".to_string(), "b.example.com".to_string(), false, 2).unwrap();
    let id = repo.rows[b].id.clone();
    repo.set_primary(&id).unwrap();
    let once: Vec<(String, bool)> = repo.rows.iter().map(|d| (d.domain.clone(), d.is_primary)).collect();
    repo.set_primary(&id).unwrap();
    let twice: Vec<(String, bool)> = repo.rows.iter().map(|d| (d.domain.clone(), d.is_primary)).collect();
    assert_eq!(once, twice);
}

#[test]
fn domain_names_are_unique() {
    let mut repo = DomainRepository::new();
    repo.create("app".to_string(), "a.example.com".to_string(), false, 1).unwrap();
    let e = repo.create("other".to_string(), "a.example.com".to_string(), false, 2).unwrap_err();
    assert!(matches!(e, PloyerError::Conflict(_)));
    assert_eq!(e.status_code(), 409);
    assert!(matches!(repo.set_primary("missing"), Err(PloyerError::NotFound(_))));
    assert_eq!(repo.find_by_domain("a.example.com"), Some(0));
    let id = repo.rows[0].id.clone();
    assert!(repo.delete(&id));
    assert_eq!(repo.find_by_domain("a.example.com"), None);
}

#[test]
fn health_check_upsert_keeps_one_row_per_application() {
    let mut repo = HealthCheckRepository::new();
    let i = repo.upsert("app".to_string(), "/".to_string(), 30, 5, 2, 3, 1).unwrap();
    let j = repo.upsert("app".to_string(), "/health".to_string(), 10, 2, 1, 4, 2).unwrap();
    assert_eq!(i, j);
    assert_eq!(repo.rows.len(), 1);
    assert_eq!(repo.rows[0].path, "/health");
    assert_eq!(repo.rows[0].unhealthy_threshold, 4);
    repo.upsert("other".to_string(), "/".to_string(), 30, 5, 2, 3, 3).unwrap();
    assert_eq!(repo.rows.len(), 2);
    assert_eq!(repo.get("other"), Some(1));
    let e = repo.upsert("app".to_string(), "/".to_string(), 30, 5, 2, 0, 4).unwrap_err();
    assert!(matches!(e, PloyerError::BadRequest(_)));
    assert!(repo.delete("app"));
    assert_eq!(repo.get("app"), None);
    assert!(!repo.delete("app"));
}

#[test]
fn health_check_defaults() {
    let h = HealthCheck::default();
    assert_eq!(h.path, "/");
    assert_eq!((h.interval_seconds, h.timeout_seconds, h.healthy_threshold, h.unhealthy_threshold), (30, 5, 2, 3));
}

#[test]
fn one_deploy_key_per_application() {
    let mut repo = DeployKeyRepository::new();
    repo.create("app".to_string(), "ssh-rsa A".to_string(), "sealed".to_string(), 1).unwrap();
    let e = repo.create("app".to_string(), "ssh-rsa B".to_string(), "sealed2".to_string(), 2).unwrap_err();
    assert!(matches!(e, PloyerError::Conflict(_)));
    assert_eq!(repo.rows.len(), 1);
    assert_eq!(repo.find_by_application("app"), Some(0));
    assert!(repo.delete("app"));
    assert!(repo.create("app".to_string(), "ssh-rsa C".to_string(), "sealed-c".to_string(), 3).is_ok());
}

#[test]
fn one_local_server_and_nonzero_ports() {
    let mut repo = ServerRepository::new();
    let l = repo.create("local".to_string(), "localhost".to_string(), 22, "root".to_string(), None, true, 1).unwrap();
    assert!(repo.rows[l].is_local);
    let e = repo.create("again".to_string(), "localhost".to_string(), 22, "root".to_string(), None, true, 2).unwrap_err();
    assert!(matches!(e, PloyerError::Conflict(_)));
    let z = repo.create("zero".to_string(), "h".to_string(), 0, "root".to_string(), None, false, 3).unwrap_err();
    assert!(matches!(z, PloyerError::BadRequest(_)));
    let r = repo.create("remote".to_string(), "10.0.0.2".to_string(), 2222, "deploy".to_string(), None, false, 4).unwrap();
    assert_eq!(repo.find_local(), Some(l));
    let id = repo.rows[r].id.clone();
    assert_eq!(repo.find_by_id(&id), Some(r));
    let lid = repo.rows[l].id.clone();
    assert!(repo.delete(&lid));
    assert_eq!(repo.find_local(), None);
}

#[test]
fn application_names_are_unique_dns_labels() {
    let mut repo = ApplicationRepository::new();
    let mk = |repo: &mut ApplicationRepository, name: &str, port: Option<u16>| {
        repo.create(name.to_string(), "srv".to_string(), None, "main".to_string(), BuildStrategy::Dockerfile, None, port, true, 1)
    };
    let i = mk(&mut repo, "web-app", Some(8080)).unwrap();
    assert_eq!(repo.rows[i].status, AppStatus::Idle);
    assert!(matches!(mk(&mut repo, "web-app", None), Err(PloyerError::Conflict(_))));
    assert!(matches!(mk(&mut repo, "-web", None), Err(PloyerError::BadRequest(_))));
    assert!(matches!(mk(&mut repo, "web_app", None), Err(PloyerError::BadRequest(_))));
    assert!(matches!(mk(&mut repo, "", None), Err(PloyerError::BadRequest(_))));
    assert!(matches!(mk(&mut repo, &"a".repeat(64), None), Err(PloyerError::BadRequest(_))));
    assert!(mk(&mut repo, &"a".repeat(63), None).is_ok());
    assert!(matches!(mk(&mut repo, "api", Some(0)), Err(PloyerError::BadRequest(_))));
    assert!(dns_label("a1-b2"));
    let id = repo.rows[i].id.clone();
    assert!(repo.update_status(&id, AppStatus::Running, 2));
    assert_eq!(repo.rows[i].status, AppStatus::Running);
    assert_eq!(repo.find_by_name("web-app"), Some(i));
    assert!(repo.delete(&id));
    assert_eq!(repo.find_by_name("web-app"), None);
}

#[test]
fn env_vars_are_sealed_and_unique_per_key() {
    let key = [2u8; 32];
    let mut repo = EnvVarRepository::new();
    let i = repo.create("app", "DATABASE_URL", "postgres://db", &key, 1).unwrap();
    assert_ne!(repo.rows[i].value_encrypted, "postgres://db");
    assert_eq!(decrypt(&repo.rows[i].value_encrypted, &key).unwrap(), "postgres://db");
    assert!(matches!(repo.create("app", "DATABASE_URL", "x", &key, 2), Err(PloyerError::Conflict(_))));
    assert!(matches!(repo.create("app", "BAD KEY", "x", &key, 2), Err(PloyerError::BadRequest(_))));
    assert!(repo.create("other", "DATABASE_URL", "y", &key, 3).is_ok());
    assert_eq!(repo.update("app", "DATABASE_URL", "postgres://new", &key).unwrap(), true);
    assert_eq!(decrypt(&repo.rows[i].value_encrypted, &key).unwrap(), "postgres://new");
    assert_eq!(repo.update("app", "MISSING", "v", &key).unwrap(), false);
    assert!(repo.delete("app", "DATABASE_URL"));
    assert_eq!(repo.find_by_application_and_key("app", "DATABASE_URL"), None);
    assert!(repo.find_by_application_and_key("other", "DATABASE_URL").is_some());
}

#[test]
fn domain_insert_with_id_reports_both_collisions() {
    let mut repo = DomainRepository::new();
    repo.insert_with_id("id1".to_string(), "app".to_string(), "a.example.com".to_string(), true, 1).unwrap();
    let dup_domain = repo.insert_with_id("id2".to_string(), "app".to_string(), "a.example.com".to_string(), false, 2);
    assert!(matches!(dup_domain, Err(PloyerError::Conflict(_))));
    let dup_id = repo.insert_with_id("id1".to_string(), "app".to_string(), "b.example.com".to_string(), false, 2);
    assert!(matches!(dup_id, Err(PloyerError::Internal(_))));
    assert_eq!(repo.rows.len(), 1);
}

#[test]
fn stats_older_than_the_retention_are_dropped() {
    let mut repo = ContainerStatsRepository::new();
    for (k, t) in [0i64, 3600, 90_000, 100_000].iter().enumerate() {
        repo.record(ContainerStatsSample {
            id: format!("x{}", k),
            container_id: "C".to_string(),
            application_id: None,
            cpu_centipercent: 150,
            memory_kib: 2048,
            memory_limit_kib: None,
            network_rx_kib: None,
            network_tx_kib: None,
            recorded_at: *t,
        });
    }
    assert_eq!(retention_cutoff(100_000, RETENTION_HOURS), 100_000 - 86_400);
    assert_eq!(retention_cutoff(i64::MIN + 5, 1), i64::MIN);
    assert_eq!(repo.cleanup_old_stats(100_000, RETENTION_HOURS), 2);
    let times: Vec<i64> = repo.rows.iter().map(|s| s.recorded_at).collect();
    assert_eq!(times, vec![90_000, 100_000]);
}
