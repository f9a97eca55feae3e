//! Decisions of the deployment executor: what each pipeline step is handed,
//! how the pipeline moves between states, and what the rolling swap retires.
//!
//! The caller performs the clone, build, container and proxy calls and hands
//! their outcomes back; the functions here decide what happens next.
use vstd::prelude::*;
use crate::crypto::{decrypt, unseal_spec, CryptoError};
use crate::deployment::{Deployment, DeploymentRepository};
use crate::docker::ContainerConfig;
use crate::error::PloyerError;
use crate::ids::new_id;
use crate::models::{Application, DeployKey, DeploymentStatus, EnvironmentVariable, WsEvent};
use crate::proxy::ReverseProxyConfig;
use crate::text::{concat3, decimal, push_decimal, str_eq};

verus! {

/// Why a deployment failed.
#[derive(Clone, Debug)]
pub enum DeployError {
    /// The application has no source repository.
    MissingSource,
    /// A sealed secret of the application could not be opened.
    Crypto(CryptoError),
    /// A step of the pipeline failed with this text.
    Step(String),
}

impl DeployError {
    pub open spec fn text(&self) -> Seq<char> {
        match self {
            DeployError::MissingSource => "Application has no git_url configured"@,
            DeployError::Crypto(_) => "decryption failed"@,
            DeployError::Step(s) => s@,
        }
    }

    /// The line written at the end of the build log. Crypto failures are
    /// redacted.
    pub fn message(&self) -> (r: String)
        ensures
            r@ == self.text(),
    {
        match self {
            DeployError::MissingSource => String::from_str("Application has no git_url configured"),
            DeployError::Crypto(_) => String::from_str("decryption failed"),
            DeployError::Step(s) => s.clone(),
        }
    }
}

/// `ployer-{name}:{unique}`.
pub open spec fn image_tag_of(app_name: Seq<char>, unique: Seq<char>) -> Seq<char> {
    "ployer-"@ + app_name + ":"@ + unique
}

pub fn image_tag(app_name: &str, unique: &str) -> (r: String)
    ensures
        r@ == image_tag_of(app_name@, unique@),
{
    let mut t = concat3("ployer-", app_name, ":");
    t.append(unique);
    t
}

/// A fresh image tag for a deployment attempt of application `app_name`.
pub fn new_image_tag(app_name: &str) -> (r: String)
    ensures
        exists|u: Seq<char>| u.len() == 36 && r@ == image_tag_of(app_name@, u),
{
    let u = new_id();
    image_tag(app_name, u.as_str())
}

/// The deployment-scoped workspace `{builds_root}/{deployment_id}`.
pub fn workspace_dir(builds_root: &str, deployment_id: &str) -> (r: String)
    ensures
        r@ == builds_root@ + "/"@ + deployment_id@,
{
    concat3(builds_root, "/", deployment_id)
}

/// The container name `{app_name}-{deployment_id}`.
pub fn container_name(app_name: &str, deployment_id: &str) -> (r: String)
    ensures
        r@ == app_name@ + "-"@ + deployment_id@,
{
    concat3(app_name, "-", deployment_id)
}

/// The public host name `{app_name}.{base_domain}`.
pub fn subdomain(app_name: &str, base_domain: &str) -> (r: String)
    ensures
        r@ == app_name@ + "."@ + base_domain@,
{
    concat3(app_name, ".", base_domain)
}

/// The proxy upstream `localhost:{port}`.
pub fn upstream(port: u16) -> (r: String)
    ensures
        r@ == "localhost:"@ + decimal(port as nat),
{
    let mut s = String::from_str("localhost:");
    push_decimal(&mut s, port as u64);
    s
}

/// Records a new deployment of `app` in `queued`, with a fresh image tag;
/// gives its position. The caller then drives it in the background. Its
/// identifier and image tag differ from those of every earlier row; on an
/// empty table it succeeds.
pub fn trigger_deployment(repo: &mut DeploymentRepository, app: &Application, now: i64) -> (r: Result<
    usize,
    PloyerError,
>)
    requires
        old(repo).wf(),
    ensures
        final(repo).wf(),
        old(repo).rows@.len() == 0 ==> r is Ok,
        r matches Err(e) ==> e is Internal && *final(repo) == *old(repo),
        r matches Ok(idx) ==> idx == old(repo).rows@.len() && final(repo).rows@ == old(
            repo,
        ).rows@.push(final(repo).rows@[idx as int]) && old(repo).is_fresh(
            final(repo).rows@[idx as int].id@,
            final(repo).rows@[idx as int].image_tag@,
        ) && final(repo).rows@[idx as int].status == DeploymentStatus::Queued
            && final(repo).rows@[idx as int].finished_at is None
            && final(repo).rows@[idx as int].started_at == now
            && final(repo).rows@[idx as int].application_id == app.id
            && final(repo).rows@[idx as int].server_id == app.server_id
            && final(repo).rows@[idx as int].build_log is None
            && final(repo).rows@[idx as int].container_id is None && exists|u: Seq<char>|
            u.len() == 36 && final(repo).rows@[idx as int].image_tag@ == image_tag_of(app.name@, u),
{
    let tag = new_image_tag(app.name.as_str());
    repo.create(app.id.clone(), app.server_id.clone(), None, None, tag, now)
}

/// Cancels deployment `id` if it has not finished; when it was cancelled,
/// also gives the status event to announce.
pub fn cancel_deployment(repo: &mut DeploymentRepository, id: &str, now: i64) -> (r: (
    bool,
    Option<WsEvent>,
))
    requires
        old(repo).wf(),
    ensures
        final(repo).wf(),
        r.0 <==> exists|i: int|
            old(repo).is_first(i, id@) && !old(repo).rows@[i].status.is_finished(),
        !r.0 ==> *final(repo) == *old(repo) && r.1 is None,
        r.0 ==> exists|i: int|
            old(repo).is_first(i, id@) && final(repo).rows@ == old(repo).rows@.update(
                i,
                final(repo).rows@[i],
            ) && final(repo).rows@[i] == (Deployment {
                status: DeploymentStatus::Cancelled,
                finished_at: Some(now),
                ..old(repo).rows@[i]
            }) && (r.1 matches Some(WsEvent::DeploymentStatus { deployment_id, app_id, status })
                && deployment_id@ == id@ && app_id == old(repo).rows@[i].application_id && status
                == DeploymentStatus::Cancelled),
{
    let changed = repo.cancel(id, now);
    if !changed {
        return (false, None);
    }
    match repo.position(id) {
        Some(i) => {
            proof {
                let k = choose|k: int|
                    old(repo).is_first(k, id@) && repo.rows@ == old(repo).rows@.update(
                        k,
                        repo.rows@[k],
                    ) && repo.rows@[k].status == DeploymentStatus::Cancelled
                        && repo.rows@[k].finished_at == Some(now)
                        && repo.rows@[k].id == old(repo).rows@[k].id
                        && repo.rows@[k].application_id == old(repo).rows@[k].application_id;
                assert(repo.has_id(k, id@));
                if (i as int) < k {
                    assert(repo.rows@[i as int] == old(repo).rows@[i as int]);
                    assert(old(repo).has_id(i as int, id@));
                }
                assert(i as int == k);
            }
            let event = WsEvent::DeploymentStatus {
                deployment_id: String::from_str(id),
                app_id: repo.rows[i].application_id.clone(),
                status: DeploymentStatus::Cancelled,
            };
            (true, Some(event))
        },
        None => {
            proof {
                let i = choose|i: int|
                    old(repo).is_first(i, id@) && final(repo).rows@ == old(repo).rows@.update(
                        i,
                        final(repo).rows@[i],
                    ) && final(repo).rows@[i].status == DeploymentStatus::Cancelled
                        && final(repo).rows@[i].finished_at == Some(now)
                        && final(repo).rows@[i].id == old(repo).rows@[i].id
                        && final(repo).rows@[i].application_id == old(repo).rows@[i].application_id;
                assert(repo.has_id(i, id@));
            }
            (true, None)
        },
    }
}

/// What the clone step is handed.
#[derive(Clone, Debug)]
pub struct ClonePlan {
    pub url: String,
    pub branch: String,
    pub dest: String,
    pub private_key: Option<String>,
}

/// Plans the clone: the application's repository and branch into the
/// deployment's workspace, with the unsealed deploy key if there is one.
pub fn plan_clone(
    app: &Application,
    deploy_key: Option<&DeployKey>,
    key: &[u8; 32],
    builds_root: &str,
    deployment_id: &str,
) -> (r: Result<ClonePlan, DeployError>)
    ensures
        app.git_url is None ==> r matches Err(DeployError::MissingSource),
        app.git_url is Some && deploy_key is None ==> r is Ok,
        app.git_url is Some ==> (deploy_key matches Some(k) ==> (r is Ok <==> unseal_spec(
            k.private_key_encrypted@,
            key@,
        ) is Ok)),
        r matches Err(DeployError::Crypto(e)) ==> deploy_key matches Some(k) && unseal_spec(
            k.private_key_encrypted@,
            key@,
        ) == Err::<Seq<char>, CryptoError>(e),
        r matches Ok(p) ==> p.url == app.git_url.unwrap() && p.branch == app.git_branch && p.dest@
            == builds_root@ + "/"@ + deployment_id@,
        r matches Ok(p) ==> (deploy_key is None ==> p.private_key is None),
        r matches Ok(p) ==> (deploy_key matches Some(k) ==> p.private_key is Some && unseal_spec(
            k.private_key_encrypted@,
            key@,
        ) == Ok::<Seq<char>, CryptoError>(p.private_key.unwrap()@)),
{
    let url = match &app.git_url {
        Some(u) => u.clone(),
        None => {
            return Err(DeployError::MissingSource);
        },
    };
    let private_key = match deploy_key {
        Some(k) => match decrypt(k.private_key_encrypted.as_str(), key) {
            Ok(p) => Some(p),
            Err(e) => {
                return Err(DeployError::Crypto(e));
            },
        },
        None => None,
    };
    Ok(
        ClonePlan {
            url,
            branch: app.git_branch.clone(),
            dest: workspace_dir(builds_root, deployment_id),
            private_key,
        },
    )
}

/// The `KEY=value` entries of the application's environment, unsealed.
pub fn env_entries(vars: &Vec<EnvironmentVariable>, key: &[u8; 32]) -> (r: Result<
    Vec<String>,
    DeployError,
>)
    ensures
        r is Ok <==> forall|i: int|
            0 <= i < vars@.len() ==> (#[trigger] unseal_spec(vars@[i].value_encrypted@, key@)) is Ok,
        r matches Ok(v) ==> v@.len() == vars@.len() && forall|i: int|
            0 <= i < vars@.len() ==> #[trigger] v@[i]@ == vars@[i].key@ + "="@ + unseal_spec(
                vars@[i].value_encrypted@,
                key@,
            )->Ok_0,
        r matches Err(e) ==> e is Crypto,
{
    let mut out: Vec<String> = Vec::new();
    let mut i: usize = 0;
    while i < vars.len()
        invariant
            0 <= i <= vars@.len(),
            out@.len() == i,
            forall|j: int|
                0 <= j < i ==> (#[trigger] unseal_spec(vars@[j].value_encrypted@, key@)) is Ok,
            forall|j: int|
                0 <= j < i ==> #[trigger] out@[j]@ == vars@[j].key@ + "="@ + unseal_spec(
                    vars@[j].value_encrypted@,
                    key@,
                )->Ok_0,
        decreases vars@.len() - i,
    {
        let v = &vars[i];
        let value = match decrypt(v.value_encrypted.as_str(), key) {
            Ok(s) => s,
            Err(e) => {
                return Err(DeployError::Crypto(e));
            },
        };
        let entry = concat3(v.key.as_str(), "=", value.as_str());
        out.push(entry);
        i = i + 1;
    }
    Ok(out)
}

/// The container of a deployment: its image tag, the name
/// `{app}-{deployment}`, the environment, `{port}/tcp -> {port}` when the
/// application has a port, on the `bridge` network.
pub fn container_config(
    app: &Application,
    deployment_id: &str,
    image_tag: &str,
    env: Vec<String>,
) -> (r: ContainerConfig)
    ensures
        r.image@ == image_tag@,
        r.name matches Some(n) && n@ == app.name@ + "-"@ + deployment_id@,
        r.env == Some(env),
        app.port is None ==> r.ports is None,
        app.port matches Some(p) ==> r.ports matches Some(v) && v@.len() == 1 && v@[0].0@ == decimal(
            p as nat,
        ) + "/tcp"@ && v@[0].1@ == decimal(p as nat),
        r.volumes is None,
        r.network matches Some(n) && n@ == "bridge"@,
        r.cmd is None,
{
    let ports = match app.port {
        Some(p) => {
            let mut c = String::new();
            push_decimal(&mut c, p as u64);
            c.append("/tcp");
            let mut h = String::new();
            push_decimal(&mut h, p as u64);
            let mut v: Vec<(String, String)> = Vec::new();
            v.push((c, h));
            Some(v)
        },
        None => None,
    };
    ContainerConfig {
        image: String::from_str(image_tag),
        name: Some(container_name(app.name.as_str(), deployment_id)),
        env: Some(env),
        ports,
        volumes: None,
        network: Some(String::from_str("bridge")),
        cmd: None,
    }
}

/// The deployment the rolling swap retires: the application's latest running
/// deployment, when it has a container other than the new one. Gives its
/// identifier and container.
pub fn swap_target(new_container_id: &str, previous: Option<&Deployment>) -> (r: Option<
    (String, String),
>)
    ensures
        r is Some <==> (previous matches Some(d) && d.container_id matches Some(c) && c@
            != new_container_id@),
        r matches Some(t) ==> t.0 == previous.unwrap().id && Some(t.1)
            == previous.unwrap().container_id,
{
    match previous {
        Some(d) => match &d.container_id {
            Some(c) => {
                if str_eq(c.as_str(), new_container_id) {
                    None
                } else {
                    Some((d.id.clone(), c.clone()))
                }
            },
            None => None,
        },
        None => None,
    }
}

/// What the subdomain step does.
#[derive(Clone, Debug)]
pub struct DomainPlan {
    pub domain: String,
    /// Create the domain row, as primary.
    pub create_domain: bool,
    /// The proxy route to add.
    pub route: Option<ReverseProxyConfig>,
}

/// Plans the subdomain step: the row is created when none exists for
/// `{app}.{base_domain}`; a route to `localhost:{port}` with HTTPS is added
/// when a proxy is configured and the application has a port.
pub fn plan_domain(
    app: &Application,
    base_domain: &str,
    domain_exists: bool,
    proxy_configured: bool,
) -> (r: DomainPlan)
    ensures
        r.domain@ == app.name@ + "."@ + base_domain@,
        r.create_domain == !domain_exists,
        r.route is Some <==> proxy_configured && app.port is Some,
        r.route matches Some(rt) ==> rt.domain@ == r.domain@ && rt.upstream@ == "localhost:"@
            + decimal(app.port.unwrap() as nat) && rt.enable_https,
{
    let domain = subdomain(app.name.as_str(), base_domain);
    let route = if proxy_configured {
        match app.port {
            Some(p) => Some(
                ReverseProxyConfig { domain: domain.clone(), upstream: upstream(p), enable_https: true },
            ),
            None => None,
        }
    } else {
        None
    };
    DomainPlan { domain, create_domain: !domain_exists, route }
}

/// The next state along `queued -> cloning -> building -> deploying -> running`.
pub open spec fn successor(s: DeploymentStatus) -> Option<DeploymentStatus> {
    match s {
        DeploymentStatus::Queued => Some(DeploymentStatus::Cloning),
        DeploymentStatus::Cloning => Some(DeploymentStatus::Building),
        DeploymentStatus::Building => Some(DeploymentStatus::Deploying),
        DeploymentStatus::Deploying => Some(DeploymentStatus::Running),
        _ => None,
    }
}

/// Whether `to` may follow `from`: one step forward, or `failed` or
/// `cancelled` from a state that has not finished, or `rolled_back` from
/// `running`.
pub open spec fn can_follow(from: DeploymentStatus, to: DeploymentStatus) -> bool {
    match successor(from) {
        Some(n) => to == n || to == DeploymentStatus::Failed || to == DeploymentStatus::Cancelled,
        None => from == DeploymentStatus::Running && to == DeploymentStatus::RolledBack,
    }
}

/// Position of a state along the pipeline.
pub open spec fn stage_rank(s: DeploymentStatus) -> int {
    match s {
        DeploymentStatus::Queued => 0,
        DeploymentStatus::Cloning => 1,
        DeploymentStatus::Building => 2,
        DeploymentStatus::Deploying => 3,
        DeploymentStatus::Running => 4,
        DeploymentStatus::Failed => 5,
        DeploymentStatus::Cancelled => 5,
        DeploymentStatus::RolledBack => 6,
    }
}

/// Each state of the sequence may follow the one before it.
pub open spec fn is_chain(s: Seq<DeploymentStatus>) -> bool {
    forall|i: int| 0 <= i < s.len() - 1 ==> can_follow(#[trigger] s[i], s[i + 1])
}

/// A sequence of states in which each may follow the one before never goes
/// back: every later state stands strictly further along the pipeline, so
/// none repeats.
pub proof fn lemma_chain_never_regresses(s: Seq<DeploymentStatus>, i: int, j: int)
    requires
        is_chain(s),
        0 <= i < j < s.len(),
    ensures
        stage_rank(s[i]) < stage_rank(s[j]),
        s[i] != s[j],
    decreases j - i,
{
    assert(can_follow(s[j - 1], s[j]));
    if i < j - 1 {
        lemma_chain_never_regresses(s, i, j - 1);
    }
}

/// The outcome of the work of one pipeline step.
#[derive(Clone, Debug)]
pub enum StepOutcome {
    Succeeded,
    Errored(DeployError),
}

/// What the executor does at a state boundary.
#[derive(Clone, Debug)]
pub enum Directive {
    /// Persist this status and go on with its step.
    Advance(DeploymentStatus),
    /// The row was cancelled: stop without further work.
    Abort,
    /// Persist `failed` with this text as the last log line.
    Fail(String),
}

/// One deployment as the executor drives it, with the states it has
/// announced so far.
pub struct DeploymentRun {
    pub deployment_id: String,
    pub app_id: String,
    pub status: DeploymentStatus,
    pub history: Vec<DeploymentStatus>,
}

impl DeploymentRun {
    pub open spec fn wf(&self) -> bool {
        &&& self.history@.len() >= 1
        &&& self.history@[0] == DeploymentStatus::Queued
        &&& self.history@.last() == self.status
        &&& is_chain(self.history@)
    }

    /// A deployment just created in `queued`.
    pub fn new(deployment_id: String, app_id: String) -> (r: DeploymentRun)
        ensures
            r.wf(),
            r.status == DeploymentStatus::Queued,
            r.history@ == seq![DeploymentStatus::Queued],
            r.deployment_id == deployment_id,
            r.app_id == app_id,
    {
        let mut history: Vec<DeploymentStatus> = Vec::new();
        history.push(DeploymentStatus::Queued);
        DeploymentRun { deployment_id, app_id, status: DeploymentStatus::Queued, history }
    }

    /// Whether the run has more steps.
    pub fn in_progress(&self) -> (r: bool)
        ensures
            r == (successor(self.status) is Some),
    {
        match self.status {
            DeploymentStatus::Queued | DeploymentStatus::Cloning | DeploymentStatus::Building
            | DeploymentStatus::Deploying => true,
            _ => false,
        }
    }

    /// Crosses a state boundary. `persisted` is the row's status as stored
    /// now and `outcome` the result of the step just done. A cancelled row
    /// stops the run; otherwise an error fails it; otherwise it moves one
    /// state forward. The state reached is appended to the history.
    pub fn step(&mut self, persisted: DeploymentStatus, outcome: StepOutcome) -> (d: Directive)
        requires
            old(self).wf(),
            successor(old(self).status) is Some,
        ensures
            final(self).wf(),
            final(self).deployment_id == old(self).deployment_id,
            final(self).app_id == old(self).app_id,
            final(self).history@ == old(self).history@.push(final(self).status),
            persisted == DeploymentStatus::Cancelled ==> d is Abort && final(self).status
                == DeploymentStatus::Cancelled,
            persisted != DeploymentStatus::Cancelled ==> match outcome {
                StepOutcome::Errored(e) => (d matches Directive::Fail(m) && m@ == e.text())
                    && final(self).status == DeploymentStatus::Failed,
                StepOutcome::Succeeded => d == Directive::Advance(
                    successor(old(self).status).unwrap(),
                ) && final(self).status == successor(old(self).status).unwrap(),
            },
    {
        let next = if persisted == DeploymentStatus::Cancelled {
            DeploymentStatus::Cancelled
        } else {
            match &outcome {
                StepOutcome::Errored(_) => DeploymentStatus::Failed,
                StepOutcome::Succeeded => match self.status {
                    DeploymentStatus::Queued => DeploymentStatus::Cloning,
                    DeploymentStatus::Cloning => DeploymentStatus::Building,
                    DeploymentStatus::Building => DeploymentStatus::Deploying,
                    _ => DeploymentStatus::Running,
                },
            }
        };
        let ghost prev = self.history@;
        self.history.push(next);
        self.status = next;
        assert(is_chain(self.history@)) by {
            assert forall|i: int| 0 <= i < self.history@.len() - 1 implies can_follow(
                #[trigger] self.history@[i],
                self.history@[i + 1],
            ) by {
                if i < prev.len() - 1 {
                    assert(self.history@[i] == prev[i]);
                    assert(self.history@[i + 1] == prev[i + 1]);
                }
            }
        }
        if persisted == DeploymentStatus::Cancelled {
            Directive::Abort
        } else {
            match outcome {
                StepOutcome::Errored(e) => Directive::Fail(e.message()),
                StepOutcome::Succeeded => Directive::Advance(next),
            }
        }
    }

    /// The states a run announces never go back along the pipeline: each
    /// stands strictly further than every earlier one.
    pub proof fn lemma_history_moves_forward(&self, i: int, j: int)
        requires
            self.wf(),
            0 <= i < j < self.history@.len(),
        ensures
            stage_rank(self.history@[i]) < stage_rank(self.history@[j]),
            self.history@[i] != self.history@[j],
    {
        lemma_chain_never_regresses(self.history@, i, j);
    }

    /// The bus event announcing the run's current state.
    pub fn status_event(&self) -> (r: WsEvent)
        ensures
            r matches WsEvent::DeploymentStatus { deployment_id, app_id, status } && deployment_id
                == self.deployment_id && app_id == self.app_id && status == self.status,
    {
        WsEvent::DeploymentStatus {
            deployment_id: self.deployment_id.clone(),
            app_id: self.app_id.clone(),
            status: self.status,
        }
    }

    /// The bus event carrying one log line of the run.
    pub fn log_event(&self, line: String) -> (r: WsEvent)
        ensures
            r matches WsEvent::DeploymentLog { deployment_id, line: l } && deployment_id
                == self.deployment_id && l == line,
    {
        WsEvent::DeploymentLog { deployment_id: self.deployment_id.clone(), line }
    }
}

} // verus!
