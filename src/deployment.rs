//! Deployment rows and the table that holds them.
use vstd::prelude::*;
use crate::ids::new_id;
use crate::error::PloyerError;
use crate::models::DeploymentStatus;
use crate::text::str_eq;

verus! {

/// One attempt to turn a source revision into a running container.
#[derive(Clone, Debug)]
pub struct Deployment {
    pub id: String,
    pub application_id: String,
    pub server_id: String,
    pub commit_sha: Option<String>,
    pub commit_message: Option<String>,
    pub status: DeploymentStatus,
    pub build_log: Option<String>,
    pub container_id: Option<String>,
    pub image_tag: String,
    pub started_at: i64,
    pub finished_at: Option<i64>,
}

/// The log after `line` was appended to `log`, each line ending in a newline.
pub open spec fn appended_log(log: Option<String>, line: Seq<char>) -> Seq<char> {
    match log {
        Some(l) => l@ + line + seq!['\n'],
        None => line + seq!['\n'],
    }
}

impl Deployment {
    /// A row carries a finish time exactly when its status is one that ends
    /// (or has completed) the pipeline.
    pub open spec fn wf(&self) -> bool {
        self.finished_at.is_some() <==> self.status.is_finished()
    }

    /// Sets the status; the finish time becomes `now` when the new status is
    /// one of `running`, `failed`, `cancelled`, `rolled_back`, and is cleared
    /// otherwise.
    pub fn set_status(&mut self, status: DeploymentStatus, now: i64)
        ensures
            final(self).status == status,
            final(self).finished_at == (if status.is_finished() { Some(now) } else { None::<i64> }),
            final(self).id == old(self).id,
            final(self).application_id == old(self).application_id,
            final(self).container_id == old(self).container_id,
            final(self).started_at == old(self).started_at,
            final(self).build_log == old(self).build_log,
            *final(self) == (Deployment {
                status: final(self).status,
                finished_at: final(self).finished_at,
                ..*old(self)
            }),
            final(self).wf(),
    {
        self.status = status;
        if status.is_terminal() {
            self.finished_at = Some(now);
        } else {
            self.finished_at = None;
        }
    }

    /// Moves a deployment that has not yet finished to `cancelled`; returns
    /// whether the row changed.
    pub fn cancel(&mut self, now: i64) -> (changed: bool)
        requires
            old(self).wf(),
        ensures
            changed == !old(self).status.is_finished(),
            changed ==> final(self).status == DeploymentStatus::Cancelled
                && final(self).finished_at == Some(now),
            changed ==> *final(self) == (Deployment {
                status: DeploymentStatus::Cancelled,
                finished_at: Some(now),
                ..*old(self)
            }),
            !changed ==> *final(self) == *old(self),
            final(self).id == old(self).id,
            final(self).application_id == old(self).application_id,
            final(self).wf(),
    {
        if self.status.is_terminal() {
            false
        } else {
            self.status = DeploymentStatus::Cancelled;
            self.finished_at = Some(now);
            true
        }
    }

    /// Appends `line` and a newline to the build log.
    pub fn append_log(&mut self, line: &str)
        ensures
            final(self).build_log is Some,
            final(self).build_log.unwrap()@ == appended_log(old(self).build_log, line@),
            final(self).status == old(self).status,
            final(self).finished_at == old(self).finished_at,
            final(self).id == old(self).id,
            final(self).application_id == old(self).application_id,
            final(self).container_id == old(self).container_id,
            final(self).started_at == old(self).started_at,
            *final(self) == (Deployment { build_log: final(self).build_log, ..*old(self) }),
    {
        let mut log = match self.build_log.take() {
            Some(l) => l,
            None => String::new(),
        };
        log.append(line);
        log.append("\n");
        proof {
            reveal_strlit("\n");
        }
        self.build_log = Some(log);
    }
}

/// The deployment rows of the platform.
pub struct DeploymentRepository {
    pub rows: Vec<Deployment>,
}

impl DeploymentRepository {
    /// Every row obeys the finish-time rule.
    pub open spec fn wf(&self) -> bool {
        forall|i: int| 0 <= i < self.rows@.len() ==> (#[trigger] self.rows@[i]).wf()
    }

    pub open spec fn has_id(&self, i: int, id: Seq<char>) -> bool {
        0 <= i < self.rows@.len() && self.rows@[i].id@ == id
    }

    /// Row `i` is the first with identifier `id`.
    pub open spec fn is_first(&self, i: int, id: Seq<char>) -> bool {
        self.has_id(i, id) && forall|j: int| 0 <= j < i ==> !self.has_id(j, id)
    }

    /// Row `i` is a running deployment of application `app`.
    pub open spec fn running_of(&self, i: int, app: Seq<char>) -> bool {
        0 <= i < self.rows@.len() && self.rows@[i].application_id@ == app
            && self.rows@[i].status == DeploymentStatus::Running
    }

    pub fn new() -> (r: DeploymentRepository)
        ensures
            r.rows@.len() == 0,
            r.wf(),
    {
        DeploymentRepository { rows: Vec::new() }
    }

    /// Whether no row has identifier `id` or image tag `tag`.
    pub open spec fn is_fresh(&self, id: Seq<char>, tag: Seq<char>) -> bool {
        forall|j: int|
            0 <= j < self.rows@.len() ==> self.rows@[j].id@ != id && self.rows@[j].image_tag@ != tag
    }

    fn fresh(&self, id: &str, tag: &str) -> (r: bool)
        ensures
            r == self.is_fresh(id@, tag@),
    {
        let mut i: usize = 0;
        while i < self.rows.len()
            invariant
                0 <= i <= self.rows@.len(),
                forall|j: int|
                    0 <= j < i ==> self.rows@[j].id@ != id@ && self.rows@[j].image_tag@ != tag@,
            decreases self.rows@.len() - i,
        {
            if str_eq(self.rows[i].id.as_str(), id) || str_eq(self.rows[i].image_tag.as_str(), tag) {
                return false;
            }
            i = i + 1;
        }
        true
    }

    /// Records a new deployment in `queued` with identifier `id`. An
    /// identifier or image tag that a row already has is an internal error.
    pub fn insert_with_id(
        &mut self,
        id: String,
        application_id: String,
        server_id: String,
        commit_sha: Option<String>,
        commit_message: Option<String>,
        image_tag: String,
        now: i64,
    ) -> (r: Result<usize, PloyerError>)
        requires
            old(self).wf(),
        ensures
            final(self).wf(),
            r is Ok <==> old(self).is_fresh(id@, image_tag@),
            r matches Err(e) ==> e is Internal && *final(self) == *old(self),
            r matches Ok(idx) ==> idx == old(self).rows@.len() && final(self).rows@ == old(
                self,
            ).rows@.push(
                (Deployment {
                    id,
                    application_id,
                    server_id,
                    commit_sha,
                    commit_message,
                    status: DeploymentStatus::Queued,
                    build_log: None,
                    container_id: None,
                    image_tag,
                    started_at: now,
                    finished_at: None,
                }),
            ),
    {
        if !self.fresh(id.as_str(), image_tag.as_str()) {
            return Err(PloyerError::Internal(String::from_str("Deployment identifier or image tag already in use")));
        }
        let row = Deployment {
            id,
            application_id,
            server_id,
            commit_sha,
            commit_message,
            status: DeploymentStatus::Queued,
            build_log: None,
            container_id: None,
            image_tag,
            started_at: now,
            finished_at: None,
        };
        let idx = self.rows.len();
        self.rows.push(row);
        Ok(idx)
    }

    /// Records a new deployment in `queued` under a fresh identifier; see
    /// [`DeploymentRepository::insert_with_id`]. On an empty table it
    /// succeeds.
    pub fn create(
        &mut self,
        application_id: String,
        server_id: String,
        commit_sha: Option<String>,
        commit_message: Option<String>,
        image_tag: String,
        now: i64,
    ) -> (r: Result<usize, PloyerError>)
        requires
            old(self).wf(),
        ensures
            final(self).wf(),
            old(self).rows@.len() == 0 ==> r is Ok,
            r matches Err(e) ==> e is Internal && *final(self) == *old(self),
            r matches Ok(idx) ==> idx == old(self).rows@.len() && final(self).rows@ == old(
                self,
            ).rows@.push(final(self).rows@[idx as int]) && old(self).is_fresh(
                final(self).rows@[idx as int].id@,
                image_tag@,
            ) && final(self).rows@[idx as int] == (Deployment {
                id: final(self).rows@[idx as int].id,
                application_id,
                server_id,
                commit_sha,
                commit_message,
                status: DeploymentStatus::Queued,
                build_log: None,
                container_id: None,
                image_tag,
                started_at: now,
                finished_at: None,
            }),
    {
        let id = new_id();
        let ghost tag = image_tag;
        let r = self.insert_with_id(id, application_id, server_id, commit_sha, commit_message, image_tag, now);
        proof {
            if r is Ok {
                assert(self.rows@[old(self).rows@.len() as int].id@ == id@);
            }
        }
        r
    }

    /// Position of the first row with identifier `id`.
    pub fn position(&self, id: &str) -> (r: Option<usize>)
        ensures
            r matches Some(i) ==> self.has_id(i as int, id@)
                && forall|j: int| 0 <= j < i ==> !self.has_id(j, id@),
            r is None ==> forall|j: int| !self.has_id(j, id@),
    {
        let mut i: usize = 0;
        while i < self.rows.len()
            invariant
                0 <= i <= self.rows@.len(),
                forall|j: int| 0 <= j < i ==> !self.has_id(j, id@),
            decreases self.rows@.len() - i,
        {
            if str_eq(self.rows[i].id.as_str(), id) {
                return Some(i);
            }
            i = i + 1;
        }
        None
    }

    pub fn find_by_id(&self, id: &str) -> (r: Option<&Deployment>)
        ensures
            r matches Some(d) ==> exists|i: int| self.has_id(i, id@) && self.rows@[i] == *d,
            r is None ==> forall|j: int| !self.has_id(j, id@),
    {
        match self.position(id) {
            Some(i) => Some(&self.rows[i]),
            None => None,
        }
    }

    /// Sets the status of the first row with identifier `id`, with the
    /// finish-time rule of [`Deployment::set_status`]; returns whether such a
    /// row exists.
    pub fn update_status(&mut self, id: &str, status: DeploymentStatus, now: i64) -> (found: bool)
        requires
            old(self).wf(),
        ensures
            final(self).wf(),
            found == exists|j: int| old(self).has_id(j, id@),
            !found ==> *final(self) == *old(self),
            found ==> exists|i: int|
                old(self).is_first(i, id@) && final(self).rows@ == old(self).rows@.update(
                    i,
                    final(self).rows@[i],
                ) && final(self).rows@[i].status == status && final(self).rows@[i].finished_at == (
                if status.is_finished() {
                    Some(now)
                } else {
                    None::<i64>
                }) && final(self).rows@[i].id == old(self).rows@[i].id
                    && final(self).rows@[i].application_id == old(self).rows@[i].application_id
                    && final(self).rows@[i].container_id == old(self).rows@[i].container_id
                    && final(self).rows@[i] == (Deployment {
                    status: final(self).rows@[i].status,
                    finished_at: final(self).rows@[i].finished_at,
                    ..old(self).rows@[i]
                }),
    {
        match self.position(id) {
            Some(i) => {
                let mut row = self.rows.remove(i);
                row.set_status(status, now);
                self.rows.insert(i, row);
                assert(self.rows@ =~= old(self).rows@.update(i as int, row));
                assert(old(self).is_first(i as int, id@));
                assert(self.rows@[i as int] == row);
                true
            },
            None => false,
        }
    }

    /// Cancels the first row with identifier `id` if it has not finished;
    /// returns whether a row changed.
    pub fn cancel(&mut self, id: &str, now: i64) -> (changed: bool)
        requires
            old(self).wf(),
        ensures
            final(self).wf(),
            !changed ==> *final(self) == *old(self),
            changed <==> exists|i: int|
                old(self).is_first(i, id@) && !old(self).rows@[i].status.is_finished(),
            changed ==> exists|i: int|
                old(self).is_first(i, id@) && final(self).rows@ == old(self).rows@.update(
                    i,
                    final(self).rows@[i],
                ) && final(self).rows@[i].status == DeploymentStatus::Cancelled
                    && final(self).rows@[i].finished_at == Some(now)
                    && final(self).rows@[i].id == old(self).rows@[i].id
                    && final(self).rows@[i].application_id == old(self).rows@[i].application_id
                    && final(self).rows@[i] == (Deployment {
                    status: DeploymentStatus::Cancelled,
                    finished_at: Some(now),
                    ..old(self).rows@[i]
                }),
    {
        match self.position(id) {
            Some(i) => {
                if self.rows[i].status.is_terminal() {
                    false
                } else {
                    let mut row = self.rows.remove(i);
                    let changed = row.cancel(now);
                    self.rows.insert(i, row);
                    assert(self.rows@ =~= old(self).rows@.update(i as int, row));
                assert(old(self).is_first(i as int, id@));
                assert(self.rows@[i as int] == row);
                    changed
                }
            },
            None => false,
        }
    }

    /// Appends `line` and a newline to the build log of the first row with
    /// identifier `id`; returns whether such a row exists.
    pub fn append_log(&mut self, id: &str, line: &str) -> (found: bool)
        requires
            old(self).wf(),
        ensures
            final(self).wf(),
            found == exists|j: int| old(self).has_id(j, id@),
            !found ==> *final(self) == *old(self),
            found ==> exists|i: int|
                old(self).is_first(i, id@) && final(self).rows@ == old(self).rows@.update(
                    i,
                    final(self).rows@[i],
                ) && final(self).rows@[i].build_log is Some
                    && final(self).rows@[i].build_log.unwrap()@ == appended_log(
                    old(self).rows@[i].build_log,
                    line@,
                ) && final(self).rows@[i] == (Deployment {
                    build_log: final(self).rows@[i].build_log,
                    ..old(self).rows@[i]
                }),
    {
        match self.position(id) {
            Some(i) => {
                let mut row = self.rows.remove(i);
                row.append_log(line);
                self.rows.insert(i, row);
                assert(self.rows@ =~= old(self).rows@.update(i as int, row));
                assert(old(self).is_first(i as int, id@));
                assert(self.rows@[i as int] == row);
                true
            },
            None => false,
        }
    }

    /// Records the container of the first row with identifier `id`; returns
    /// whether such a row exists.
    pub fn set_container_id(&mut self, id: &str, container_id: String) -> (found: bool)
        requires
            old(self).wf(),
        ensures
            final(self).wf(),
            found == exists|j: int| old(self).has_id(j, id@),
            !found ==> *final(self) == *old(self),
            found ==> exists|i: int|
                old(self).is_first(i, id@) && final(self).rows@ == old(self).rows@.update(
                    i,
                    final(self).rows@[i],
                ) && final(self).rows@[i] == (Deployment {
                    container_id: Some(container_id),
                    ..old(self).rows@[i]
                }),
    {
        match self.position(id) {
            Some(i) => {
                let mut row = self.rows.remove(i);
                row.container_id = Some(container_id);
                self.rows.insert(i, row);
                assert(self.rows@ =~= old(self).rows@.update(i as int, row));
                assert(old(self).is_first(i as int, id@));
                assert(self.rows@[i as int] == row);
                true
            },
            None => false,
        }
    }

    /// Records the head commit of the first row with identifier `id`;
    /// returns whether such a row exists.
    pub fn set_commit(&mut self, id: &str, sha: String, message: String) -> (found: bool)
        requires
            old(self).wf(),
        ensures
            final(self).wf(),
            found == exists|j: int| old(self).has_id(j, id@),
            !found ==> *final(self) == *old(self),
            found ==> exists|i: int|
                old(self).is_first(i, id@) && final(self).rows@ == old(self).rows@.update(
                    i,
                    final(self).rows@[i],
                ) && final(self).rows@[i] == (Deployment {
                    commit_sha: Some(sha),
                    commit_message: Some(message),
                    ..old(self).rows@[i]
                }),
    {
        match self.position(id) {
            Some(i) => {
                let row = self.rows.remove(i);
                let updated = Deployment { commit_sha: Some(sha), commit_message: Some(message), ..row };
                self.rows.insert(i, updated);
                assert(self.rows@ =~= old(self).rows@.update(i as int, updated));
                assert(old(self).is_first(i as int, id@));
                assert(self.rows@[i as int] == updated);
                true
            },
            None => false,
        }
    }

    /// The running deployment of application `app` that started last.
    pub fn get_latest_running(&self, app: &str) -> (r: Option<usize>)
        ensures
            r matches Some(i) ==> self.running_of(i as int, app@) && forall|j: int|
                self.running_of(j, app@) ==> self.rows@[j].started_at <= self.rows@[i as int].started_at,
            r is None ==> forall|j: int| !self.running_of(j, app@),
    {
        let mut best: Option<usize> = None;
        let mut i: usize = 0;
        while i < self.rows.len()
            invariant
                0 <= i <= self.rows@.len(),
                best matches Some(b) ==> b < i && self.running_of(b as int, app@) && forall|j: int|
                    0 <= j < i && self.running_of(j, app@) ==> self.rows@[j].started_at
                        <= self.rows@[b as int].started_at,
                best is None ==> forall|j: int| 0 <= j < i ==> !self.running_of(j, app@),
            decreases self.rows@.len() - i,
        {
            let row = &self.rows[i];
            if row.status == DeploymentStatus::Running && str_eq(row.application_id.as_str(), app) {
                match best {
                    Some(b) => {
                        if self.rows[b].started_at < row.started_at {
                            best = Some(i);
                        }
                    },
                    None => {
                        best = Some(i);
                    },
                }
            }
            i = i + 1;
        }
        best
    }
}

} // verus!
