//! Applications: names are unique DNS labels, so that each names a
//! subdomain, and ports are nonzero.
use vstd::prelude::*;
use crate::error::PloyerError;
use crate::ids::new_id;
use crate::models::{AppStatus, Application, BuildStrategy};
use crate::text::str_eq;

verus! {

pub open spec fn is_label_char(c: char) -> bool {
    ('a' <= c <= 'z') || ('A' <= c <= 'Z') || ('0' <= c <= '9') || c == '-'
}

/// One to 63 letters, digits and hyphens, with no hyphen at either end.
pub open spec fn is_dns_label(s: Seq<char>) -> bool {
    1 <= s.len() <= 63 && (forall|i: int| 0 <= i < s.len() ==> is_label_char(#[trigger] s[i]))
        && s[0] != '-' && s[s.len() - 1] != '-'
}

/// Whether `name` can name an application.
pub fn dns_label(name: &str) -> (r: bool)
    ensures
        r == is_dns_label(name@),
{
    let n = name.unicode_len();
    if n < 1 || n > 63 {
        return false;
    }
    if name.get_char(0) == '-' || name.get_char(n - 1) == '-' {
        return false;
    }
    let mut i: usize = 0;
    while i < n
        invariant
            n == name@.len(),
            0 <= i <= n,
            forall|j: int| 0 <= j < i ==> is_label_char(#[trigger] name@[j]),
        decreases n - i,
    {
        let c = name.get_char(i);
        if !(('a' <= c && c <= 'z') || ('A' <= c && c <= 'Z') || ('0' <= c && c <= '9') || c == '-') {
            return false;
        }
        i = i + 1;
    }
    true
}

pub struct ApplicationRepository {
    pub rows: Vec<Application>,
}

impl ApplicationRepository {
    pub open spec fn wf(&self) -> bool {
        &&& forall|i: int, j: int|
            0 <= i < self.rows@.len() && 0 <= j < self.rows@.len() && i != j ==> self.rows@[i].name@
                != self.rows@[j].name@
        &&& forall|i: int|
            0 <= i < self.rows@.len() ==> is_dns_label((#[trigger] self.rows@[i]).name@) && (
            self.rows@[i].port matches Some(p) ==> p >= 1)
    }

    pub fn new() -> (r: ApplicationRepository)
        ensures
            r.wf(),
            r.rows@.len() == 0,
    {
        ApplicationRepository { rows: Vec::new() }
    }

    /// Position of the application `id`.
    pub fn find_by_id(&self, id: &str) -> (r: Option<usize>)
        ensures
            r matches Some(i) ==> i < self.rows@.len() && self.rows@[i as int].id@ == id@,
            r is None ==> forall|j: int| 0 <= j < self.rows@.len() ==> self.rows@[j].id@ != id@,
    {
        let mut i: usize = 0;
        while i < self.rows.len()
            invariant
                0 <= i <= self.rows@.len(),
                forall|j: int| 0 <= j < i ==> self.rows@[j].id@ != id@,
            decreases self.rows@.len() - i,
        {
            if str_eq(self.rows[i].id.as_str(), id) {
                return Some(i);
            }
            i = i + 1;
        }
        None
    }

    /// Position of the application named `name`.
    pub fn find_by_name(&self, name: &str) -> (r: Option<usize>)
        ensures
            r matches Some(i) ==> i < self.rows@.len() && self.rows@[i as int].name@ == name@,
            r is None ==> forall|j: int| 0 <= j < self.rows@.len() ==> self.rows@[j].name@ != name@,
    {
        let mut i: usize = 0;
        while i < self.rows.len()
            invariant
                0 <= i <= self.rows@.len(),
                forall|j: int| 0 <= j < i ==> self.rows@[j].name@ != name@,
            decreases self.rows@.len() - i,
        {
            if str_eq(self.rows[i].name.as_str(), name) {
                return Some(i);
            }
            i = i + 1;
        }
        None
    }

    /// Adds an application in status `idle`. A name that is no DNS label
    /// or a zero port is a bad request; a name in use is a conflict.
    pub fn create(
        &mut self,
        name: String,
        server_id: String,
        git_url: Option<String>,
        git_branch: String,
        build_strategy: BuildStrategy,
        dockerfile_path: Option<String>,
        port: Option<u16>,
        auto_deploy: bool,
        now: i64,
    ) -> (r: Result<usize, PloyerError>)
        requires
            old(self).wf(),
        ensures
            final(self).wf(),
            !is_dns_label(name@) || port == Some(0u16) ==> r matches Err(PloyerError::BadRequest(_)),
            r is Ok <==> is_dns_label(name@) && port != Some(0u16) && forall|j: int|
                0 <= j < old(self).rows@.len() ==> old(self).rows@[j].name@ != name@,
            r matches Err(e) ==> (e is BadRequest || e is Conflict) && *final(self) == *old(self),
            r matches Ok(i) ==> i == old(self).rows@.len() && final(self).rows@.len() == i + 1
                && final(self).rows@.subrange(0, i as int) == old(self).rows@ && final(self).rows@[i as int].name
                == name && final(self).rows@[i as int].git_branch == git_branch
                && final(self).rows@[i as int].port == port && final(self).rows@[i as int].status
                == AppStatus::Idle,
    {
        if !dns_label(name.as_str()) {
            return Err(PloyerError::BadRequest(String::from_str("Name must be a DNS label")));
        }
        if let Some(p) = port {
            if p == 0 {
                return Err(PloyerError::BadRequest(String::from_str("Port must be between 1 and 65535")));
            }
        }
        if self.find_by_name(name.as_str()).is_some() {
            return Err(PloyerError::Conflict(String::from_str("Application name already in use")));
        }
        let idx = self.rows.len();
        self.rows.push(
            Application {
                id: new_id(),
                name,
                server_id,
                git_url,
                git_branch,
                build_strategy,
                dockerfile_path,
                port,
                status: AppStatus::Idle,
                auto_deploy,
                created_at: now,
                updated_at: now,
            },
        );
        assert(self.rows@.subrange(0, idx as int) =~= old(self).rows@);
        assert forall|j: int| 0 <= j < idx implies self.rows@[j] == old(self).rows@[j] by {}
        Ok(idx)
    }

    /// Sets the status of the application `id`; returns whether it exists.
    pub fn update_status(&mut self, id: &str, status: AppStatus, now: i64) -> (found: bool)
        requires
            old(self).wf(),
        ensures
            final(self).wf(),
            found == exists|j: int| 0 <= j < old(self).rows@.len() && old(self).rows@[j].id@ == id@,
            !found ==> *final(self) == *old(self),
            found ==> exists|i: int|
                0 <= i < old(self).rows@.len() && old(self).rows@[i].id@ == id@ && final(self).rows@
                    == old(self).rows@.update(i, final(self).rows@[i]) && final(self).rows@[i].status
                    == status && final(self).rows@[i].name == old(self).rows@[i].name,
    {
        match self.find_by_id(id) {
            Some(i) => {
                let ghost before = self.rows@;
                let row = self.rows.remove(i);
                let updated = Application { status, updated_at: now, ..row };
                self.rows.insert(i, updated);
                assert(self.rows@ =~= before.update(i as int, updated));
                assert forall|a: int, b: int|
                    0 <= a < self.rows@.len() && 0 <= b < self.rows@.len() && a != b implies self.rows@[a].name@
                        != self.rows@[b].name@ by {
                    assert(self.rows@[a].name == before[a].name);
                    assert(self.rows@[b].name == before[b].name);
                }
                assert forall|j: int| 0 <= j < self.rows@.len() implies is_dns_label(
                    (#[trigger] self.rows@[j]).name@,
                ) && (self.rows@[j].port matches Some(p) ==> p >= 1) by {
                    assert(self.rows@[j].name == before[j].name);
                    assert(self.rows@[j].port == before[j].port);
                }
                true
            },
            None => false,
        }
    }

    /// Removes the application `id`; returns whether it existed.
    pub fn delete(&mut self, id: &str) -> (found: bool)
        requires
            old(self).wf(),
        ensures
            final(self).wf(),
            found == exists|j: int| 0 <= j < old(self).rows@.len() && old(self).rows@[j].id@ == id@,
            !found ==> *final(self) == *old(self),
    {
        match self.find_by_id(id) {
            Some(i) => {
                self.rows.remove(i);
                true
            },
            None => false,
        }
    }
}

} // verus!
