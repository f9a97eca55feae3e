//! Deploy keys, at most one per application; the private half is sealed.
use vstd::prelude::*;
use crate::error::PloyerError;
use crate::ids::new_id;
use crate::models::DeployKey;
use crate::text::str_eq;

verus! {

pub struct DeployKeyRepository {
    pub rows: Vec<DeployKey>,
}

impl DeployKeyRepository {
    /// No two keys belong to the same application.
    pub open spec fn wf(&self) -> bool {
        forall|i: int, j: int|
            0 <= i < self.rows@.len() && 0 <= j < self.rows@.len() && i != j ==> self.rows@[i].application_id@
                != self.rows@[j].application_id@
    }

    pub open spec fn has_app(&self, i: int, app: Seq<char>) -> bool {
        0 <= i < self.rows@.len() && self.rows@[i].application_id@ == app
    }

    pub fn new() -> (r: DeployKeyRepository)
        ensures
            r.wf(),
            r.rows@.len() == 0,
    {
        DeployKeyRepository { rows: Vec::new() }
    }

    /// Position of the key of application `app`.
    pub fn find_by_application(&self, app: &str) -> (r: Option<usize>)
        ensures
            r matches Some(i) ==> self.has_app(i as int, app@),
            r is None ==> forall|j: int| !self.has_app(j, app@),
    {
        let mut i: usize = 0;
        while i < self.rows.len()
            invariant
                0 <= i <= self.rows@.len(),
                forall|j: int| 0 <= j < i ==> !self.has_app(j, app@),
            decreases self.rows@.len() - i,
        {
            if str_eq(self.rows[i].application_id.as_str(), app) {
                return Some(i);
            }
            i = i + 1;
        }
        None
    }

    /// Stores the key of an application; a second key for the same
    /// application is a conflict.
    pub fn create(
        &mut self,
        application_id: String,
        public_key: String,
        private_key_encrypted: String,
        now: i64,
    ) -> (r: Result<usize, PloyerError>)
        requires
            old(self).wf(),
        ensures
            final(self).wf(),
            r is Err <==> exists|j: int| old(self).has_app(j, application_id@),
            r matches Err(e) ==> e is Conflict && *final(self) == *old(self),
            r matches Ok(i) ==> i == old(self).rows@.len() && final(self).rows@.subrange(0, i as int)
                == old(self).rows@ && final(self).rows@.len() == i + 1 && final(self).rows@[i as int].application_id
                == application_id && final(self).rows@[i as int].public_key == public_key
                && final(self).rows@[i as int].private_key_encrypted == private_key_encrypted,
    {
        if self.find_by_application(application_id.as_str()).is_some() {
            return Err(PloyerError::Conflict(String::from_str("Deploy key already exists")));
        }
        let idx = self.rows.len();
        self.rows.push(
            DeployKey { id: new_id(), application_id, public_key, private_key_encrypted, created_at: now },
        );
        assert(self.rows@.subrange(0, idx as int) =~= old(self).rows@);
        assert forall|a: int, b: int|
            0 <= a < self.rows@.len() && 0 <= b < self.rows@.len() && a != b implies self.rows@[a].application_id@
                != self.rows@[b].application_id@ by {
            if a == idx {
                assert(!old(self).has_app(b, self.rows@[a].application_id@));
            } else if b == idx {
                assert(!old(self).has_app(a, self.rows@[b].application_id@));
            } else {
                assert(self.rows@[a] == old(self).rows@[a]);
                assert(self.rows@[b] == old(self).rows@[b]);
            }
        }
        Ok(idx)
    }

    /// Removes the key of application `app`; returns whether there was one.
    pub fn delete(&mut self, app: &str) -> (found: bool)
        requires
            old(self).wf(),
        ensures
            final(self).wf(),
            found == exists|j: int| old(self).has_app(j, app@),
            forall|j: int| !final(self).has_app(j, app@),
            !found ==> *final(self) == *old(self),
    {
        match self.find_by_application(app) {
            Some(i) => {
                self.rows.remove(i);
                assert forall|j: int| !self.has_app(j, app@) by {
                    if 0 <= j < self.rows@.len() {
                        if j < i {
                            assert(self.rows@[j] == old(self).rows@[j]);
                        } else {
                            assert(self.rows@[j] == old(self).rows@[j + 1]);
                        }
                    }
                }
                true
            },
            None => false,
        }
    }
}

} // verus!
