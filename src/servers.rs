//! Registered hosts: at most one is the local host, and every port is
//! nonzero.
use vstd::prelude::*;
use crate::error::PloyerError;
use crate::ids::new_id;
use crate::models::{Server, ServerStatus};
use crate::text::str_eq;

verus! {

pub struct ServerRepository {
    pub rows: Vec<Server>,
}

impl ServerRepository {
    pub open spec fn wf(&self) -> bool {
        &&& forall|i: int, j: int|
            0 <= i < self.rows@.len() && 0 <= j < self.rows@.len() && self.rows@[i].is_local
                && self.rows@[j].is_local ==> i == j
        &&& forall|i: int| 0 <= i < self.rows@.len() ==> (#[trigger] self.rows@[i]).port >= 1
    }

    pub fn new() -> (r: ServerRepository)
        ensures
            r.wf(),
            r.rows@.len() == 0,
    {
        ServerRepository { rows: Vec::new() }
    }

    /// Position of the local host.
    pub fn find_local(&self) -> (r: Option<usize>)
        ensures
            r matches Some(i) ==> i < self.rows@.len() && self.rows@[i as int].is_local,
            r is None ==> forall|j: int| 0 <= j < self.rows@.len() ==> !self.rows@[j].is_local,
    {
        let mut i: usize = 0;
        while i < self.rows.len()
            invariant
                0 <= i <= self.rows@.len(),
                forall|j: int| 0 <= j < i ==> !self.rows@[j].is_local,
            decreases self.rows@.len() - i,
        {
            if self.rows[i].is_local {
                return Some(i);
            }
            i = i + 1;
        }
        None
    }

    /// Position of the server `id`.
    pub fn find_by_id(&self, id: &str) -> (r: Option<usize>)
        ensures
            r matches Some(i) ==> i < self.rows@.len() && self.rows@[i as int].id@ == id@,
            r is None ==> forall|j: int| 0 <= j < self.rows@.len() ==> self.rows@[j].id@ != id@,
    {
        let mut i: usize = 0;
        while i < self.rows.len()
            invariant
                0 <= i <= self.rows@.len(),
                forall|j: int| 0 <= j < i ==> self.rows@[j].id@ != id@,
            decreases self.rows@.len() - i,
        {
            if str_eq(self.rows[i].id.as_str(), id) {
                return Some(i);
            }
            i = i + 1;
        }
        None
    }

    /// Registers a host in status `unknown`. Port zero is a bad request; a
    /// second local host is a conflict.
    pub fn create(
        &mut self,
        name: String,
        host: String,
        port: u16,
        username: String,
        ssh_key_encrypted: Option<String>,
        is_local: bool,
        now: i64,
    ) -> (r: Result<usize, PloyerError>)
        requires
            old(self).wf(),
        ensures
            final(self).wf(),
            port == 0 ==> r matches Err(PloyerError::BadRequest(_)),
            port != 0 && is_local && (exists|j: int|
                0 <= j < old(self).rows@.len() && old(self).rows@[j].is_local) ==> r matches Err(
                PloyerError::Conflict(_),
            ),
            r is Ok <==> port != 0 && !(is_local && exists|j: int|
                0 <= j < old(self).rows@.len() && old(self).rows@[j].is_local),
            r is Err ==> *final(self) == *old(self),
            r matches Ok(i) ==> i == old(self).rows@.len() && final(self).rows@.len() == i + 1
                && final(self).rows@.subrange(0, i as int) == old(self).rows@ && final(self).rows@[i as int].name
                == name && final(self).rows@[i as int].host == host && final(self).rows@[i as int].port
                == port && final(self).rows@[i as int].is_local == is_local
                && final(self).rows@[i as int].status == ServerStatus::Unknown,
    {
        if port == 0 {
            return Err(PloyerError::BadRequest(String::from_str("Port must be between 1 and 65535")));
        }
        if is_local && self.find_local().is_some() {
            return Err(PloyerError::Conflict(String::from_str("A local server is already registered")));
        }
        let idx = self.rows.len();
        self.rows.push(
            Server {
                id: new_id(),
                name,
                host,
                port,
                username,
                ssh_key_encrypted,
                is_local,
                status: ServerStatus::Unknown,
                last_seen_at: None,
                created_at: now,
                updated_at: now,
            },
        );
        assert(self.rows@.subrange(0, idx as int) =~= old(self).rows@);
        assert forall|a: int, b: int|
            0 <= a < self.rows@.len() && 0 <= b < self.rows@.len() && self.rows@[a].is_local
                && self.rows@[b].is_local implies a == b by {
            if a < idx {
                assert(self.rows@[a] == old(self).rows@[a]);
            }
            if b < idx {
                assert(self.rows@[b] == old(self).rows@[b]);
            }
        }
        assert(forall|j: int| 0 <= j < idx ==> self.rows@[j] == old(self).rows@[j]);
        Ok(idx)
    }

    /// Removes the server `id`; returns whether there was one.
    pub fn delete(&mut self, id: &str) -> (found: bool)
        requires
            old(self).wf(),
        ensures
            final(self).wf(),
            found == exists|j: int| 0 <= j < old(self).rows@.len() && old(self).rows@[j].id@ == id@,
            !found ==> *final(self) == *old(self),
    {
        match self.find_by_id(id) {
            Some(i) => {
                self.rows.remove(i);
                true
            },
            None => false,
        }
    }
}

} // verus!
