//! The domain table: host names are unique, and each application has at
//! most one primary domain.
use vstd::prelude::*;
use crate::error::PloyerError;
use crate::ids::new_id;
use crate::models::Domain;
use crate::text::str_eq;

verus! {

/// `rows` with row `i` made the one primary domain of its application.
pub open spec fn primary_set(rows: Seq<Domain>, i: int) -> Seq<Domain> {
    Seq::new(
        rows.len(),
        |j: int|
            if rows[j].application_id@ == rows[i].application_id@ {
                Domain { is_primary: j == i, ..rows[j] }
            } else {
                rows[j]
            },
    )
}

/// At most one primary domain per application.
pub open spec fn one_primary_per_app(rows: Seq<Domain>) -> bool {
    forall|i: int, j: int|
        0 <= i < rows.len() && 0 <= j < rows.len() && rows[i].is_primary && rows[j].is_primary
            && rows[i].application_id@ == rows[j].application_id@ ==> i == j
}

pub struct DomainRepository {
    pub rows: Vec<Domain>,
}

impl DomainRepository {
    pub open spec fn wf(&self) -> bool {
        &&& one_primary_per_app(self.rows@)
        &&& forall|i: int, j: int|
            0 <= i < self.rows@.len() && 0 <= j < self.rows@.len() && i != j ==> self.rows@[i].id@
                != self.rows@[j].id@ && self.rows@[i].domain@ != self.rows@[j].domain@
    }

    pub fn new() -> (r: DomainRepository)
        ensures
            r.wf(),
            r.rows@.len() == 0,
    {
        DomainRepository { rows: Vec::new() }
    }

    /// Position of the row with identifier `id`.
    pub fn position(&self, id: &str) -> (r: Option<usize>)
        ensures
            r matches Some(i) ==> i < self.rows@.len() && self.rows@[i as int].id@ == id@,
            r is None ==> forall|j: int| 0 <= j < self.rows@.len() ==> self.rows@[j].id@ != id@,
    {
        let mut i: usize = 0;
        while i < self.rows.len()
            invariant
                0 <= i <= self.rows@.len(),
                forall|j: int| 0 <= j < i ==> self.rows@[j].id@ != id@,
            decreases self.rows@.len() - i,
        {
            if str_eq(self.rows[i].id.as_str(), id) {
                return Some(i);
            }
            i = i + 1;
        }
        None
    }

    /// Position of the row for host name `domain`.
    pub fn find_by_domain(&self, domain: &str) -> (r: Option<usize>)
        ensures
            r matches Some(i) ==> i < self.rows@.len() && self.rows@[i as int].domain@ == domain@,
            r is None ==> forall|j: int|
                0 <= j < self.rows@.len() ==> self.rows@[j].domain@ != domain@,
    {
        let mut i: usize = 0;
        while i < self.rows.len()
            invariant
                0 <= i <= self.rows@.len(),
                forall|j: int| 0 <= j < i ==> self.rows@[j].domain@ != domain@,
            decreases self.rows@.len() - i,
        {
            if str_eq(self.rows[i].domain.as_str(), domain) {
                return Some(i);
            }
            i = i + 1;
        }
        None
    }

    /// Makes row `idx` the one primary domain of its application, in one
    /// pass over the table.
    fn make_primary(&mut self, idx: usize)
        requires
            idx < old(self).rows@.len(),
        ensures
            final(self).rows@ == primary_set(old(self).rows@, idx as int),
    {
        let ghost orig = self.rows@;
        let app = self.rows[idx].application_id.clone();
        let mut i: usize = 0;
        while i < self.rows.len()
            invariant
                0 <= i <= self.rows@.len(),
                self.rows@.len() == orig.len(),
                idx < orig.len(),
                app@ == orig[idx as int].application_id@,
                forall|j: int| 0 <= j < i ==> self.rows@[j] == primary_set(orig, idx as int)[j],
                forall|j: int| i <= j < self.rows@.len() ==> self.rows@[j] == orig[j],
            decreases self.rows@.len() - i,
        {
            if str_eq(self.rows[i].application_id.as_str(), app.as_str()) {
                let ghost before = self.rows@;
                let row = self.rows.remove(i);
                let updated = Domain { is_primary: i == idx, ..row };
                self.rows.insert(i, updated);
                assert(self.rows@ =~= before.update(i as int, updated));
            }
            i = i + 1;
        }
        assert(self.rows@ =~= primary_set(orig, idx as int));
    }

    /// Adds a domain row with identifier `id`. A host name already present
    /// is a conflict; an identifier already present is an internal error. A
    /// new primary domain demotes the application's other domains.
    pub fn insert_with_id(
        &mut self,
        id: String,
        application_id: String,
        domain: String,
        is_primary: bool,
        now: i64,
    ) -> (r: Result<usize, PloyerError>)
        requires
            old(self).wf(),
        ensures
            final(self).wf(),
            r is Ok <==> (forall|j: int|
                0 <= j < old(self).rows@.len() ==> old(self).rows@[j].domain@ != domain@ && old(
                    self,
                ).rows@[j].id@ != id@),
            r matches Err(e) ==> (e is Conflict <==> exists|j: int|
                0 <= j < old(self).rows@.len() && old(self).rows@[j].domain@ == domain@),
            r matches Err(e) ==> e is Conflict || e is Internal,
            r is Err ==> *final(self) == *old(self),
            r matches Ok(i) ==> i == old(self).rows@.len() && final(self).rows@.len() == i + 1
                && final(self).rows@[i as int].id == id && final(self).rows@[i as int].domain == domain
                && final(self).rows@[i as int].application_id == application_id
                && final(self).rows@[i as int].is_primary == is_primary
                && !final(self).rows@[i as int].ssl_active && final(self).rows@[i as int].created_at
                == now,
            r matches Ok(i) ==> (!is_primary ==> final(self).rows@.subrange(0, i as int) == old(
                self,
            ).rows@),
            r matches Ok(i) ==> (is_primary ==> final(self).rows@ == primary_set(
                old(self).rows@.push(final(self).rows@[i as int]),
                i as int,
            )),
    {
        if self.find_by_domain(domain.as_str()).is_some() {
            return Err(PloyerError::Conflict(String::from_str("Domain already exists")));
        }
        if self.position(id.as_str()).is_some() {
            return Err(PloyerError::Internal(String::from_str("Domain identifier already in use")));
        }
        let row = Domain { id, application_id, domain, is_primary: false, ssl_active: false, created_at: now };
        let idx = self.rows.len();
        self.rows.push(row);
        if is_primary {
            self.make_primary(idx);
        }
        proof {
            let rows = self.rows@;
            if is_primary {
                assert(rows[idx as int].is_primary);
            }
        }
        Ok(idx)
    }

    /// Adds a domain row under a fresh identifier; see
    /// [`DomainRepository::insert_with_id`]. On an empty table it succeeds.
    pub fn create(
        &mut self,
        application_id: String,
        domain: String,
        is_primary: bool,
        now: i64,
    ) -> (r: Result<usize, PloyerError>)
        requires
            old(self).wf(),
        ensures
            final(self).wf(),
            old(self).rows@.len() == 0 ==> r is Ok,
            r matches Err(e) ==> (e is Conflict <==> exists|j: int|
                0 <= j < old(self).rows@.len() && old(self).rows@[j].domain@ == domain@),
            r matches Err(e) ==> e is Conflict || e is Internal,
            r is Err ==> *final(self) == *old(self),
            r matches Ok(i) ==> i == old(self).rows@.len() && final(self).rows@.len() == i + 1
                && (forall|j: int| 0 <= j < i ==> old(self).rows@[j].id@ != final(self).rows@[i as int].id@)
                && final(self).rows@[i as int].domain == domain && final(self).rows@[i as int].application_id
                == application_id && final(self).rows@[i as int].is_primary == is_primary
                && !final(self).rows@[i as int].ssl_active,
            r matches Ok(i) ==> (!is_primary ==> final(self).rows@.subrange(0, i as int) == old(
                self,
            ).rows@),
            r matches Ok(i) ==> (is_primary ==> final(self).rows@ == primary_set(
                old(self).rows@.push(final(self).rows@[i as int]),
                i as int,
            )),
    {
        let id = new_id();
        self.insert_with_id(id, application_id, domain, is_primary, now)
    }

    /// Makes the domain `id` the one primary domain of its application.
    pub fn set_primary(&mut self, id: &str) -> (r: Result<(), PloyerError>)
        requires
            old(self).wf(),
        ensures
            final(self).wf(),
            r is Err <==> forall|j: int| 0 <= j < old(self).rows@.len() ==> old(self).rows@[j].id@ != id@,
            r matches Err(e) ==> e is NotFound && *final(self) == *old(self),
            r is Ok ==> exists|i: int|
                0 <= i < old(self).rows@.len() && old(self).rows@[i].id@ == id@ && final(self).rows@
                    == primary_set(old(self).rows@, i),
    {
        match self.position(id) {
            Some(i) => {
                self.make_primary(i);
                Ok(())
            },
            None => Err(PloyerError::NotFound(String::from_str("Domain not found"))),
        }
    }

    /// Removes the domain `id`; returns whether a row was removed.
    pub fn delete(&mut self, id: &str) -> (found: bool)
        requires
            old(self).wf(),
        ensures
            final(self).wf(),
            found == exists|j: int| 0 <= j < old(self).rows@.len() && old(self).rows@[j].id@ == id@,
            found ==> exists|i: int|
                0 <= i < old(self).rows@.len() && old(self).rows@[i].id@ == id@ && final(self).rows@
                    == old(self).rows@.remove(i),
            !found ==> *final(self) == *old(self),
    {
        match self.position(id) {
            Some(i) => {
                self.rows.remove(i);
                true
            },
            None => false,
        }
    }
}

/// Making a domain primary leaves its application with exactly that one
/// primary domain, and making it primary again changes nothing.
pub proof fn lemma_set_primary_idempotent(rows: Seq<Domain>, i: int)
    requires
        0 <= i < rows.len(),
    ensures
        primary_set(primary_set(rows, i), i) == primary_set(rows, i),
        one_primary_per_app(rows) ==> one_primary_per_app(primary_set(rows, i)),
        primary_set(rows, i)[i].is_primary,
{
    assert(primary_set(primary_set(rows, i), i) =~= primary_set(rows, i));
}

} // verus!
