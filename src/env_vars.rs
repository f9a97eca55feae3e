//! Environment variables of applications: one value per key and
//! application, stored sealed.
use vstd::prelude::*;
use vstd::utf8::encode_utf8;
use crate::crypto::{encrypt, unseal_spec, CryptoError, MAX_PLAINTEXT};
use crate::error::PloyerError;
use crate::ids::new_id;
use crate::models::EnvironmentVariable;
use crate::text::str_eq;
use crate::validation::{byte_len, env_key, is_blank, is_key_char};

verus! {

/// A well-formed key: one to 256 bytes of `[A-Za-z0-9_]`.
pub open spec fn valid_key(k: Seq<char>) -> bool {
    !is_blank(k) && byte_len(k) <= 256 && forall|i: int| 0 <= i < k.len() ==> is_key_char(#[trigger] k[i])
}

pub struct EnvVarRepository {
    pub rows: Vec<EnvironmentVariable>,
}

impl EnvVarRepository {
    pub open spec fn wf(&self) -> bool {
        &&& forall|i: int, j: int|
            0 <= i < self.rows@.len() && 0 <= j < self.rows@.len() && i != j ==> !(
            self.rows@[i].application_id@ == self.rows@[j].application_id@ && self.rows@[i].key@
                == self.rows@[j].key@)
        &&& forall|i: int| 0 <= i < self.rows@.len() ==> valid_key((#[trigger] self.rows@[i]).key@)
    }

    pub open spec fn holds_key(&self, i: int, app: Seq<char>, key: Seq<char>) -> bool {
        0 <= i < self.rows@.len() && self.rows@[i].application_id@ == app && self.rows@[i].key@ == key
    }

    pub fn new() -> (r: EnvVarRepository)
        ensures
            r.wf(),
            r.rows@.len() == 0,
    {
        EnvVarRepository { rows: Vec::new() }
    }

    /// Position of key `key` of application `app`.
    pub fn find_by_application_and_key(&self, app: &str, key: &str) -> (r: Option<usize>)
        ensures
            r matches Some(i) ==> self.holds_key(i as int, app@, key@),
            r is None ==> forall|j: int| !self.holds_key(j, app@, key@),
    {
        let mut i: usize = 0;
        while i < self.rows.len()
            invariant
                0 <= i <= self.rows@.len(),
                forall|j: int| 0 <= j < i ==> !self.holds_key(j, app@, key@),
            decreases self.rows@.len() - i,
        {
            if str_eq(self.rows[i].application_id.as_str(), app) && str_eq(self.rows[i].key.as_str(), key) {
                return Some(i);
            }
            i = i + 1;
        }
        None
    }

    /// Adds a variable, sealing its value under `secret`. A malformed key is
    /// a bad request, a key the application already has a conflict, and a
    /// failed seal an internal error.
    pub fn create(
        &mut self,
        application_id: &str,
        key: &str,
        value: &str,
        secret: &[u8; 32],
        now: i64,
    ) -> (r: Result<usize, PloyerError>)
        requires
            old(self).wf(),
        ensures
            final(self).wf(),
            !valid_key(key@) ==> r matches Err(PloyerError::BadRequest(_)),
            valid_key(key@) && (exists|j: int| old(self).holds_key(j, application_id@, key@)) ==> r matches Err(
                PloyerError::Conflict(_),
            ),
            valid_key(key@) && !(exists|j: int| old(self).holds_key(j, application_id@, key@))
                && encode_utf8(value@).len() <= MAX_PLAINTEXT ==> r is Ok,
            r matches Err(PloyerError::Internal(_)) ==> encode_utf8(value@).len() > MAX_PLAINTEXT,
            r is Err ==> *final(self) == *old(self),
            r matches Ok(i) ==> i == old(self).rows@.len() && final(self).rows@.len() == i + 1
                && final(self).rows@.subrange(0, i as int) == old(self).rows@ && final(self).holds_key(
                i as int,
                application_id@,
                key@,
            ) && unseal_spec(final(self).rows@[i as int].value_encrypted@, secret@) == Ok::<
                Seq<char>,
                CryptoError,
            >(value@),
    {
        if env_key(key).is_err() {
            return Err(PloyerError::BadRequest(String::from_str("Invalid environment variable key")));
        }
        if self.find_by_application_and_key(application_id, key).is_some() {
            return Err(PloyerError::Conflict(String::from_str("Environment variable already exists")));
        }
        let sealed = match encrypt(value, secret) {
            Ok(c) => c,
            Err(_) => {
                return Err(PloyerError::Internal(String::from_str("Encryption failed")));
            },
        };
        let idx = self.rows.len();
        self.rows.push(
            EnvironmentVariable {
                id: new_id(),
                application_id: String::from_str(application_id),
                key: String::from_str(key),
                value_encrypted: sealed,
                created_at: now,
            },
        );
        assert(self.rows@.subrange(0, idx as int) =~= old(self).rows@);
        assert forall|a: int, b: int|
            0 <= a < self.rows@.len() && 0 <= b < self.rows@.len() && a != b implies !(
            self.rows@[a].application_id@ == self.rows@[b].application_id@ && self.rows@[a].key@
                == self.rows@[b].key@) by {
            if a == idx {
                assert(!old(self).holds_key(b, application_id@, key@));
            } else if b == idx {
                assert(!old(self).holds_key(a, application_id@, key@));
            } else {
                assert(self.rows@[a] == old(self).rows@[a]);
                assert(self.rows@[b] == old(self).rows@[b]);
            }
        }
        assert forall|j: int| 0 <= j < self.rows@.len() implies valid_key((#[trigger] self.rows@[j]).key@) by {
            if j < idx {
                assert(self.rows@[j] == old(self).rows@[j]);
            }
        }
        Ok(idx)
    }

    /// Seals a new value for key `key` of application `app`; returns
    /// whether the variable exists.
    pub fn update(&mut self, app: &str, key: &str, value: &str, secret: &[u8; 32]) -> (r: Result<
        bool,
        PloyerError,
    >)
        requires
            old(self).wf(),
        ensures
            final(self).wf(),
            r matches Ok(found) ==> found == exists|j: int| old(self).holds_key(j, app@, key@),
            encode_utf8(value@).len() <= MAX_PLAINTEXT ==> r is Ok,
            r is Err ==> *final(self) == *old(self),
            r matches Ok(false) ==> *final(self) == *old(self),
            r matches Ok(true) ==> exists|i: int|
                old(self).holds_key(i, app@, key@) && final(self).rows@ == old(self).rows@.update(
                    i,
                    final(self).rows@[i],
                ) && final(self).rows@[i].key == old(self).rows@[i].key && unseal_spec(
                    final(self).rows@[i].value_encrypted@,
                    secret@,
                ) == Ok::<Seq<char>, CryptoError>(value@),
    {
        let i = match self.find_by_application_and_key(app, key) {
            Some(i) => i,
            None => {
                return Ok(false);
            },
        };
        let sealed = match encrypt(value, secret) {
            Ok(c) => c,
            Err(_) => {
                return Err(PloyerError::Internal(String::from_str("Encryption failed")));
            },
        };
        let ghost before = self.rows@;
        let row = self.rows.remove(i);
        let updated = EnvironmentVariable { value_encrypted: sealed, ..row };
        self.rows.insert(i, updated);
        assert(self.rows@ =~= before.update(i as int, updated));
        assert forall|a: int, b: int|
            0 <= a < self.rows@.len() && 0 <= b < self.rows@.len() && a != b implies !(
            self.rows@[a].application_id@ == self.rows@[b].application_id@ && self.rows@[a].key@
                == self.rows@[b].key@) by {
            assert(self.rows@[a].application_id == before[a].application_id);
            assert(self.rows@[b].application_id == before[b].application_id);
            assert(self.rows@[a].key == before[a].key);
            assert(self.rows@[b].key == before[b].key);
        }
        assert forall|j: int| 0 <= j < self.rows@.len() implies valid_key((#[trigger] self.rows@[j]).key@) by {
            assert(self.rows@[j].key == before[j].key);
        }
        assert(old(self).holds_key(i as int, app@, key@));
        Ok(true)
    }

    /// Removes key `key` of application `app`; returns whether it existed.
    pub fn delete(&mut self, app: &str, key: &str) -> (found: bool)
        requires
            old(self).wf(),
        ensures
            final(self).wf(),
            found == exists|j: int| old(self).holds_key(j, app@, key@),
            !found ==> *final(self) == *old(self),
    {
        match self.find_by_application_and_key(app, key) {
            Some(i) => {
                self.rows.remove(i);
                true
            },
            None => false,
        }
    }
}

} // verus!
