//! Webhook configurations, at most one per application, and the
//! append-only log of deliveries.
use vstd::prelude::*;
use crate::ids::new_id;
use crate::models::{Webhook, WebhookDelivery, WebhookProvider};
use crate::text::str_eq;

verus! {

pub struct WebhookRepository {
    pub hooks: Vec<Webhook>,
    pub deliveries: Vec<WebhookDelivery>,
}

impl WebhookRepository {
    /// No two webhooks belong to the same application.
    pub open spec fn wf(&self) -> bool {
        forall|i: int, j: int|
            0 <= i < self.hooks@.len() && 0 <= j < self.hooks@.len() && i != j ==> self.hooks@[i].application_id@
                != self.hooks@[j].application_id@
    }

    pub open spec fn has_app(&self, i: int, app: Seq<char>) -> bool {
        0 <= i < self.hooks@.len() && self.hooks@[i].application_id@ == app
    }

    pub fn new() -> (r: WebhookRepository)
        ensures
            r.wf(),
            r.hooks@.len() == 0,
            r.deliveries@.len() == 0,
    {
        WebhookRepository { hooks: Vec::new(), deliveries: Vec::new() }
    }

    /// Position of the webhook of application `app`.
    pub fn find_by_application(&self, app: &str) -> (r: Option<usize>)
        ensures
            r matches Some(i) ==> self.has_app(i as int, app@),
            r is None ==> forall|j: int| !self.has_app(j, app@),
    {
        let mut i: usize = 0;
        while i < self.hooks.len()
            invariant
                0 <= i <= self.hooks@.len(),
                forall|j: int| 0 <= j < i ==> !self.has_app(j, app@),
            decreases self.hooks@.len() - i,
        {
            if str_eq(self.hooks[i].application_id.as_str(), app) {
                return Some(i);
            }
            i = i + 1;
        }
        None
    }

    /// Creates the application's webhook, enabled, or, when it has one,
    /// gives that one the new secret and keeps its provider.
    pub fn configure(
        &mut self,
        application_id: String,
        provider: WebhookProvider,
        secret: String,
        now: i64,
    ) -> (idx: usize)
        requires
            old(self).wf(),
        ensures
            final(self).wf(),
            final(self).deliveries == old(self).deliveries,
            idx < final(self).hooks@.len(),
            final(self).hooks@[idx as int].application_id@ == application_id@,
            final(self).hooks@[idx as int].secret == secret,
            (exists|j: int| old(self).has_app(j, application_id@)) ==> old(self).has_app(
                idx as int,
                application_id@,
            ) && final(self).hooks@ == old(self).hooks@.update(idx as int, final(self).hooks@[idx as int])
                && final(self).hooks@[idx as int].provider == old(self).hooks@[idx as int].provider
                && final(self).hooks@[idx as int].enabled == old(self).hooks@[idx as int].enabled,
            !(exists|j: int| old(self).has_app(j, application_id@)) ==> idx == old(self).hooks@.len()
                && final(self).hooks@ == old(self).hooks@.push(final(self).hooks@[idx as int])
                && final(self).hooks@[idx as int].provider == provider
                && final(self).hooks@[idx as int].enabled,
    {
        match self.find_by_application(application_id.as_str()) {
            Some(i) => {
                let ghost before = self.hooks@;
                let h = self.hooks.remove(i);
                let updated = Webhook { secret, updated_at: now, ..h };
                self.hooks.insert(i, updated);
                assert(self.hooks@ =~= before.update(i as int, updated));
                assert forall|a: int, b: int|
                    0 <= a < self.hooks@.len() && 0 <= b < self.hooks@.len() && a != b implies self.hooks@[a].application_id@
                        != self.hooks@[b].application_id@ by {
                    assert(self.hooks@[a].application_id == before[a].application_id);
                    assert(self.hooks@[b].application_id == before[b].application_id);
                }
                i
            },
            None => {
                let idx = self.hooks.len();
                self.hooks.push(
                    Webhook {
                        id: new_id(),
                        application_id,
                        provider,
                        secret,
                        enabled: true,
                        created_at: now,
                        updated_at: now,
                    },
                );
                assert forall|a: int, b: int|
                    0 <= a < self.hooks@.len() && 0 <= b < self.hooks@.len() && a != b implies self.hooks@[a].application_id@
                        != self.hooks@[b].application_id@ by {
                    if a == idx {
                        assert(!old(self).has_app(b, self.hooks@[a].application_id@));
                    } else if b == idx {
                        assert(!old(self).has_app(a, self.hooks@[b].application_id@));
                    } else {
                        assert(self.hooks@[a] == old(self).hooks@[a]);
                        assert(self.hooks@[b] == old(self).hooks@[b]);
                    }
                }
                idx
            },
        }
    }

    /// Switches the application's webhook on or off; returns whether it has
    /// one.
    pub fn set_enabled(&mut self, app: &str, enabled: bool, now: i64) -> (found: bool)
        requires
            old(self).wf(),
        ensures
            final(self).wf(),
            final(self).deliveries == old(self).deliveries,
            found == exists|j: int| old(self).has_app(j, app@),
            !found ==> *final(self) == *old(self),
            found ==> exists|i: int|
                old(self).has_app(i, app@) && final(self).hooks@ == old(self).hooks@.update(
                    i,
                    final(self).hooks@[i],
                ) && final(self).hooks@[i].enabled == enabled && final(self).hooks@[i].secret
                    == old(self).hooks@[i].secret && final(self).hooks@[i].application_id
                    == old(self).hooks@[i].application_id,
    {
        match self.find_by_application(app) {
            Some(i) => {
                let ghost before = self.hooks@;
                let h = self.hooks.remove(i);
                let updated = Webhook { enabled, updated_at: now, ..h };
                self.hooks.insert(i, updated);
                assert(self.hooks@ =~= before.update(i as int, updated));
                assert forall|a: int, b: int|
                    0 <= a < self.hooks@.len() && 0 <= b < self.hooks@.len() && a != b implies self.hooks@[a].application_id@
                        != self.hooks@[b].application_id@ by {
                    assert(self.hooks@[a].application_id == before[a].application_id);
                    assert(self.hooks@[b].application_id == before[b].application_id);
                }
                assert(old(self).has_app(i as int, app@));
                true
            },
            None => false,
        }
    }

    /// Removes the application's webhook; returns whether it had one.
    pub fn delete(&mut self, app: &str) -> (found: bool)
        requires
            old(self).wf(),
        ensures
            final(self).wf(),
            final(self).deliveries == old(self).deliveries,
            found == exists|j: int| old(self).has_app(j, app@),
            !found ==> *final(self) == *old(self),
    {
        match self.find_by_application(app) {
            Some(i) => {
                self.hooks.remove(i);
                true
            },
            None => false,
        }
    }

    /// Appends a delivery record; deliveries are never changed afterwards.
    pub fn create_delivery(&mut self, delivery: WebhookDelivery)
        ensures
            final(self).hooks == old(self).hooks,
            final(self).deliveries@ == old(self).deliveries@.push(delivery),
    {
        self.deliveries.push(delivery);
    }
}

} // verus!
