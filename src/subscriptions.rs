//! Channel subscriptions of live event-stream connections.
use vstd::prelude::*;
use crate::text::str_eq;

verus! {

/// Some entry of `s` pairs `channel` with `conn`.
pub open spec fn holds(s: Seq<(String, String)>, channel: Seq<char>, conn: Seq<char>) -> bool {
    exists|i: int| 0 <= i < s.len() && (#[trigger] s[i]).0@ == channel && s[i].1@ == conn
}

/// Which connection listens on which channel.
pub struct ConnectionManager {
    pub entries: Vec<(String, String)>,
}

impl ConnectionManager {
    /// Connection `conn` is subscribed to `channel`.
    pub open spec fn has(&self, channel: Seq<char>, conn: Seq<char>) -> bool {
        holds(self.entries@, channel, conn)
    }

    pub fn new() -> (r: ConnectionManager)
        ensures
            forall|ch: Seq<char>, c: Seq<char>| !r.has(ch, c),
    {
        ConnectionManager { entries: Vec::new() }
    }

    fn position(&self, conn: &str, channel: &str) -> (r: Option<usize>)
        ensures
            r matches Some(i) ==> i < self.entries@.len() && self.entries@[i as int].0@ == channel@
                && self.entries@[i as int].1@ == conn@,
            r is None ==> !self.has(channel@, conn@),
    {
        let mut i: usize = 0;
        while i < self.entries.len()
            invariant
                0 <= i <= self.entries@.len(),
                forall|j: int|
                    0 <= j < i ==> !((#[trigger] self.entries@[j]).0@ == channel@
                        && self.entries@[j].1@ == conn@),
            decreases self.entries@.len() - i,
        {
            if str_eq(self.entries[i].0.as_str(), channel) && str_eq(self.entries[i].1.as_str(), conn) {
                return Some(i);
            }
            i = i + 1;
        }
        None
    }

    /// Subscribes `conn` to `channel`.
    pub fn subscribe(&mut self, conn: &str, channel: &str)
        ensures
            forall|ch: Seq<char>, c: Seq<char>|
                final(self).has(ch, c) <==> (old(self).has(ch, c) || (ch == channel@ && c == conn@)),
    {
        if self.position(conn, channel).is_none() {
            let ghost before = self.entries@;
            self.entries.push((String::from_str(channel), String::from_str(conn)));
            assert forall|ch: Seq<char>, c: Seq<char>|
                self.has(ch, c) <==> (old(self).has(ch, c) || (ch == channel@ && c == conn@)) by {
                if old(self).has(ch, c) {
                    let i = choose|i: int|
                        0 <= i < before.len() && (#[trigger] before[i]).0@ == ch && before[i].1@ == c;
                    assert(self.entries@[i] == before[i]);
                }
                if ch == channel@ && c == conn@ {
                    assert(self.entries@[before.len() as int].0@ == ch);
                }
                if self.has(ch, c) {
                    let i = choose|i: int|
                        0 <= i < self.entries@.len() && (#[trigger] self.entries@[i]).0@ == ch
                            && self.entries@[i].1@ == c;
                    if i < before.len() {
                        assert(before[i] == self.entries@[i]);
                    }
                }
            }
        }
    }

    /// Keeps the entries whose connection is not `conn`, or whose channel
    /// is not `channel` when one is given.
    fn retain_other(&mut self, conn: &str, channel: Option<&str>)
        ensures
            forall|ch: Seq<char>, c: Seq<char>|
                final(self).has(ch, c) <==> (old(self).has(ch, c) && !(c == conn@ && (channel is None
                    || ch == channel.unwrap()@))),
    {
        let ghost orig = self.entries@;
        let mut kept: Vec<(String, String)> = Vec::new();
        let mut i: usize = 0;
        while i < self.entries.len()
            invariant
                self.entries@ == orig,
                0 <= i <= orig.len(),
                forall|ch: Seq<char>, c: Seq<char>|
                    #[trigger] holds(kept@, ch, c) <==> (holds(orig.take(i as int), ch, c) && !(c
                        == conn@ && (channel is None || ch == channel.unwrap()@))),
            decreases orig.len() - i,
        {
            let e = &self.entries[i];
            let drop = str_eq(e.1.as_str(), conn) && match channel {
                None => true,
                Some(ch) => str_eq(e.0.as_str(), ch),
            };
            let ghost kb = kept@;
            if !drop {
                kept.push((e.0.clone(), e.1.clone()));
            }
            assert forall|ch: Seq<char>, c: Seq<char>|
                #[trigger] holds(kept@, ch, c) <==> (holds(orig.take(i + 1), ch, c) && !(c == conn@ && (
                channel is None || ch == channel.unwrap()@))) by {
                let pre = orig.take(i as int);
                let post = orig.take(i + 1);
                if holds(post, ch, c) {
                    let j = choose|j: int| 0 <= j < post.len() && (#[trigger] post[j]).0@ == ch && post[j].1@ == c;
                    if j < i {
                        assert(pre[j] == post[j]);
                        assert(holds(pre, ch, c));
                        if !(c == conn@ && (channel is None || ch == channel.unwrap()@)) {
                            assert(holds(kb, ch, c));
                            let k = choose|k: int|
                                0 <= k < kb.len() && (#[trigger] kb[k]).0@ == ch && kb[k].1@ == c;
                            assert(kept@[k] == kb[k]);
                        }
                    } else if !drop {
                        assert(kept@[kb.len() as int].0@ == ch);
                    }
                }
                if holds(kept@, ch, c) {
                    let k = choose|k: int| 0 <= k < kept@.len() && (#[trigger] kept@[k]).0@ == ch && kept@[k].1@ == c;
                    if k < kb.len() {
                        assert(kb[k] == kept@[k]);
                        assert(holds(kb, ch, c));
                        let j = choose|j: int| 0 <= j < pre.len() && (#[trigger] pre[j]).0@ == ch && pre[j].1@ == c;
                        assert(post[j] == pre[j]);
                    } else {
                        assert(post[i as int] == orig[i as int]);
                        assert(orig[i as int].0@ == ch);
                    }
                }
            }
            i = i + 1;
        }
        assert(orig.take(orig.len() as int) =~= orig);
        self.entries = kept;
    }

    /// Unsubscribes `conn` from `channel`.
    pub fn unsubscribe(&mut self, conn: &str, channel: &str)
        ensures
            forall|ch: Seq<char>, c: Seq<char>|
                final(self).has(ch, c) <==> (old(self).has(ch, c) && !(ch == channel@ && c == conn@)),
    {
        self.retain_other(conn, Some(channel));
    }

    /// Drops every subscription of `conn`.
    pub fn cleanup(&mut self, conn: &str)
        ensures
            forall|ch: Seq<char>, c: Seq<char>|
                final(self).has(ch, c) <==> (old(self).has(ch, c) && c != conn@),
    {
        self.retain_other(conn, None);
    }

    /// Whether `conn` listens on `channel`.
    pub fn is_subscribed(&self, conn: &str, channel: &str) -> (r: bool)
        ensures
            r == self.has(channel@, conn@),
    {
        self.position(conn, channel).is_some()
    }
}

} // verus!
