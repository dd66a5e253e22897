//! A model of the shared TTL counter store the rate limiter runs against.
//!
//! The deployed gateway keeps its counters in an external key/value
//! service whose two operations the limiter uses are an atomic
//! increment and a reset of a key's time-to-live. `CounterStore` is an
//! in-memory store with exactly that interface: every counter is a
//! named value with an expiry instant, an increment of an expired or
//! absent counter restarts it at one, and a single call performs the
//! increment and the expiry reset together, so a caller holding the
//! store exclusively for one call gets the same atomicity the external
//! service gives one transaction.

use vstd::prelude::*;
use vstd::seq_lib::*;

verus! {

/// One named counter: its value and the instant (in seconds) at which
/// it expires.
pub struct CounterEntry {
    pub name: String,
    pub value: u64,
    pub expires_at: u64,
}

/// An increment that cannot wrap: a counter pegs at `u64::MAX`.
pub open spec fn spec_bump(v: u64) -> u64 {
    if v == u64::MAX {
        v
    } else {
        (v + 1) as u64
    }
}

/// Addition that pegs at `u64::MAX`, for expiry instants.
pub open spec fn spec_sat_add(a: u64, b: u64) -> u64 {
    if a + b <= u64::MAX {
        (a + b) as u64
    } else {
        u64::MAX
    }
}

/// A TTL counter store: a set of uniquely named counters.
pub struct CounterStore {
    entries: Vec<CounterEntry>,
}

impl CounterStore {
    /// Counter names are unique, so a name denotes at most one counter.
    pub closed spec fn wf(self) -> bool {
        forall|i: int, j: int|
            0 <= i < j < self.entries@.len() ==> self.entries@[i].name@ != self.entries@[j].name@
    }

    /// Whether a counter of this name exists (live or expired).
    pub closed spec fn has_counter(self, name: Seq<char>) -> bool {
        exists|i: int| 0 <= i < self.entries@.len() && self.entries@[i].name@ == name
    }

    /// The counter of this name, when one exists.
    pub closed spec fn counter(self, name: Seq<char>) -> CounterEntry {
        self.entries@[choose|i: int|
            0 <= i < self.entries@.len() && self.entries@[i].name@ == name]
    }

    /// The full state a name is in: its counter, or `None`.
    pub open spec fn counter_state(self, name: Seq<char>) -> Option<CounterEntry> {
        if self.has_counter(name) {
            Some(self.counter(name))
        } else {
            None
        }
    }

    /// The value an increment at instant `now` starts from: the stored
    /// value while the counter is live, and zero once it has expired
    /// (the store drops a counter the moment `now` reaches its expiry
    /// instant) or was never created.
    pub open spec fn live_value(self, name: Seq<char>, now: u64) -> u64 {
        match self.counter_state(name) {
            Some(e) => if now < e.expires_at {
                e.value
            } else {
                0
            },
            None => 0,
        }
    }

    proof fn lemma_found(self, name: Seq<char>, i: int)
        requires
            self.wf(),
            0 <= i < self.entries@.len(),
            self.entries@[i].name@ == name,
        ensures
            self.has_counter(name),
            self.counter(name) == self.entries@[i],
    {
        assert(self.has_counter(name));
        let j = choose|j: int| 0 <= j < self.entries@.len() && self.entries@[j].name@ == name;
        if i < j {
            assert(self.entries@[i].name@ != self.entries@[j].name@);
        } else if j < i {
            assert(self.entries@[j].name@ != self.entries@[i].name@);
        }
    }

    /// An empty store: no counter of any name.
    pub fn new() -> (r: Self)
        ensures
            r.wf(),
            forall|name: Seq<char>| !r.has_counter(name),
    {
        CounterStore { entries: Vec::new() }
    }

    /// The index of the counter of this name, if one exists.
    fn find(&self, name: &String) -> (r: Option<usize>)
        requires
            self.wf(),
        ensures
            match r {
                Some(i) => i < self.entries@.len() && self.entries@[i as int].name@ == name@,
                None => !self.has_counter(name@),
            },
    {
        let n = self.entries.len();
        let mut i: usize = 0;
        while i < n
            invariant
                n == self.entries@.len(),
                i <= n,
                forall|j: int| 0 <= j < i ==> self.entries@[j].name@ != name@,
            decreases n - i,
        {
            let e = &self.entries[i];
            if e.name == *name {
                return Some(i);
            }
            i = i + 1;
        }
        None
    }

    /// Increments the counter named `name` and resets its time-to-live,
    /// in one step, as the external store does in one transaction. An
    /// absent or expired counter restarts at one. Returns the counter's
    /// value after the increment.
    pub fn incr_with_ttl(&mut self, name: &String, now: u64, ttl_seconds: u64) -> (count: u64)
        requires
            old(self).wf(),
        ensures
            final(self).wf(),
            count == spec_bump(old(self).live_value(name@, now)),
            final(self).has_counter(name@),
            final(self).counter(name@).name@ == name@,
            final(self).counter(name@).value == count,
            final(self).counter(name@).expires_at == spec_sat_add(now, ttl_seconds),
            forall|n: Seq<char>| n != name@ ==> final(self).counter_state(n) == old(
                self,
            ).counter_state(n),
    {
        let expires_at = if ttl_seconds <= u64::MAX - now {
            now + ttl_seconds
        } else {
            u64::MAX
        };
        let ghost pre = *self;
        let (count, removed_at): (u64, Ghost<Option<int>>) = match self.find(name) {
            Some(i) => {
                let e = self.entries.remove(i);
                proof {
                    pre.lemma_found(name@, i as int);
                }
                let live = if now < e.expires_at {
                    e.value
                } else {
                    0
                };
                let c = if live == u64::MAX {
                    live
                } else {
                    live + 1
                };
                (c, Ghost(Some(i as int)))
            },
            None => (1, Ghost(None)),
        };
        let ghost mid = *self;
        self.entries.push(CounterEntry { name: name.clone(), value: count, expires_at });
        proof {
            self.lemma_incr_frame(pre, mid, removed_at@, name@);
        }
        count
    }

    proof fn lemma_incr_frame(
        self,
        pre: CounterStore,
        mid: CounterStore,
        removed_at: Option<int>,
        name: Seq<char>,
    )
        requires
            pre.wf(),
            match removed_at {
                Some(i) => 0 <= i < pre.entries@.len() && pre.entries@[i].name@ == name
                    && mid.entries@ == pre.entries@.remove(i),
                None => !pre.has_counter(name) && mid.entries@ == pre.entries@,
            },
            self.entries@ == mid.entries@.push(self.entries@.last()),
            self.entries@.last().name@ == name,
        ensures
            self.wf(),
            self.has_counter(name),
            self.counter(name) == self.entries@.last(),
            forall|n: Seq<char>| n != name ==> self.counter_state(n) == pre.counter_state(n),
    {
        let pre_s = pre.entries@;
        let mid_s = mid.entries@;
        // No counter named `name` survives into `mid`.
        if let Some(i) = removed_at {
            pre_s.remove_ensures(i);
            assert forall|j: int| 0 <= j < mid_s.len() implies mid_s[j].name@ != name by {
                if j < i {
                    assert(mid_s[j] == pre_s[j]);
                    if pre_s[j].name@ == name {
                        assert(pre_s[j].name@ != pre_s[i].name@);
                    }
                } else {
                    assert(mid_s[j] == pre_s[j + 1]);
                    if pre_s[j + 1].name@ == name {
                        assert(pre_s[i].name@ != pre_s[j + 1].name@);
                    }
                }
            }
            // `mid` keeps every counter of every other name.
            assert forall|n: Seq<char>| n != name implies mid.counter_state(n)
                == pre.counter_state(n) by {
                self.lemma_remove_preserves_others(pre, mid, i, n);
            }
        } else {
            assert forall|j: int| 0 <= j < mid_s.len() implies mid_s[j].name@ != name by {
                if mid_s[j].name@ == name {
                    pre.lemma_found(name, j);
                }
            }
            assert(forall|n: Seq<char>| mid.counter_state(n) == pre.counter_state(n));
        }
        // `mid` is well-formed and the push keeps it so.
        assert(mid.wf()) by {
            if let Some(i) = removed_at {
                pre_s.remove_ensures(i);
                assert forall|a: int, b: int|
                    0 <= a < b < mid_s.len() implies mid_s[a].name@ != mid_s[b].name@ by {
                    let pa: int = if a < i { a } else { a + 1 };
                    let pb: int = if b < i { b } else { b + 1 };
                    assert(mid_s[a] == pre_s[pa]);
                    assert(mid_s[b] == pre_s[pb]);
                }
            }
        }
        assert(self.wf()) by {
            assert forall|a: int, b: int|
                0 <= a < b < self.entries@.len() implies self.entries@[a].name@
                != self.entries@[b].name@ by {
                if b == self.entries@.len() - 1 {
                    assert(mid_s[a].name@ != name);
                }
            }
        }
        self.lemma_found(name, self.entries@.len() - 1);
        // The push changes no other name.
        assert forall|n: Seq<char>| n != name implies self.counter_state(n) == mid.counter_state(
            n,
        ) by {
            if mid.has_counter(n) {
                let j = choose|j: int| 0 <= j < mid_s.len() && mid_s[j].name@ == n;
                mid.lemma_found(n, j);
                self.lemma_found(n, j);
            } else {
                if self.has_counter(n) {
                    let j = choose|j: int|
                        0 <= j < self.entries@.len() && self.entries@[j].name@ == n;
                    assert(j < self.entries@.len() - 1 ==> mid_s[j].name@ == n);
                }
            }
        }
    }

    proof fn lemma_remove_preserves_others(
        self,
        pre: CounterStore,
        mid: CounterStore,
        i: int,
        n: Seq<char>,
    )
        requires
            pre.wf(),
            0 <= i < pre.entries@.len(),
            mid.entries@ == pre.entries@.remove(i),
            n != pre.entries@[i].name@,
        ensures
            mid.counter_state(n) == pre.counter_state(n),
    {
        let pre_s = pre.entries@;
        let mid_s = mid.entries@;
        pre_s.remove_ensures(i);
        assert(mid.wf()) by {
            assert forall|a: int, b: int|
                0 <= a < b < mid_s.len() implies mid_s[a].name@ != mid_s[b].name@ by {
                let pa: int = if a < i { a } else { a + 1 };
                let pb: int = if b < i { b } else { b + 1 };
                assert(mid_s[a] == pre_s[pa]);
                assert(mid_s[b] == pre_s[pb]);
            }
        }
        if pre.has_counter(n) {
            let j = choose|j: int| 0 <= j < pre_s.len() && pre_s[j].name@ == n;
            pre.lemma_found(n, j);
            let mj: int = if j < i { j } else { j - 1 };
            assert(mid_s[mj] == pre_s[j]);
            mid.lemma_found(n, mj);
        } else {
            if mid.has_counter(n) {
                let j = choose|j: int| 0 <= j < mid_s.len() && mid_s[j].name@ == n;
                let pj: int = if j < i { j } else { j + 1 };
                assert(pre_s[pj].name@ == n);
                pre.lemma_found(n, pj);
            }
        }
    }
}

} // verus!
