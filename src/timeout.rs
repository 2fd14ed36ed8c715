//! Timers ordered by their monotonic deadline.
//!
//! Time is counted in milliseconds of a monotonic clock whose origin is chosen
//! by the owner of the manager.

use vstd::prelude::*;

verus! {

/// Whether the deadlines of `s` never decrease from front to back.
pub open spec fn deadlines_sorted<K>(s: Seq<(u64, K)>) -> bool {
    forall|i: int, j: int| 0 <= i <= j < s.len() ==> s[i].0 <= s[j].0
}

/// Length of the longest prefix of `s` whose deadlines are all at or before `now`.
pub open spec fn due_count<K>(s: Seq<(u64, K)>, now: u64) -> nat
    decreases s.len(),
{
    if s.len() == 0 {
        0
    } else if s[0].0 <= now {
        1 + due_count(s.drop_first(), now)
    } else {
        0
    }
}

/// The tokens of a sequence of timers, in order.
pub open spec fn tokens_of<K>(s: Seq<(u64, K)>) -> Seq<K> {
    s.map_values(|e: (u64, K)| e.1)
}

/// Time left until the earliest deadline of `s` as seen at `now`: zero when it
/// is already due, nothing when there is no timer.
pub open spec fn remaining<K>(s: Seq<(u64, K)>, now: u64) -> Option<u64> {
    if s.len() == 0 {
        None
    } else if s[0].0 <= now {
        Some(0)
    } else {
        Some((s[0].0 - now) as u64)
    }
}

/// A queue of timers, earliest deadline first; timers with equal deadlines
/// leave in the order in which they were registered.
pub struct TimeoutManager<K> {
    timeouts: Vec<(u64, K)>,
}

impl<K> View for TimeoutManager<K> {
    type V = Seq<(u64, K)>;

    closed spec fn view(&self) -> Seq<(u64, K)> {
        self.timeouts@
    }
}

/// Every entry of a sorted sequence before the due prefix is due, and every
/// entry after it is not.
pub proof fn lemma_due_count_splits<K>(s: Seq<(u64, K)>, now: u64)
    requires
        deadlines_sorted(s),
    ensures
        due_count(s, now) <= s.len(),
        forall|i: int| 0 <= i < due_count(s, now) ==> #[trigger] s[i].0 <= now,
        forall|i: int| due_count(s, now) <= i < s.len() ==> now < #[trigger] s[i].0,
    decreases s.len(),
{
    if s.len() > 0 {
        let t = s.drop_first();
        assert(deadlines_sorted(t));
        lemma_due_count_splits(t, now);
        assert forall|i: int| 0 <= i < due_count(s, now) implies #[trigger] s[i].0 <= now by {
            if i > 0 {
                assert(s[i] == t[i - 1]);
            }
        }
        assert forall|i: int| due_count(s, now) <= i < s.len() implies now < #[trigger] s[i].0 by {
            if s[0].0 <= now {
                assert(s[i] == t[i - 1]);
            } else {
                assert(s[0].0 <= s[i].0);
            }
        }
    }
}

/// The due prefix is the unique split point between due and pending entries.
pub proof fn lemma_due_count_is<K>(s: Seq<(u64, K)>, now: u64, p: int)
    requires
        deadlines_sorted(s),
        0 <= p <= s.len(),
        forall|i: int| 0 <= i < p ==> #[trigger] s[i].0 <= now,
        forall|i: int| p <= i < s.len() ==> now < #[trigger] s[i].0,
    ensures
        due_count(s, now) == p,
{
    lemma_due_count_splits(s, now);
    let d = due_count(s, now) as int;
    if d < p {
        assert(s[d].0 <= now);
    } else if p < d {
        assert(s[p].0 <= now);
    }
}

impl<K> TimeoutManager<K> {
    /// Deadlines never decrease along the queue.
    pub open spec fn wf(&self) -> bool {
        deadlines_sorted(self@)
    }

    /// An empty manager.
    pub fn new() -> (r: Self)
        ensures
            r.wf(),
            r@ == Seq::<(u64, K)>::empty(),
    {
        TimeoutManager { timeouts: Vec::new() }
    }

    /// Number of pending timers.
    pub fn len(&self) -> (r: usize)
        ensures
            r == self@.len(),
    {
        self.timeouts.len()
    }

    /// Whether no timer is pending.
    pub fn is_empty(&self) -> (r: bool)
        ensures
            r == (self@.len() == 0),
    {
        self.timeouts.len() == 0
    }

    /// Schedules `token` at `deadline`, after every timer due at or before it.
    pub fn register(&mut self, token: K, deadline: u64)
        requires
            old(self).wf(),
        ensures
            final(self).wf(),
            final(self)@ == old(self)@.insert(due_count(old(self)@, deadline) as int, (deadline, token)),
    {
        let ghost s = self@;
        proof {
            lemma_due_count_splits(s, deadline);
        }
        let mut i: usize = 0;
        while i < self.timeouts.len() && self.timeouts[i].0 <= deadline
            invariant
                self@ == s,
                deadlines_sorted(s),
                0 <= i <= s.len(),
                forall|j: int| 0 <= j < i ==> #[trigger] s[j].0 <= deadline,
            decreases s.len() - i,
        {
            i = i + 1;
        }
        proof {
            lemma_due_count_is(s, deadline, i as int);
        }
        self.timeouts.insert(i, (deadline, token));
        proof {
            let t = self@;
            assert forall|a: int, b: int| 0 <= a <= b < t.len() implies t[a].0 <= t[b].0 by {
                if a < i && b > i {
                    assert(t[b] == s[b - 1]);
                } else if a > i {
                    assert(t[a] == s[a - 1] && t[b] == s[b - 1]);
                } else if a == i && b > i {
                    assert(t[b] == s[b - 1]);
                }
            }
        }
    }

    /// Time left from `now` until the earliest deadline: zero when a timer is
    /// already due, nothing when none is pending.
    pub fn next(&self, now: u64) -> (r: Option<u64>)
        ensures
            r == remaining(self@, now),
    {
        if self.timeouts.len() == 0 {
            None
        } else if self.timeouts[0].0 <= now {
            Some(0)
        } else {
            Some(self.timeouts[0].0 - now)
        }
    }

    /// Removes every timer due at or before `now` and returns their tokens,
    /// earliest first.
    pub fn expired(&mut self, now: u64) -> (r: Vec<K>)
        requires
            old(self).wf(),
        ensures
            final(self).wf(),
            r@ == tokens_of(old(self)@.take(due_count(old(self)@, now) as int)),
            final(self)@ == old(self)@.skip(due_count(old(self)@, now) as int),
    {
        let ghost s = self@;
        proof {
            lemma_due_count_splits(s, now);
        }
        let ghost p = due_count(s, now) as int;
        let total: usize = self.timeouts.len();
        let mut fired: Vec<K> = Vec::new();
        let mut i: usize = 0;
        while self.timeouts.len() > 0 && self.timeouts[0].0 <= now
            invariant
                deadlines_sorted(s),
                p == due_count(s, now),
                0 <= i <= p,
                p <= s.len() == total,
                forall|j: int| 0 <= j < p ==> #[trigger] s[j].0 <= now,
                forall|j: int| p <= j < s.len() ==> now < #[trigger] s[j].0,
                self@ == s.skip(i as int),
                fired@ == tokens_of(s.take(i as int)),
            decreases s.len() - i,
        {
            proof {
                assert(self@[0] == s[i as int]);
                assert(i < p);
            }
            let e = self.timeouts.remove(0);
            fired.push(e.1);
            proof {
                assert(s.take(i + 1) == s.take(i as int).push(s[i as int]));
                assert(self@ =~= s.skip(i + 1));
            }
            i = i + 1;
        }
        proof {
            if i < p {
                assert(self@[0] == s[i as int]);
            }
        }
        fired
    }
}

/// The time reported for the next timer never grows as the clock advances
/// while no timer is added, and it is zero as soon as some deadline has passed.
pub proof fn lemma_next_monotonic<K>(s: Seq<(u64, K)>, earlier: u64, later: u64)
    requires
        deadlines_sorted(s),
        earlier <= later,
    ensures
        (exists|i: int| 0 <= i < s.len() && #[trigger] s[i].0 <= later) ==> remaining(s, later) == Some(0u64),
        s.len() == 0 <==> remaining(s, later) is None,
        remaining(s, later) matches Some(b) ==> remaining(s, earlier) matches Some(a) && b <= a,
{
    if exists|i: int| 0 <= i < s.len() && #[trigger] s[i].0 <= later {
        let i = choose|i: int| 0 <= i < s.len() && #[trigger] s[i].0 <= later;
        assert(s[0].0 <= s[i].0);
    }
}

} // verus!
