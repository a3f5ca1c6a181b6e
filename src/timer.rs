use vstd::prelude::*;

verus! {

/// When a timer is re-armed with a deadline within this many milliseconds of
/// the one it already has, the old deadline is kept: fast connections then
/// cost no reordering of the timer set.
pub const TIMER_LAZY_DELAY: u64 = 300;

/// One armed timer: an event handle and the absolute time, in milliseconds,
/// at which it fires.
#[derive(PartialEq, Eq, Structural, Clone, Copy, Debug)]
pub struct TimerEntry {
    pub handle: usize,
    pub deadline: u64,
}

/// The armed timers, kept in order of deadline.
///
/// Timers with equal deadlines keep the order in which they were armed, so
/// simultaneous timers fire in a fixed order.
pub struct TimerSet {
    entries: Vec<TimerEntry>,
}

/// Deadlines never decrease along `s`.
pub open spec fn deadlines_sorted(s: Seq<TimerEntry>) -> bool {
    forall|i: int, j: int| 0 <= i < j < s.len() ==> s[i].deadline <= s[j].deadline
}

/// No handle occurs twice in `s`.
pub open spec fn handles_distinct(s: Seq<TimerEntry>) -> bool {
    forall|i: int, j: int| 0 <= i < j < s.len() ==> s[i].handle != s[j].handle
}

/// A well-formed timer sequence: ordered by deadline, one entry per handle.
pub open spec fn timers_wf(s: Seq<TimerEntry>) -> bool {
    deadlines_sorted(s) && handles_distinct(s)
}

/// `h` has an armed timer in `s`.
pub open spec fn has_timer(s: Seq<TimerEntry>, h: usize) -> bool {
    exists|i: int| 0 <= i < s.len() && s[i].handle == h
}

/// The position of the timer of `h` in `s`.
pub open spec fn timer_index(s: Seq<TimerEntry>, h: usize) -> int
    recommends
        has_timer(s, h),
{
    choose|i: int| 0 <= i < s.len() && s[i].handle == h
}

/// The deadline of the timer of `h` in `s`.
pub open spec fn timer_deadline(s: Seq<TimerEntry>, h: usize) -> u64
    recommends
        has_timer(s, h),
{
    s[timer_index(s, h)].deadline
}

/// `s` with the timer of `h` taken out, if there is one.
pub open spec fn without_timer(s: Seq<TimerEntry>, h: usize) -> Seq<TimerEntry> {
    if has_timer(s, h) {
        s.remove(timer_index(s, h))
    } else {
        s
    }
}

/// `i` parts `s` into the entries due at time `t` (before `i`) and those due
/// later (from `i` on).
pub open spec fn is_split(s: Seq<TimerEntry>, t: u64, i: int) -> bool {
    &&& 0 <= i <= s.len()
    &&& forall|j: int| 0 <= j < i ==> s[j].deadline <= t
    &&& forall|j: int| i <= j < s.len() ==> s[j].deadline > t
}

/// The point at which `s` parts at time `t`.
pub open spec fn split_at_time(s: Seq<TimerEntry>, t: u64) -> int {
    choose|i: int| is_split(s, t, i)
}

/// `s` with `e` placed after every entry due no later than `e`.
pub open spec fn with_timer(s: Seq<TimerEntry>, e: TimerEntry) -> Seq<TimerEntry> {
    s.insert(split_at_time(s, e.deadline), e)
}

/// The deadline of a timer armed at `now` for `delay` milliseconds; a sum past
/// the largest time stays there.
pub open spec fn arm_deadline(now: u64, delay: u64) -> u64 {
    if now + delay > u64::MAX {
        u64::MAX
    } else {
        (now + delay) as u64
    }
}

/// Distance between two times.
pub open spec fn time_distance(a: u64, b: u64) -> int {
    if a >= b {
        a - b
    } else {
        b - a
    }
}

/// Arming `h` for deadline `d` keeps its current timer.
pub open spec fn coalesces(s: Seq<TimerEntry>, h: usize, d: u64) -> bool {
    has_timer(s, h) && time_distance(d, timer_deadline(s, h)) < TIMER_LAZY_DELAY
}

/// The timers after `h` is armed for deadline `d`.
pub open spec fn armed(s: Seq<TimerEntry>, h: usize, d: u64) -> Seq<TimerEntry> {
    if coalesces(s, h, d) {
        s
    } else {
        with_timer(without_timer(s, h), TimerEntry { handle: h, deadline: d })
    }
}

/// The timers of `s` due at time `t`, earliest first.
pub open spec fn expired(s: Seq<TimerEntry>, t: u64) -> Seq<TimerEntry> {
    s.take(split_at_time(s, t))
}

/// The timers of `s` due after time `t`.
pub open spec fn pending(s: Seq<TimerEntry>, t: u64) -> Seq<TimerEntry> {
    s.skip(split_at_time(s, t))
}

/// The handles of a timer sequence, in its order.
pub open spec fn handles_of(s: Seq<TimerEntry>) -> Seq<usize> {
    s.map_values(|e: TimerEntry| e.handle)
}

proof fn lemma_split_unique(s: Seq<TimerEntry>, t: u64, i: int, j: int)
    requires
        is_split(s, t, i),
        is_split(s, t, j),
    ensures
        i == j,
{
    if i < j {
        assert(s[i].deadline > t);
    } else if j < i {
        assert(s[j].deadline > t);
    }
}

/// A sequence ordered by deadline parts at every time.
pub proof fn lemma_split_exists(s: Seq<TimerEntry>, t: u64)
    requires
        deadlines_sorted(s),
    ensures
        is_split(s, t, split_at_time(s, t)),
    decreases s.len(),
{
    if s.len() == 0 {
        assert(is_split(s, t, 0));
    } else {
        let p = s.drop_last();
        assert(deadlines_sorted(p));
        lemma_split_exists(p, t);
        let k = split_at_time(p, t);
        assert forall|j: int| 0 <= j < p.len() implies s[j] == p[j] by {}
        if s.last().deadline <= t {
            assert(is_split(s, t, s.len() as int));
        } else {
            assert forall|j: int| k <= j < s.len() implies s[j].deadline > t by {
                if j < p.len() {
                    assert(s[j] == p[j]);
                }
            }
            assert(is_split(s, t, k));
        }
    }
}

proof fn lemma_timer_index(s: Seq<TimerEntry>, h: usize, i: int)
    requires
        handles_distinct(s),
        0 <= i < s.len(),
        s[i].handle == h,
    ensures
        has_timer(s, h),
        timer_index(s, h) == i,
{
    assert(has_timer(s, h));
}

proof fn lemma_without_timer(s: Seq<TimerEntry>, h: usize)
    requires
        timers_wf(s),
    ensures
        timers_wf(without_timer(s, h)),
        !has_timer(without_timer(s, h), h),
{
    let w = without_timer(s, h);
    if has_timer(s, h) {
        let i = timer_index(s, h);
        assert forall|a: int, b: int| 0 <= a < b < w.len() implies w[a].deadline <= w[b].deadline
            && w[a].handle != w[b].handle by {
            let a2 = if a < i { a } else { a + 1 };
            let b2 = if b < i { b } else { b + 1 };
            assert(w[a] == s[a2] && w[b] == s[b2]);
        }
        assert forall|j: int| 0 <= j < w.len() implies w[j].handle != h by {
            let j2 = if j < i { j } else { j + 1 };
            assert(w[j] == s[j2]);
        }
    }
}

proof fn lemma_with_timer(s: Seq<TimerEntry>, e: TimerEntry)
    requires
        timers_wf(s),
        !has_timer(s, e.handle),
    ensures
        timers_wf(with_timer(s, e)),
{
    lemma_split_exists(s, e.deadline);
    let k = split_at_time(s, e.deadline);
    let w = with_timer(s, e);
    assert forall|a: int, b: int| 0 <= a < b < w.len() implies w[a].deadline <= w[b].deadline
        && w[a].handle != w[b].handle by {
        if a != k && b != k {
            let a2 = if a < k { a } else { a - 1 };
            let b2 = if b < k { b } else { b - 1 };
            assert(w[a] == s[a2] && w[b] == s[b2]);
        } else if a == k {
            assert(w[b] == s[b - 1]);
        } else {
            assert(w[a] == s[a]);
        }
    }
}

/// Arming keeps a timer sequence well formed.
pub proof fn lemma_armed_wf(s: Seq<TimerEntry>, h: usize, d: u64)
    requires
        timers_wf(s),
    ensures
        timers_wf(armed(s, h, d)),
        has_timer(armed(s, h, d), h),
{
    if !coalesces(s, h, d) {
        lemma_without_timer(s, h);
        let w = without_timer(s, h);
        let e = TimerEntry { handle: h, deadline: d };
        lemma_with_timer(w, e);
        lemma_split_exists(w, d);
        assert(with_timer(w, e)[split_at_time(w, d)] == e);
    }
}

/// Whatever timers were armed, the handles that expire at `t` come out
/// earliest deadline first, and each of them was due at `t`.
pub proof fn lemma_expired_in_order(s: Seq<TimerEntry>, t: u64)
    requires
        timers_wf(s),
    ensures
        deadlines_sorted(expired(s, t)),
        forall|i: int| 0 <= i < expired(s, t).len() ==> #[trigger] expired(s, t)[i].deadline <= t,
        expired(s, t) + pending(s, t) == s,
{
    lemma_split_exists(s, t);
    assert(expired(s, t) + pending(s, t) =~= s);
}

/// Re-arming a handle for a deadline within the lazy window of the one it
/// has leaves every timer, and so the earliest one, as it was.
pub proof fn lemma_coalesced_arm_keeps_timers(s: Seq<TimerEntry>, h: usize, d: u64)
    requires
        timers_wf(s),
        has_timer(s, h),
        time_distance(d, timer_deadline(s, h)) < TIMER_LAZY_DELAY,
    ensures
        armed(s, h, d) == s,
{
}

/// A handle that was armed and then cancelled is not among the expired
/// handles at any time.
pub proof fn lemma_cancelled_never_expires(s: Seq<TimerEntry>, h: usize, d: u64, t: u64)
    requires
        timers_wf(s),
    ensures
        !handles_of(expired(without_timer(armed(s, h, d), h), t)).contains(h),
{
    lemma_armed_wf(s, h, d);
    let a = armed(s, h, d);
    lemma_without_timer(a, h);
    let c = without_timer(a, h);
    lemma_split_exists(c, t);
    let x = expired(c, t);
    if handles_of(x).contains(h) {
        let j = choose|j: int| 0 <= j < handles_of(x).len() && handles_of(x)[j] == h;
        assert(c[j].handle == h);
    }
}

impl View for TimerSet {
    type V = Seq<TimerEntry>;

    closed spec fn view(&self) -> Seq<TimerEntry> {
        self.entries@
    }
}

impl TimerSet {
    /// The invariant of the timer set.
    pub closed spec fn wf(&self) -> bool {
        timers_wf(self.entries@)
    }

    /// An empty timer set.
    pub fn new() -> (r: TimerSet)
        ensures
            r.wf(),
            r@ == Seq::<TimerEntry>::empty(),
    {
        TimerSet { entries: Vec::new() }
    }

    /// Number of armed timers.
    pub fn len(&self) -> (r: usize)
        ensures
            r == self@.len(),
    {
        self.entries.len()
    }

    /// No timer is armed.
    pub fn is_empty(&self) -> (r: bool)
        ensures
            r == (self@.len() == 0),
    {
        self.entries.len() == 0
    }

    /// Position of the timer of `handle`, if it has one.
    fn find(&self, handle: usize) -> (r: Option<usize>)
        requires
            self.wf(),
        ensures
            r.is_none() == !has_timer(self@, handle),
            r matches Some(i) ==> i < self@.len() && i == timer_index(self@, handle),
    {
        let mut i: usize = 0;
        while i < self.entries.len()
            invariant
                i <= self.entries@.len(),
                self.wf(),
                forall|j: int| 0 <= j < i ==> self.entries@[j].handle != handle,
            decreases self.entries@.len() - i,
        {
            if self.entries[i].handle == handle {
                proof {
                    lemma_timer_index(self.entries@, handle, i as int);
                }
                return Some(i);
            }
            i += 1;
        }
        None
    }

    /// The point at which the timers part at time `t`, found by bisection.
    fn split_point(&self, t: u64) -> (r: usize)
        requires
            self.wf(),
        ensures
            r == split_at_time(self@, t),
            is_split(self@, t, r as int),
    {
        let ghost s = self.entries@;
        let mut lo: usize = 0;
        let mut hi: usize = self.entries.len();
        while lo < hi
            invariant
                lo <= hi <= s.len(),
                s == self.entries@,
                deadlines_sorted(s),
                forall|j: int| 0 <= j < lo ==> s[j].deadline <= t,
                forall|j: int| hi <= j < s.len() ==> s[j].deadline > t,
            decreases hi - lo,
        {
            let mid = lo + (hi - lo) / 2;
            if self.entries[mid].deadline <= t {
                lo = mid + 1;
            } else {
                hi = mid;
            }
        }
        proof {
            assert(is_split(s, t, lo as int));
            lemma_split_exists(s, t);
            lemma_split_unique(s, t, lo as int, split_at_time(s, t));
        }
        lo
    }

    /// Arms the timer of `handle` to fire `timer_msec` milliseconds after
    /// `now_msec`.
    ///
    /// A handle that already has a timer within `TIMER_LAZY_DELAY` of the new
    /// deadline keeps it; otherwise its old timer is dropped and the new one
    /// placed after every timer due no later.
    pub fn add_timer(&mut self, handle: usize, now_msec: u64, timer_msec: u64)
        requires
            old(self).wf(),
        ensures
            final(self).wf(),
            final(self)@ == armed(old(self)@, handle, arm_deadline(now_msec, timer_msec)),
    {
        let key = now_msec.saturating_add(timer_msec);
        proof {
            lemma_armed_wf(self@, handle, key);
        }
        match self.find(handle) {
            Some(i) => {
                let prev = self.entries[i].deadline;
                let diff = if key >= prev {
                    key - prev
                } else {
                    prev - key
                };
                if diff < TIMER_LAZY_DELAY {
                    return;
                }
                self.entries.remove(i);
            },
            None => {},
        }
        proof {
            lemma_without_timer(old(self)@, handle);
        }
        let pos = self.split_point(key);
        self.entries.insert(pos, TimerEntry { handle, deadline: key });
    }

    /// Cancels the timer of `handle`; a handle without one is left alone.
    pub fn del_timer(&mut self, handle: usize)
        requires
            old(self).wf(),
        ensures
            final(self).wf(),
            final(self)@ == without_timer(old(self)@, handle),
    {
        proof {
            lemma_without_timer(self@, handle);
        }
        match self.find(handle) {
            Some(i) => {
                self.entries.remove(i);
            },
            None => {},
        }
    }

    /// The deadline of the timer of `handle`, if it has one.
    pub fn deadline(&self, handle: usize) -> (r: Option<u64>)
        requires
            self.wf(),
        ensures
            r == (if has_timer(self@, handle) {
                Some(timer_deadline(self@, handle))
            } else {
                None::<u64>
            }),
    {
        match self.find(handle) {
            Some(i) => Some(self.entries[i].deadline),
            None => None,
        }
    }

    /// The timer that fires first, left in place.
    pub fn peek_earliest(&self) -> (r: Option<TimerEntry>)
        ensures
            r == (if self@.len() == 0 {
                None::<TimerEntry>
            } else {
                Some(self@[0])
            }),
    {
        if self.entries.len() == 0 {
            None
        } else {
            Some(self.entries[0])
        }
    }

    /// Takes out every timer due at `now_msec` and returns their handles,
    /// earliest deadline first.
    pub fn pop_expired(&mut self, now_msec: u64) -> (r: Vec<usize>)
        requires
            old(self).wf(),
        ensures
            final(self).wf(),
            r@ == handles_of(expired(old(self)@, now_msec)),
            final(self)@ == pending(old(self)@, now_msec),
    {
        let ghost s = self.entries@;
        let k = self.split_point(now_msec);
        let rest = self.entries.split_off(k);
        let mut handles: Vec<usize> = Vec::new();
        let mut i: usize = 0;
        while i < self.entries.len()
            invariant
                i <= self.entries@.len(),
                k <= s.len(),
                self.entries@ == s.take(k as int),
                handles@ == handles_of(s.take(i as int)),
            decreases self.entries@.len() - i,
        {
            handles.push(self.entries[i].handle);
            i += 1;
            proof {
                assert(handles_of(s.take(i as int)) =~= handles_of(s.take(i - 1)).push(
                    s[i - 1].handle,
                ));
            }
        }
        proof {
            lemma_split_exists(s, now_msec);
            assert forall|a: int, b: int| 0 <= a < b < rest@.len() implies rest@[a].deadline
                <= rest@[b].deadline && rest@[a].handle != rest@[b].handle by {
                assert(rest@[a] == s[a + k] && rest@[b] == s[b + k]);
            }
        }
        self.entries = rest;
        handles
    }
}

} // verus!
