use vstd::prelude::*;

verus! {

/// The queue of posted events: handles waiting to be dispatched on the next
/// pass of the event loop, first posted first.
///
/// Handles are slots `0..capacity` of an arena. Each slot carries its
/// `posted` flag and its links to the previous and next queued slot, so that
/// posting and removing a known handle take constant time. Slot `capacity`
/// is the head of the queue.
pub struct PostedQueue {
    next: Vec<usize>,
    prev: Vec<usize>,
    posted: Vec<bool>,
    order: Ghost<Seq<usize>>,
}

/// The slot at position `k` of the queue `o`, where positions before the
/// first and after the last are the head `cap`.
pub open spec fn slot_at(o: Seq<usize>, cap: usize, k: int) -> usize {
    if 0 <= k < o.len() {
        o[k]
    } else {
        cap
    }
}

/// No handle occurs twice in `o`.
pub open spec fn distinct_handles(o: Seq<usize>) -> bool {
    forall|i: int, j: int| 0 <= i < j < o.len() ==> o[i] != o[j]
}

/// The queue after `h` is posted: appended, unless it is queued already.
pub open spec fn after_post(o: Seq<usize>, h: usize) -> Seq<usize> {
    if o.contains(h) {
        o
    } else {
        o.push(h)
    }
}

/// The queue after `h` is taken out of it, wherever it stands.
pub open spec fn after_unpost(o: Seq<usize>, h: usize) -> Seq<usize> {
    o.filter(|x: usize| x != h)
}

/// The links `next` and `prev` run through the queue `o` and its head `cap`
/// in order, forwards and backwards.
pub open spec fn links_ok(o: Seq<usize>, cap: usize, next: Seq<usize>, prev: Seq<usize>) -> bool {
    &&& forall|k: int|
        -1 <= k < o.len() ==> next[#[trigger] slot_at(o, cap, k) as int] == slot_at(o, cap, k + 1)
    &&& forall|k: int|
        0 <= k <= o.len() ==> prev[#[trigger] slot_at(o, cap, k) as int] == slot_at(o, cap, k - 1)
}

/// A queue whose handles are distinct slots below `cap`.
pub open spec fn slots_ok(o: Seq<usize>, cap: usize) -> bool {
    &&& forall|k: int| 0 <= k < o.len() ==> o[k] < cap
    &&& distinct_handles(o)
}

proof fn lemma_link_append(o: Seq<usize>, cap: usize, next: Seq<usize>, prev: Seq<usize>, h: usize)
    requires
        slots_ok(o, cap),
        links_ok(o, cap, next, prev),
        next.len() == cap + 1,
        prev.len() == cap + 1,
        h < cap,
        !o.contains(h),
    ensures
        prev[cap as int] == slot_at(o, cap, o.len() - 1),
        slots_ok(o.push(h), cap),
        links_ok(
            o.push(h),
            cap,
            next.update(prev[cap as int] as int, h).update(h as int, cap),
            prev.update(h as int, prev[cap as int]).update(cap as int, h),
        ),
{
    let n = o.len() as int;
    let o2 = o.push(h);
    assert(slot_at(o, cap, n) == cap);
    let tail = prev[cap as int];
    let next2 = next.update(tail as int, h).update(h as int, cap);
    let prev2 = prev.update(h as int, tail).update(cap as int, h);
    assert forall|i: int, j: int| 0 <= i < j < o2.len() implies o2[i] != o2[j] by {
        if j == n {
            assert(o.contains(o[i]));
        }
    }
    assert forall|k: int| -1 <= k < o2.len() implies next2[#[trigger] slot_at(o2, cap, k) as int]
        == slot_at(o2, cap, k + 1) by {
        if k < n - 1 {
            assert(slot_at(o2, cap, k) == slot_at(o, cap, k));
            assert(slot_at(o2, cap, k + 1) == slot_at(o, cap, k + 1));
            lemma_slots_distinct(o, cap, k, n - 1);
            if k >= 0 {
                assert(o.contains(o[k]));
            }
        }
    }
    assert forall|k: int| 0 <= k <= o2.len() implies prev2[#[trigger] slot_at(o2, cap, k) as int]
        == slot_at(o2, cap, k - 1) by {
        if k < n {
            assert(slot_at(o2, cap, k) == slot_at(o, cap, k));
            assert(slot_at(o2, cap, k - 1) == slot_at(o, cap, k - 1));
            assert(o.contains(o[k]));
        }
    }
}

proof fn lemma_link_remove(o: Seq<usize>, cap: usize, next: Seq<usize>, prev: Seq<usize>, i: int)
    requires
        slots_ok(o, cap),
        links_ok(o, cap, next, prev),
        next.len() == cap + 1,
        prev.len() == cap + 1,
        0 <= i < o.len(),
    ensures
        prev[o[i] as int] == slot_at(o, cap, i - 1),
        next[o[i] as int] == slot_at(o, cap, i + 1),
        slots_ok(o.remove(i), cap),
        links_ok(
            o.remove(i),
            cap,
            next.update(prev[o[i] as int] as int, next[o[i] as int]),
            prev.update(next[o[i] as int] as int, prev[o[i] as int]),
        ),
{
    let o2 = o.remove(i);
    assert(slot_at(o, cap, i) == o[i]);
    assert forall|a: int, b: int| 0 <= a < b < o2.len() implies o2[a] != o2[b] by {
        let a2 = if a < i { a } else { a + 1 };
        let b2 = if b < i { b } else { b + 1 };
        assert(o2[a] == o[a2] && o2[b] == o[b2]);
    }
    assert forall|k: int| 0 <= k < o2.len() implies o2[k] < cap by {
        if k >= i {
            assert(o2[k] == o[k + 1]);
        }
    }
    lemma_unlink_next(o, cap, next, prev[o[i] as int], next[o[i] as int], i);
    lemma_unlink_prev(o, cap, prev, prev[o[i] as int], next[o[i] as int], i);
}

proof fn lemma_remove_slot(o: Seq<usize>, cap: usize, i: int, k: int)
    requires
        0 <= i < o.len(),
        -1 <= k <= o.len() - 1,
    ensures
        slot_at(o.remove(i), cap, k) == (if k < i {
            slot_at(o, cap, k)
        } else {
            slot_at(o, cap, k + 1)
        }),
{
}

proof fn lemma_unlink_next(o: Seq<usize>, cap: usize, next: Seq<usize>, p: usize, n: usize, i: int)
    requires
        slots_ok(o, cap),
        forall|k: int|
            -1 <= k < o.len() ==> next[#[trigger] slot_at(o, cap, k) as int] == slot_at(o, cap, k + 1),
        next.len() == cap + 1,
        0 <= i < o.len(),
        p == slot_at(o, cap, i - 1),
        n == slot_at(o, cap, i + 1),
    ensures
        forall|k: int|
            -1 <= k < o.remove(i).len() ==> next.update(p as int, n)[#[trigger] slot_at(
                o.remove(i),
                cap,
                k,
            ) as int] == slot_at(o.remove(i), cap, k + 1),
{
    let o2 = o.remove(i);
    let next2 = next.update(p as int, n);
    assert forall|k: int| -1 <= k < o2.len() implies next2[#[trigger] slot_at(o2, cap, k) as int]
        == slot_at(o2, cap, k + 1) by {
        lemma_remove_slot(o, cap, i, k);
        lemma_remove_slot(o, cap, i, k + 1);
        if k < i - 1 {
            lemma_slots_distinct(o, cap, k, i - 1);
            assert(next[slot_at(o, cap, k) as int] == slot_at(o, cap, k + 1));
        } else if k >= i {
            lemma_slots_distinct(o, cap, i - 1, k + 1);
            assert(next[slot_at(o, cap, k + 1) as int] == slot_at(o, cap, k + 2));
        }
    }
}

proof fn lemma_unlink_prev(o: Seq<usize>, cap: usize, prev: Seq<usize>, p: usize, n: usize, i: int)
    requires
        slots_ok(o, cap),
        forall|k: int|
            0 <= k <= o.len() ==> prev[#[trigger] slot_at(o, cap, k) as int] == slot_at(o, cap, k - 1),
        prev.len() == cap + 1,
        0 <= i < o.len(),
        p == slot_at(o, cap, i - 1),
        n == slot_at(o, cap, i + 1),
    ensures
        forall|k: int|
            0 <= k <= o.remove(i).len() ==> prev.update(n as int, p)[#[trigger] slot_at(
                o.remove(i),
                cap,
                k,
            ) as int] == slot_at(o.remove(i), cap, k - 1),
{
    let o2 = o.remove(i);
    let prev2 = prev.update(n as int, p);
    assert forall|k: int| 0 <= k <= o2.len() implies prev2[#[trigger] slot_at(o2, cap, k) as int]
        == slot_at(o2, cap, k - 1) by {
        lemma_remove_slot(o, cap, i, k);
        lemma_remove_slot(o, cap, i, k - 1);
        if k < i {
            lemma_slots_distinct(o, cap, k, i + 1);
            assert(prev[slot_at(o, cap, k) as int] == slot_at(o, cap, k - 1));
        } else if k > i {
            lemma_slots_distinct(o, cap, i + 1, k + 1);
            assert(prev[slot_at(o, cap, k + 1) as int] == slot_at(o, cap, k));
        }
    }
}

proof fn lemma_slots_distinct(o: Seq<usize>, cap: usize, a: int, b: int)
    requires
        distinct_handles(o),
        forall|k: int| 0 <= k < o.len() ==> o[k] < cap,
        -1 <= a < b <= o.len(),
        !(a == -1 && b == o.len()),
    ensures
        slot_at(o, cap, a) != slot_at(o, cap, b),
{
}

impl View for PostedQueue {
    type V = Seq<usize>;

    closed spec fn view(&self) -> Seq<usize> {
        self.order@
    }
}

impl PostedQueue {
    /// Number of handle slots.
    pub closed spec fn cap(&self) -> usize {
        self.posted@.len() as usize
    }

    /// The invariant of the queue: the links follow the queued handles in
    /// order, in both directions, and a slot is flagged exactly when queued.
    pub closed spec fn wf(&self) -> bool {
        let cap = self.posted@.len();
        let o = self.order@;
        &&& cap < usize::MAX
        &&& self.next@.len() == cap + 1
        &&& self.prev@.len() == cap + 1
        &&& slots_ok(o, cap as usize)
        &&& forall|h: int| 0 <= h < cap ==> self.posted@[h] == o.contains(h as usize)
        &&& links_ok(o, cap as usize, self.next@, self.prev@)
    }

    /// An empty queue with slots for the handles `0..capacity`.
    pub fn new(capacity: usize) -> (r: PostedQueue)
        requires
            capacity < usize::MAX,
        ensures
            r.wf(),
            r.cap() == capacity,
            r@ == Seq::<usize>::empty(),
    {
        let mut next: Vec<usize> = Vec::new();
        let mut prev: Vec<usize> = Vec::new();
        let mut posted: Vec<bool> = Vec::new();
        let mut i: usize = 0;
        while i < capacity
            invariant
                i <= capacity,
                next@.len() == i,
                prev@.len() == i,
                posted@.len() == i,
                forall|h: int| 0 <= h < i ==> !posted@[h],
            decreases capacity - i,
        {
            next.push(capacity);
            prev.push(capacity);
            posted.push(false);
            i += 1;
        }
        next.push(capacity);
        prev.push(capacity);
        let r = PostedQueue { next, prev, posted, order: Ghost(Seq::empty()) };
        proof {
            assert(slot_at(Seq::<usize>::empty(), capacity, -1) == capacity);
            assert(slot_at(Seq::<usize>::empty(), capacity, 0) == capacity);
        }
        r
    }

    /// Number of handle slots.
    pub fn capacity(&self) -> (r: usize)
        requires
            self.wf(),
        ensures
            r == self.cap(),
    {
        self.posted.len()
    }

    /// No handle is queued.
    pub fn is_empty(&self) -> (r: bool)
        requires
            self.wf(),
        ensures
            r == (self@.len() == 0),
    {
        let cap = self.posted.len();
        proof {
            assert(slot_at(self@, cap, -1) == cap);
            assert(self.next@[slot_at(self@, cap, -1) as int] == slot_at(self@, cap, 0));
            if self@.len() > 0 {
                assert(self@[0] < cap);
            }
        }
        self.next[cap] == cap
    }

    /// Is `handle` queued?
    pub fn is_posted(&self, handle: usize) -> (r: bool)
        requires
            self.wf(),
            handle < self.cap(),
        ensures
            r == self@.contains(handle),
    {
        self.posted[handle]
    }

    /// Appends `handle` to the tail of the queue unless it is queued already.
    pub fn post_to_queue(&mut self, handle: usize)
        requires
            old(self).wf(),
            handle < old(self).cap(),
        ensures
            final(self).wf(),
            final(self).cap() == old(self).cap(),
            final(self)@ == after_post(old(self)@, handle),
    {
        if self.posted[handle] {
            return;
        }
        let cap = self.posted.len();
        let ghost o = self.order@;
        let ghost n = o.len() as int;
        let ghost o2 = o.push(handle);
        proof {
            lemma_link_append(o, cap, self.next@, self.prev@, handle);
        }
        let tail = self.prev[cap];
        self.next.set(tail, handle);
        self.prev.set(handle, tail);
        self.next.set(handle, cap);
        self.prev.set(cap, handle);
        self.posted.set(handle, true);
        self.order = Ghost(o2);
        proof {
            assert forall|h: int| 0 <= h < cap implies self.posted@[h] == o2.contains(h as usize) by {
                if o2.contains(h as usize) && h != handle {
                    let k = choose|k: int| 0 <= k < o2.len() && o2[k] == h as usize;
                    assert(o[k] == h);
                }
                if o.contains(h as usize) {
                    let k = choose|k: int| 0 <= k < o.len() && o[k] == h as usize;
                    assert(o2[k] == h);
                }
                if h == handle {
                    assert(o2[n] == handle);
                }
            }
        }
    }

    /// Takes `handle` out of the queue, wherever it stands; a handle that is
    /// not queued is left alone.
    pub fn delete_posted_event(&mut self, handle: usize)
        requires
            old(self).wf(),
            handle < old(self).cap(),
        ensures
            final(self).wf(),
            final(self).cap() == old(self).cap(),
            final(self)@ == after_unpost(old(self)@, handle),
    {
        let ghost o = self.order@;
        if !self.posted[handle] {
            proof {
                lemma_filter_keeps_all(o, handle);
            }
            return;
        }
        let cap = self.posted.len();
        let ghost i = choose|i: int| 0 <= i < o.len() && o[i] == handle;
        let ghost o2 = o.remove(i);
        proof {
            lemma_link_remove(o, cap, self.next@, self.prev@, i);
        }
        let p = self.prev[handle];
        let n = self.next[handle];
        self.next.set(p, n);
        self.prev.set(n, p);
        self.posted.set(handle, false);
        self.order = Ghost(o2);
        proof {
            assert forall|h: int| 0 <= h < cap implies self.posted@[h] == o2.contains(h as usize) by {
                if o2.contains(h as usize) {
                    let k = choose|k: int| 0 <= k < o2.len() && o2[k] == h as usize;
                    let k2 = if k < i { k } else { k + 1 };
                    assert(o2[k] == o[k2]);
                    assert(o.contains(h as usize));
                    if h == handle {
                        assert(o[i] == o[k2]);
                    }
                }
                if o.contains(h as usize) && h != handle {
                    let k = choose|k: int| 0 <= k < o.len() && o[k] == h as usize;
                    if k < i {
                        assert(o2[k] == h);
                    } else {
                        assert(o2[k - 1] == h);
                    }
                }
            }
            lemma_filter_removes_one(o, handle, i);
        }
    }

    /// Takes every queued handle out, in the order in which they were posted.
    pub fn drain(&mut self) -> (r: Vec<usize>)
        requires
            old(self).wf(),
        ensures
            final(self).wf(),
            final(self).cap() == old(self).cap(),
            final(self)@ == Seq::<usize>::empty(),
            r@ == old(self)@,
    {
        let cap = self.posted.len();
        let ghost o = self.order@;
        let mut out: Vec<usize> = Vec::new();
        let mut cur = self.next[cap];
        let ghost mut i: int = 0;
        proof {
            assert(slot_at(o, cap, -1) == cap);
            assert(self.next@[slot_at(o, cap, -1) as int] == slot_at(o, cap, 0));
        }
        while cur != cap
            invariant
                old(self).wf(),
                self.next@ == old(self).next@,
                self.prev@ == old(self).prev@,
                self.order@ == o,
                o == old(self).order@,
                cap == self.posted@.len(),
                cap == old(self).posted@.len(),
                0 <= i <= o.len(),
                cur == slot_at(o, cap, i),
                out@ == o.take(i),
                forall|h: int|
                    0 <= h < cap ==> self.posted@[h] == (old(self).posted@[h] && !o.take(
                        i,
                    ).contains(h as usize)),
            decreases o.len() - i,
        {
            proof {
                if i >= o.len() {
                    assert(slot_at(o, cap, i) == cap);
                    assert(false);
                }
                assert(self.next@[slot_at(o, cap, i) as int] == slot_at(o, cap, i + 1));
            }
            out.push(cur);
            self.posted.set(cur, false);
            cur = self.next[cur];
            proof {
                let t0 = o.take(i);
                let t1 = o.take(i + 1);
                assert(t1 =~= t0.push(o[i]));
                assert forall|h: int| 0 <= h < cap implies self.posted@[h] == (old(
                    self,
                ).posted@[h] && !t1.contains(h as usize)) by {
                    if t0.contains(h as usize) {
                        let k = choose|k: int| 0 <= k < t0.len() && t0[k] == h as usize;
                        assert(t1[k] == h);
                    }
                    if t1.contains(h as usize) && h != o[i] {
                        let k = choose|k: int| 0 <= k < t1.len() && t1[k] == h as usize;
                        assert(t0[k] == h);
                    }
                    if h == o[i] {
                        assert(t1[i] == h);
                    }
                }
                i = i + 1;
            }
        }
        proof {
            if i < o.len() {
                assert(o[i] < cap);
            }
            assert(o.take(i) =~= o);
        }
        self.next.set(cap, cap);
        self.prev.set(cap, cap);
        self.order = Ghost(Seq::empty());
        proof {
            let e = Seq::<usize>::empty();
            assert(slot_at(e, cap, -1) == cap);
            assert(slot_at(e, cap, 0) == cap);
            assert forall|h: int| 0 <= h < cap implies !self.posted@[h] by {}
        }
        out
    }
}

proof fn lemma_filter_keeps_all(o: Seq<usize>, h: usize)
    requires
        !o.contains(h),
    ensures
        after_unpost(o, h) == o,
    decreases o.len(),
{
    reveal(Seq::filter);
    if o.len() > 0 {
        let p = o.drop_last();
        assert(!p.contains(h)) by {
            if p.contains(h) {
                let k = choose|k: int| 0 <= k < p.len() && p[k] == h;
                assert(o[k] == h);
            }
        }
        lemma_filter_keeps_all(p, h);
        assert(o.last() != h);
        assert(o =~= p.push(o.last()));
    }
}

proof fn lemma_filter_removes_one(o: Seq<usize>, h: usize, i: int)
    requires
        distinct_handles(o),
        0 <= i < o.len(),
        o[i] == h,
    ensures
        after_unpost(o, h) == o.remove(i),
    decreases o.len(),
{
    reveal(Seq::filter);
    let p = o.drop_last();
    assert(o =~= p.push(o.last()));
    if i == o.len() - 1 {
        assert(!p.contains(h)) by {
            if p.contains(h) {
                let k = choose|k: int| 0 <= k < p.len() && p[k] == h;
                assert(o[k] == h);
            }
        }
        lemma_filter_keeps_all(p, h);
        assert(o.remove(i) =~= p);
    } else {
        assert(distinct_handles(p));
        lemma_filter_removes_one(p, h, i);
        assert(o.last() != h);
        assert(o.remove(i) =~= p.remove(i).push(o.last()));
    }
}

/// Posting a handle a second time before the queue is drained changes
/// nothing: the handle stands in the queue, and so in what a drain returns,
/// exactly once.
pub proof fn lemma_post_idempotent(o: Seq<usize>, h: usize)
    requires
        distinct_handles(o),
    ensures
        after_post(after_post(o, h), h) == after_post(o, h),
        after_post(o, h).contains(h),
        forall|i: int, j: int|
            0 <= i < j < after_post(o, h).len() && after_post(o, h)[i] == h ==> after_post(
                o,
                h,
            )[j] != h,
{
    let q = after_post(o, h);
    if !o.contains(h) {
        assert(q[o.len() as int] == h);
        assert forall|i: int, j: int| 0 <= i < j < q.len() && q[i] == h implies q[j] != h by {
            assert(o[i] == h);
            assert(o.contains(h));
        }
    }
    assert(q.contains(h));
}

} // verus!
