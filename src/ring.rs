//! A fixed-capacity, insertion-ordered store of recent output lines.
use std::collections::VecDeque;
use vstd::prelude::*;

verus! {

/// How many recent output lines the application keeps for display.
pub const OUTPUT_LINES_CAPACITY: usize = 200;

/// The last `n` elements of `s`, or all of `s` when it is shorter.
pub open spec fn last_n<T>(s: Seq<T>, n: nat) -> Seq<T> {
    if s.len() <= n {
        s
    } else {
        s.subrange(s.len() - n, s.len() as int)
    }
}

/// The contents after appending `x` to `s` in a ring of capacity `cap`:
/// the oldest line goes first when the ring is full.
pub open spec fn ring_push<T>(s: Seq<T>, cap: nat, x: T) -> Seq<T> {
    last_n(s.push(x), cap)
}

/// The contents of a ring of capacity `cap`, initially empty, after
/// pushing each of `xs` in order.
pub open spec fn ring_fill<T>(cap: nat, xs: Seq<T>) -> Seq<T>
    decreases xs.len(),
{
    if xs.len() == 0 {
        Seq::empty()
    } else {
        ring_push(ring_fill(cap, xs.drop_last()), cap, xs.last())
    }
}

/// Bounded FIFO of log lines; pushing at capacity evicts the oldest line.
pub struct LogRing {
    lines: VecDeque<String>,
    capacity: usize,
}

/// The text of each line in `v`.
pub open spec fn texts(v: Seq<String>) -> Seq<Seq<char>> {
    v.map_values(|s: String| s@)
}

impl View for LogRing {
    type V = Seq<Seq<char>>;

    closed spec fn view(&self) -> Seq<Seq<char>> {
        texts(self.lines@)
    }
}

impl LogRing {
    pub closed spec fn cap(&self) -> nat {
        self.capacity as nat
    }

    pub open spec fn wf(&self) -> bool {
        self@.len() <= self.cap()
    }

    /// An empty ring that holds at most `capacity` lines.
    pub fn new(capacity: usize) -> (r: LogRing)
        ensures
            r.wf(),
            r@ == Seq::<Seq<char>>::empty(),
            r.cap() == capacity,
    {
        LogRing { lines: VecDeque::new(), capacity }
    }

    pub fn capacity(&self) -> (r: usize)
        ensures
            r == self.cap(),
    {
        self.capacity
    }

    pub fn len(&self) -> (r: usize)
        ensures
            r == self@.len(),
    {
        self.lines.len()
    }

    /// Appends `line`; when the ring is full the oldest line is removed first.
    pub fn push(&mut self, line: String)
        requires
            old(self).wf(),
        ensures
            final(self).wf(),
            final(self).cap() == old(self).cap(),
            final(self)@ == ring_push(old(self)@, old(self).cap(), line@),
    {
        let ghost before = self@;
        if self.capacity == 0 {
            return;
        }
        if self.lines.len() >= self.capacity {
            let _ = self.lines.pop_front();
        }
        self.lines.push_back(line);
        assert(self@ =~= ring_push(before, self.cap(), line@));
    }

    /// A point-in-time copy of the lines, oldest first.
    pub fn snapshot(&self) -> (r: Vec<String>)
        ensures
            texts(r@) == self@,
    {
        let mut out: Vec<String> = Vec::new();
        let n = self.lines.len();
        let mut i: usize = 0;
        while i < n
            invariant
                n == self@.len(),
                i <= n,
                texts(out@) =~= self@.subrange(0, i as int),
            decreases n - i,
        {
            let c = self.lines[i].clone();
            let ghost prev = out@;
            out.push(c);
            assert(texts(out@) =~= texts(prev).push(c@));
            assert(self@[i as int] == c@);
            i = i + 1;
        }
        assert(texts(out@) =~= self@);
        out
    }
}

proof fn lemma_last_n_push<T>(s: Seq<T>, cap: nat, x: T)
    ensures
        last_n(last_n(s, cap).push(x), cap) == last_n(s.push(x), cap),
{
    assert(last_n(last_n(s, cap).push(x), cap) =~= last_n(s.push(x), cap));
}

/// Whatever lines are pushed, the ring holds `min(N, C)` of them after `N`
/// pushes into an empty ring of capacity `C`: exactly the last `C` pushed,
/// in the order they were pushed.
pub proof fn lemma_ring_bound<T>(cap: nat, xs: Seq<T>)
    ensures
        ring_fill(cap, xs) == last_n(xs, cap),
        ring_fill(cap, xs).len() == if xs.len() < cap { xs.len() } else { cap },
    decreases xs.len(),
{
    if xs.len() > 0 {
        lemma_ring_bound(cap, xs.drop_last());
        lemma_last_n_push(xs.drop_last(), cap, xs.last());
        assert(xs.drop_last().push(xs.last()) =~= xs);
    }
}

/// Pushing `C + 1` distinct lines into an empty ring of capacity `C` evicts
/// the first line and keeps all the others in order.
pub proof fn lemma_fifo_eviction<T>(cap: nat, xs: Seq<T>)
    requires
        xs.len() == cap + 1,
        xs.no_duplicates(),
    ensures
        !ring_fill(cap, xs).contains(xs[0]),
        ring_fill(cap, xs) == xs.drop_first(),
{
    lemma_ring_bound(cap, xs);
    assert(ring_fill(cap, xs) =~= xs.drop_first());
    if ring_fill(cap, xs).contains(xs[0]) {
        let j = choose|j: int| 0 <= j < xs.drop_first().len() && xs.drop_first()[j] == xs[0];
        assert(xs[j + 1] == xs[0]);
    }
}

/// Appends `line` to a shared ring buffer of output lines.
pub fn push_log_line(buffer: &mut LogRing, line: String)
    requires
        old(buffer).wf(),
    ensures
        final(buffer).wf(),
        final(buffer).cap() == old(buffer).cap(),
        final(buffer)@ == ring_push(old(buffer)@, old(buffer).cap(), line@),
{
    buffer.push(line);
}

} // verus!
