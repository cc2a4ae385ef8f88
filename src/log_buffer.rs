use vstd::prelude::*;

verus! {

/// Number of log lines the dashboard keeps by default.
pub const LOG_CAPACITY: usize = 100;

/// The last `n` elements of `s` (all of `s` when it is no longer than `n`).
pub open spec fn keep_last(s: Seq<String>, n: nat) -> Seq<String> {
    if s.len() <= n {
        s
    } else {
        s.subrange(s.len() - n, s.len() as int)
    }
}

/// Contents of a buffer of capacity `cap` holding `s` after one line arrives.
pub open spec fn appended(s: Seq<String>, line: String, cap: nat) -> Seq<String> {
    keep_last(s.push(line), cap)
}

/// Contents of a buffer of capacity `cap` holding `s` after `lines` arrive in order.
pub open spec fn appended_all(s: Seq<String>, lines: Seq<String>, cap: nat) -> Seq<String>
    decreases lines.len(),
{
    if lines.len() == 0 {
        s
    } else {
        appended(appended_all(s, lines.drop_last(), cap), lines.last(), cap)
    }
}

/// A fixed-capacity, ordered log of text lines that evicts its oldest line
/// when a new one would exceed the capacity.
pub struct BoundedLogBuffer {
    lines: Vec<String>,
    capacity: usize,
}

impl View for BoundedLogBuffer {
    type V = Seq<String>;

    closed spec fn view(&self) -> Seq<String> {
        self.lines@
    }
}

impl BoundedLogBuffer {
    /// The capacity the buffer was created with.
    pub closed spec fn cap(&self) -> nat {
        self.capacity as nat
    }

    /// Well-formedness: never more lines than the capacity.
    pub closed spec fn wf(&self) -> bool {
        self.lines@.len() <= self.capacity
    }

    /// An empty buffer that keeps at most `capacity` lines.
    pub fn new(capacity: usize) -> (r: Self)
        ensures
            r.wf(),
            r@ == Seq::<String>::empty(),
            r.cap() == capacity,
    {
        BoundedLogBuffer { lines: Vec::new(), capacity }
    }

    /// Appends `line`; the oldest line is evicted when the capacity would be exceeded.
    pub fn append(&mut self, line: String)
        requires
            old(self).wf(),
        ensures
            final(self).wf(),
            final(self).cap() == old(self).cap(),
            final(self)@ == appended(old(self)@, line, old(self).cap()),
    {
        self.lines.push(line);
        if self.lines.len() > self.capacity {
            let _ = self.lines.remove(0);
            assert(self.lines@ =~= keep_last(old(self).lines@.push(line), self.capacity as nat));
        }
    }

    /// The current lines, oldest first; the buffer is left as it is.
    pub fn snapshot(&self) -> (r: Vec<String>)
        ensures
            r@ == self@,
    {
        let mut out: Vec<String> = Vec::new();
        let mut i: usize = 0;
        while i < self.lines.len()
            invariant
                i <= self.lines@.len(),
                out@ == self.lines@.subrange(0, i as int),
            decreases self.lines@.len() - i,
        {
            out.push(self.lines[i].clone());
            i += 1;
            assert(out@ =~= self.lines@.subrange(0, i as int));
        }
        assert(out@ =~= self.lines@);
        out
    }

    /// Number of lines held.
    pub fn len(&self) -> (r: usize)
        ensures
            r == self@.len(),
    {
        self.lines.len()
    }

    /// The capacity the buffer was created with.
    pub fn capacity(&self) -> (r: usize)
        ensures
            r == self.cap(),
    {
        self.capacity
    }
}

/// Trimming to the last `n` and then adding one line, then trimming again,
/// is the same as adding the line and trimming once.
proof fn lemma_keep_last_push(t: Seq<String>, x: String, n: nat)
    ensures
        keep_last(keep_last(t, n).push(x), n) == keep_last(t.push(x), n),
{
    assert(keep_last(keep_last(t, n).push(x), n) =~= keep_last(t.push(x), n));
}

/// Bounded retention: starting from any well-formed contents, after every
/// sequence of appends the buffer holds at most `cap` lines, and they are
/// exactly the most recent `cap` lines of everything seen, in arrival order.
pub proof fn lemma_retains_most_recent(s: Seq<String>, lines: Seq<String>, cap: nat)
    requires
        s.len() <= cap,
    ensures
        appended_all(s, lines, cap).len() <= cap,
        appended_all(s, lines, cap) == keep_last(s + lines, cap),
    decreases lines.len(),
{
    if lines.len() == 0 {
        assert(s + lines =~= s);
    } else {
        let prev = lines.drop_last();
        lemma_retains_most_recent(s, prev, cap);
        lemma_keep_last_push(s + prev, lines.last(), cap);
        assert((s + prev).push(lines.last()) =~= s + lines);
    }
}

/// Appending more lines than the capacity leaves exactly the last `cap` of
/// them, whatever the buffer held before.
pub proof fn lemma_overflow_keeps_last(s: Seq<String>, lines: Seq<String>, cap: nat)
    requires
        s.len() <= cap,
        lines.len() >= cap,
    ensures
        appended_all(s, lines, cap) == lines.subrange(lines.len() - cap, lines.len() as int),
{
    lemma_retains_most_recent(s, lines, cap);
    assert(keep_last(s + lines, cap) =~= lines.subrange(lines.len() - cap, lines.len() as int));
}

} // verus!
