//! Bounded, first-in first-out scrollback history.

use vstd::prelude::*;

verus! {

/// Number of lines the console history keeps by default.
pub const MAX_HISTORY: usize = 1000;

/// The last `cap` elements of `s` (all of `s` when it is shorter).
pub open spec fn keep_last<T>(s: Seq<T>, cap: nat) -> Seq<T> {
    if s.len() <= cap {
        s
    } else {
        s.subrange(s.len() - cap, s.len() as int)
    }
}

/// An ordered sequence of lines holding at most `capacity` of them; appending
/// beyond that evicts the oldest lines first.
pub struct LineHistory<T> {
    lines: Vec<T>,
    capacity: usize,
}

impl<T> View for LineHistory<T> {
    type V = Seq<T>;

    closed spec fn view(&self) -> Seq<T> {
        self.lines@
    }
}

impl<T> LineHistory<T> {
    /// The bound this history was made with.
    pub closed spec fn cap(&self) -> nat {
        self.capacity as nat
    }

    /// The stored lines never exceed the bound.
    pub closed spec fn wf(&self) -> bool {
        self.lines@.len() <= self.capacity
    }

    /// An empty history holding at most `MAX_HISTORY` lines.
    pub fn new() -> (r: Self)
        ensures
            r.wf(),
            r@ == Seq::<T>::empty(),
            r.cap() == MAX_HISTORY,
    {
        Self::with_capacity(MAX_HISTORY)
    }

    /// An empty history holding at most `capacity` lines.
    pub fn with_capacity(capacity: usize) -> (r: Self)
        ensures
            r.wf(),
            r@ == Seq::<T>::empty(),
            r.cap() == capacity,
    {
        LineHistory { lines: Vec::new(), capacity }
    }

    /// The maximum number of lines kept.
    pub fn capacity(&self) -> (r: usize)
        ensures
            r == self.cap(),
    {
        self.capacity
    }

    /// Number of lines currently held.
    pub fn len(&self) -> (r: usize)
        ensures
            r == self@.len(),
    {
        self.lines.len()
    }

    /// The lines held, oldest first.
    pub fn lines(&self) -> (r: &Vec<T>)
        ensures
            r@ == self@,
    {
        &self.lines
    }

    /// Appends `new_lines` in order, then drops lines from the front until at
    /// most `capacity` remain.
    pub fn push(&mut self, new_lines: Vec<T>)
        requires
            old(self).wf(),
        ensures
            final(self).wf(),
            final(self).cap() == old(self).cap(),
            final(self)@ == keep_last(old(self)@ + new_lines@, old(self).cap()),
    {
        let mut new_lines = new_lines;
        self.lines.append(&mut new_lines);
        let len = self.lines.len();
        if len > self.capacity {
            let kept = self.lines.split_off(len - self.capacity);
            self.lines = kept;
        }
    }
}

/// Every history that pushes produce holds at most `cap` lines, and those are
/// the newest ones in order: the lines that leave are the oldest.
pub proof fn lemma_bounded_fifo<T>(s: Seq<T>, cap: nat)
    ensures
        keep_last(s, cap).len() <= cap,
        keep_last(s, cap).len() == if s.len() <= cap { s.len() } else { cap },
        keep_last(s, cap) =~= s.subrange(s.len() - keep_last(s, cap).len(), s.len() as int),
{
}

/// Two pushes in a row keep what one push of both batches keeps: after any
/// sequence of pushes the history is the newest `cap` of all lines appended.
pub proof fn lemma_push_push<T>(s: Seq<T>, a: Seq<T>, b: Seq<T>, cap: nat)
    ensures
        keep_last(keep_last(s + a, cap) + b, cap) =~= keep_last(s + a + b, cap),
{
    let t = s + a;
    let k = keep_last(t, cap);
    let all = t + b;
    assert(all =~= s + a + b);
    if t.len() > cap {
        let r = keep_last(k + b, cap);
        let q = keep_last(all, cap);
        assert(r.len() == q.len());
        assert forall|i: int| 0 <= i < r.len() implies r[i] == q[i] by {
            if k.len() + b.len() > cap {
                let j = i + (k.len() + b.len() - cap);
                if j < k.len() {
                    assert(r[i] == k[j]);
                } else {
                    assert(r[i] == b[j - k.len()]);
                }
            }
        }
    }
}

/// Pushing at most `cap` lines into an empty history reads back exactly those
/// lines, in order.
pub proof fn lemma_push_within_capacity<T>(new_lines: Seq<T>, cap: nat)
    requires
        new_lines.len() <= cap,
    ensures
        keep_last(Seq::<T>::empty() + new_lines, cap) == new_lines,
{
    assert(Seq::<T>::empty() + new_lines =~= new_lines);
}

} // verus!
