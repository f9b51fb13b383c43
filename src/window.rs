//! Fixed-capacity sliding window of samples, oldest first.

use vstd::prelude::*;

verus! {

/// Contents of a window after `v` is pushed into a window holding `s`:
/// the oldest value leaves and `v` becomes the newest. An empty window stays empty.
pub open spec fn pushed(s: Seq<u64>, v: u64) -> Seq<u64> {
    if s.len() == 0 {
        s
    } else {
        s.drop_first().push(v)
    }
}

/// Contents of a window holding `s` after each value of `vals` is pushed, in order.
pub open spec fn pushed_all(s: Seq<u64>, vals: Seq<u64>) -> Seq<u64>
    decreases vals.len(),
{
    if vals.len() == 0 {
        s
    } else {
        pushed(pushed_all(s, vals.drop_last()), vals.last())
    }
}

/// Pushing never changes how many samples a window holds; a non-empty window
/// holds the newest of its old samples followed by every value pushed, and
/// nothing else.
pub proof fn lemma_pushed_all_keeps_newest(s: Seq<u64>, vals: Seq<u64>)
    ensures
        pushed_all(s, vals).len() == s.len(),
        s.len() > 0 ==> pushed_all(s, vals) == (s + vals).subrange(
            vals.len() as int,
            (s.len() + vals.len()) as int,
        ),
    decreases vals.len(),
{
    if vals.len() > 0 {
        lemma_pushed_all_keeps_newest(s, vals.drop_last());
        if s.len() > 0 {
            let prev = vals.drop_last();
            assert((s + vals).subrange(vals.len() as int, (s.len() + vals.len()) as int) =~= (s
                + prev).subrange(prev.len() as int, (s.len() + prev.len()) as int).drop_first().push(
                vals.last(),
            ));
        }
    }
}

/// Whatever a window held before, once at least as many values as its capacity
/// have been pushed it holds exactly the last `capacity` of them, in the order
/// they were pushed.
pub proof fn lemma_window_holds_last_pushed(s: Seq<u64>, vals: Seq<u64>)
    requires
        vals.len() >= s.len(),
    ensures
        pushed_all(s, vals).len() == s.len(),
        pushed_all(s, vals) == vals.subrange(vals.len() - s.len(), vals.len() as int),
{
    lemma_pushed_all_keeps_newest(s, vals);
    if s.len() > 0 {
        assert((s + vals).subrange(vals.len() as int, (s.len() + vals.len()) as int) =~= vals.subrange(
            vals.len() - s.len(),
            vals.len() as int,
        ));
    } else {
        assert(pushed_all(s, vals) =~= vals.subrange(vals.len() - s.len(), vals.len() as int));
    }
}

/// A ring buffer of `u64` samples whose length never changes after construction.
/// `head` is the slot of the oldest sample.
pub struct Window {
    buf: Vec<u64>,
    head: usize,
}

impl Window {
    #[verifier::type_invariant]
    spec fn inv(&self) -> bool {
        self.buf@.len() == 0 || self.head < self.buf@.len()
    }

    /// Slot of the buffer that holds the `i`-th oldest sample.
    spec fn slot(&self, i: int) -> int {
        if self.head + i < self.buf@.len() {
            self.head + i
        } else {
            self.head + i - self.buf@.len()
        }
    }
}

impl View for Window {
    type V = Seq<u64>;

    /// The samples in chronological order, oldest first.
    closed spec fn view(&self) -> Seq<u64> {
        Seq::new(self.buf@.len(), |i: int| self.buf@[self.slot(i)])
    }
}

impl Window {
    /// A window of `capacity` samples, all zero.
    pub fn new(capacity: usize) -> (r: Window)
        ensures
            r@ == Seq::new(capacity as nat, |_i: int| 0u64),
    {
        let mut buf: Vec<u64> = Vec::with_capacity(capacity);
        let mut i: usize = 0;
        while i < capacity
            invariant
                i <= capacity,
                buf@ == Seq::new(i as nat, |_j: int| 0u64),
            decreases capacity - i,
        {
            buf.push(0);
            i = i + 1;
        }
        let r = Window { buf, head: 0 };
        assert(r@ =~= Seq::new(capacity as nat, |_i: int| 0u64));
        r
    }

    /// The fixed number of samples the window holds.
    pub fn capacity(&self) -> (r: usize)
        ensures
            r == self@.len(),
    {
        self.buf.len()
    }

    /// Appends `v` as the newest sample and drops the oldest one, in constant time.
    pub fn push(&mut self, v: u64)
        ensures
            final(self)@ == pushed(old(self)@, v),
        no_unwind
    {
        proof {
            use_type_invariant(&*self);
        }
        let ghost before = self@;
        let n = self.buf.len();
        if n > 0 {
            let h = self.head;
            self.buf[h] = v;
            if h + 1 == n {
                self.head = 0;
            } else {
                self.head = h + 1;
            }
            assert(self@ =~= pushed(before, v));
        }
    }

    /// The sample `i` places after the oldest one.
    pub fn get(&self, i: usize) -> (r: u64)
        requires
            i < self@.len(),
        ensures
            r == self@[i as int],
    {
        proof {
            use_type_invariant(self);
        }
        let n = self.buf.len();
        if i < n - self.head {
            self.buf[self.head + i]
        } else {
            self.buf[i - (n - self.head)]
        }
    }

    /// The newest sample, if the window holds any.
    pub fn last(&self) -> (r: Option<u64>)
        ensures
            self@.len() == 0 ==> r is None,
            self@.len() > 0 ==> r == Some(self@.last()),
    {
        let n = self.buf.len();
        if n == 0 {
            None
        } else {
            Some(self.get(n - 1))
        }
    }

    /// The samples in chronological order, oldest first.
    pub fn values(&self) -> (r: Vec<u64>)
        ensures
            r@ == self@,
    {
        let n = self.buf.len();
        let mut out: Vec<u64> = Vec::with_capacity(n);
        let mut i: usize = 0;
        while i < n
            invariant
                n == self@.len(),
                i <= n,
                out@ == self@.subrange(0, i as int),
            decreases n - i,
        {
            out.push(self.get(i));
            i = i + 1;
        }
        assert(out@ =~= self@);
        out
    }
}

} // verus!
