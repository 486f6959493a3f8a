use vstd::prelude::*;

verus! {

/// A forward-only walk over an index-addressable host collection.
///
/// It hands out the indices to fetch, one per step, while the index is below
/// the collection's length as read at that step. Once it reports the end, or
/// when there is no collection, it stays at the end.
#[derive(Clone, Copy, Debug, PartialEq, Eq, Structural)]
pub struct ElementSeq {
    pub index: u64,
    pub has_list: bool,
    pub done: bool,
}

/// One step on a collection whose length now reads `len`: the next state and
/// the index handed out, if any.
pub open spec fn step(s: ElementSeq, len: u64) -> (ElementSeq, Option<u64>) {
    if s.done || !s.has_list || s.index >= len {
        (ElementSeq { done: true, ..s }, None)
    } else {
        (ElementSeq { index: (s.index + 1) as u64, ..s }, Some(s.index))
    }
}

/// `k` steps on a collection of fixed length `len`: the final state and what
/// each step handed out.
pub open spec fn run(s: ElementSeq, len: u64, k: nat) -> (ElementSeq, Seq<Option<u64>>)
    decreases k,
{
    if k == 0 {
        (s, Seq::empty())
    } else {
        let (s1, o) = step(s, len);
        let (s2, os) = run(s1, len, (k - 1) as nat);
        (s2, seq![o] + os)
    }
}

/// The state of a fresh walk.
pub open spec fn start(has_list: bool) -> ElementSeq {
    ElementSeq { index: 0, has_list, done: false }
}

impl ElementSeq {
    /// A fresh walk; `has_list` tells whether the host gave a collection.
    pub fn new(has_list: bool) -> (r: ElementSeq)
        ensures
            r == start(has_list),
    {
        ElementSeq { index: 0, has_list, done: false }
    }

    /// Advances the walk on a collection whose length now reads `len`.
    pub fn next_index(&mut self, len: u64) -> (r: Option<u64>)
        ensures
            (*final(self), r) == step(*old(self), len),
    {
        if self.done || !self.has_list || self.index >= len {
            self.done = true;
            None
        } else {
            let i = self.index;
            self.index = i + 1;
            Some(i)
        }
    }

    /// Whether the walk has reached its end for good.
    pub fn is_done(&self) -> (r: bool)
        ensures
            r == self.done,
    {
        self.done
    }
}

proof fn lemma_finished_stays(s: ElementSeq, len: u64, m: nat)
    requires
        s.done,
    ensures
        run(s, len, m).0 == s,
        run(s, len, m).1 == Seq::new(m, |i: int| None::<u64>),
    decreases m,
{
    if m > 0 {
        lemma_finished_stays(s, len, (m - 1) as nat);
        assert(run(s, len, m).1 =~= Seq::new(m, |i: int| None::<u64>));
    }
}

proof fn lemma_from_index(s: ElementSeq, len: u64, m: nat)
    requires
        s.has_list,
        !s.done,
        s.index <= len,
    ensures
        run(s, len, (len - s.index) as nat + m).1 == Seq::new(
            (len - s.index) as nat + m,
            |i: int| if i < len - s.index { Some((s.index + i) as u64) } else { None },
        ),
    decreases len - s.index,
{
    let n = (len - s.index) as nat;
    let expected = Seq::new(
        n + m,
        |i: int| if i < len - s.index { Some((s.index + i) as u64) } else { None },
    );
    if s.index == len {
        let (s1, o) = step(s, len);
        if m > 0 {
            lemma_finished_stays(s1, len, (m - 1) as nat);
            assert(run(s, len, m).1 =~= expected);
        } else {
            assert(run(s, len, 0).1 =~= expected);
        }
    } else {
        let (s1, o) = step(s, len);
        lemma_from_index(s1, len, m);
        assert(run(s, len, n + m).1 =~= expected);
    }
}

/// A walk over a collection of length `n` hands out `0, 1, ..., n - 1` in
/// order and then nothing more, however often it is advanced.
pub proof fn lemma_walk_yields_each_index(n: u64, m: nat)
    ensures
        run(start(true), n, n as nat + m).1 == Seq::new(
            n as nat + m,
            |i: int| if i < n { Some(i as u64) } else { None },
        ),
        forall|extra: nat|
            #![trigger run(run(start(true), n, n as nat + 1).0, n, extra)]
            run(run(start(true), n, n as nat + 1).0, n, extra).1 == Seq::new(
                extra,
                |i: int| None::<u64>,
            ),
{
    lemma_from_index(start(true), n, m);
    assert(run(start(true), n, n as nat + m).1 =~= Seq::new(
        n as nat + m,
        |i: int| if i < n { Some(i as u64) } else { None },
    ));
    lemma_run_ends_done(start(true), n);
    assert forall|extra: nat|
        #![trigger run(run(start(true), n, n as nat + 1).0, n, extra)]
        run(run(start(true), n, n as nat + 1).0, n, extra).1 == Seq::new(
            extra,
            |i: int| None::<u64>,
        ) by {
        lemma_finished_stays(run(start(true), n, n as nat + 1).0, n, extra);
    }
}

proof fn lemma_run_ends_done_from(s: ElementSeq, len: u64)
    requires
        s.has_list,
        !s.done,
        s.index <= len,
    ensures
        run(s, len, (len - s.index) as nat + 1).0.done,
    decreases len - s.index,
{
    let (s1, o) = step(s, len);
    if s.index < len {
        lemma_run_ends_done_from(s1, len);
        assert((len - s1.index) as nat + 1 == (len - s.index) as nat);
    } else {
        assert(run(s1, len, 0).0 == s1);
    }
}

proof fn lemma_run_ends_done(s: ElementSeq, len: u64)
    requires
        s == start(true),
    ensures
        run(s, len, len as nat + 1).0.done,
{
    lemma_run_ends_done_from(s, len);
}

/// Without a collection the walk hands out nothing.
pub proof fn lemma_absent_list_yields_nothing(len: u64, m: nat)
    ensures
        run(start(false), len, m).1 == Seq::new(m, |i: int| None::<u64>),
{
    if m > 0 {
        let (s1, o) = step(start(false), len);
        lemma_finished_stays(s1, len, (m - 1) as nat);
        assert(run(start(false), len, m).1 =~= Seq::new(m, |i: int| None::<u64>));
    }
}

} // verus!
