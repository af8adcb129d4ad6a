//! The work queue that the workers drain: each identifier is taken out
//! exactly once, the last one in first.
use vstd::prelude::*;

verus! {

/// A queue of repository identifiers, taken from the back.
pub struct WorkQueue {
    items: Vec<String>,
    /// Every identifier the queue was made with, in order.
    initial: Ghost<Seq<String>>,
    /// Every identifier taken so far, in the order it was taken.
    taken: Ghost<Seq<String>>,
}

impl WorkQueue {
    /// The identifiers still waiting, the next one to go last.
    pub closed spec fn pending(&self) -> Seq<String> {
        self.items@
    }

    /// The identifiers the queue was made with.
    pub closed spec fn initial(&self) -> Seq<String> {
        self.initial@
    }

    /// The identifiers taken so far, in the order they were taken.
    pub closed spec fn taken(&self) -> Seq<String> {
        self.taken@
    }

    /// What is waiting together with what was taken (in reverse) is what the
    /// queue was made with.
    pub closed spec fn wf(&self) -> bool {
        self.initial@ == self.items@ + self.taken@.reverse()
    }

    /// A queue holding `repos`, none taken yet.
    pub fn new(repos: Vec<String>) -> (r: WorkQueue)
        ensures
            r.wf(),
            r.pending() == repos@,
            r.initial() == repos@,
            r.taken() == Seq::<String>::empty(),
    {
        let ghost all = repos@;
        let r = WorkQueue { items: repos, initial: Ghost(all), taken: Ghost(Seq::empty()) };
        assert(r.items@ + r.taken@.reverse() =~= all);
        r
    }

    /// How many identifiers are waiting.
    pub fn len(&self) -> (r: usize)
        ensures
            r == self.pending().len(),
    {
        self.items.len()
    }

    /// Whether no identifier is waiting.
    pub fn is_empty(&self) -> (r: bool)
        ensures
            r == (self.pending().len() == 0),
    {
        self.items.len() == 0
    }

    /// Takes the last identifier waiting, or observes that none is left.
    pub fn take(&mut self) -> (r: Option<String>)
        requires
            old(self).wf(),
        ensures
            final(self).wf(),
            final(self).initial() == old(self).initial(),
            old(self).pending().len() == 0 ==> r is None && *final(self) == *old(self),
            old(self).pending().len() > 0 ==> r == Some(old(self).pending().last())
                && final(self).pending() == old(self).pending().drop_last()
                && final(self).taken() == old(self).taken().push(old(self).pending().last()),
    {
        if self.items.len() == 0 {
            return None;
        }
        let ghost before = self.items@;
        let ghost done = self.taken@;
        let repo = self.items.pop().unwrap();
        self.taken = Ghost(done.push(repo));
        proof {
            assert(done.push(repo).reverse() =~= seq![repo] + done.reverse());
            assert(before =~= self.items@.push(repo));
            assert(self.items@ + self.taken@.reverse() =~= before + done.reverse());
        }
        Some(repo)
    }
}

/// Every identifier is taken exactly once: once the queue is drained, what
/// was taken holds each identifier as often as the queue was made with it,
/// and as many identifiers were taken as were given.
pub proof fn lemma_drained_exactly_once(q: WorkQueue)
    requires
        q.wf(),
        q.pending().len() == 0,
    ensures
        q.taken().to_multiset() == q.initial().to_multiset(),
        q.taken().len() == q.initial().len(),
{
    assert(q.initial() =~= q.taken().reverse());
    q.taken().lemma_reverse_to_multiset();
}

/// What is taken comes out last-in first-out: the identifiers taken so far
/// are the last ones given, in reverse order. A single worker thus
/// processes `[A, B, C]` as `C, B, A`.
pub proof fn lemma_taken_in_reverse(q: WorkQueue)
    requires
        q.wf(),
    ensures
        q.taken() == q.initial().subrange(q.pending().len() as int, q.initial().len() as int).reverse(),
{
    let p = q.pending().len() as int;
    assert(q.initial().subrange(p, q.initial().len() as int) =~= q.taken().reverse());
    assert(q.taken().reverse().reverse() =~= q.taken());
}

} // verus!
