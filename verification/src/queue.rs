//! The injection queue: the ordered collection of pending animation
//! paths that a network collaborator appends to and the scheduler
//! drains, most recently appended entry first.
//!
//! The queue itself carries no lock; the embedding program guards the
//! one shared instance with a mutex and holds the lock only across
//! single calls.

use vstd::prelude::*;

verus! {

/// An ordered collection of pending animation paths.
pub struct InjectionQueue {
    entries: Vec<String>,
}

impl View for InjectionQueue {
    type V = Seq<String>;

    closed spec fn view(&self) -> Seq<String> {
        self.entries@
    }
}

impl InjectionQueue {
    /// An empty queue.
    pub fn new() -> (q: Self)
        ensures
            q@ == Seq::<String>::empty(),
    {
        InjectionQueue { entries: Vec::new() }
    }

    /// How many paths are pending.
    pub fn len(&self) -> (n: usize)
        ensures
            n == self@.len(),
    {
        self.entries.len()
    }

    /// Whether no path is pending.
    pub fn is_empty(&self) -> (e: bool)
        ensures
            e == (self@.len() == 0),
    {
        self.entries.len() == 0
    }

    /// Append a path; the producer side of the queue.
    pub fn append(&mut self, path: String)
        ensures
            final(self)@ == old(self)@.push(path),
    {
        self.entries.push(path);
    }

    /// Remove and return the most recently appended entry, or `None` if
    /// the queue is empty — nothing to do this cycle, not an error.
    pub fn lock_and_pop_last(&mut self) -> (r: Option<String>)
        ensures
            old(self)@.len() == 0 ==> r is None && final(self)@ == old(self)@,
            old(self)@.len() > 0 ==> r == Some(old(self)@.last()) && final(self)@ == old(
                self,
            )@.drop_last(),
    {
        if self.entries.len() == 0 {
            None
        } else {
            let p = self.entries.pop().unwrap();
            Some(p)
        }
    }

    /// Drop every pending path.
    pub fn clear(&mut self)
        ensures
            final(self)@ == Seq::<String>::empty(),
    {
        self.entries.clear();
    }

    /// Append all given paths, in their order.
    pub fn extend(&mut self, paths: Vec<String>)
        ensures
            final(self)@ == old(self)@ + paths@,
    {
        let ghost initial = self@;
        let ghost all = paths@;
        let mut i: usize = 0;
        proof {
            assert(initial + all.take(0) =~= initial);
        }
        while i < paths.len()
            invariant
                0 <= i <= paths.len(),
                paths@ == all,
                self@ == initial + all.take(i as int),
            decreases paths.len() - i,
        {
            self.entries.push(paths[i].clone());
            proof {
                assert(self@ =~= initial + all.take(i + 1));
            }
            i = i + 1;
        }
        proof {
            assert(all.take(all.len() as int) =~= all);
        }
    }
}

/// The contents of a queue after `k` pops.
pub open spec fn spec_after_pops(s: Seq<String>, k: int) -> Seq<String> {
    s.take(s.len() - k)
}

/// The injection queue is last-in-first-out: after appending paths to
/// any queue, the i-th of the following pops returns the i-th path
/// from the end — the paths come back in reverse append order.
pub proof fn lemma_queue_lifo(init: Seq<String>, ps: Seq<String>, i: int)
    requires
        0 <= i < ps.len(),
    ensures
        spec_after_pops(init + ps, i).len() > 0,
        spec_after_pops(init + ps, i).last() == ps[ps.len() - 1 - i],
        spec_after_pops(init + ps, i).drop_last() == spec_after_pops(init + ps, i + 1),
{
    let s = init + ps;
    assert(s.len() == init.len() + ps.len());
    assert(spec_after_pops(s, i).last() == s[s.len() - i - 1]);
    assert(s[s.len() - i - 1] == ps[ps.len() - 1 - i]);
    assert(spec_after_pops(s, i).drop_last() =~= spec_after_pops(s, i + 1));
}

} // verus!
