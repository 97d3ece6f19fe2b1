//! The task registry: bookkeeping for the background tasks spawned for
//! refresh work.
//!
//! The registry tracks tasks by the opaque ids under which the caller
//! spawned them; the caller owns the actual task handles and joins or
//! discards them as the registry directs.  Shutdown drains the registry
//! completely: every id ever registered and not yet reaped comes back out
//! exactly once, so the caller can block on each in turn.

use vstd::prelude::*;

verus! {

/// The ids of the tasks currently considered in flight, in registration
/// order.
#[derive(Debug, Clone)]
pub struct TaskRegistry {
    ids: Vec<u64>,
}

/// The ids of `ids` whose flag in `fin` is false, in order.
pub open spec fn unfinished_of(ids: Seq<u64>, fin: Seq<bool>) -> Seq<u64>
    decreases ids.len(),
{
    if ids.len() == 0 {
        Seq::empty()
    } else {
        let rest = unfinished_of(ids.drop_last(), fin.drop_last());
        if fin.last() {
            rest
        } else {
            rest.push(ids.last())
        }
    }
}

impl TaskRegistry {
    /// The registered ids, in registration order.
    pub closed spec fn view(&self) -> Seq<u64> {
        self.ids@
    }

    /// An empty registry.
    pub fn new() -> (r: Self)
        ensures
            r@ == Seq::<u64>::empty(),
    {
        TaskRegistry { ids: Vec::new() }
    }

    /// How many tasks are in flight.
    pub fn len(&self) -> (r: usize)
        ensures
            r == self@.len(),
    {
        self.ids.len()
    }

    /// The registered ids, in registration order, for the caller to test
    /// its handles against.
    pub fn snapshot(&self) -> (r: Vec<u64>)
        ensures
            r@ == self@,
    {
        let mut r: Vec<u64> = Vec::new();
        let mut i: usize = 0;
        while i < self.ids.len()
            invariant
                0 <= i <= self.ids@.len(),
                r@ == self.ids@.subrange(0, i as int),
            decreases self.ids@.len() - i,
        {
            r.push(self.ids[i]);
            proof {
                assert(r@ =~= self.ids@.subrange(0, (i + 1) as int));
            }
            i += 1;
        }
        proof {
            assert(r@ =~= self.ids@);
        }
        r
    }

    /// Records a newly spawned task.
    pub fn register(&mut self, id: u64)
        ensures
            final (self)@ == old(self)@.push(id),
    {
        self.ids.push(id);
    }

    /// Drops the tasks the caller found finished, keeping the unfinished
    /// ones in order.  `finished` gives one flag per registered task, in
    /// registration order.
    pub fn reap(&mut self, finished: &Vec<bool>)
        requires
            finished@.len() == old(self)@.len(),
        ensures
            final (self)@ == unfinished_of(old(self)@, finished@),
    {
        let ghost old_ids = self.ids@;
        let mut kept: Vec<u64> = Vec::new();
        let mut i: usize = 0;
        while i < self.ids.len()
            invariant
                self.ids@ == old_ids,
                finished@.len() == old_ids.len(),
                0 <= i <= old_ids.len(),
                kept@ == unfinished_of(old_ids.subrange(0, i as int), finished@.subrange(0, i as int)),
            decreases old_ids.len() - i,
        {
            proof {
                assert(old_ids.subrange(0, (i + 1) as int).drop_last() =~= old_ids.subrange(
                    0,
                    i as int,
                ));
                assert(finished@.subrange(0, (i + 1) as int).drop_last() =~= finished@.subrange(
                    0,
                    i as int,
                ));
            }
            if !finished[i] {
                kept.push(self.ids[i]);
            }
            i += 1;
        }
        proof {
            assert(old_ids.subrange(0, old_ids.len() as int) =~= old_ids);
            assert(finished@.subrange(0, finished@.len() as int) =~= finished@);
        }
        self.ids = kept;
    }

    /// Takes one task out, most recently registered first; `None` once the
    /// registry is empty.
    pub fn pop(&mut self) -> (r: Option<u64>)
        ensures
            old(self)@.len() == 0 ==> r is None && final (self)@ == old(self)@,
            old(self)@.len() > 0 ==> r == Some(old(self)@.last()) && final (self)@ == old(
                self,
            )@.drop_last(),
    {
        self.ids.pop()
    }

    /// Empties the registry for shutdown: hands back every registered id
    /// exactly once — in reverse registration order — so the caller can
    /// join each task; the registry is empty afterwards.
    pub fn drain_all(&mut self) -> (r: Vec<u64>)
        ensures
            final (self)@.len() == 0,
            r@ == old(self)@.reverse(),
    {
        let ghost orig = self.ids@;
        let mut drained: Vec<u64> = Vec::new();
        while self.len() > 0
            invariant
                drained@.len() + self.ids@.len() == orig.len(),
                self.ids@ == orig.subrange(0, self.ids@.len() as int),
                forall|k: int| 0 <= k < drained@.len() ==> drained@[k] == orig[orig.len() - 1 - k],
            decreases self.ids@.len(),
        {
            match self.pop() {
                Some(id) => {
                    proof {
                        assert(self.ids@ =~= orig.subrange(0, self.ids@.len() as int));
                    }
                    drained.push(id);
                },
                None => {},
            }
        }
        proof {
            assert(drained@ =~= orig.reverse());
        }
        drained
    }
}

} // verus!
