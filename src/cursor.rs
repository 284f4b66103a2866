use vstd::prelude::*;

use crate::state::{InnerState, Lookup};

verus! {

/// One reader's private position in a shared cache.
///
/// Every handle on a shared producer carries its own cursor; cloning a handle
/// copies the cursor, so clones move on independently of each other.
#[derive(Clone, Copy, Debug)]
pub struct Cursor {
    idx: usize,
}

/// Sum of a lower bound and a count, held at `usize::MAX` when it would not
/// fit.
pub open spec fn saturated_sum(a: int, b: int) -> int {
    if a + b <= usize::MAX {
        a + b
    } else {
        usize::MAX as int
    }
}

/// Sum of an upper bound and a count; unknown when the bound is unknown or
/// the sum would not fit.
pub open spec fn bounded_sum(a: Option<usize>, b: int) -> Option<usize> {
    match a {
        Some(u) => if u + b <= usize::MAX {
            Some((u + b) as usize)
        } else {
            None
        },
        None => None,
    }
}

impl Cursor {
    /// The index of the next item this cursor will read.
    pub closed spec fn index(&self) -> int {
        self.idx as int
    }

    /// A cursor at the start of the sequence.
    pub fn new() -> (r: Self)
        ensures
            r.index() == 0,
    {
        Cursor { idx: 0 }
    }

    /// The index of the next item this cursor will read.
    pub fn position(&self) -> (r: usize)
        ensures
            r == self.index(),
    {
        self.idx
    }

    /// Reads the item at this cursor's index from the cache and, when there is
    /// one, moves past it. The cursor moves by exactly one on an item and
    /// stays where it is on the end or on a request to poll the producer.
    pub fn poll_cached<T: Clone, S>(&mut self, state: &InnerState<T, S>) -> (r: Lookup<T>)
        ensures
            r is Item <==> old(self).index() < state@.values.len(),
            r is End <==> !state@.running && old(self).index() >= state@.values.len(),
            r is Upstream <==> state@.needs_upstream(old(self).index()),
            r matches Lookup::Item(v) ==> cloned(state@.values[old(self).index()], v),
            final(self).index() == if r is Item {
                old(self).index() + 1
            } else {
                old(self).index()
            },
    {
        let cached = state.len();
        let r = state.lookup(self.idx);
        if let Lookup::Item(_) = &r {
            assert(self.idx < cached);
            self.idx = self.idx + 1;
        }
        r
    }

    /// One step of reading the next item.
    ///
    /// `polled` is the outcome of the poll of the producer that the previous
    /// step asked for, if it asked for one; it is recorded into the shared
    /// state first. The cursor then reads from the cache as
    /// [`Cursor::poll_cached`] does. A caller repeats the step, polling the
    /// producer whenever the answer is [`Lookup::Upstream`], until it gets an
    /// item or the end.
    pub fn next_item<T: Clone, S>(
        &mut self,
        state: &mut InnerState<T, S>,
        polled: Option<Option<T>>,
    ) -> (r: Lookup<T>)
        ensures
            final(state)@ == match polled {
                Some(p) => old(state)@.after_record(p),
                None => old(state)@,
            },
            polled is None ==> final(state).producer() == old(state).producer(),
            polled matches Some(p) && p is Some ==> final(state).producer() == old(state).producer(),
            r is Item <==> old(self).index() < final(state)@.values.len(),
            r is End <==> !final(state)@.running && old(self).index() >= final(state)@.values.len(),
            r is Upstream <==> final(state)@.needs_upstream(old(self).index()),
            r matches Lookup::Item(v) ==> cloned(final(state)@.values[old(self).index()], v),
            final(self).index() == if r is Item {
                old(self).index() + 1
            } else {
                old(self).index()
            },
    {
        if let Some(p) = polled {
            state.record(p);
        }
        self.poll_cached(state)
    }

    /// Bounds on how many items this cursor has still to read.
    ///
    /// While the producer runs, `upstream` is the producer's own estimate of
    /// what it has left; the items cached but not yet read by this cursor are
    /// added to both of its bounds. Once finished, both bounds are exactly the
    /// number of cached items this cursor has not read.
    pub fn size_hint<T, S>(&self, state: &InnerState<T, S>, upstream: (usize, Option<usize>)) -> (r: (
        usize,
        Option<usize>,
    ))
        requires
            self.index() <= state@.values.len(),
        ensures
            state@.running ==> r.0 == saturated_sum(
                upstream.0 as int,
                state@.values.len() - self.index(),
            ) && r.1 == bounded_sum(upstream.1, state@.values.len() - self.index()),
            !state@.running ==> r.0 == state@.values.len() - self.index() && r.1 == Some(
                (state@.values.len() - self.index()) as usize,
            ),
    {
        let unread = state.len() - self.idx;
        if state.running() {
            let upper = match upstream.1 {
                Some(u) => u.checked_add(unread),
                None => None,
            };
            (upstream.0.saturating_add(unread), upper)
        } else {
            (unread, Some(unread))
        }
    }

    /// Whether this cursor will never read another item: the producer is
    /// finished and the cursor has reached the end of the cache.
    pub fn is_terminated<T, S>(&self, state: &InnerState<T, S>) -> (r: bool)
        ensures
            r == (!state@.running && self.index() >= state@.values.len()),
    {
        !state.running() && self.idx >= state.len()
    }
}

} // verus!
