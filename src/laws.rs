//! What holds of a shared cache over any run of polls, whichever readers
//! caused them and in whatever order.
use vstd::prelude::*;

use crate::state::CacheView;

verus! {

/// The cache after the outcomes `events` of successive polls of the producer,
/// taken in order starting from `c`.
pub open spec fn replay<T>(c: CacheView<T>, events: Seq<Option<T>>) -> CacheView<T>
    decreases events.len(),
{
    if events.len() == 0 {
        c
    } else {
        replay(c.after_record(events[0]), events.drop_first())
    }
}

/// The items that the outcomes `events` deliver: those before the first end.
pub open spec fn produced<T>(events: Seq<Option<T>>) -> Seq<T>
    decreases events.len(),
{
    if events.len() == 0 {
        Seq::empty()
    } else {
        match events[0] {
            Some(v) => seq![v] + produced(events.drop_first()),
            None => Seq::empty(),
        }
    }
}

/// A finished cache never changes again, whatever is recorded into it.
pub proof fn lemma_finished_is_terminal<T>(c: CacheView<T>, events: Seq<Option<T>>)
    requires
        !c.running,
    ensures
        replay(c, events) == c,
    decreases events.len(),
{
    if events.len() > 0 {
        lemma_finished_is_terminal(c.after_record(events[0]), events.drop_first());
    }
}

/// Each item the producer yields enters the cache exactly once, in the order
/// yielded: after any run of polls the cache is what it held before followed
/// by the items those polls produced, with nothing lost or repeated.
pub proof fn lemma_cache_records_each_item_once<T>(c: CacheView<T>, events: Seq<Option<T>>)
    requires
        c.running,
    ensures
        replay(c, events).values == c.values + produced(events),
    decreases events.len(),
{
    if events.len() > 0 {
        let next = c.after_record(events[0]);
        let rest = events.drop_first();
        match events[0] {
            Some(v) => {
                lemma_cache_records_each_item_once(next, rest);
                assert(c.values + produced(events) =~= c.values.push(v) + produced(rest));
            },
            None => {
                lemma_finished_is_terminal(next, rest);
                assert(c.values + produced(events) =~= c.values);
            },
        }
    } else {
        assert(c.values + produced(events) =~= c.values);
    }
}

/// A reader that has not run ahead of the cache asks for a poll of the
/// producer only at the first index not yet cached, and the outcome of that
/// poll answers the index for good: no index is asked of the producer twice.
pub proof fn lemma_poll_only_for_next_index<T>(c: CacheView<T>, idx: int, polled: Option<T>)
    requires
        0 <= idx <= c.values.len(),
        c.needs_upstream(idx),
    ensures
        idx == c.values.len(),
        !c.after_record(polled).needs_upstream(idx),
        polled matches Some(v) ==> c.after_record(polled).values[idx] == v,
{
}

/// The cache only grows: whatever was cached stays, at the same index.
pub proof fn lemma_cache_only_grows<T>(c: CacheView<T>, events: Seq<Option<T>>)
    ensures
        c.values.is_prefix_of(replay(c, events).values),
{
    if c.running {
        lemma_cache_records_each_item_once(c, events);
    } else {
        lemma_finished_is_terminal(c, events);
    }
}

/// Two readers that read the same index get the same value, however many
/// polls happened between their reads.
pub proof fn lemma_same_index_same_value<T>(c: CacheView<T>, events: Seq<Option<T>>, i: int)
    requires
        0 <= i < c.values.len(),
    ensures
        replay(c, events).values[i] == c.values[i],
{
    lemma_cache_only_grows(c, events);
}

/// Readers progressing at different paces do not disturb each other: the
/// polls one reader causes, split anywhere into what happened before and
/// after another reader's read, leave every index that was read with the
/// value read there, and running the polls in two stretches is the same as
/// running them at once.
pub proof fn lemma_interleaved_reads_agree<T>(
    c: CacheView<T>,
    before: Seq<Option<T>>,
    after: Seq<Option<T>>,
    i: int,
)
    requires
        0 <= i < replay(c, before).values.len(),
    ensures
        replay(replay(c, before), after) == replay(c, before + after),
        replay(c, before + after).values[i] == replay(c, before).values[i],
    decreases before.len(),
{
    if before.len() > 0 {
        assert((before + after).drop_first() =~= before.drop_first() + after);
        assert((before + after)[0] == before[0]);
        lemma_interleaved_reads_agree(c.after_record(before[0]), before.drop_first(), after, i);
    } else {
        assert(before + after =~= after);
        lemma_same_index_same_value(c, after, i);
    }
}

} // verus!
