use crate::bulk::{
    count_deleted, count_failed, empty_summary, initial, transition, Action,
    DeleteState, EventModel, PhaseModel, Text,
};
use vstd::prelude::*;

verus! {

/// The state after taking in the events `es`, in order, from `s`.
pub open spec fn run(s: DeleteState, es: Seq<EventModel>) -> DeleteState
    decreases es.len(),
{
    if es.len() == 0 {
        s
    } else {
        run(transition(s, es[0]).0, es.drop_first())
    }
}

/// How many list calls a run from `s` over the events `es` asks for after
/// the one that `s` is waiting on.
pub open spec fn lists_asked(s: DeleteState, es: Seq<EventModel>) -> nat
    decreases es.len(),
{
    if es.len() == 0 {
        0
    } else {
        let (t, a) = transition(s, es[0]);
        (if a == Action::List { 1nat } else { 0nat }) + lists_asked(t, es.drop_first())
    }
}

/// What a well-behaved store answers over a listing in pages: each page,
/// then the outcome of deleting it.
pub open spec fn listing_events(
    pages: Seq<Seq<Text>>,
    tokens: Seq<Option<Text>>,
    results: Seq<Seq<(Text, Text)>>,
) -> Seq<EventModel>
    decreases pages.len(),
{
    if pages.len() == 0 {
        Seq::empty()
    } else {
        seq![
            EventModel::Listed { keys: pages[0], next: tokens[0] },
            EventModel::Deleted { failed: results[0] },
        ] + listing_events(pages.drop_first(), tokens.drop_first(), results.drop_first())
    }
}

/// The number of keys over all `pages`.
pub open spec fn total_keys(pages: Seq<Seq<Text>>) -> nat
    decreases pages.len(),
{
    if pages.len() == 0 {
        0
    } else {
        pages[0].len() + total_keys(pages.drop_first())
    }
}

/// The keys over all `pages` that count as deleted under the matching `results`.
pub open spec fn total_deleted(pages: Seq<Seq<Text>>, results: Seq<Seq<(Text, Text)>>) -> nat
    decreases pages.len(),
{
    if pages.len() == 0 {
        0
    } else {
        count_deleted(pages[0], results[0]) + total_deleted(pages.drop_first(), results.drop_first())
    }
}

/// All failures of `results`, in the order reported.
pub open spec fn all_failures(results: Seq<Seq<(Text, Text)>>) -> Seq<(Text, Text)>
    decreases results.len(),
{
    if results.len() == 0 {
        Seq::empty()
    } else {
        results[0] + all_failures(results.drop_first())
    }
}

/// Whether `pages` and `tokens` describe a complete listing: no page empty, a
/// continuation token on every page but the last, none on the last.
pub open spec fn complete_listing(pages: Seq<Seq<Text>>, tokens: Seq<Option<Text>>) -> bool {
    &&& pages.len() >= 1
    &&& tokens.len() == pages.len()
    &&& forall|i: int| 0 <= i < pages.len() ==> (#[trigger] pages[i]).len() > 0
    &&& forall|i: int| 0 <= i < pages.len() - 1 ==> (#[trigger] tokens[i]) is Some
    &&& tokens[pages.len() - 1] is None
}

/// Once a run has stopped, no event changes it.
pub proof fn lemma_stopped_run_is_final(s: DeleteState, es: Seq<EventModel>)
    requires
        !(s.phase is Listing),
        !(s.phase is Deleting),
    ensures
        run(s, es) == s,
        lists_asked(s, es) == 0,
    decreases es.len(),
{
    if es.len() > 0 {
        lemma_stopped_run_is_final(s, es.drop_first());
    }
}

/// A prefix under which nothing is stored: the first page is empty, and the
/// run stops at once, without error, with an empty summary.
pub proof fn lemma_nothing_to_delete(next: Option<Text>)
    ensures
        transition(initial(), EventModel::Listed { keys: Seq::empty(), next }).1 == Action::Stop,
        transition(initial(), EventModel::Listed { keys: Seq::empty(), next }).0.phase is Finished,
        transition(initial(), EventModel::Listed { keys: Seq::empty(), next }).0.summary
            == empty_summary(),
{
}

/// Running again over a prefix that an earlier run emptied: every run starts
/// from the same initial state, whatever ran before, and one whose first page
/// is empty ends finished with an empty summary, whatever follows.
pub proof fn lemma_rerun_after_delete(es: Seq<EventModel>)
    requires
        es.len() >= 1,
        es[0] matches EventModel::Listed { keys, .. } && keys.len() == 0,
    ensures
        run(initial(), es).phase is Finished,
        run(initial(), es).summary == empty_summary(),
        lists_asked(initial(), es) == 0,
{
    let t = transition(initial(), es[0]).0;
    lemma_stopped_run_is_final(t, es.drop_first());
}

/// What a batch-delete outcome does to the summary: every reported failure is
/// recorded with its message, in order, after the earlier ones; the deleted
/// count grows by the submitted keys that no failure names, and the submitted
/// keys that a failure names are the rest of the batch.
pub proof fn lemma_batch_outcome(s: DeleteState, failed: Seq<(Text, Text)>)
    requires
        s.phase is Deleting,
    ensures
        ({
            let t = transition(s, EventModel::Deleted { failed }).0;
            &&& t.summary.failed == s.summary.failed + failed
            &&& forall|j: int|
                0 <= j < failed.len() ==> t.summary.failed[s.summary.failed.len() + j]
                    == #[trigger] failed[j]
            &&& t.summary.deleted == s.summary.deleted + count_deleted(s.batch, failed)
            &&& t.summary.total == s.summary.total
            &&& count_deleted(s.batch, failed) + count_failed(s.batch, failed) == s.batch.len()
        }),
{
    lemma_counts_split(s.batch, failed);
}

/// Every submitted key is counted once: as deleted, or as failed.
pub proof fn lemma_counts_split(keys: Seq<Text>, failed: Seq<(Text, Text)>)
    ensures
        count_deleted(keys, failed) + count_failed(keys, failed) == keys.len(),
    decreases keys.len(),
{
    if keys.len() > 0 {
        lemma_counts_split(keys.drop_last(), failed);
    }
}

proof fn lemma_listing_from(
    s: DeleteState,
    pages: Seq<Seq<Text>>,
    tokens: Seq<Option<Text>>,
    results: Seq<Seq<(Text, Text)>>,
)
    requires
        s.phase is Listing,
        complete_listing(pages, tokens),
        results.len() == pages.len(),
    ensures
        ({
            let t = run(s, listing_events(pages, tokens, results));
            &&& t.phase is Finished
            &&& t.summary.total == s.summary.total + total_keys(pages)
            &&& t.summary.deleted == s.summary.deleted + total_deleted(pages, results)
            &&& t.summary.failed == s.summary.failed + all_failures(results)
            &&& 1 + lists_asked(s, listing_events(pages, tokens, results)) == pages.len()
        }),
    decreases pages.len(),
{
    let es = listing_events(pages, tokens, results);
    let rest = listing_events(pages.drop_first(), tokens.drop_first(), results.drop_first());
    assert(es.drop_first().drop_first() =~= rest);
    assert(pages[0].len() > 0);
    let s1 = transition(s, es[0]).0;
    let s2 = transition(s1, es.drop_first()[0]).0;
    assert(es.drop_first()[0] == EventModel::Deleted { failed: results[0] });
    assert(s1.phase is Deleting);
    assert(s1.token == tokens[0]);
    assert(s1.batch == pages[0]);
    assert(run(s, es) == run(s1, es.drop_first()));
    assert(run(s1, es.drop_first()) == run(s2, rest));
    assert(lists_asked(s, es) == lists_asked(s1, es.drop_first()));
    assert(total_keys(pages) == pages[0].len() + total_keys(pages.drop_first()));
    assert(total_deleted(pages, results) == count_deleted(pages[0], results[0]) + total_deleted(
        pages.drop_first(),
        results.drop_first(),
    ));
    assert(all_failures(results) == results[0] + all_failures(results.drop_first()));
    if pages.len() == 1 {
        assert(rest =~= Seq::<EventModel>::empty());
        assert(pages.drop_first().len() == 0);
        assert(all_failures(results.drop_first()) =~= Seq::<(Text, Text)>::empty());
        assert(results[0] + all_failures(results.drop_first()) =~= results[0]);
        assert(s2.phase is Finished);
        assert(lists_asked(s1, es.drop_first()) == lists_asked(s2, rest));
        lemma_stopped_run_is_final(s2, rest);
    } else {
        assert(tokens[0] is Some);
        assert(s2.phase is Listing);
        assert(lists_asked(s1, es.drop_first()) == 1 + lists_asked(s2, rest));
        let p1 = pages.drop_first();
        let t1 = tokens.drop_first();
        assert forall|i: int| 0 <= i < p1.len() implies (#[trigger] p1[i]).len() > 0 by {
            assert(p1[i] == pages[i + 1]);
        }
        assert forall|i: int| 0 <= i < p1.len() - 1 implies (#[trigger] t1[i]) is Some by {
            assert(t1[i] == tokens[i + 1]);
        }
        lemma_listing_from(s2, p1, t1, results.drop_first());
        assert(s.summary.failed + results[0] + all_failures(results.drop_first())
            =~= s.summary.failed + (results[0] + all_failures(results.drop_first())));
    }
}

/// A listing in several pages: the run asks for exactly one list call per
/// page, sees every key of every page once, records every reported failure in
/// order, and finishes.
pub proof fn lemma_paged_listing(
    pages: Seq<Seq<Text>>,
    tokens: Seq<Option<Text>>,
    results: Seq<Seq<(Text, Text)>>,
)
    requires
        complete_listing(pages, tokens),
        results.len() == pages.len(),
    ensures
        ({
            let es = listing_events(pages, tokens, results);
            let t = run(initial(), es);
            &&& 1 + lists_asked(initial(), es) == pages.len()
            &&& t.phase is Finished
            &&& t.summary.total == total_keys(pages)
            &&& t.summary.deleted == total_deleted(pages, results)
            &&& t.summary.failed == all_failures(results)
        }),
{
    lemma_listing_from(initial(), pages, tokens, results);
    assert(Seq::<(Text, Text)>::empty() + all_failures(results) =~= all_failures(results));
}

} // verus!
