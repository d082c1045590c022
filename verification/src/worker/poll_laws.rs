//! What holds of polls, and of what the user is told of them.

use crate::actions;
use crate::evidence;
use crate::github::PrRefView;
use crate::hotkeys;
use crate::model::{PullRequestView, SnapshotView, State};
use crate::store;
use crate::text;
use crate::text_map;
use crate::worker;
use crate::worker::action_worker::effects::EffectView;
use crate::worker::action_worker::CoordinatorView;
use crate::worker::events::{BatchView, CommandView, OutputView, PollResult, UiEventView};
use crate::worker::monitor;
use crate::worker::monitor::{MonitorView, Time};
use vstd::prelude::*;

verus! {

broadcast use vstd::seq_lib::group_seq_properties;

// ---------------------------------------------------------------- what nothing else touches

/// Whether a pull request is another one only in its labels.
pub open spec fn same_but_labels(a: PullRequestView, b: PullRequestView) -> bool {
    b == PullRequestView { snapshot: SnapshotView { labels: b.snapshot.labels, ..a.snapshot }, ..a }
}

/// Whether the active pull requests are the same ones, but for labels.
pub open spec fn same_prs(a: Map<Seq<char>, PullRequestView>, b: Map<Seq<char>, PullRequestView>) -> bool {
    &&& a.dom() == b.dom()
    &&& forall|id: Seq<char>| #[trigger] a.contains_key(id) ==> same_but_labels(a[id], b[id])
}

/// What the coordinator of changes asks for touches only labels, takes back nothing that was
/// asked for, and changes neither the error, the polls nor the notifications.
proof fn absorbing_keeps(m: MonitorView, effects: Seq<EffectView>, t: Time)
    ensures
        ({
            let next = m.absorbing_all(effects, t);
            &&& same_prs(m.prs, next.prs)
            &&& m.outputs.is_prefix_of(next.outputs)
            &&& next.error == m.error
            &&& next.failures == m.failures
            &&& next.polling == m.polling
            &&& next.viewer == m.viewer
            &&& next.references == m.references
            &&& next.in_flight == m.in_flight
            &&& next.dismiss_after_delivery == m.dismiss_after_delivery
            &&& next.tables.notices == m.tables.notices
            &&& next.tables.ignored == m.tables.ignored
            &&& next.tables.viewer == m.tables.viewer
            &&& next.config == m.config
        }),
    decreases effects.len(),
{
    if effects.len() > 0 {
        absorbing_keeps(m, effects.drop_last(), t);
        let before = m.absorbing_all(effects.drop_last(), t);
        let after = before.absorbing(effects.last(), t);
        assert(same_prs(before.prs, after.prs)) by {
            assert(before.prs.dom() =~= after.prs.dom());
        }
        assert(before.outputs.is_prefix_of(after.outputs));
        assert(m.outputs.is_prefix_of(after.outputs)) by {
            assert(after.outputs.subrange(0, m.outputs.len() as int) =~= before.outputs.subrange(0, m.outputs.len() as int));
        }
    } else {
        assert(m.outputs.subrange(0, m.outputs.len() as int) =~= m.outputs);
    }
}

/// What was asked for stays asked for.
proof fn outputs_go_on(a: Seq<OutputView>, b: Seq<OutputView>, c: Seq<OutputView>)
    requires
        a.is_prefix_of(b),
        b.is_prefix_of(c),
    ensures
        a.is_prefix_of(c),
{
    assert(c.subrange(0, a.len() as int) =~= b.subrange(0, a.len() as int));
}

/// To settle touches only labels, and takes back nothing that was asked for.
proof fn settling_keeps(m: MonitorView, t: Time)
    ensures
        ({
            let next = m.settled(t);
            &&& same_prs(m.prs, next.prs)
            &&& m.outputs.is_prefix_of(next.outputs)
            &&& next.error == m.error
            &&& next.failures == m.failures
            &&& next.polling == m.polling
            &&& next.viewer == m.viewer
            &&& next.references == m.references
            &&& next.in_flight == m.in_flight
            &&& next.dismiss_after_delivery == m.dismiss_after_delivery
            &&& next.tables.notices == m.tables.notices
            &&& next.tables.ignored == m.tables.ignored
            &&& next.tables.viewer == m.tables.viewer
        }),
{
    let agreed = m.actions.reconciled(m.context(t));
    let start = MonitorView { actions: CoordinatorView { effects: Seq::empty(), ..agreed }, ..m };
    absorbing_keeps(start, agreed.effects, t);
    let absorbed = start.absorbing_all(agreed.effects, t);
    assert(absorbed == m.with_actions(agreed, t));
    let shown = absorbed.showing_prs();
    assert(shown.outputs.subrange(0, absorbed.outputs.len() as int) =~= absorbed.outputs);
    outputs_go_on(m.outputs, absorbed.outputs, shown.outputs);
    let next = shown.stopping_if_done();
    assert(next.outputs.subrange(0, shown.outputs.len() as int) =~= shown.outputs);
    outputs_go_on(m.outputs, shown.outputs, next.outputs);
}

/// To ask for catalogues touches only labels, and takes back nothing that was asked for.
proof fn catalogues_keep(m: MonitorView, t: Time)
    ensures
        ({
            let next = m.with_catalogues(t);
            &&& same_prs(m.prs, next.prs)
            &&& m.outputs.is_prefix_of(next.outputs)
            &&& next.error == m.error
            &&& next.failures == m.failures
            &&& next.polling == m.polling
            &&& next.viewer == m.viewer
            &&& next.references == m.references
            &&& next.in_flight == m.in_flight
            &&& next.tables.notices == m.tables.notices
            &&& next.tables.ignored == m.tables.ignored
            &&& next.tables.viewer == m.tables.viewer
        }),
{
    assert(m.outputs.subrange(0, m.outputs.len() as int) =~= m.outputs);
    if !m.actions.stopping {
        let first = m.actions.reconciled(m.context(t));
        let start = MonitorView { actions: CoordinatorView { effects: Seq::empty(), ..first }, ..m };
        absorbing_keeps(start, first.effects, t);
        let agreed = m.with_actions(first, t);
        let second = agreed.actions.refreshing(agreed.context(t), None);
        let again = MonitorView { actions: CoordinatorView { effects: Seq::empty(), ..second }, ..agreed };
        absorbing_keeps(again, second.effects, t);
        outputs_go_on(m.outputs, agreed.outputs, agreed.with_actions(second, t).outputs);
    }
}

// ---------------------------------------------------------------- results

/// Whether a result of a poll is the only one of its pull request.
pub open spec fn is_only_result(results: Seq<PollResult>, k: int) -> bool {
    &&& 0 <= k < results.len()
    &&& forall|j: int| 0 <= j < results.len() && j != k ==> (#[trigger] results[j]).0 != results[k].0
}

/// Whether a poll of an account may say something of a pull request: the user neither ignores it
/// nor has touched it meanwhile.
pub open spec fn is_heard(m: MonitorView, id: Seq<char>) -> bool {
    !m.tables.ignored.contains_key(id) && !m.invalidated.contains(id)
}

/// Whether results have one of a pull request.
pub open spec fn is_among(results: Seq<PollResult>, id: Seq<char>) -> bool {
    exists|k: int| 0 <= k < results.len() && (#[trigger] results[k]).0 == id
}

/// Results of other pull requests say nothing of one.
proof fn other_results_keep(m: MonitorView, results: Seq<PollResult>, id: Seq<char>, t: Time)
    requires
        !is_among(results, id),
    ensures
        m.with_results(results, t).prs.contains_key(id) == m.prs.contains_key(id),
        m.prs.contains_key(id) ==> m.with_results(results, t).prs[id] == m.prs[id],
    decreases results.len(),
{
    results_keep_the_rest(m, results, t);
    if results.len() > 0 {
        let rest = results.drop_last();
        assert forall|k: int| 0 <= k < rest.len() implies (#[trigger] rest[k]).0 != id by {
            assert(rest[k] == results[k]);
        }
        other_results_keep(m, rest, id, t);
        assert(results[results.len() - 1].0 != id);
    }
}

/// Results change neither what is ignored, nor what a poll may not speak of, nor the settings, and
/// take back nothing that was asked for.
proof fn results_keep_the_rest(m: MonitorView, results: Seq<PollResult>, t: Time)
    ensures
        ({
            let next = m.with_results(results, t);
            &&& next.tables.ignored == m.tables.ignored
            &&& next.invalidated == m.invalidated
            &&& next.config == m.config
            &&& m.outputs.is_prefix_of(next.outputs)
            &&& next.error == m.error
            &&& next.failures == m.failures
            &&& next.polling == m.polling
            &&& next.rediscover_after_poll == m.rediscover_after_poll
            &&& next.viewer == m.viewer
        }),
    decreases results.len(),
{
    if results.len() > 0 {
        results_keep_the_rest(m, results.drop_last(), t);
        let before = m.with_results(results.drop_last(), t);
        let after = before.with_result(results.last(), t);
        assert(before.outputs.is_prefix_of(after.outputs)) by {
            assert(after.outputs.subrange(0, before.outputs.len() as int) =~= before.outputs);
        }
        outputs_go_on(m.outputs, before.outputs, after.outputs);
    } else {
        assert(m.outputs.subrange(0, m.outputs.len() as int) =~= m.outputs);
    }
}

/// What follows of the only result of a pull request is what follows of it alone.
proof fn only_results_decide(m: MonitorView, results: Seq<PollResult>, k: int, t: Time)
    requires
        is_only_result(results, k),
    ensures
        ({
            let id = results[k].0;
            let before = m.with_results(results.take(k), t);
            let next = m.with_results(results, t);
            let alone = before.with_result(results[k], t);
            &&& before.prs.contains_key(id) == m.prs.contains_key(id)
            &&& m.prs.contains_key(id) ==> before.prs[id] == m.prs[id]
            &&& next.prs.contains_key(id) == alone.prs.contains_key(id)
            &&& alone.prs.contains_key(id) ==> next.prs[id] == alone.prs[id]
        }),
    decreases results.len(),
{
    let id = results[k].0;
    let first = results.take(k);
    assert forall|j: int| 0 <= j < first.len() implies (#[trigger] first[j]).0 != id by {
        assert(first[j] == results[j]);
    }
    other_results_keep(m, first, id, t);
    let rest = results.drop_last();
    if k < rest.len() {
        assert forall|j: int| 0 <= j < rest.len() && j != k implies (#[trigger] rest[j]).0 != rest[k].0 by {
            assert(rest[j] == results[j]);
        }
        assert(rest[k] == results[k]);
        assert(rest.take(k) =~= first);
        only_results_decide(m, rest, k, t);
        let last = results.last();
        assert(results[results.len() - 1].0 != id);
        let before = m.with_results(rest, t);
        assert(before.with_result(last, t).prs.contains_key(id) == before.prs.contains_key(id));
    } else {
        assert(rest =~= first);
    }
}

/// The monitor when a poll was completed, before its results are taken.
spec fn results_start(m: MonitorView, batch: BatchView, t: Time) -> MonitorView {
    MonitorView { polling: false, ..m }.for_viewer(batch.viewer).with_references(batch.references, batch.discovered, t)
}

/// What is known at the end of a poll is what its results have brought, but for labels.
proof fn polls_end_with_their_results(m: MonitorView, batch: BatchView, t: Time)
    ensures
        ({
            let taken = results_start(m, batch, t).with_results(batch.results, t);
            let next = m.stepped(CommandView::PollComplete(Ok(batch)), t);
            &&& same_prs(taken.prs, next.prs)
            &&& taken.outputs.is_prefix_of(next.outputs)
            &&& next.references == taken.references
            &&& next.error == results_start(m, batch, t).results_error(batch.results)
            &&& next.in_flight == taken.in_flight
            &&& !next.polling
        }),
{
    let start = results_start(m, batch, t);
    let taken = start.with_results(batch.results, t);
    results_keep_the_rest(start, batch.results, t);
    let done = m.poll_done(batch, t);
    assert(taken.outputs.is_prefix_of(done.outputs)) by {
        assert(done.outputs.subrange(0, taken.outputs.len() as int) =~= taken.outputs);
    }
    catalogues_keep(done, t);
    let told = done.with_catalogues(t);
    outputs_go_on(taken.outputs, done.outputs, told.outputs);
    settling_keeps(told, t);
    outputs_go_on(taken.outputs, told.outputs, told.settled(t).outputs);
    let next = told.settled(t);
    assert(next == m.stepped(CommandView::PollComplete(Ok(batch)), t));
    assert forall|id: Seq<char>| #[trigger] taken.prs.contains_key(id) implies same_but_labels(taken.prs[id], next.prs[id]) by {
        assert(done.prs.contains_key(id));
        assert(told.prs.contains_key(id));
    }
}

/// Whether a poll is one of the account whose pull requests are known.
pub open spec fn same_account(m: MonitorView, batch: BatchView) -> bool {
    m.tables.viewer is None || m.tables.viewer == Some(batch.viewer)
}

/// Whether a poll keeps a pull request among those that are monitored.
pub open spec fn keeps(batch: BatchView, id: Seq<char>) -> bool {
    !batch.discovered || exists|k: int| 0 <= k < batch.references.len() && (#[trigger] batch.references[k]).id == id
}

/// A reference of a pull request that is not ignored is kept.
proof fn references_are_kept(references: Seq<PrRefView>, ignored: Set<Seq<char>>, id: Seq<char>)
    ensures
        monitor::reference_ids(monitor::references_not_in(references, ignored)).contains(id) <==> !ignored.contains(id)
            && exists|k: int| 0 <= k < references.len() && (#[trigger] references[k]).id == id,
    decreases references.len(),
{
    let kept = monitor::references_not_in(references, ignored);
    if references.len() > 0 {
        let rest = references.drop_last();
        references_are_kept(rest, ignored, id);
        let before = monitor::references_not_in(rest, ignored);
        if exists|k: int| 0 <= k < references.len() && (#[trigger] references[k]).id == id {
            let k = choose|k: int| 0 <= k < references.len() && (#[trigger] references[k]).id == id;
            if k < rest.len() {
                assert(rest[k].id == id);
                if !ignored.contains(id) {
                    let j = choose|j: int| 0 <= j < before.len() && (#[trigger] before[j]).id == id;
                    assert(kept[j].id == id);
                }
            } else if !ignored.contains(id) {
                assert(kept[kept.len() - 1].id == id);
            }
        }
        if monitor::reference_ids(kept).contains(id) {
            let j = choose|j: int| 0 <= j < kept.len() && (#[trigger] kept[j]).id == id;
            if j < before.len() {
                assert(before[j].id == id);
                let k = choose|k: int| 0 <= k < rest.len() && (#[trigger] rest[k]).id == id;
                assert(references[k].id == id);
            } else {
                assert(references[references.len() - 1].id == id);
            }
        }
    }
}

/// A pull request that a poll keeps is still known when its results are taken.
proof fn kept_prs_are_known(m: MonitorView, batch: BatchView, id: Seq<char>, t: Time)
    requires
        same_account(m, batch),
        keeps(batch, id),
        !m.tables.ignored.contains_key(id),
    ensures
        results_start(m, batch, t).prs.contains_key(id) == m.prs.contains_key(id),
        m.prs.contains_key(id) ==> results_start(m, batch, t).prs[id] == m.prs[id],
        results_start(m, batch, t).tables.ignored == m.tables.ignored,
        results_start(m, batch, t).invalidated == m.invalidated,
{
    references_are_kept(batch.references, m.tables.ignored.dom(), id);
}

/// A pull request that could not be fetched is kept as it was last known, with its error, but it
/// is no longer current: it asks for no attention and allows no action until it is fetched again.
pub proof fn unfetched_prs_are_stale(m: MonitorView, batch: BatchView, k: int, message: Seq<char>, t: Time)
    requires
        is_only_result(batch.results, k),
        batch.results[k].1 == Err::<SnapshotView, Seq<char>>(message),
        m.prs.contains_key(batch.results[k].0),
        is_heard(m, batch.results[k].0),
        same_account(m, batch),
        keeps(batch, batch.results[k].0),
    ensures
        ({
            let id = batch.results[k].0;
            let next = m.stepped(CommandView::PollComplete(Ok(batch)), t);
            &&& next.prs.contains_key(id)
            &&& next.prs[id].stale
            &&& next.prs[id].error == Some(message)
            &&& next.prs[id].state == m.prs[id].state
            &&& next.prs[id].agents == m.prs[id].agents
            &&& next.prs[id].update_id == m.prs[id].update_id
            &&& next.prs[id].acknowledged == m.prs[id].acknowledged
            &&& next.prs[id].fetched_at == m.prs[id].fetched_at
            &&& next.prs[id].snapshot.head == m.prs[id].snapshot.head
            &&& !next.prs[id].wants_attention()
            &&& forall|p: actions::Preferences, kind: actions::Kind| !#[trigger] p.allowed(kind, next.prs[id])
        }),
{
    let id = batch.results[k].0;
    let start = results_start(m, batch, t);
    kept_prs_are_known(m, batch, id, t);
    only_results_decide(start, batch.results, k, t);
    results_keep_the_rest(start, batch.results.take(k), t);
    polls_end_with_their_results(m, batch, t);
    let taken = start.with_results(batch.results, t);
    assert(taken.prs.contains_key(id));
    assert(taken.prs[id] == (PullRequestView { stale: true, error: Some(message), ..m.prs[id] }));
    let next = m.stepped(CommandView::PollComplete(Ok(batch)), t);
    assert(same_but_labels(taken.prs[id], next.prs[id]));
}

/// What could not be fetched of a pull request makes it stale and says why; the rest of what is
/// known of it stays, and so does what is known of every other one. Nothing is shown or asked for.
pub proof fn failures_make_one_pr_stale(m: MonitorView, id: Seq<char>, message: Seq<char>, other: Seq<char>, t: Time)
    requires
        is_heard(m, id),
        m.prs.contains_key(id),
        other != id,
    ensures
        ({
            let next = m.with_result((id, Err(message)), t);
            &&& next.prs.contains_key(id)
            &&& next.prs[id].stale
            &&& next.prs[id].error == Some(message)
            &&& next.prs[id].snapshot == m.prs[id].snapshot
            &&& next.prs[id].agents == m.prs[id].agents
            &&& next.prs[id].state == m.prs[id].state
            &&& next.prs[id].update_id == m.prs[id].update_id
            &&& next.prs[id].acknowledged == m.prs[id].acknowledged
            &&& next.prs[id].fetched_at == m.prs[id].fetched_at
            &&& next.prs[id].reviewing_since == m.prs[id].reviewing_since
            &&& !next.prs[id].wants_attention()
            &&& next.prs.contains_key(other) == m.prs.contains_key(other)
            &&& m.prs.contains_key(other) ==> next.prs[other] == m.prs[other]
            &&& next.outputs == m.outputs
            &&& next.tables == m.tables
            &&& next.references == m.references
        }),
{
}

/// A closed pull request is no longer monitored once a poll has found it so.
pub proof fn closed_prs_are_dropped(m: MonitorView, batch: BatchView, k: int, snapshot: SnapshotView, t: Time)
    requires
        is_only_result(batch.results, k),
        batch.results[k].1 == Ok::<SnapshotView, Seq<char>>(snapshot),
        !snapshot.open,
        is_heard(m, batch.results[k].0),
    ensures
        ({
            let id = batch.results[k].0;
            let next = m.stepped(CommandView::PollComplete(Ok(batch)), t);
            &&& !next.prs.contains_key(id)
            &&& !m.poll_done(batch, t).prs.contains_key(id)
            &&& !m.poll_done(batch, t).tables.prs.contains_key(id)
            &&& forall|j: int| 0 <= j < next.references.len() ==> (#[trigger] next.references[j]).id != id
        }),
{
    let id = batch.results[k].0;
    let start = results_start(m, batch, t);
    only_results_decide(start, batch.results, k, t);
    results_keep_the_rest(start, batch.results.take(k), t);
    polls_end_with_their_results(m, batch, t);
    closed_references_go(start, batch.results, k, t);
}

/// The reference of a closed pull request goes.
proof fn closed_references_go(m: MonitorView, results: Seq<PollResult>, k: int, t: Time)
    requires
        0 <= k < results.len(),
        results[k].1 is Ok,
        !results[k].1->Ok_0.open,
        is_heard(m, results[k].0),
    ensures
        forall|j: int|
            0 <= j < m.with_results(results, t).references.len() ==> (#[trigger] m.with_results(results, t).references[j]).id
                != results[k].0,
    decreases results.len(),
{
    let rest = results.drop_last();
    let before = m.with_results(rest, t);
    results_keep_the_rest(m, rest, t);
    if k < rest.len() {
        assert(rest[k] == results[k]);
        closed_references_go(m, rest, k, t);
        fewer_references(before.references, results.last().0, results[k].0);
    } else {
        fewer_references(before.references, results[k].0, results[k].0);
    }
}

/// References without one of a pull request have none of it, and nothing new.
proof fn fewer_references(references: Seq<PrRefView>, gone: Seq<char>, id: Seq<char>)
    ensures
        forall|j: int|
            0 <= j < monitor::references_without(references, gone).len() ==> (#[trigger] monitor::references_without(
                references,
                gone,
            )[j]).id != gone,
        (forall|j: int| 0 <= j < references.len() ==> (#[trigger] references[j]).id != id) ==> forall|j: int|
            0 <= j < monitor::references_without(references, gone).len() ==> (#[trigger] monitor::references_without(
                references,
                gone,
            )[j]).id != id,
    decreases references.len(),
{
    if references.len() > 0 {
        let rest = references.drop_last();
        fewer_references(rest, gone, id);
        let kept = monitor::references_without(references, gone);
        let before = monitor::references_without(rest, gone);
        if forall|j: int| 0 <= j < references.len() ==> (#[trigger] references[j]).id != id {
            assert forall|j: int| 0 <= j < rest.len() implies (#[trigger] rest[j]).id != id by {
                assert(rest[j] == references[j]);
            }
            assert forall|j: int| 0 <= j < kept.len() implies (#[trigger] kept[j]).id != id by {
                if j < before.len() {
                    assert(kept[j] == before[j]);
                } else {
                    assert(kept[j] == references[references.len() - 1]);
                }
            }
        }
        assert forall|j: int| 0 <= j < kept.len() implies (#[trigger] kept[j]).id != gone by {
            if j < before.len() {
                assert(kept[j] == before[j]);
            }
        }
    }
}

/// An open pull request that was fetched is known by its new snapshot, which is current.
pub proof fn fetched_prs_are_current(m: MonitorView, batch: BatchView, k: int, snapshot: SnapshotView, t: Time)
    requires
        is_only_result(batch.results, k),
        batch.results[k].1 == Ok::<SnapshotView, Seq<char>>(snapshot),
        snapshot.open,
        is_heard(m, batch.results[k].0),
        same_account(m, batch),
        keeps(batch, batch.results[k].0),
    ensures
        ({
            let id = batch.results[k].0;
            let next = m.stepped(CommandView::PollComplete(Ok(batch)), t);
            let known = worker::next_state(
                snapshot,
                if m.prs.contains_key(id) {
                    Some(m.prs[id])
                } else {
                    None
                },
                m.config.expected_in(snapshot.repo),
                t.now,
                m.config.settle_seconds,
            );
            &&& next.prs.contains_key(id)
            &&& same_but_labels(known, next.prs[id])
            &&& !next.prs[id].stale
            &&& next.prs[id].error is None
            &&& next.prs[id].fetched_at == t.now
            &&& next.prs[id].snapshot.head == snapshot.head
            &&& next.prs[id].snapshot.reviews == snapshot.reviews
            &&& next.prs[id].snapshot.threads == snapshot.threads
        }),
{
    let id = batch.results[k].0;
    let start = results_start(m, batch, t);
    kept_prs_are_known(m, batch, id, t);
    only_results_decide(start, batch.results, k, t);
    results_keep_the_rest(start, batch.results.take(k), t);
    polls_end_with_their_results(m, batch, t);
    let taken = start.with_results(batch.results, t);
    assert(taken.prs.contains_key(id));
    let next = m.stepped(CommandView::PollComplete(Ok(batch)), t);
    assert(same_but_labels(taken.prs[id], next.prs[id]));
}

/// Of a pull request of which a poll brings nothing, nothing changes, unless the poll has
/// discovered the pull requests anew without it: then it is no longer monitored.
pub proof fn other_prs_stay(m: MonitorView, batch: BatchView, id: Seq<char>, t: Time)
    requires
        !is_among(batch.results, id),
        same_account(m, batch),
        !m.tables.ignored.contains_key(id),
    ensures
        ({
            let next = m.stepped(CommandView::PollComplete(Ok(batch)), t);
            &&& keeps(batch, id) && m.prs.contains_key(id) ==> next.prs.contains_key(id) && same_but_labels(
                m.prs[id],
                next.prs[id],
            )
            &&& !keeps(batch, id) || !m.prs.contains_key(id) ==> !next.prs.contains_key(id)
        }),
{
    let start = results_start(m, batch, t);
    references_are_kept(batch.references, m.tables.ignored.dom(), id);
    other_results_keep(start, batch.results, id, t);
    polls_end_with_their_results(m, batch, t);
    let taken = start.with_results(batch.results, t);
    let next = m.stepped(CommandView::PollComplete(Ok(batch)), t);
    assert(taken.prs.contains_key(id) == next.prs.contains_key(id));
}

/// After a poll that failed as a whole every pull request is kept, and none is current: none asks
/// for attention or allows an action. The error is known.
pub proof fn failed_polls_leave_nothing_current(m: MonitorView, message: Seq<char>, id: Seq<char>, t: Time)
    ensures
        ({
            let next = m.stepped(CommandView::PollComplete(Err(message)), t);
            &&& next.prs.contains_key(id) == m.prs.contains_key(id)
            &&& m.prs.contains_key(id) ==> {
                &&& next.prs[id].stale
                &&& next.prs[id].state == m.prs[id].state
                &&& next.prs[id].update_id == m.prs[id].update_id
                &&& next.prs[id].acknowledged == m.prs[id].acknowledged
                &&& !next.prs[id].wants_attention()
                &&& forall|p: actions::Preferences, kind: actions::Kind| !#[trigger] p.allowed(kind, next.prs[id])
            }
            &&& next.error == Some(message)
            &&& !next.polling
            &&& next.failures > m.failures || m.failures == u32::MAX
        }),
{
    let failed = MonitorView { polling: false, ..m }.all_stale().poll_over(Some(message), t);
    settling_keeps(failed, t);
    let next = m.stepped(CommandView::PollComplete(Err(message)), t);
    assert(next == failed.settled(t));
    assert(failed.prs.contains_key(id) == next.prs.contains_key(id));
    if m.prs.contains_key(id) {
        assert(same_but_labels(failed.prs[id], next.prs[id]));
    }
}

/// A poll in which all was fetched has no error, and one with a result that could not be fetched
/// has. That a pull request changed meanwhile is none.
pub proof fn errors_are_those_of_results(m: MonitorView, batch: BatchView, k: int, t: Time)
    ensures
        ({
            let next = m.stepped(CommandView::PollComplete(Ok(batch)), t);
            &&& (forall|j: int| 0 <= j < batch.results.len() ==> (#[trigger] batch.results[j]).1 is Ok || "PR changed"@.is_prefix_of(
                batch.results[j].1->Err_0,
            )) ==> next.error is None
            &&& 0 <= k < batch.results.len() && batch.results[k].1 is Err && !"PR changed"@.is_prefix_of(
                batch.results[k].1->Err_0,
            ) && is_heard(m, batch.results[k].0) ==> next.error is Some
        }),
{
    let start = results_start(m, batch, t);
    polls_end_with_their_results(m, batch, t);
    no_error_without_one(start, batch.results);
    if 0 <= k < batch.results.len() && batch.results[k].1 is Err && !"PR changed"@.is_prefix_of(batch.results[k].1->Err_0)
        && is_heard(m, batch.results[k].0) {
        errors_are_found(start, batch.results, k);
    }
}

/// Without an error among results there is none.
proof fn no_error_without_one(m: MonitorView, results: Seq<PollResult>)
    ensures
        (forall|j: int| 0 <= j < results.len() ==> (#[trigger] results[j]).1 is Ok || "PR changed"@.is_prefix_of(
            results[j].1->Err_0,
        )) ==> m.results_error(results) is None,
    decreases results.len(),
{
    if results.len() > 0 {
        let rest = results.drop_last();
        no_error_without_one(m, rest);
        if forall|j: int| 0 <= j < results.len() ==> (#[trigger] results[j]).1 is Ok || "PR changed"@.is_prefix_of(
            results[j].1->Err_0,
        ) {
            assert forall|j: int| 0 <= j < rest.len() implies (#[trigger] rest[j]).1 is Ok || "PR changed"@.is_prefix_of(
                rest[j].1->Err_0,
            ) by {
                assert(rest[j] == results[j]);
            }
            assert(results[results.len() - 1].1 is Ok || "PR changed"@.is_prefix_of(results[results.len() - 1].1->Err_0));
        }
    }
}

/// An error among results is found.
proof fn errors_are_found(m: MonitorView, results: Seq<PollResult>, k: int)
    requires
        0 <= k < results.len(),
        results[k].1 is Err,
        !"PR changed"@.is_prefix_of(results[k].1->Err_0),
        is_heard(m, results[k].0),
    ensures
        m.results_error(results) is Some,
    decreases results.len(),
{
    if k < results.len() - 1 {
        assert(results.drop_last()[k] == results[k]);
        errors_are_found(m, results.drop_last(), k);
    }
}

/// After a success the next poll comes after the time of the settings. With each failure that
/// time doubles, five times at most, and it is never longer than a quarter of an hour.
pub proof fn polls_back_off(m: MonitorView, error: Option<Seq<char>>, t: Time)
    requires
        !m.rediscover_after_poll,
        t.clock + 900_000 <= u64::MAX,
    ensures
        ({
            let next = m.poll_over(error, t);
            let tried = if next.failures < 5 {
                next.failures as nat
            } else {
                5
            };
            let seconds = m.config.poll_seconds as nat * vstd::arithmetic::power2::pow2(tried);
            &&& error is None ==> next.failures == 0
            &&& error is Some && m.failures < u32::MAX ==> next.failures == m.failures + 1
            &&& next.deadline == t.clock + 1000 * (if seconds < 900 {
                seconds
            } else {
                900
            })
        }),
{
    vstd::arithmetic::power2::lemma2_to64();
}

/// A poll asks for all pull requests that are monitored, and discovers anew when the last
/// discovery is too long ago, or when one is wanted. While one is under way, or at the end, there
/// is no other.
pub proof fn polls_ask_for_what_is_monitored(m: MonitorView, t: Time)
    ensures
        ({
            let next = m.stepped(CommandView::Poll, t);
            let due = m.discovered_at is None || t.clock - m.discovered_at->0 >= 1000 * m.config.discovery_seconds;
            &&& m.polling || m.actions.stopping ==> next == m
            &&& !m.polling && !m.actions.stopping && (m.discovered_at is Some ==> m.discovered_at->0 <= t.clock) ==> {
                &&& next.polling
                &&& next.prs == m.prs
                &&& next.outputs.len() == m.outputs.len() + 2
                &&& next.outputs.last() == OutputView::Poll {
                    references: m.references,
                    discover: due,
                    viewer: m.viewer,
                    ignored: text_map::sorted_keys(m.tables.ignored.dom()),
                }
            }
        }),
{
}

// ---------------------------------------------------------------- notifications

/// The identity of the notification of an update: one of the pull request and the update alone.
pub open spec fn notice_of_update(pr: PullRequestView) -> Seq<char> {
    evidence::hash_of(vstd::utf8::encode_utf8(pr.snapshot.id + ":"@ + pr.update_id))
}

/// Whether an update was delivered: the first notification of its identity was.
pub open spec fn was_delivered(notices: Seq<store::NoticeView>, id: Seq<char>) -> bool {
    exists|k: int|
        0 <= k < notices.len() && (#[trigger] notices[k]).id == id && notices[k].delivered && forall|j: int|
            0 <= j < k ==> (#[trigger] notices[j]).id != id
}

/// The first notification of an identity is the one that counts.
proof fn first_notices_count(notices: Seq<store::NoticeView>, id: Seq<char>)
    ensures
        match store::notice_place(notices, id) {
            Some(i) => 0 <= i < notices.len() && notices[i].id == id && forall|j: int|
                0 <= j < i ==> (#[trigger] notices[j]).id != id,
            None => forall|j: int| 0 <= j < notices.len() ==> (#[trigger] notices[j]).id != id,
        },
    decreases notices.len(),
{
    if notices.len() > 0 {
        let rest = notices.drop_last();
        first_notices_count(rest, id);
        assert forall|j: int| 0 <= j < rest.len() implies rest[j] == #[trigger] notices[j] by {}
    }
}

/// Whether an update asks for a notification: it is current, it has comments or an approval that
/// the user has not acknowledged, and the user wants to be told.
pub open spec fn is_to_be_told(m: MonitorView, pr: PullRequestView) -> bool {
    &&& m.config.notifications
    &&& !pr.stale
    &&& pr.state == State::Comments || pr.state == State::Approved
    &&& pr.acknowledged != Some(pr.update_id)
}

/// An update that asks for it, that was not delivered and is not being delivered, is announced
/// once, whichever of the two conclusions it has, and can be traced back to its pull request.
pub proof fn unseen_conclusions_are_announced(m: MonitorView, pr: PullRequestView)
    requires
        is_to_be_told(m, pr),
        !was_delivered(m.tables.notices, notice_of_update(pr)),
        !m.in_flight.contains(notice_of_update(pr)),
    ensures
        ({
            let next = m.announcing(pr);
            let id = notice_of_update(pr);
            &&& next.outputs == m.outputs.push(
                OutputView::Ui(
                    UiEventView::Notify {
                        review: true,
                        id,
                        title: pr.snapshot.repo + " #"@ + text::decimal_of(pr.snapshot.number as nat) + " · "@ + (if pr.state
                            == State::Comments {
                            "Comments"@
                        } else {
                            "Approved"@
                        }),
                        body: pr.snapshot.title,
                    },
                ),
            )
            &&& next.in_flight == m.in_flight.insert(id)
            &&& next.prs == m.prs
            &&& exists|k: int| 0 <= k < next.tables.notices.len() && (#[trigger] next.tables.notices[k]).id == id
            &&& (forall|k: int| 0 <= k < m.tables.notices.len() ==> (#[trigger] m.tables.notices[k]).id != id)
                ==> next.tables.notices == m.tables.notices.push(
                store::NoticeView {
                    id,
                    pr: pr.snapshot.id,
                    update: pr.update_id,
                    url: pr.snapshot.url,
                    delivered: false,
                },
            )
        }),
{
    let id = notice_of_update(pr);
    first_notices_count(m.tables.notices, id);
    let next = m.announcing(pr);
    if store::notice_place(m.tables.notices, id) is Some {
        let i = store::notice_place(m.tables.notices, id)->0;
        assert(m.tables.notices[i].id == id);
        assert(next.tables.notices[i].id == id);
    } else {
        assert(next.tables.notices[m.tables.notices.len() as int].id == id);
    }
}

/// Nothing else is announced: neither what asks for nothing, nor what was delivered or is being
/// delivered.
pub proof fn nothing_else_is_announced(m: MonitorView, pr: PullRequestView)
    requires
        !is_to_be_told(m, pr) || was_delivered(m.tables.notices, notice_of_update(pr)) || m.in_flight.contains(
            notice_of_update(pr),
        ),
    ensures
        m.announcing(pr).outputs == m.outputs,
        m.announcing(pr).in_flight == m.in_flight,
        !is_to_be_told(m, pr) ==> m.announcing(pr) == m,
{
    let id = notice_of_update(pr);
    first_notices_count(m.tables.notices, id);
    if was_delivered(m.tables.notices, id) {
        let k = choose|k: int|
            0 <= k < m.tables.notices.len() && (#[trigger] m.tables.notices[k]).id == id && m.tables.notices[k].delivered
                && forall|j: int| 0 <= j < k ==> (#[trigger] m.tables.notices[j]).id != id;
        let i = store::notice_place(m.tables.notices, id)->0;
        assert(m.tables.notices[k].id == id);
        assert(m.tables.notices[i].id == id);
        assert(i == k);
    }
}

/// A snapshot that brings such an update is announced as it comes.
pub proof fn new_conclusions_are_announced(m: MonitorView, id: Seq<char>, snapshot: SnapshotView, t: Time)
    requires
        snapshot.open,
        is_heard(m, id),
        ({
            let pr = worker::next_state(
                snapshot,
                if m.prs.contains_key(id) {
                    Some(m.prs[id])
                } else {
                    None
                },
                m.config.expected_in(snapshot.repo),
                t.now,
                m.config.settle_seconds,
            );
            &&& is_to_be_told(m, pr)
            &&& !was_delivered(m.tables.notices, notice_of_update(pr))
            &&& !m.in_flight.contains(notice_of_update(pr))
        }),
    ensures
        ({
            let next = m.with_result((id, Ok(snapshot)), t);
            let told = next.outputs.last();
            &&& next.prs.contains_key(id)
            &&& next.prs[id].wants_attention()
            &&& next.outputs.len() == m.outputs.len() + 1
            &&& told is Ui
            &&& told->Ui_0 is Notify
            &&& told->Ui_0->Notify_review
            &&& told->Ui_0->Notify_id == notice_of_update(next.prs[id])
            &&& next.in_flight.contains(notice_of_update(next.prs[id]))
            &&& next.tables.prs.contains_key(snapshot.id)
            &&& next.tables.prs[snapshot.id] == next.prs[id]
        }),
{
    let pr = worker::next_state(
        snapshot,
        if m.prs.contains_key(id) {
            Some(m.prs[id])
        } else {
            None
        },
        m.config.expected_in(snapshot.repo),
        t.now,
        m.config.settle_seconds,
    );
    let saved = MonitorView {
        tables: store::TablesView { prs: m.tables.prs.insert(pr.snapshot.id, pr), ..m.tables },
        ..m
    };
    unseen_conclusions_are_announced(saved, pr);
}

/// A notification that was delivered is never announced again; one that could not be delivered
/// can be.
pub proof fn deliveries_are_remembered(m: MonitorView, pr: PullRequestView)
    requires
        exists|k: int| 0 <= k < m.tables.notices.len() && (#[trigger] m.tables.notices[k]).id == notice_of_update(pr),
    ensures
        was_delivered(m.notification_delivered(notice_of_update(pr)).tables.notices, notice_of_update(pr)),
        !m.notification_delivered(notice_of_update(pr)).in_flight.contains(notice_of_update(pr)),
        m.notification_delivered(notice_of_update(pr)).announcing(pr).outputs == m.notification_delivered(
            notice_of_update(pr),
        ).outputs,
        !m.notification_failed(notice_of_update(pr)).in_flight.contains(notice_of_update(pr)),
        m.notification_failed(notice_of_update(pr)).tables.notices == m.tables.notices,
{
    let id = notice_of_update(pr);
    let notices = m.tables.notices;
    first_notices_count(notices, id);
    let k = choose|k: int| 0 <= k < notices.len() && (#[trigger] notices[k]).id == id;
    let i = store::notice_place(notices, id)->0;
    let next = m.notification_delivered(id);
    assert(next.tables.notices[i].id == id && next.tables.notices[i].delivered);
    assert forall|j: int| 0 <= j < i implies (#[trigger] next.tables.notices[j]).id != id by {
        assert(next.tables.notices[j] == notices[j]);
    }
    assert(was_delivered(next.tables.notices, id));
    nothing_else_is_announced(next, pr);
}

// ---------------------------------------------------------------- acknowledgements

/// The user acknowledges the update of a pull request that is shown: it asks for no attention
/// any longer, its notifications are dismissed, and nothing else changes.
pub proof fn acknowledged_updates_ask_for_nothing(m: MonitorView, id: Seq<char>, other: Seq<char>, t: Time)
    requires
        m.prs.contains_key(id),
        id != other,
    ensures
        ({
            let update = m.prs[id].update_id;
            let next = m.stepped(CommandView::Acknowledge { pr: id, update, checked: true }, t);
            &&& next.prs.contains_key(id)
            &&& next.prs[id].acknowledged == Some(update)
            &&& !next.prs[id].wants_attention()
            &&& next.prs[id].state == m.prs[id].state
            &&& next.prs[id].stale == m.prs[id].stale
            &&& next.prs.contains_key(other) == m.prs.contains_key(other)
            &&& m.prs.contains_key(other) ==> same_but_labels(m.prs[other], next.prs[other])
        }),
{
    let update = m.prs[id].update_id;
    let told = m.acknowledged(id, update, true);
    settling_keeps(told, t);
    let next = told.settled(t);
    assert(told.prs.contains_key(id));
    assert(same_but_labels(told.prs[id], next.prs[id]));
    assert(told.prs.contains_key(other) == next.prs.contains_key(other));
}

/// The withdrawal of an acknowledgement lets the update ask for attention again, where it did.
pub proof fn withdrawn_acknowledgements_ask_again(m: MonitorView, id: Seq<char>, t: Time)
    requires
        m.prs.contains_key(id),
    ensures
        ({
            let update = m.prs[id].update_id;
            let next = m.stepped(CommandView::Acknowledge { pr: id, update, checked: false }, t);
            &&& next.prs.contains_key(id)
            &&& next.prs[id].acknowledged is None
            &&& next.prs[id].wants_attention() == (!m.prs[id].stale && (m.prs[id].state == State::Comments || m.prs[id].state
                == State::Approved))
        }),
{
    let update = m.prs[id].update_id;
    let told = m.acknowledged(id, update, false);
    settling_keeps(told, t);
    let next = told.settled(t);
    assert(told.prs.contains_key(id));
    assert(same_but_labels(told.prs[id], next.prs[id]));
}

/// An acknowledgement of another update than the one that is known changes no pull request.
pub proof fn other_updates_are_not_acknowledged(m: MonitorView, id: Seq<char>, update: Seq<char>, checked: bool, t: Time)
    requires
        m.prs.contains_key(id) ==> m.prs[id].update_id != update,
    ensures
        same_prs(m.prs, m.stepped(CommandView::Acknowledge { pr: id, update, checked }, t).prs),
        m.acknowledged(id, update, checked) == m,
{
    settling_keeps(m, t);
}

/// With the acknowledgement of an update all its notifications are dismissed, those that are
/// being delivered once more when they are; those of other updates and pull requests are not.
pub proof fn acknowledged_notifications_are_dismissed(m: MonitorView, id: Seq<char>, k: int)
    requires
        m.prs.contains_key(id),
        0 <= k < m.tables.notices.len(),
    ensures
        ({
            let pr = m.prs[id];
            let next = m.acknowledged(id, pr.update_id, true);
            let told = next.outputs.last();
            let notice = m.tables.notices[k];
            &&& next.outputs.len() == m.outputs.len() + 1
            &&& told is Ui
            &&& told->Ui_0 is DismissNotifications
            &&& notice.pr == pr.snapshot.id && notice.update == pr.update_id
                ==> told->Ui_0->DismissNotifications_0.contains(notice.id) && (m.in_flight.contains(notice.id)
                ==> next.dismiss_after_delivery.contains(notice.id))
            &&& (forall|j: int|
                0 <= j < m.tables.notices.len() && (#[trigger] m.tables.notices[j]).id == notice.id ==> m.tables.notices[j].pr
                    != pr.snapshot.id || m.tables.notices[j].update != pr.update_id)
                ==> !told->Ui_0->DismissNotifications_0.contains(notice.id)
        }),
{
    let pr = m.prs[id];
    notices_are_listed(m.tables.notices, pr.snapshot.id, Some(pr.update_id), m.tables.notices[k].id);
}

/// The notifications that are listed are those of the pull request and the update.
proof fn notices_are_listed(notices: Seq<store::NoticeView>, pr: Seq<char>, update: Option<Seq<char>>, id: Seq<char>)
    ensures
        store::notice_ids(notices, pr, update).contains(id) <==> exists|k: int|
            0 <= k < notices.len() && (#[trigger] notices[k]).id == id && notices[k].pr == pr && (update is None
                || update->0 == notices[k].update),
    decreases notices.len(),
{
    if notices.len() > 0 {
        let rest = notices.drop_last();
        notices_are_listed(rest, pr, update, id);
        let before = store::notice_ids(rest, pr, update);
        let all = store::notice_ids(notices, pr, update);
        if exists|k: int|
            0 <= k < notices.len() && (#[trigger] notices[k]).id == id && notices[k].pr == pr && (update is None
                || update->0 == notices[k].update) {
            let k = choose|k: int|
                0 <= k < notices.len() && (#[trigger] notices[k]).id == id && notices[k].pr == pr && (update is None
                    || update->0 == notices[k].update);
            if k < rest.len() {
                assert(rest[k] == notices[k]);
                let j = choose|j: int| 0 <= j < before.len() && before[j] == id;
                assert(all[j] == id);
            } else {
                assert(all[all.len() - 1] == id);
            }
        }
        if all.contains(id) {
            let j = choose|j: int| 0 <= j < all.len() && all[j] == id;
            if j < before.len() {
                assert(before[j] == id);
                assert(before.contains(id));
                let k = choose|k: int|
                    0 <= k < rest.len() && (#[trigger] rest[k]).id == id && rest[k].pr == pr && (update is None || update->0
                        == rest[k].update);
                assert(notices[k] == rest[k]);
            } else {
                assert(notices[notices.len() - 1].id == id);
            }
        }
    }
}

// ---------------------------------------------------------------- ignored pull requests

/// A pull request that the user ignores is gone from what is monitored and kept, with its
/// notifications, and is remembered as ignored. The others stay as they are.
pub proof fn ignored_prs_are_gone(m: MonitorView, id: Seq<char>, other: Seq<char>, t: Time)
    requires
        id != other,
    ensures
        ({
            let next = m.stepped(CommandView::Ignore(id), t);
            &&& !next.prs.contains_key(id)
            &&& next.tables.ignored.contains_key(id)
            &&& forall|j: int| 0 <= j < next.references.len() ==> (#[trigger] next.references[j]).id != id
            &&& forall|j: int| 0 <= j < next.tables.notices.len() ==> (#[trigger] next.tables.notices[j]).pr != id
            &&& next.prs.contains_key(other) == m.prs.contains_key(other)
            &&& m.prs.contains_key(other) ==> same_but_labels(m.prs[other], next.prs[other])
            &&& next.tables.ignored.contains_key(other) == m.tables.ignored.contains_key(other)
        }),
{
    let told = m.ignoring(id);
    settling_keeps(told, t);
    fewer_references(m.references, id, id);
    fewer_notices(m.tables.notices, id);
    let next = told.settled(t);
    assert(told.prs.contains_key(other) == next.prs.contains_key(other));
    assert(told.prs.contains_key(id) == next.prs.contains_key(id));
}

/// Without the notifications of a pull request there are none of it.
proof fn fewer_notices(notices: Seq<store::NoticeView>, pr: Seq<char>)
    ensures
        forall|j: int|
            0 <= j < store::notices_without(notices, pr).len() ==> (#[trigger] store::notices_without(notices, pr)[j]).pr
                != pr,
    decreases notices.len(),
{
    if notices.len() > 0 {
        fewer_notices(notices.drop_last(), pr);
        let before = store::notices_without(notices.drop_last(), pr);
        let kept = store::notices_without(notices, pr);
        assert forall|j: int| 0 <= j < kept.len() implies (#[trigger] kept[j]).pr != pr by {
            if j < before.len() {
                assert(kept[j] == before[j]);
            }
        }
    }
}

/// A pull request that the user no longer ignores is looked for at once.
pub proof fn restored_prs_are_looked_for(m: MonitorView, id: Seq<char>, t: Time)
    requires
        m.tables.ignored.contains_key(id),
    ensures
        ({
            let next = m.restoring(id, t);
            &&& !next.tables.ignored.contains_key(id)
            &&& next.discovered_at is None
            &&& next.deadline == t.clock
            &&& next.prs == m.prs
            &&& m.polling ==> next.rediscover_after_poll && next.invalidated.contains(id)
        }),
{
}

// ---------------------------------------------------------------- when something is due

/// A poll is due from its time on, unless one is under way or the monitor stops; so is the lookup
/// of what is ignored.
pub proof fn polls_are_due_at_their_time(m: MonitorView, clock: u64, t: Time)
    ensures
        !m.polling && !m.actions.stopping ==> (m.poll_due(clock) <==> clock >= m.deadline),
        m.polling || m.actions.stopping ==> !m.poll_due(clock) && m.stepped(CommandView::Poll, t) == m,
        !m.ignored_loading && !m.actions.stopping ==> (m.lookup_due(clock) <==> clock >= m.ignored_deadline),
        m.ignored_loading || m.actions.stopping ==> !m.lookup_due(clock),
{
}

/// A monitor shows first the shortcuts, or why those that are kept cannot be used, then the
/// actions, and then the pull requests.
pub proof fn monitors_greet(m: MonitorView)
    ensures
        ({
            let next = m.greeting();
            let fault = hotkeys::fault_of(m.tables.hotkeys, m.dev);
            let at = m.outputs.len() as int;
            &&& m.outputs.is_prefix_of(next.outputs)
            &&& next.outputs.len() == at + 3
            &&& fault is None ==> next.outputs[at] == OutputView::Ui(
                UiEventView::HotkeysLoaded { preferences: m.tables.hotkeys, error: None },
            )
            &&& fault is Some ==> next.outputs[at] == OutputView::Ui(
                UiEventView::HotkeysLoaded { preferences: hotkeys::nothing_chosen(), error: fault },
            )
            &&& next.outputs[at + 1] == OutputView::Ui(UiEventView::ActionsChanged(m.actions.state))
            &&& next.outputs[at + 2] == OutputView::Ui(
                UiEventView::Updated { prs: text_map::values_in_order(m.prs), error: m.error, loading: m.polling },
            )
        }),
{
    let next = m.greeting();
    assert(next.outputs.subrange(0, m.outputs.len() as int) =~= m.outputs);
}

} // verus!
