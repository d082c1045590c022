//! What holds of the monitor, whatever it is told and in whatever order.

use crate::model::{PrLabelView, PullRequestView, SnapshotView};
use crate::store;
use crate::worker::action_worker::effects::EffectView;
use crate::worker::action_worker::CoordinatorView;
use crate::worker::events::{BatchView, CommandView, OutputView, PollResult, UiEventView};
use crate::worker::monitor;
use crate::worker::monitor::{MonitorView, Time, LONGEST_DELAY};
use vstd::prelude::*;

verus! {

broadcast use vstd::seq_lib::group_seq_properties;

/// Whether no active pull request is an ignored one.
pub open spec fn ignored_are_out(m: MonitorView) -> bool {
    forall|id: Seq<char>| #[trigger] m.prs.contains_key(id) ==> !m.tables.ignored.contains_key(id)
}

/// An ignored pull request never comes back by itself: whatever the monitor is told, no
/// active pull request is an ignored one, also when a poll that was begun before brings it.
pub proof fn ignored_prs_never_reappear(m: MonitorView, command: CommandView, t: Time)
    requires
        ignored_are_out(m),
    ensures
        ignored_are_out(m.stepped(command, t)),
{
    let told = m.told(command, t);
    match command {
        CommandView::PrAction(command) => {
            let kept = m.keeping(command);
            absorbing_keeps_out(
                MonitorView {
                    actions: CoordinatorView {
                        effects: Seq::empty(),
                        ..kept.actions.handled(command, kept.context(t))
                    },
                    ..kept
                },
                kept.actions.handled(command, kept.context(t)).effects,
                t,
            );
        },
        CommandView::LabelSaved { .. } => {},
        CommandView::Acknowledge { .. } => {},
        CommandView::Ignore(_) => {},
        CommandView::Restore(_) => {},
        CommandView::IgnoredDetailsLoaded(found) => {
            if found is Ok {
                lookups_keep_ignored(m.tables, found->Ok_0);
            }
        },
        CommandView::PollComplete(Ok(batch)) => {
            polls_keep_out(m, batch, t);
            catalogues_keep_out(m.poll_done(batch, t), t);
        },
        _ => {},
    }
    assert(ignored_are_out(told));
    absorbing_keeps_out(
        MonitorView {
            actions: CoordinatorView { effects: Seq::empty(), ..told.actions.reconciled(told.context(t)) },
            ..told
        },
        told.actions.reconciled(told.context(t)).effects,
        t,
    );
}

/// What the coordinator of changes asks for brings nothing back.
proof fn absorbing_keeps_out(m: MonitorView, effects: Seq<EffectView>, t: Time)
    requires
        ignored_are_out(m),
    ensures
        ignored_are_out(m.absorbing_all(effects, t)),
        m.absorbing_all(effects, t).tables.ignored == m.tables.ignored,
    decreases effects.len(),
{
    if effects.len() > 0 {
        absorbing_keeps_out(m, effects.drop_last(), t);
    }
}

/// A lookup makes nothing ignored, or no longer.
proof fn lookups_keep_ignored(tables: store::TablesView, snapshots: Seq<SnapshotView>)
    ensures
        monitor::looked_up(tables, snapshots).ignored == tables.ignored,
    decreases snapshots.len(),
{
    if snapshots.len() > 0 {
        lookups_keep_ignored(tables, snapshots.drop_last());
    }
}

/// Results bring nothing back.
proof fn results_keep_out(m: MonitorView, results: Seq<PollResult>, t: Time)
    requires
        ignored_are_out(m),
    ensures
        ignored_are_out(m.with_results(results, t)),
    decreases results.len(),
{
    if results.len() > 0 {
        results_keep_out(m, results.drop_last(), t);
    }
}

/// A poll brings nothing back.
proof fn polls_keep_out(m: MonitorView, batch: BatchView, t: Time)
    requires
        ignored_are_out(m),
    ensures
        ignored_are_out(m.poll_done(batch, t)),
{
    let start = MonitorView { polling: false, ..m }.for_viewer(batch.viewer).with_references(
        batch.references,
        batch.discovered,
        t,
    );
    assert(ignored_are_out(start));
    results_keep_out(start, batch.results, t);
}

/// A refresh of catalogues brings nothing back.
proof fn catalogues_keep_out(m: MonitorView, t: Time)
    requires
        ignored_are_out(m),
    ensures
        ignored_are_out(m.with_catalogues(t)),
{
    let first = m.actions.reconciled(m.context(t));
    let agreed = m.with_actions(first, t);
    absorbing_keeps_out(
        MonitorView { actions: CoordinatorView { effects: Seq::empty(), ..first }, ..m },
        first.effects,
        t,
    );
    let second = agreed.actions.refreshing(agreed.context(t), None);
    absorbing_keeps_out(
        MonitorView { actions: CoordinatorView { effects: Seq::empty(), ..second }, ..agreed },
        second.effects,
        t,
    );
}

/// What is taken up from the tables has nothing ignored among it.
pub proof fn ignored_prs_are_not_taken_up(prs: Seq<PullRequestView>, ignored: Map<Seq<char>, ()>, id: Seq<char>)
    requires
        monitor::by_identity(prs, ignored).contains_key(id),
    ensures
        !ignored.contains_key(id),
    decreases prs.len(),
{
    if prs.len() > 0 && monitor::by_identity(prs.drop_last(), ignored).contains_key(id) {
        ignored_prs_are_not_taken_up(prs.drop_last(), ignored, id);
    }
}

/// Of a pull request that was ignored or restored while a poll was under way, the poll says
/// nothing.
pub proof fn invalidated_results_are_dropped(m: MonitorView, id: Seq<char>, outcome: Result<SnapshotView, Seq<char>>, t: Time)
    requires
        m.polling,
        m.tables.ignored.contains_key(id),
    ensures
        m.ignoring(id).with_result((id, outcome), t) == m.ignoring(id),
        m.restoring(id, t).with_result((id, outcome), t) == m.restoring(id, t),
{
}

/// After a restoration during a poll, the end of that poll does not delay the discovery that
/// brings the pull request back.
pub proof fn restorations_are_discovered_at_once(m: MonitorView, id: Seq<char>, error: Option<Seq<char>>, t: Time, end: Time)
    requires
        m.polling,
        m.tables.ignored.contains_key(id),
    ensures
        m.restoring(id, t).poll_over(error, end).discovered_at is None,
        m.restoring(id, t).poll_over(error, end).deadline == end.clock,
{
}

/// An error is announced when it is another one than before, and only then.
pub proof fn errors_are_announced_once(m: MonitorView, error: Option<Seq<char>>, t: Time)
    ensures
        error == m.error || error is None ==> m.poll_over(error, t).outputs == m.outputs,
        error != m.error && error is Some ==> m.poll_over(error, t).outputs == m.outputs.push(
            OutputView::Ui(
                UiEventView::Notify {
                    review: false,
                    id: monitor::error_notice_id(error->0),
                    title: "Gopher needs attention"@,
                    body: error->0,
                },
            ),
        ),
        m.poll_over(error, t).poll_over(error, t).outputs == m.poll_over(error, t).outputs,
{
}

/// The time between two polls is never longer than a quarter of an hour, never shorter than
/// what the settings say (where they say less than that), and grows with failures.
pub proof fn delays_are_bounded(poll_seconds: u64, failures: u32, more: u32)
    requires
        failures <= more,
    ensures
        monitor::poll_delay(poll_seconds, failures) <= LONGEST_DELAY,
        poll_seconds <= LONGEST_DELAY ==> monitor::poll_delay(poll_seconds, failures) >= poll_seconds,
        monitor::poll_delay(poll_seconds, failures) <= monitor::poll_delay(poll_seconds, more),
        poll_seconds <= LONGEST_DELAY ==> monitor::poll_delay(poll_seconds, 0) == poll_seconds,
{
    let a = monitor::backoff(failures);
    let b = monitor::backoff(more);
    assert(poll_seconds as nat * a <= poll_seconds as nat * b) by (nonlinear_arith)
        requires
            a <= b,
    ;
    assert(poll_seconds as nat * a >= poll_seconds) by (nonlinear_arith)
        requires
            a >= 1,
    ;
}

/// An update that is being delivered or was delivered is not announced again.
pub proof fn updates_are_announced_once(m: MonitorView, pr: PullRequestView)
    ensures
        m.in_flight.contains(store::notice_id(pr)) || !m.tables.may_announce(pr) ==> m.announcing(pr).outputs == m.outputs,
        !m.config.notifications || !pr.wants_attention() ==> m.announcing(pr) == m,
        m.announcing(pr).announcing(pr).outputs == m.announcing(pr).outputs,
{
}

/// An older notification cannot acknowledge a newer update.
pub proof fn old_notifications_acknowledge_nothing(m: MonitorView, id: Seq<char>, open: bool, reveal: bool)
    requires
        store::notice_of(m.tables.notices, id) is Some,
        ({
            let notice = store::notice_of(m.tables.notices, id)->0;
            m.prs.contains_key(notice.pr) ==> m.prs[notice.pr].update_id != notice.update
        }),
    ensures
        m.notification_used(id, open, reveal).prs == m.prs,
        m.notification_used(id, open, reveal).tables == m.tables,
{
}

/// To open a pull request does not acknowledge it: that waits until the browser has it.
pub proof fn opening_acknowledges_nothing(m: MonitorView, id: Seq<char>, reveal: bool)
    ensures
        m.notification_used(id, true, reveal).prs == m.prs,
        m.notification_used(id, true, reveal).tables == m.tables,
{
}

/// A notification that is dismissed while it is being delivered is dismissed again once it
/// was delivered.
pub proof fn dismissals_outlive_deliveries(m: MonitorView, ids: Seq<Seq<char>>, id: Seq<char>)
    requires
        ids.contains(id),
        m.in_flight.contains(id),
    ensures
        m.dismissing(ids).notification_delivered(id).outputs == m.dismissing(ids).outputs.push(
            OutputView::Ui(UiEventView::DismissNotifications(seq![id])),
        ),
{
}

/// After a poll that failed as a whole, nothing that is known counts as current.
pub proof fn failed_polls_make_everything_stale(m: MonitorView, id: Seq<char>)
    requires
        m.prs.contains_key(id),
    ensures
        m.all_stale().prs.contains_key(id),
        m.all_stale().prs[id].stale,
        !m.all_stale().prs[id].wants_attention(),
{
}

/// For another account nothing of what was known is left.
pub proof fn accounts_start_empty(m: MonitorView, viewer: Seq<char>)
    requires
        m.tables.viewer is Some,
        m.tables.viewer->0 != viewer,
    ensures
        m.for_viewer(viewer).prs == Map::<Seq<char>, PullRequestView>::empty(),
        m.for_viewer(viewer).tables.prs == Map::<Seq<char>, PullRequestView>::empty(),
        m.for_viewer(viewer).tables.notices == Seq::<store::NoticeView>::empty(),
        m.for_viewer(viewer).in_flight == Set::<Seq<char>>::empty(),
        m.for_viewer(viewer).tables.ignored == m.tables.ignored,
{
}

/// The monitor stops only once nothing that was sent is waited for.
pub proof fn stops_after_answers(m: MonitorView)
    requires
        !m.stopped,
        m.stopping_if_done().stopped,
    ensures
        m.actions.stopping,
        m.actions.submitted_merges.len() == 0,
        m.actions.submitted_labels.len() == 0,
{
}

/// A label that was changed is in the snapshot exactly where it was chosen, once, and the
/// other labels are as they were.
pub proof fn changed_labels_are_known(pr: PullRequestView, label: PrLabelView, selected: bool, other: PrLabelView)
    requires
        other.name != label.name,
    ensures
        monitor::with_label(pr, label, selected).snapshot.labels.contains(label) == selected,
        monitor::with_label(pr, label, selected).snapshot.labels.contains(other) == pr.snapshot.labels.contains(other),
{
    let others = monitor::labels_without(pr.snapshot.labels, label.name);
    other_labels(pr.snapshot.labels, label.name, other);
    other_labels_only(pr.snapshot.labels, label.name, label);
    if selected {
        assert(others.push(label).last() == label);
        if others.contains(other) {
            let k = choose|k: int| 0 <= k < others.len() && others[k] == other;
            assert(others.push(label)[k] == other);
        }
        if others.push(label).contains(other) {
            let k = choose|k: int| 0 <= k < others.len() + 1 && others.push(label)[k] == other;
            assert(others[k] == other);
        }
    }
}

/// Without the labels of a name the others stay.
proof fn other_labels(labels: Seq<PrLabelView>, name: Seq<char>, other: PrLabelView)
    requires
        other.name != name,
    ensures
        monitor::labels_without(labels, name).contains(other) == labels.contains(other),
    decreases labels.len(),
{
    if labels.len() > 0 {
        let rest = labels.drop_last();
        let kept = monitor::labels_without(rest, name);
        other_labels(rest, name, other);
        if labels.contains(other) {
            let k = choose|k: int| 0 <= k < labels.len() && labels[k] == other;
            if k < labels.len() - 1 {
                assert(rest[k] == other);
                let j = choose|j: int| 0 <= j < kept.len() && kept[j] == other;
                if labels.last().name != name {
                    assert(kept.push(labels.last())[j] == other);
                }
            } else {
                assert(kept.push(labels.last()).last() == other);
            }
        }
        if monitor::labels_without(labels, name).contains(other) {
            if labels.last().name != name && labels.last() != other {
                let j = choose|j: int| 0 <= j < kept.len() + 1 && kept.push(labels.last())[j] == other;
                assert(kept[j] == other);
            }
            if rest.contains(other) {
                let k = choose|k: int| 0 <= k < rest.len() && rest[k] == other;
                assert(labels[k] == other);
            } else {
                assert(labels[labels.len() - 1] == other);
            }
        }
    }
}

/// Without the labels of a name there are none of it.
proof fn other_labels_only(labels: Seq<PrLabelView>, name: Seq<char>, label: PrLabelView)
    requires
        label.name == name,
    ensures
        !monitor::labels_without(labels, name).contains(label),
    decreases labels.len(),
{
    if labels.len() > 0 {
        let kept = monitor::labels_without(labels.drop_last(), name);
        other_labels_only(labels.drop_last(), name, label);
        if labels.last().name != name && kept.push(labels.last()).contains(label) {
            let j = choose|j: int| 0 <= j < kept.len() + 1 && kept.push(labels.last())[j] == label;
            assert(kept[j] == label);
        }
    }
}

} // verus!
