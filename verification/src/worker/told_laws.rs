//! What holds of what the monitor is told.

use crate::hotkeys;
use crate::hotkeys::PreferencesView;
use crate::model::{PrLabelView, PullRequestView, SnapshotView};
use crate::store;
use crate::store::NoticeView;
use crate::text_map;
use crate::worker::events::{CommandView, OutputView, UiEventView};
use crate::worker::monitor;
use crate::worker::monitor::{MonitorView, Time};
use vstd::prelude::*;

verus! {

broadcast use vstd::seq_lib::group_seq_properties;

// ---------------------------------------------------------------- notifications

/// The second button of a notification opens its pull request; everything else acknowledges the
/// update where that is still the current one, removes the notification, and leads to the pull
/// request where that is wanted.
pub proof fn notifications_act_on_their_update(m: MonitorView, id: Seq<char>, reveal: bool, other: Seq<char>, t: Time)
    requires
        store::notice_of(m.tables.notices, id) is Some,
        other != store::notice_of(m.tables.notices, id)->0.pr,
    ensures
        ({
            let notice = store::notice_of(m.tables.notices, id)->0;
            let opened = m.told(CommandView::NotificationAction { id, open: true, reveal }, t);
            let seen = m.told(CommandView::NotificationAction { id, open: false, reveal }, t);
            let current = m.prs.contains_key(notice.pr) && m.prs[notice.pr].update_id == notice.update;
            let removed = m.outputs.push(OutputView::Ui(UiEventView::DismissNotifications(seq![id])));
            &&& opened.outputs == m.outputs.push(
                OutputView::Ui(UiEventView::Open { url: notice.url, pr: notice.pr, update: notice.update }),
            )
            &&& opened.prs == m.prs
            &&& current ==> seen.prs.contains_key(notice.pr) && seen.prs[notice.pr].acknowledged == Some(notice.update)
            &&& !current ==> seen.prs == m.prs
            &&& m.prs.contains_key(other) ==> seen.prs.contains_key(other) && seen.prs[other] == m.prs[other]
            &&& !reveal ==> seen.outputs == removed
            &&& reveal && m.prs.contains_key(notice.pr) ==> seen.outputs == removed.push(
                OutputView::Ui(UiEventView::ShowPopover { pr: Some(notice.pr) }),
            )
            &&& reveal && !m.prs.contains_key(notice.pr) ==> seen.outputs == removed.push(
                OutputView::Ui(UiEventView::ShowPopover { pr: None }),
            )
        }),
{
}

/// A notification that nobody knows does nothing.
pub proof fn unknown_notifications_do_nothing(m: MonitorView, id: Seq<char>, open: bool, reveal: bool, t: Time)
    requires
        forall|k: int| 0 <= k < m.tables.notices.len() ==> (#[trigger] m.tables.notices[k]).id != id,
    ensures
        m.told(CommandView::NotificationAction { id, open, reveal }, t) == m,
{
    unknown_notices_are_not_found(m.tables.notices, id);
}

/// What is not listed is not found.
proof fn unknown_notices_are_not_found(notices: Seq<NoticeView>, id: Seq<char>)
    requires
        forall|k: int| 0 <= k < notices.len() ==> (#[trigger] notices[k]).id != id,
    ensures
        store::notice_place(notices, id) is None,
        store::notice_of(notices, id) is None,
    decreases notices.len(),
{
    if notices.len() > 0 {
        let rest = notices.drop_last();
        assert forall|k: int| 0 <= k < rest.len() implies (#[trigger] rest[k]).id != id by {
            assert(rest[k] == notices[k]);
        }
        unknown_notices_are_not_found(rest, id);
        let tail = notices.drop_first();
        assert forall|k: int| 0 <= k < tail.len() implies (#[trigger] tail[k]).id != id by {
            assert(tail[k] == notices[k + 1]);
        }
        unknown_notices_are_not_found(tail, id);
        assert(notices[notices.len() - 1].id != id && notices[0].id != id);
    }
}

/// A delivery that failed forgets that it was under way, so that it can be tried again.
pub proof fn failed_deliveries_can_be_tried_again(m: MonitorView, id: Seq<char>, other: Seq<char>, t: Time)
    requires
        other != id,
    ensures
        ({
            let failed = m.told(CommandView::NotificationFailed(id), t);
            let delivered = m.told(CommandView::NotificationDelivered(id), t);
            &&& !failed.in_flight.contains(id) && failed.in_flight.contains(other) == m.in_flight.contains(other)
            &&& !delivered.in_flight.contains(id) && delivered.in_flight.contains(other) == m.in_flight.contains(other)
            &&& failed.tables == m.tables && failed.prs == m.prs && failed.outputs == m.outputs
            &&& delivered.prs == m.prs
            &&& !m.dismiss_after_delivery.contains(id) ==> delivered.outputs == m.outputs
        }),
{
}

// ---------------------------------------------------------------- polls

/// A refresh makes a poll due at once, which discovers pull requests anew.
pub proof fn refreshes_discover_at_once(m: MonitorView, t: Time)
    requires
        !m.polling,
        !m.actions.stopping,
    ensures
        ({
            let next = m.told(CommandView::Refresh, t);
            &&& next.poll_due(t.clock)
            &&& next.poll_begun(t).outputs.last() matches OutputView::Poll { references, discover, viewer, ignored }
                && discover && references == m.references && viewer == m.viewer
            &&& next.prs == m.prs && next.tables == m.tables
        }),
{
}

/// A poll discovers pull requests where none were discovered yet, or where that was as long ago as
/// the settings say; a clock that went back does not count.
pub proof fn discoveries_are_made_in_time(m: MonitorView, at: u64, t: Time)
    ensures
        ({
            let asked = m.poll_begun(t).outputs.last();
            &&& m.poll_begun(t).polling
            &&& asked matches OutputView::Poll { references, discover, viewer, ignored } && {
                &&& m.discovered_at is None ==> discover
                &&& m.discovered_at == Some(at) && at <= t.clock ==> (discover <==> t.clock - at >= 1000
                    * m.config.discovery_seconds)
                &&& m.discovered_at == Some(at) && at > t.clock && m.config.discovery_seconds > 0 ==> !discover
                &&& references == m.references
                &&& viewer == m.viewer
                &&& ignored == text_map::sorted_keys(m.tables.ignored.dom())
            }
        }),
{
    if m.discovered_at == Some(at) && at <= t.clock {
        let passed = (t.clock - at) as int;
        let seconds = m.config.discovery_seconds as int;
        assert(passed / 1000 >= seconds <==> passed >= 1000 * seconds) by (nonlinear_arith);
    }
}

/// The title of a notification names the repository, the number and the state.
pub proof fn notifications_name_their_pr(pr: PullRequestView)
    ensures
        monitor::notice_title(pr) == pr.snapshot.repo + " #"@ + crate::text::decimal_of(pr.snapshot.number as nat) + " · "@
            + pr.state.label_text(),
        crate::model::State::Comments.label_text() == "Comments"@,
        crate::model::State::Approved.label_text() == "Approved"@,
{
}

// ---------------------------------------------------------------- what is ignored

/// A lookup asks for everything that is ignored, and the next one is due an interval later.
pub proof fn lookups_ask_for_everything_ignored(m: MonitorView, t: Time)
    requires
        t.clock + m.ignored_interval <= u64::MAX,
    ensures
        ({
            let next = m.told(CommandView::CheckIgnored, t);
            &&& next.ignored_loading
            &&& next.ignored_deadline == t.clock + m.ignored_interval
            &&& next.outputs.len() == m.outputs.len() + 2
            &&& next.outputs[m.outputs.len() as int] == OutputView::LookUp(text_map::sorted_keys(m.tables.ignored.dom()))
            &&& !next.lookup_due(t.clock)
        }),
        m.ignored_loading ==> m.stepped(CommandView::CheckIgnored, t) == m,
        !m.ignored_loading && m.tables.ignored == Map::<Seq<char>, ()>::empty() ==> m.stepped(
            CommandView::CheckIgnored,
            t,
        ).outputs == m.outputs,
{
}

/// The end of a lookup is shown with what was found or what went wrong; only one that succeeded
/// counts, and nothing becomes active by it.
pub proof fn lookups_end(m: MonitorView, snapshots: Seq<SnapshotView>, message: Seq<char>, t: Time)
    requires
        t.clock + m.ignored_interval <= u64::MAX,
    ensures
        ({
            let found = m.told(CommandView::IgnoredDetailsLoaded(Ok(snapshots)), t);
            let failed = m.told(CommandView::IgnoredDetailsLoaded(Err(message)), t);
            &&& !found.ignored_loading && !failed.ignored_loading
            &&& found.ignored_checked && !failed.ignored_checked
            &&& found.ignored_deadline == t.clock + m.ignored_interval
            &&& failed.ignored_deadline == t.clock + m.ignored_interval
            &&& found.prs == m.prs && failed.prs == m.prs && failed.tables == m.tables
            &&& found.outputs.drop_last() == m.outputs && failed.outputs.drop_last() == m.outputs
            &&& found.outputs.last() matches OutputView::Ui(UiEventView::IgnoredUpdated { prs, error, loading }) && error
                is None && !loading
            &&& failed.outputs.last() matches OutputView::Ui(UiEventView::IgnoredUpdated { prs, error, loading }) && error
                == Some(message) && !loading
        }),
{
    let found = m.told(CommandView::IgnoredDetailsLoaded(Ok(snapshots)), t);
    let failed = m.told(CommandView::IgnoredDetailsLoaded(Err(message)), t);
    assert(found.outputs.drop_last() =~= m.outputs);
    assert(failed.outputs.drop_last() =~= m.outputs);
}

/// Who wants to see what is ignored sees it, and a lookup is due at once where none has succeeded
/// yet and none is under way.
pub proof fn ignored_prs_are_looked_up_when_wanted(m: MonitorView, t: Time)
    requires
        !m.actions.stopping,
    ensures
        ({
            let next = m.told(CommandView::ShowIgnored, t);
            &&& next.ignored_requested
            &&& !m.ignored_checked && !m.ignored_loading ==> next.lookup_due(t.clock)
            &&& m.ignored_checked || m.ignored_loading ==> next.ignored_deadline == m.ignored_deadline
            &&& next.outputs.drop_last() == m.outputs
            &&& next.outputs.last() matches OutputView::Ui(UiEventView::IgnoredUpdated { prs, error, loading }) && error
                is None && loading == m.ignored_loading
        }),
{
    assert(m.told(CommandView::ShowIgnored, t).outputs.drop_last() =~= m.outputs);
}

// ---------------------------------------------------------------- shortcuts and labels

/// Sound shortcuts are written down, and kept once that succeeded; others are refused with their
/// fault.
pub proof fn sound_shortcuts_are_kept(m: MonitorView, chosen: PreferencesView, message: Seq<char>, t: Time)
    ensures
        ({
            let asked = m.told(CommandView::SaveHotkeys(chosen), t);
            let fault = hotkeys::fault_of(chosen, m.dev);
            let written = m.told(CommandView::HotkeysWritten { preferences: chosen, result: Ok(()) }, t);
            let failed = m.told(CommandView::HotkeysWritten { preferences: chosen, result: Err(message) }, t);
            &&& asked.tables == m.tables
            &&& fault is None ==> asked.outputs == m.outputs.push(OutputView::WriteHotkeys(chosen))
            &&& fault is Some ==> asked.outputs == m.outputs.push(
                OutputView::Ui(UiEventView::HotkeysSaved(Err(fault->0))),
            )
            &&& written.tables.hotkeys == chosen
            &&& written.outputs == m.outputs.push(OutputView::Ui(UiEventView::HotkeysSaved(Ok(()))))
            &&& failed.tables == m.tables
            &&& failed.outputs == m.outputs.push(OutputView::Ui(UiEventView::HotkeysSaved(Err(message))))
        }),
{
}

/// A label that was changed on GitHub is known at once, is kept, and makes a poll due; a poll that
/// is under way says nothing of the pull request any more. What another account changed does not
/// count.
pub proof fn changed_labels_are_taken_up(
    m: MonitorView,
    pr: Seq<char>,
    viewer: Seq<char>,
    label: PrLabelView,
    selected: bool,
    t: Time,
)
    ensures
        ({
            let next = m.told(CommandView::LabelSaved { pr, viewer, label, selected }, t);
            &&& m.viewer != Some(viewer) || !m.prs.contains_key(pr) ==> next == m
            &&& m.viewer == Some(viewer) && m.prs.contains_key(pr) ==> {
                &&& next.prs.contains_key(pr)
                &&& next.prs[pr].state == m.prs[pr].state && next.prs[pr].stale == m.prs[pr].stale
                &&& next.prs[pr].update_id == m.prs[pr].update_id
                &&& next.tables.prs.contains_key(next.prs[pr].snapshot.id)
                &&& next.tables.prs[next.prs[pr].snapshot.id] == next.prs[pr]
                &&& next.deadline == t.clock
                &&& m.polling ==> next.invalidated.contains(pr) && next.rediscover_after_poll
                &&& !m.polling ==> next.invalidated == m.invalidated
            }
        }),
        ({
            let next = m.told(CommandView::LabelSaved { pr, viewer, label, selected: true }, t);
            m.viewer == Some(viewer) && m.prs.contains_key(pr) ==> next.prs[pr].snapshot.labels.contains(label)
        }),
        ({
            let next = m.told(CommandView::LabelSaved { pr, viewer, label, selected: false }, t);
            m.viewer == Some(viewer) && m.prs.contains_key(pr) ==> !next.prs[pr].snapshot.labels.contains(label)
        }),
{
    if m.prs.contains_key(pr) {
        let other = PrLabelView { name: label.name.push('.'), color: label.color };
        assert(other.name.len() != label.name.len());
        crate::worker::laws::changed_labels_are_known(m.prs[pr], label, true, other);
        crate::worker::laws::changed_labels_are_known(m.prs[pr], label, false, other);
    }
}

// ---------------------------------------------------------------- the end

/// A shutdown lets nothing new begin, and the monitor stops at once where nothing that was sent is
/// waited for.
pub proof fn shutdowns_end(m: MonitorView, t: Time)
    ensures
        ({
            let next = m.told(CommandView::Shutdown, t);
            &&& next.actions.stopping
            &&& next.prs == m.prs && next.tables == m.tables
            &&& next.actions.submitted_merges == m.actions.submitted_merges
            &&& next.actions.submitted_labels == m.actions.submitted_labels
        }),
        ({
            let idle = m.actions.submitted_merges.len() == 0 && m.actions.submitted_labels.len() == 0;
            let last = OutputView::Ui(UiEventView::Stopped);
            &&& m.actions.stopping && idle && !m.stopped ==> m.stopping_if_done().stopped
                && m.stopping_if_done().outputs == m.outputs.push(last)
            &&& !m.actions.stopping || !idle || m.stopped ==> m.stopping_if_done() == m
        }),
{
}

} // verus!
