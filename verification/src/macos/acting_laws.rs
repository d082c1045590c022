//! What holds of how the application answers.

use crate::actions::{ActionStateView, RequestView};
use crate::hotkeys;
use crate::hotkeys::{BindingView, HotkeyAction};
use crate::identity;
use crate::macos;
use crate::macos::desk;
use crate::macos::desk::{AnnouncementView, AppEventView, AroundView, DeskView, OutputView};
use crate::macos::keyboard::{GlobalKey, KeyEffectView, KeyPressView, KeyReplyView, KeyboardView, PendingView, StateView};
use crate::macos::popover::action_views;
use crate::macos::popover::action_views::DetailPanelView;
use crate::macos::popover::attention::FlashView;
use crate::macos::popover::inbox;
use crate::macos::popover::inbox::{GestureView, NewsView, ReviewPopoverView};
use crate::macos::popover::rows;
use crate::macos::popover::PressView;
use crate::macos::updates::{DelegateView, UpdaterView};
use crate::macos::{menu, shown_laws, ActionView};
use crate::model::{PullRequestView, State};
use crate::text;
use crate::worker::action_worker::effects::ActionCommandView;
use crate::worker::events::{CommandView, UiEventView};
use vstd::prelude::*;

verus! {

broadcast use vstd::seq_lib::group_seq_properties;

// ---------------------------------------------------------------- notifications

/// A notification is delivered where notifications are permitted; it waits where that is not known
/// yet, and has failed where they are not permitted. Without a package nothing is delivered.
pub proof fn notifications_await_their_permission(desk: DeskView, a: AnnouncementView)
    ensures
        ({
            let event = UiEventView::Notify { review: a.review, id: a.id, title: a.title, body: a.body };
            let next = desk.reported(event).0;
            let failed = desk.outputs.push(OutputView::Send(CommandView::NotificationFailed(a.id)));
            &&& desk.bundled && desk.permission == Some(true) ==> next.outputs == desk.outputs.push(OutputView::Deliver(a))
                && next.pending == desk.pending
            &&& desk.bundled && desk.permission is None ==> next.outputs == desk.outputs && next.pending
                == desk.pending.push(a)
            &&& desk.permission == Some(false) ==> next.outputs == failed && next.pending == desk.pending
            &&& !desk.bundled && desk.permission is None ==> next.outputs == failed && next.pending == desk.pending
            &&& !desk.bundled && desk.permission == Some(true) ==> next == desk
            &&& next.prs == desk.prs && next.permission == desk.permission && next.ui_error == desk.ui_error
        }),
{
    reveal(DeskView::reported);
}

/// Once notifications are permitted, those that wait are delivered in their order; where they are
/// not, those have failed and the user is told.
pub proof fn permissions_settle_what_waits(desk: DeskView, i: int)
    requires
        desk.bundled,
        0 <= i < desk.pending.len(),
    ensures
        ({
            let yes = desk.permitted(true);
            let no = desk.permitted(false);
            &&& yes.permission == Some(true) && no.permission == Some(false)
            &&& yes.pending.len() == 0 && no.pending.len() == 0
            &&& yes.outputs.len() == desk.outputs.len() + desk.pending.len()
            &&& no.outputs.len() == desk.outputs.len() + desk.pending.len()
            &&& yes.outputs[desk.outputs.len() + i] == OutputView::Deliver(desk.pending[i])
            &&& no.outputs[desk.outputs.len() + i] == OutputView::Send(
                CommandView::NotificationFailed(desk.pending[i].id),
            )
            &&& no.ui_error == Some("Notifications are disabled. Enable Gopher in System Settings → Notifications."@)
            &&& desk.ui_error == Some("Notifications are disabled. Enable Gopher in System Settings → Notifications."@)
                ==> yes.ui_error is None
            &&& desk.ui_error is None ==> yes.ui_error is None
        }),
{
    reveal_strlit("Notifications are disabled");
    reveal_strlit("Notifications are disabled. Enable Gopher in System Settings → Notifications.");
    let short = "Notifications are disabled"@;
    let long = "Notifications are disabled. Enable Gopher in System Settings → Notifications."@;
    assert(long.subrange(0, short.len() as int) =~= short);
}

/// Notifications that are withdrawn wait no longer, and no other one is lost.
pub proof fn withdrawn_notifications_do_not_wait(desk: DeskView, ids: Seq<Seq<char>>, a: AnnouncementView)
    ensures
        ({
            let next = desk.reported(UiEventView::DismissNotifications(ids)).0;
            let failed = OutputView::Send(CommandView::NotificationFailed(a.id));
            &&& next.pending.contains(a) <==> desk.pending.contains(a) && !ids.contains(a.id)
            &&& desk.pending.contains(a) && ids.contains(a.id) ==> next.outputs.contains(failed)
            &&& desk.bundled ==> next.outputs.last() == OutputView::Withdraw(ids) && next.outputs.len() > 0
            &&& next.prs == desk.prs && next.permission == desk.permission
        }),
{
    reveal(DeskView::reported);
    kept_are_those_not_withdrawn(desk.pending, ids, false, a);
    kept_are_those_not_withdrawn(desk.pending, ids, true, a);
    let next = desk.reported(UiEventView::DismissNotifications(ids)).0;
    let gone = desk::chosen(desk.pending, ids, true);
    if gone.contains(a) {
        let k = choose|k: int| 0 <= k < gone.len() && gone[k] == a;
        assert(desk::failures_of(gone)[k] == OutputView::Send(CommandView::NotificationFailed(a.id)));
        assert(next.outputs[desk.outputs.len() + k] == OutputView::Send(CommandView::NotificationFailed(a.id)));
    }
}

/// What is chosen is what is withdrawn, or what is not.
proof fn kept_are_those_not_withdrawn(
    pending: Seq<AnnouncementView>,
    ids: Seq<Seq<char>>,
    withdrawn: bool,
    a: AnnouncementView,
)
    ensures
        desk::chosen(pending, ids, withdrawn).contains(a) <==> pending.contains(a) && ids.contains(a.id) == withdrawn,
    decreases pending.len(),
{
    if pending.len() > 0 {
        let rest = pending.drop_last();
        kept_are_those_not_withdrawn(rest, ids, withdrawn, a);
        let before = desk::chosen(rest, ids, withdrawn);
        let all = desk::chosen(pending, ids, withdrawn);
        if before.contains(a) {
            let k = choose|k: int| 0 <= k < before.len() && before[k] == a;
            assert(all[k] == a);
        }
        if pending.last() == a && ids.contains(a.id) == withdrawn {
            assert(all[all.len() - 1] == a);
        }
        if rest.contains(a) {
            let k = choose|k: int| 0 <= k < rest.len() && rest[k] == a;
            assert(pending[k] == a);
        }
        if pending.contains(a) {
            let k = choose|k: int| 0 <= k < pending.len() && pending[k] == a;
            if k < rest.len() {
                assert(rest[k] == a);
            }
        }
        if all.contains(a) {
            let k = choose|k: int| 0 <= k < all.len() && all[k] == a;
            if k < before.len() {
                assert(before[k] == a);
            }
        }
    }
}

// ---------------------------------------------------------------- what the user does

/// What the user does to a pull request is told to the worker as it is.
pub proof fn choices_are_told(desk: DeskView, heading: Seq<char>, pr: Seq<char>, update: Seq<char>, checked: bool)
    ensures
        ({
            let told = |c: CommandView| DeskView { outputs: desk.outputs.push(OutputView::Send(c)), ..desk };
            &&& desk.acted(ActionView::Ignore(pr), heading).0 == told(CommandView::Ignore(pr))
            &&& desk.acted(ActionView::Restore(pr), heading).0 == told(CommandView::Restore(pr))
            &&& desk.acted(ActionView::Ack { pr, update, checked }, heading).0 == told(
                CommandView::Acknowledge { pr, update, checked },
            )
        }),
{
    reveal(DeskView::acted);
}

/// Whether one more thing is asked for, and nothing else has changed.
pub open spec fn asks_for(before: DeskView, after: DeskView, output: OutputView) -> bool {
    after == DeskView { outputs: before.outputs.push(output), ..before }
}

/// What the user asks of the application itself is asked for.
pub proof fn requests_are_passed_on(desk: DeskView, heading: Seq<char>)
    ensures
        asks_for(desk, desk.acted(ActionView::ConfigFile, heading).0, OutputView::OpenConfigFile),
        asks_for(desk, desk.acted(ActionView::Logs, heading).0, OutputView::OpenLogs),
        asks_for(desk, desk.acted(ActionView::Login, heading).0, OutputView::ToggleLogin),
        asks_for(desk, desk.acted(ActionView::NotificationSettings, heading).0, OutputView::OpenNotificationSettings),
        asks_for(desk, desk.acted(ActionView::CheckUpdates, heading).0, OutputView::CheckUpdates),
{
    reveal(DeskView::acted);
}

/// A refresh is told to the worker, and asks for the permission to notify, too, where the
/// application is packaged.
pub proof fn refreshes_ask_for_the_permission(desk: DeskView, heading: Seq<char>)
    ensures
        ({
            let next = desk.acted(ActionView::Refresh, heading).0;
            let told = desk.outputs.push(OutputView::Send(CommandView::Refresh));
            &&& !desk.bundled ==> next.outputs == told
            &&& desk.bundled ==> next.outputs == told.push(OutputView::RequestPermission)
        }),
{
    reveal(DeskView::acted);
}

/// What the user asks of a pull request goes to the worker.
pub proof fn pr_actions_are_told(desk: DeskView, heading: Seq<char>, request: RequestView)
    ensures
        asks_for(
            desk,
            desk.used(PressView::PrAction(request), heading).0,
            OutputView::Send(CommandView::PrAction(ActionCommandView::Request(request))),
        ),
{
    reveal(DeskView::used);
}

/// To quit tells the worker to stop.
pub proof fn to_quit_stops_the_worker(desk: DeskView, heading: Seq<char>)
    ensures
        desk.acted(ActionView::Quit, heading).0.shutting_down,
        desk.acted(ActionView::Quit, heading).0.outputs.contains(OutputView::Send(CommandView::Shutdown)),
{
    reveal(DeskView::acted);
    let quit = desk.acted(ActionView::Quit, heading).0;
    assert(quit.outputs[(desk.outputs.len() + 1) as int] == OutputView::Send(CommandView::Shutdown));
}

/// What the user does in the inbox goes where it belongs.
pub proof fn panels_are_shown(desk: DeskView, heading: Seq<char>, repo: Seq<char>)
    ensures
        ({
            let configuring = desk.acted(ActionView::ConfigureRepo(repo), heading).0;
            let ignored = desk.acted(ActionView::ShowIgnored, heading).0;
            &&& configuring.popover.detail matches Some(DetailPanelView::Configuration(editor)) && editor.repo == repo
            &&& ignored.popover.showing_ignored
            &&& ignored.outputs == desk.outputs.push(OutputView::Send(CommandView::ShowIgnored))
        }),
{
    reveal(DeskView::acted);
}

/// A pull request is opened in the browser exactly where its address is one of a page of GitHub;
/// else the user is told why not, and nothing is opened.
pub proof fn addresses_are_opened_once_checked(desk: DeskView, heading: Seq<char>, url: Seq<char>, pr: Seq<char>, update: Seq<char>)
    ensures
        ({
            let by_user = desk.acted(ActionView::Open { url, pr, update }, heading).0;
            let by_worker = desk.reported(UiEventView::Open { url, pr, update }).0;
            &&& by_user == by_worker
            &&& macos::address_fault(macos::address_of(url)) is Ok ==> by_user == DeskView {
                outputs: desk.outputs.push(OutputView::OpenUrl { url, pr, update }),
                ..desk
            }
            &&& macos::address_fault(macos::address_of(url)) matches Err(message) ==> by_user == DeskView {
                ui_error: Some(message),
                ..desk
            }
        }),
{
    reveal(DeskView::acted);
    reveal(DeskView::reported);
}

/// The update of a pull request is acknowledged once it was opened; what went wrong is shown.
pub proof fn opened_prs_are_acknowledged(desk: DeskView, around: AroundView, pr: Seq<char>, update: Seq<char>, message: Seq<char>)
    ensures
        ({
            let well = desk.handled(AppEventView::Opened { pr, update, error: None, listening: true }, around).0;
            let badly = desk.handled(AppEventView::Opened { pr, update, error: Some(message), listening: true }, around).0;
            &&& well.outputs == desk.outputs.push(
                OutputView::Send(CommandView::Acknowledge { pr, update, checked: true }),
            )
            &&& badly.outputs == desk.outputs && badly.ui_error == Some(message)
        }),
{
    reveal(DeskView::handled);
}

/// What the worker reports is what is shown next; an error of the service comes before one of the
/// interface.
pub proof fn reports_are_shown(desk: DeskView, prs: Seq<PullRequestView>, error: Option<Seq<char>>, loading: bool)
    ensures
        ({
            let active = desk.reported(UiEventView::Updated { prs, error, loading });
            let ignored = desk.reported(UiEventView::IgnoredUpdated { prs, error, loading });
            &&& active.1 && ignored.1
            &&& active.0.prs == prs && active.0.service_error == error && active.0.refreshing == loading
            &&& active.0.ignored_prs == desk.ignored_prs && active.0.outputs == desk.outputs
            &&& ignored.0.ignored_prs == prs && ignored.0.ignored_error == error && ignored.0.ignored_loading == loading
            &&& ignored.0.prs == desk.prs && ignored.0.outputs == desk.outputs
            &&& error is Some ==> active.0.error() == error
            &&& error is None ==> active.0.error() == desk.ui_error
        }),
{
    reveal(DeskView::reported);
}

/// A worker that stops by itself is reported; one that was asked to stop lets the application end.
pub proof fn stops_are_reported(desk: DeskView)
    ensures
        ({
            let next = desk.reported(UiEventView::Stopped).0;
            &&& next.worker_stopped
            &&& !desk.shutting_down ==> next.ui_error == Some("Gopher’s background worker stopped. Restart Gopher."@)
                && next.outputs == desk.outputs
            &&& desk.shutting_down ==> next.outputs == desk.outputs.push(OutputView::Exit)
        }),
{
    reveal(DeskView::reported);
}

/// A report that asks to show a pull request opens the inbox where the icon stands, and leads to it
/// later.
pub proof fn revealed_prs_are_led_to(desk: DeskView, pr: Option<Seq<char>>)
    ensures
        ({
            let next = desk.reported(UiEventView::ShowPopover { pr }).0;
            &&& next.pending_reveal == Some(pr)
            &&& desk.tray ==> next.popover.visible
            &&& !desk.tray ==> next.popover == desk.popover
        }),
{
    reveal(DeskView::reported);
}

/// The menu does what its items say, and events that fail are shown.
pub proof fn events_are_answered(desk: DeskView, around: AroundView, id: Seq<char>, message: Seq<char>, reason: Seq<char>)
    ensures
        desk.handled(AppEventView::Started, around).0 == (DeskView { tray: true, ..desk }),
        desk.handled(AppEventView::Failed(message), around).0 == (DeskView { ui_error: Some(message), ..desk }),
        desk.handled(AppEventView::NotificationError(message), around).0 == (DeskView { ui_error: Some(message), ..desk }),
        desk.menu_state.action_of(id) matches Some(action) ==> desk.handled(AppEventView::Menu(id), around)
            == desk.acted(action, around.heading),
        desk.menu_state.action_of(id) is None ==> desk.handled(AppEventView::Menu(id), around).0 == desk,
        desk.handled(AppEventView::Shutdown(reason), around).0.exit_reason == reason,
        desk.handled(AppEventView::Shutdown(reason), around).0.shutting_down,
        desk.tray ==> desk.handled(AppEventView::TogglePopover, around).0.popover.visible == !desk.popover.visible,
{
    reveal(DeskView::handled);
}

/// Whether what was asked for stays asked for, and what is known stays known.
pub open spec fn keeps(before: DeskView, after: DeskView) -> bool {
    &&& before.outputs.is_prefix_of(after.outputs)
    &&& after.prs == before.prs
    &&& after.ignored_prs == before.ignored_prs
    &&& after.service_error == before.service_error
    &&& after.ui_error == before.ui_error
    &&& after.permission == before.permission
    &&& after.pending == before.pending
    &&& after.tray == before.tray
}

/// What an event asks for is asked for, and what it makes known stays known, whatever is drawn
/// afterwards.
pub proof fn what_is_asked_for_stays(desk: DeskView, event: AppEventView, around: AroundView)
    requires
        !desk.shutting_down || event is Worker || event is Shutdown,
    ensures
        keeps(desk.handled(event, around).0, desk.stepped(event, around)),
{
    let (after, rebuild) = desk.handled(event, around);
    drawing_keeps(after, rebuild, around);
}

/// To ask for one thing more keeps what was asked for.
proof fn one_more_keeps(desk: DeskView, output: OutputView)
    ensures
        keeps(desk, desk.asking(output)),
        keeps(desk, desk),
{
    assert(desk.asking(output).outputs.subrange(0, desk.outputs.len() as int) =~= desk.outputs);
    assert(desk.outputs.subrange(0, desk.outputs.len() as int) =~= desk.outputs);
}

/// What is kept twice is kept.
proof fn kept_twice(a: DeskView, b: DeskView, c: DeskView)
    requires
        keeps(a, b),
        keeps(b, c),
    ensures
        keeps(a, c),
{
    assert(c.outputs.subrange(0, a.outputs.len() as int) =~= b.outputs.subrange(0, a.outputs.len() as int));
}

/// To flash keeps what was asked for.
proof fn flashing_keeps(desk: DeskView, clock: u64)
    ensures
        keeps(desk, desk.flashing(clock)),
{
    reveal(DeskView::flashing);
    let (popover, next) = desk.popover.animated(clock as u128);
    let moved = desk.with_popover(popover);
    one_more_keeps(desk, OutputView::Exit);
    if next is Some {
        one_more_keeps(moved, OutputView::WakeAt(next->0));
    }
}

/// To replace the menu keeps what was asked for.
proof fn replacing_keeps(desk: DeskView, rebuild: bool, around: AroundView)
    ensures
        keeps(desk, desk.with_menu(rebuild, around)),
{
    reveal(DeskView::with_menu);
    one_more_keeps(desk, desk.bar(around));
}

/// To lead to a pull request asks for nothing.
proof fn leading_keeps(desk: DeskView, rebuild: bool, clock: u64)
    ensures
        keeps(desk, desk.led(rebuild, clock).0),
{
    reveal(DeskView::led);
    one_more_keeps(desk, OutputView::Exit);
}

/// Drawing takes back nothing.
proof fn drawing_keeps(desk: DeskView, rebuild: bool, around: AroundView)
    ensures
        keeps(desk, desk.settled(rebuild, around)),
{
    reveal(DeskView::settled);
    let updated = desk.with_popover(ReviewPopoverView { update_state: around.updates, ..desk.popover });
    let synchronized = updated.synchronized();
    let known = synchronized.with_popover(
        ReviewPopoverView { keyboard_state: synchronized.keyboard.state, ..synchronized.popover },
    );
    one_more_keeps(desk, OutputView::Exit);
    assert(keeps(desk, known));
    let (led, again) = known.led(rebuild, around.clock);
    leading_keeps(known, rebuild, around.clock);
    kept_twice(desk, known, led);
    let drawn = if again {
        led.with_popover(led.popover.drawn(led.news(around)))
    } else {
        led
    };
    let ready = drawn.synchronized();
    assert(keeps(desk, ready));
    let flashed = ready.flashing(around.clock);
    flashing_keeps(ready, around.clock);
    kept_twice(desk, ready, flashed);
    replacing_keeps(flashed, again, around);
    kept_twice(desk, flashed, flashed.with_menu(again, around));
}

/// A menu that is to be replaced and is not open is replaced where the icon stands: the icon says
/// whether something went wrong, and beside it stands how many pull requests and updates there
/// are.
pub proof fn menus_are_replaced(desk: DeskView, around: AroundView)
    requires
        desk.tray,
        !desk.menu_state.tracking,
    ensures
        ({
            let next = desk.with_menu(true, around);
            let error = desk.service_error is Some || desk.ui_error is Some;
            &&& next.outputs.drop_last() == desk.outputs && next.outputs.len() == desk.outputs.len() + 1
            &&& next.outputs.last() matches OutputView::Bar { entries, state, failed, tooltip } && {
                &&& failed == error
                &&& state == macos::bar_state(desk.prs, error)
                &&& tooltip == identity::identity_of(desk.dev).name + " · "@ + text::decimal_of(desk.prs.len()) + " PRs · "@
                    + text::decimal_of(
                    desk.prs.filter(
                        |pr: PullRequestView| shown_laws::asks(pr, State::Comments) || shown_laws::asks(pr, State::Approved),
                    ).len(),
                ) + " updates"@
            }
        }),
{
    reveal(DeskView::with_menu);
    shown_laws::updates_are_counted(desk.prs);
    let next = desk.with_menu(true, around);
    assert(next.outputs.drop_last() =~= desk.outputs);
}

/// An open menu is left as it is.
pub proof fn open_menus_stay(desk: DeskView, rebuild: bool, around: AroundView)
    requires
        desk.menu_state.tracking,
    ensures
        desk.with_menu(rebuild, around).outputs == desk.outputs,
        rebuild ==> desk.with_menu(rebuild, around).menu_state.dirty,
{
    reveal(DeskView::with_menu);
}

// ---------------------------------------------------------------- the inbox

/// The inbox opens where it is closed and closes where it is open; one that opens has nothing
/// selected, and one that is open already keeps what is.
pub proof fn inboxes_open_and_close(inbox: ReviewPopoverView)
    ensures
        inbox.toggled().visible == !inbox.visible,
        inbox.presented().visible,
        inbox.presented().gestures == inbox.gestures.push(GestureView::Present),
        inbox.closed().gestures == inbox.gestures.push(GestureView::Close),
        !inbox.visible ==> inbox.presented().list().navigation.selected is None && inbox.presented().screen.selected is None,
        inbox.visible ==> inbox.presented().list() == inbox.list(),
{
}

/// Escape leaves a panel, then the ignored pull requests, then the inbox, and nothing while
/// something is saved or a menu is open.
pub proof fn escape_leaves_step_by_step(inbox: ReviewPopoverView)
    requires
        inbox.visible,
        inbox.pending_label_requests == 0,
        !inbox.keyboard_state.pending,
        forall|id: Seq<char>| #[trigger] inbox.rows.contains_key(id) ==> !inbox.rows[id].actions.tracking,
        inbox.detail matches Some(panel) ==> !panel.saving(inbox.action_state),
    ensures
        inbox.detail is Some || inbox.showing_ignored ==> {
            &&& inbox.escaped().detail is None
            &&& !inbox.escaped().showing_ignored
            &&& inbox.escaped().visible
            &&& inbox.escaped().restore_scroll
        },
        inbox.detail is None && !inbox.showing_ignored ==> !inbox.escaped().visible,
{
}

/// While labels or shortcuts are saved, neither Escape nor the way back leaves anything.
pub proof fn saving_is_not_left(inbox: ReviewPopoverView)
    requires
        inbox.pending_label_requests > 0 || inbox.keyboard_state.pending,
    ensures
        inbox.escaped() == inbox,
        inbox.returned() == inbox,
{
}

/// The way back leads from a panel to the list that it covers, and from the ignored pull requests
/// to the active ones.
pub proof fn the_way_back(inbox: ReviewPopoverView)
    requires
        inbox.pending_label_requests == 0,
        !inbox.keyboard_state.pending,
        inbox.detail matches Some(panel) ==> !panel.saving(inbox.action_state),
    ensures
        inbox.detail is Some ==> inbox.returned().detail is None && inbox.returned().showing_ignored
            == inbox.showing_ignored,
        inbox.detail is None ==> !inbox.returned().showing_ignored,
        inbox.returned().visible == inbox.visible,
        inbox.returned().active == inbox.active,
        inbox.returned().ignored == inbox.ignored,
{
}

/// A pull request that is led to is selected, scrolled to, and flashes from that moment on.
pub proof fn led_to_prs_flash(inbox: ReviewPopoverView, pr: Seq<char>, clock: u64)
    ensures
        ({
            let next = inbox.scrolled_to(Some(pr), clock);
            &&& next.list().navigation.selected == Some(pr)
            &&& next.pending_scroll == Some(pr)
            &&& next.flash == Some(FlashView { pr, started: clock })
            &&& next.showing_ignored == inbox.showing_ignored
        }),
        inbox.scrolled_to(None, clock).flash is None,
        inbox.scrolled_to(None, clock).list().navigation.selected is None,
{
}

/// A pull request flashes blue three times, for three tenths of a second each, with as long a
/// pause after each.
pub proof fn flashes_are_three(flash: FlashView, elapsed: u64)
    ensures
        ({
            let now = (flash.started + elapsed) as u128;
            let phase = flash.phase_at(now);
            &&& elapsed < 300_000_000 ==> phase == Some((true, (flash.started + 300_000_000) as u128))
            &&& 300_000_000 <= elapsed < 600_000_000 ==> phase == Some((false, (flash.started + 600_000_000) as u128))
            &&& 600_000_000 <= elapsed < 900_000_000 ==> phase == Some((true, (flash.started + 900_000_000) as u128))
            &&& 900_000_000 <= elapsed < 1_200_000_000 ==> phase == Some((false, (flash.started + 1_200_000_000) as u128))
            &&& 1_200_000_000 <= elapsed < 1_500_000_000 ==> phase == Some((true, (flash.started + 1_500_000_000) as u128))
            &&& 1_500_000_000 <= elapsed < 1_800_000_000 ==> phase == Some((false, (flash.started + 1_800_000_000) as u128))
            &&& phase is None <==> elapsed >= 1_800_000_000
        }),
{
}

/// Shortcuts do to the selected pull request what its row offers.
pub proof fn shortcuts_use_the_selected_row(inbox: ReviewPopoverView, id: Seq<char>)
    requires
        inbox.visible,
        inbox.detail is None,
        forall|id: Seq<char>| #[trigger] inbox.rows.contains_key(id) ==> !inbox.rows[id].actions.tracking,
        inbox.list().navigation.selected == Some(id),
        inbox.rows.contains_key(id),
    ensures
        ({
            let row = inbox.rows[id];
            let asked = |g: GestureView| ReviewPopoverView { gestures: inbox.gestures.push(g), ..inbox };
            let acknowledged = inbox.performed(HotkeyAction::Acknowledge).0;
            let opened = inbox.performed(HotkeyAction::OpenPr).0;
            let menu = inbox.performed(HotkeyAction::Actions).0;
            &&& !inbox.showing_ignored && row.title_enabled ==> acknowledged == asked(GestureView::Click(row.acknowledge))
            &&& inbox.showing_ignored || !row.title_enabled ==> acknowledged == inbox
            &&& row.open_enabled ==> opened == asked(GestureView::Click(row.open))
            &&& !row.open_enabled ==> opened == inbox
            &&& inbox.performed(HotkeyAction::Details).0 == asked(GestureView::Click(row.disclosure))
            &&& !inbox.showing_ignored && !row.actions.menu_hidden ==> menu == asked(GestureView::OpenMenu(id))
            &&& inbox.showing_ignored || row.actions.menu_hidden ==> menu == inbox
            &&& inbox.performed(HotkeyAction::OpenGopher).0 == inbox
        }),
{
}

/// The shortcut to refresh uses the button, where that is there and enabled.
pub proof fn refreshes_use_the_button(inbox: ReviewPopoverView)
    requires
        inbox.visible,
        inbox.detail is None,
        forall|id: Seq<char>| #[trigger] inbox.rows.contains_key(id) ==> !inbox.rows[id].actions.tracking,
    ensures
        !inbox.showing_ignored && inbox.screen.refresh_enabled ==> inbox.performed(HotkeyAction::Refresh).0.gestures
            == inbox.gestures.push(GestureView::Click(PressView::PopoverAction(ActionView::Refresh))),
        inbox.showing_ignored || !inbox.screen.refresh_enabled ==> inbox.performed(HotkeyAction::Refresh).0 == inbox,
        inbox.performed(HotkeyAction::Next).0.list().navigation == inbox.list().navigation.stepped(true),
        inbox.performed(HotkeyAction::Previous).0.list().navigation == inbox.list().navigation.stepped(false),
{
}

/// Details that are shown twice in turn are shown as before, and only those.
pub proof fn details_are_shown_in_turn(inbox: ReviewPopoverView, id: Seq<char>, other: Seq<char>)
    requires
        other != id,
    ensures
        ({
            let next = inbox.details_toggled(id);
            &&& next.list().expanded.contains(id) == !inbox.list().expanded.contains(id)
            &&& next.list().expanded.contains(other) == inbox.list().expanded.contains(other)
            &&& next.details_toggled(id).list().expanded == inbox.list().expanded
        }),
{
    let twice = inbox.details_toggled(id).details_toggled(id);
    assert(twice.list().expanded =~= inbox.list().expanded);
}

/// A press is passed on as it is; a switch sends the state that it has now.
pub proof fn presses_are_passed_on(inbox: ReviewPopoverView, pr: Seq<char>, name: Seq<char>, was: bool, on: bool)
    requires
        inbox.pending_label_requests < u64::MAX,
    ensures
        ({
            let label = inbox.pressed(PressView::PrAction(RequestView::Label { pr, name, selected: was }), on);
            let cancel = inbox.pressed(PressView::PrAction(RequestView::CancelMerge(pr)), on);
            let details = inbox.pressed(PressView::ToggleDetails(pr), on);
            &&& label.gestures.contains(GestureView::Send(RequestView::Label { pr, name, selected: on }))
            &&& label.pending_label_requests == inbox.pending_label_requests + 1
            &&& label.label_handled().pending_label_requests == inbox.pending_label_requests
            &&& cancel.gestures == inbox.gestures.push(GestureView::Send(RequestView::CancelMerge(pr)))
            &&& details.gestures == inbox.gestures.push(GestureView::Queue(PressView::ToggleDetails(pr)))
        }),
{
    let label = inbox.pressed(PressView::PrAction(RequestView::Label { pr, name, selected: was }), on);
    assert(label.gestures.last() == GestureView::Send(RequestView::Label { pr, name, selected: on }));
    assert(label.gestures[label.gestures.len() - 1] == label.gestures.last());
}

/// The list has a row for each pull request, which shows what is known of it.
pub proof fn lists_have_every_pr(inbox: ReviewPopoverView, news: NewsView, i: int)
    requires
        forall|id: Seq<char>| #[trigger] inbox.rows.contains_key(id) ==> !inbox.rows[id].actions.tracking,
        inbox.detail is None,
        0 <= i < news.prs.len(),
        forall|j: int, k: int|
            0 <= j < news.prs.len() && 0 <= k < news.prs.len() && #[trigger] news.prs[j].snapshot.id
                == #[trigger] news.prs[k].snapshot.id ==> news.prs[j] == news.prs[k],
    ensures
        ({
            let next = inbox.drawn(news);
            let pr = news.prs[i];
            let id = pr.snapshot.id;
            &&& next.rows.contains_key(id)
            &&& next.rows[id] == rows::row_of(
                pr,
                inbox.list().expanded.contains(id),
                inbox.showing_ignored,
                inbox.action_state,
                news.now,
                if news.times.contains_key(id) {
                    Some(news.times[id])
                } else {
                    None
                },
            )
            &&& next.screen.lines.len() == news.prs.len()
            &&& next.screen.empty is None
        }),
{
    reveal(ReviewPopoverView::drawn);
    let prs = news.prs;
    let sorted = macos::shown_order(prs);
    let ids = inbox::ids_of(sorted);
    let pr = prs[i];
    let id = pr.snapshot.id;
    shown_laws::every_pr_is_shown(prs, pr);
    assert(prs.contains(pr));
    let j = choose|j: int| 0 <= j < sorted.len() && sorted[j] == pr;
    assert(ids[j] == id);
    assert(ids.to_set().contains(id));
    let expanded = inbox.list().expanded.intersect(ids.to_set());
    assert forall|a: int| 0 <= a < sorted.len() && (#[trigger] sorted[a]).snapshot.id == id implies sorted[a] == pr by {
        shown_laws::every_pr_is_shown(prs, sorted[a]);
        assert(sorted.contains(sorted[a]));
        let b = choose|b: int| 0 <= b < prs.len() && prs[b] == sorted[a];
        assert(prs[b].snapshot.id == prs[i].snapshot.id);
    }
    rows_are_those_of_prs(sorted, expanded, inbox.showing_ignored, inbox.action_state, news.now, news.times, pr, j);
    lines_are_as_many(sorted);
    assert(expanded.contains(id) == inbox.list().expanded.contains(id));
    let next = inbox.list_drawn(news);
    assert(inbox.drawn(news) == next);
    assert(next.rows == inbox::rows_of(sorted, expanded, inbox.showing_ignored, inbox.action_state, news.now, news.times));
}

/// The row of a pull request shows it.
proof fn rows_are_those_of_prs(
    prs: Seq<PullRequestView>,
    expanded: Set<Seq<char>>,
    ignored: bool,
    state: ActionStateView,
    now: i64,
    times: Map<Seq<char>, Seq<char>>,
    pr: PullRequestView,
    j: int,
)
    requires
        0 <= j < prs.len(),
        prs[j] == pr,
        forall|a: int| 0 <= a < prs.len() && (#[trigger] prs[a]).snapshot.id == pr.snapshot.id ==> prs[a] == pr,
    ensures
        inbox::rows_of(prs, expanded, ignored, state, now, times).contains_key(pr.snapshot.id),
        inbox::rows_of(prs, expanded, ignored, state, now, times)[pr.snapshot.id] == rows::row_of(
            pr,
            expanded.contains(pr.snapshot.id),
            ignored,
            state,
            now,
            menu::time_of(times, pr.snapshot.id),
        ),
    decreases prs.len(),
{
    let rest = prs.drop_last();
    assert(prs.last() == prs[prs.len() - 1]);
    if prs.last().snapshot.id != pr.snapshot.id {
        assert(j < rest.len());
        assert forall|a: int| 0 <= a < rest.len() && (#[trigger] rest[a]).snapshot.id == pr.snapshot.id implies rest[a]
            == pr by {
            assert(rest[a] == prs[a]);
        }
        rows_are_those_of_prs(rest, expanded, ignored, state, now, times, pr, j);
    }
}

/// There is a line for each pull request.
proof fn lines_are_as_many(prs: Seq<PullRequestView>)
    ensures
        inbox::lines_of(prs).len() == prs.len(),
    decreases prs.len(),
{
    if prs.len() > 0 {
        lines_are_as_many(prs.drop_last());
    }
}

/// Each line is that of its pull request; the first one of a repository stands below the heading
/// of the repository, and no other one has a heading.
pub proof fn lines_stand_below_headings(prs: Seq<PullRequestView>, i: int)
    requires
        0 <= i < prs.len(),
        forall|j: int| 0 <= j < prs.len() ==> (#[trigger] prs[j]).snapshot.repo.len() > 0,
    ensures
        ({
            let line = inbox::lines_of(prs)[i];
            let first = i == 0 || prs[i - 1].snapshot.repo != prs[i].snapshot.repo;
            &&& line.pr == prs[i].snapshot.id
            &&& first ==> line.heading == Some(macos::heading_of(prs[i].snapshot.repo))
            &&& !first ==> line.heading is None
            &&& line.divider <==> first && i > 0
        }),
    decreases prs.len(),
{
    let rest = prs.drop_last();
    lines_are_as_many(rest);
    if i < prs.len() - 1 {
        assert forall|j: int| 0 <= j < rest.len() implies (#[trigger] rest[j]).snapshot.repo.len() > 0 by {
            assert(rest[j] == prs[j]);
        }
        lines_stand_below_headings(rest, i);
        assert(inbox::lines_of(prs)[i] == inbox::lines_of(rest)[i]);
        if i > 0 {
            assert(rest[i - 1] == prs[i - 1]);
        }
    } else if i > 0 {
        assert(menu::last_repo(rest) == prs[i - 1].snapshot.repo);
    }
}

/// The list says how many pull requests and updates there are, or how many are ignored, and shows
/// what went wrong, an error of an action first.
pub proof fn lists_say_how_many_there_are(inbox: ReviewPopoverView, news: NewsView)
    requires
        forall|id: Seq<char>| #[trigger] inbox.rows.contains_key(id) ==> !inbox.rows[id].actions.tracking,
        inbox.detail is None,
    ensures
        ({
            let screen = inbox.drawn(news).screen;
            let count = text::decimal_of(news.prs.len());
            let updates = text::decimal_of(
                news.prs.filter(
                    |pr: PullRequestView| shown_laws::asks(pr, State::Comments) || shown_laws::asks(pr, State::Approved),
                ).len(),
            );
            &&& !inbox.showing_ignored ==> screen.summary == count + " open PRs · "@ + updates + " updates"@
            &&& inbox.showing_ignored && !news.loading ==> screen.summary == count + " ignored PRs"@
            &&& inbox.showing_ignored && news.loading ==> screen.summary == count + " ignored PRs"@ + " · loading details…"@
            &&& inbox.showing_ignored ==> screen.title == "Ignored PRs"@ && screen.refresh_hidden && !screen.back_hidden
            &&& !inbox.showing_ignored ==> !screen.refresh_hidden && screen.back_hidden && !screen.menu_hidden
            &&& screen.refresh_enabled == !news.loading
            &&& news.loading ==> screen.refresh_title == "Refreshing..."@
            &&& !news.loading ==> screen.refresh_title == "Refresh"@
            &&& inbox.action_state.error is Some ==> screen.banner == inbox.action_state.error
            &&& inbox.action_state.error is None ==> screen.banner == news.error
            &&& screen.at_login == (news.bundled && news.at_login)
            &&& screen.empty is Some <==> news.prs.len() == 0
            &&& news.prs.len() == 0 && inbox.showing_ignored ==> screen.empty == Some("No ignored pull requests."@)
            &&& news.prs.len() == 0 && !inbox.showing_ignored ==> screen.empty == Some(
                "No open pull requests. Gopher will keep checking for you."@,
            )
        }),
{
    reveal(ReviewPopoverView::drawn);
    shown_laws::updates_are_counted(news.prs);
    assert(inbox.drawn(news) == inbox.list_drawn(news));
    let count = text::decimal_of(news.prs.len());
    assert(count + " ignored PRs"@ + Seq::<char>::empty() =~= count + " ignored PRs"@);
}

/// The list that is shown is the one that the user turned to.
pub proof fn news_are_of_the_list_that_is_shown(desk: DeskView, around: AroundView)
    ensures
        desk.popover.showing_ignored ==> desk.news(around).prs == desk.ignored_prs && desk.news(around).error
            == desk.ignored_error && desk.news(around).loading == desk.ignored_loading,
        !desk.popover.showing_ignored ==> desk.news(around).prs == desk.prs && desk.news(around).loading == desk.refreshing,
        !desk.popover.showing_ignored && desk.service_error is Some ==> desk.news(around).error == desk.service_error,
        !desk.popover.showing_ignored && desk.service_error is None ==> desk.news(around).error == desk.ui_error,
{
}

/// The first pull request with an identity is the one that is meant by it.
pub proof fn prs_are_found_by_identity(prs: Seq<PullRequestView>, id: Seq<char>)
    ensures
        action_views::found(prs, id) is None <==> forall|i: int| 0 <= i < prs.len() ==> (#[trigger] prs[i]).snapshot.id != id,
        action_views::found(prs, id) matches Some(pr) ==> prs.contains(pr) && pr.snapshot.id == id,
    decreases prs.len(),
{
    if prs.len() > 0 {
        let rest = prs.drop_first();
        prs_are_found_by_identity(rest, id);
        if prs[0].snapshot.id != id {
            if let Some(pr) = action_views::found(rest, id) {
                let k = choose|k: int| 0 <= k < rest.len() && rest[k] == pr;
                assert(prs[k + 1] == pr);
            } else {
                assert forall|i: int| 0 <= i < prs.len() implies (#[trigger] prs[i]).snapshot.id != id by {
                    if i > 0 {
                        assert(rest[i - 1] == prs[i]);
                    }
                }
            }
        } else {
            assert(prs.contains(prs[0]));
        }
    }
}

// ---------------------------------------------------------------- the keyboard

/// A key that is pressed while a shortcut is recorded becomes it; Escape only stops the recording,
/// and a key that cannot be one is refused.
pub proof fn pressed_keys_are_recorded(state: StateView, press: KeyPressView, action: HotkeyAction)
    requires
        state.ready,
        !state.pending,
        state.recording == Some(action),
        press.focused,
        !press.in_menu,
        !press.repeat,
    ensures
        ({
            let (next, reply) = state.pressed(press);
            &&& next.recording is None
            &&& next.preferences == state.preferences
            &&& press.code == 53 ==> reply == KeyReplyView::Refresh && next.error == state.error
            &&& press.code != 53 && hotkeys::key_name(press.code) is Some ==> next.error == state.error && {
                &&& reply matches KeyReplyView::Recorded { action: recorded, binding } && {
                    &&& recorded == action
                    &&& binding.key == press.code
                    &&& binding.modifiers == press.modifiers
                }
            }
            &&& press.code != 53 && hotkeys::key_name(press.code) is None ==> reply == KeyReplyView::Refresh && next.error
                == Some("Choose a letter, number, punctuation, arrow, or function key. Escape cancels."@)
        }),
{
}

/// Where nothing is recorded, a shortcut of the inbox does what it stands for; held down, it does
/// so only where it moves the selection. Where the inbox takes no shortcuts or a text is written,
/// keys are left alone.
pub proof fn pressed_shortcuts_act(state: StateView, press: KeyPressView, action: HotkeyAction)
    requires
        state.ready,
        !state.pending,
        state.recording is None,
        press.focused,
        !press.in_menu,
        press.code != 53,
        !(press.code == 43 && press.modifiers == 1),
        hotkeys::action_of(state.preferences, press.code, press.modifiers, 8) == Some(action),
    ensures
        ({
            let (next, reply) = state.pressed(press);
            let moves = action == HotkeyAction::Next || action == HotkeyAction::Previous;
            &&& next == state
            &&& !state.inbox || press.typing || action == HotkeyAction::OpenGopher ==> reply == KeyReplyView::Pass
            &&& state.inbox && !press.typing && action != HotkeyAction::OpenGopher && (!press.repeat || moves) ==> reply
                == KeyReplyView::Shortcut(action)
            &&& state.inbox && !press.typing && action != HotkeyAction::OpenGopher && press.repeat && !moves ==> reply
                == KeyReplyView::Nothing
        }),
{
}

/// The settings open with a comma and the Command key, and keys that nobody has chosen are left
/// alone, as are all of them outside the inbox and in a menu.
pub proof fn other_keys_are_left_alone(state: StateView, press: KeyPressView)
    ensures
        press.in_menu || !press.focused ==> state.pressed(press) == (state, KeyReplyView::Pass),
        !press.in_menu && press.focused && press.code == 53 && press.modifiers == 0 && !press.repeat && state.recording
            is None ==> state.pressed(press) == (state, KeyReplyView::Escape),
        !press.in_menu && press.focused && state.ready && !state.pending && state.recording is None && press.code == 43
            && press.modifiers == 1 && !press.repeat ==> state.pressed(press) == (state, KeyReplyView::Settings),
        !press.in_menu && press.focused && state.ready && !state.pending && state.recording is None && press.code != 53
            && !(press.code == 43 && press.modifiers == 1) && hotkeys::action_of(
            state.preferences,
            press.code,
            press.modifiers,
            8,
        ) is None ==> state.pressed(press) == (state, KeyReplyView::Pass),
        !press.in_menu && press.focused && (!state.ready || state.pending) && press.code != 53 ==> state.pressed(press) == (
            state,
            KeyReplyView::Pass,
        ),
{
}

/// A key means an action exactly where its shortcut is that key, the first one where there are two.
pub proof fn keys_mean_the_actions_they_are_for(chosen: hotkeys::PreferencesView, key: u16, modifiers: u8, i: int)
    requires
        0 <= i < 8,
        hotkeys::binding_of(chosen, hotkeys::all_actions()[i]) matches Some(binding) && binding.key == key
            && binding.modifiers == modifiers,
        forall|j: int|
            0 <= j < 8 && j != i ==> !(hotkeys::binding_of(chosen, #[trigger] hotkeys::all_actions()[j]) matches Some(binding)
                && binding.key == key && binding.modifiers == modifiers),
    ensures
        hotkeys::action_of(chosen, key, modifiers, 8) == Some(hotkeys::all_actions()[i]),
{
    reveal_with_fuel(hotkeys::action_of, 9);
    let actions = hotkeys::all_actions();
    assert forall|j: int| 0 <= j < 8 && j != i implies !(hotkeys::binding_of(chosen, #[trigger] actions[j]) matches Some(
        binding,
    ) && binding.key == key && binding.modifiers == modifiers) by {}
    assert(actions.len() == 8);
    assert(i == 0 || i == 1 || i == 2 || i == 3 || i == 4 || i == 5 || i == 6 || i == 7);
}

/// A shortcut is shown with the signs of its modifiers, Control first and Command last, and then
/// its key.
pub proof fn shortcuts_show_their_modifiers(key: u16, label: Seq<char>)
    ensures
        (BindingView { key, modifiers: 0, label }).shown() == label,
        (BindingView { key, modifiers: 1, label }).shown() == "⌘"@ + label,
        (BindingView { key, modifiers: 2, label }).shown() == "⌥"@ + label,
        (BindingView { key, modifiers: 4, label }).shown() == "⌃"@ + label,
        (BindingView { key, modifiers: 8, label }).shown() == "⇧"@ + label,
        (BindingView { key, modifiers: 15, label }).shown() == "⌃"@ + "⌥"@ + "⇧"@ + "⌘"@ + label,
{
    assert(0u8 & 1 == 0 && 0u8 & 2 == 0 && 0u8 & 4 == 0 && 0u8 & 8 == 0) by (bit_vector);
    assert(1u8 & 1 != 0 && 1u8 & 2 == 0 && 1u8 & 4 == 0 && 1u8 & 8 == 0) by (bit_vector);
    assert(2u8 & 1 == 0 && 2u8 & 2 != 0 && 2u8 & 4 == 0 && 2u8 & 8 == 0) by (bit_vector);
    assert(4u8 & 1 == 0 && 4u8 & 2 == 0 && 4u8 & 4 != 0 && 4u8 & 8 == 0) by (bit_vector);
    assert(8u8 & 1 == 0 && 8u8 & 2 == 0 && 8u8 & 4 == 0 && 8u8 & 8 != 0) by (bit_vector);
    assert(15u8 & 1 != 0 && 15u8 & 2 != 0 && 15u8 & 4 != 0 && 15u8 & 8 != 0) by (bit_vector);
    assert((BindingView { key, modifiers: 0, label }).shown() =~= label);
    assert((BindingView { key, modifiers: 1, label }).shown() =~= "⌘"@ + label);
    assert((BindingView { key, modifiers: 2, label }).shown() =~= "⌥"@ + label);
    assert((BindingView { key, modifiers: 4, label }).shown() =~= "⌃"@ + label);
    assert((BindingView { key, modifiers: 8, label }).shown() =~= "⇧"@ + label);
}

/// A change of the shortcuts without a fault is saved, once the key for the whole system is
/// registered where it is another one; a change with a fault is refused with what is wrong.
pub proof fn sound_changes_are_saved(keyboard: KeyboardView, chosen: hotkeys::PreferencesView)
    requires
        keyboard.state.ready,
        keyboard.pending is None,
        keyboard.waiting is None,
    ensures
        ({
            let asked = keyboard.save_asked(Ok(chosen));
            let fault = hotkeys::fault_of(chosen, keyboard.dev);
            let own = hotkeys::binding_of(chosen, HotkeyAction::OpenGopher);
            &&& asked.state.recording is None
            &&& fault is Some ==> asked.state.error == fault && asked.effects == keyboard.effects && asked.pending is None
            &&& fault is None && own is None ==> {
                &&& asked.pending == Some(PendingView { preferences: chosen, global: None })
                &&& asked.effects == keyboard.effects.push(KeyEffectView::Save(chosen))
                &&& asked.state.pending
            }
            &&& fault is None && asked.waiting is Some ==> {
                &&& own is Some
                &&& asked.effects.last() matches KeyEffectView::Register(registered) && registered.key == own->0.key
                &&& asked.registered(Ok(())).effects.last() == KeyEffectView::Save(chosen)
                &&& asked.pending is None
            }
        }),
{
}

/// A click on the shortcut of the whole system shows or hides the inbox; while a shortcut is
/// recorded it is the one that is recorded. Another key does nothing.
pub proof fn the_own_key_toggles(keyboard: KeyboardView, key: GlobalKey, focused: bool)
    ensures
        keyboard.global == Some(key) && keyboard.state.recording is None ==> keyboard.called(key, focused) == (keyboard, true),
        keyboard.global != Some(key) ==> keyboard.called(key, focused) == (keyboard, false),
        keyboard.state.recording is Some ==> !keyboard.called(key, focused).1,
        keyboard.state.recording is Some && !focused ==> keyboard.called(key, focused).0 == keyboard,
{
}

// ---------------------------------------------------------------- updates

/// An update that was found stays available until it is skipped or a check finds none, and one that
/// was downloaded is installed at the end.
pub proof fn found_updates_are_available(delegate: DelegateView, choice: i64, domain: Seq<char>, code: i64)
    ensures
        delegate.with_update().available,
        delegate.with_update().message == "An update is available."@,
        delegate.with_update().on_quit == delegate.on_quit,
        delegate.with_download().available && delegate.with_download().on_quit,
        delegate.with_download().message == "Update downloaded. It will install when Gopher quits."@,
        delegate.shown().available && delegate.shown().message == delegate.message,
        choice == 0 ==> !delegate.chosen(choice).available && !delegate.chosen(choice).on_quit,
        choice != 0 ==> delegate.chosen(choice) == delegate,
        delegate.after_check(None) == delegate,
        !delegate.after_check(Some((domain, code))).available,
        !delegate.after_check(Some((domain, code))).on_quit,
        delegate.after_check(Some(("SUSparkleErrorDomain"@, 1001))).message == "Gopher is up to date."@,
        delegate.after_check(Some(("SUSparkleErrorDomain"@, 4007))).message == Seq::<char>::empty(),
        domain != "SUSparkleErrorDomain"@ || (code != 1001 && code != 4007) ==> delegate.after_check(
            Some((domain, code)),
        ).message == "Could not complete the update. Try Check for updates again."@,
        delegate.after_check(Some((domain, code))).terminating == delegate.terminating,
{
}

/// What is known of updates is what the updater says, where it runs; else nothing can be checked,
/// and the reason is said.
pub proof fn updates_are_known_while_the_updater_runs(updater: UpdaterView, can_check: bool, checks: bool, downloads: bool)
    ensures
        ({
            let known = updater.known(can_check, checks, downloads);
            &&& updater.running ==> known.enabled && known.available == updater.delegate.available && known.can_check
                == can_check && known.checks == checks && known.downloads == downloads && known.message
                == updater.delegate.message
            &&& !updater.running ==> !known.enabled && !known.available && !known.can_check && !known.checks
                && !known.downloads && known.message == updater.disabled_reason
            &&& known.available ==> known.title() == "Update available…"@
            &&& !known.available ==> known.title() == "Check for updates…"@
        }),
{
}

} // verus!
