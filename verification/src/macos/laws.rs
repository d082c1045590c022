//! What holds of the application whatever happens to it.

use crate::macos::desk::{
    chosen, deliveries_of, failures_of, AnnouncementView, AppEventView, AroundView, DeskView, OutputView,
};
use crate::macos::popover::action_views;
use crate::macos::popover::PressView;
use crate::macos::ActionView;
use crate::worker::events::{CommandView, UiEventView};
use vstd::prelude::*;

verus! {

/// Whether the application is asked to end.
pub open spec fn exits(desk: DeskView) -> bool {
    desk.outputs.contains(OutputView::Exit)
}

/// Whether a change neither ends anything nor touches the notifications that wait.
pub open spec fn goes_on(before: DeskView, after: DeskView) -> bool {
    &&& after.shutting_down == before.shutting_down
    &&& after.worker_stopped == before.worker_stopped
    &&& after.bundled == before.bundled
    &&& after.pending == before.pending
    &&& exits(after) == exits(before)
}

/// Whether a change ends the application only where the worker has stopped and it is to end,
/// and lets notifications wait only in a packaged application.
pub open spec fn goes_well(before: DeskView, after: DeskView) -> bool {
    &&& !exits(before) && exits(after) ==> after.shutting_down && after.worker_stopped
    &&& after.bundled == before.bundled
    &&& (before.pending.len() > 0 ==> before.bundled) ==> (after.pending.len() > 0 ==> after.bundled)
}

/// One more thing that is asked for.
proof fn one_more(outputs: Seq<OutputView>, output: OutputView)
    ensures
        outputs.push(output).contains(OutputView::Exit) == (outputs.contains(OutputView::Exit) || output
            == OutputView::Exit),
{
    let all = outputs.push(output);
    if outputs.contains(OutputView::Exit) {
        let i = choose|i: int| 0 <= i < outputs.len() && outputs[i] == OutputView::Exit;
        assert(all[i] == OutputView::Exit);
    }
    if output == OutputView::Exit {
        assert(all[outputs.len() as int] == OutputView::Exit);
    }
    if all.contains(OutputView::Exit) {
        let i = choose|i: int| 0 <= i < all.len() && all[i] == OutputView::Exit;
        if i < outputs.len() {
            assert(outputs[i] == OutputView::Exit);
        }
    }
}

/// More things that are asked for, none of which ends the application.
proof fn many_more(outputs: Seq<OutputView>, more: Seq<OutputView>)
    requires
        forall|i: int| 0 <= i < more.len() ==> #[trigger] more[i] != OutputView::Exit,
    ensures
        (outputs + more).contains(OutputView::Exit) == outputs.contains(OutputView::Exit),
{
    let all = outputs + more;
    if outputs.contains(OutputView::Exit) {
        let i = choose|i: int| 0 <= i < outputs.len() && outputs[i] == OutputView::Exit;
        assert(all[i] == OutputView::Exit);
    }
    if all.contains(OutputView::Exit) {
        let i = choose|i: int| 0 <= i < all.len() && all[i] == OutputView::Exit;
        if i < outputs.len() {
            assert(outputs[i] == OutputView::Exit);
        } else {
            assert(more[i - outputs.len()] == OutputView::Exit);
        }
    }
}

/// Something else than the end is asked for.
proof fn asking_goes_on(desk: DeskView, output: OutputView)
    requires
        output != OutputView::Exit,
    ensures
        goes_on(desk, desk.asking(output)),
{
    one_more(desk.outputs, output);
}

/// Neither what shows notifications nor what says that they have failed ends anything.
proof fn answering_goes_on(desk: DeskView, answered: Seq<AnnouncementView>)
    ensures
        exits(desk.asking_all(failures_of(answered))) == exits(desk),
        exits(desk.asking_all(deliveries_of(answered))) == exits(desk),
{
    many_more(desk.outputs, failures_of(answered));
    many_more(desk.outputs, deliveries_of(answered));
}

/// To lead to a pull request ends nothing.
proof fn leading_goes_on(desk: DeskView, rebuild: bool, clock: u64)
    ensures
        goes_on(desk, desk.led(rebuild, clock).0),
{
    reveal(DeskView::led);
}

/// To flash ends nothing.
proof fn flashing_goes_on(desk: DeskView, clock: u64)
    ensures
        goes_on(desk, desk.flashing(clock)),
{
    reveal(DeskView::flashing);
    let (popover, next) = desk.popover.animated(clock as u128);
    if next is Some {
        asking_goes_on(desk.with_popover(popover), OutputView::WakeAt(next->0));
    }
}

/// To replace the menu ends nothing.
proof fn replacing_goes_on(desk: DeskView, rebuild: bool, around: AroundView)
    ensures
        goes_on(desk, desk.with_menu(rebuild, around)),
{
    reveal(DeskView::with_menu);
    one_more(desk.outputs, desk.bar(around));
}

/// What follows whatever has happened ends nothing.
proof fn settling_goes_on(desk: DeskView, rebuild: bool, around: AroundView)
    ensures
        goes_on(desk, desk.settled(rebuild, around)),
{
    reveal(DeskView::settled);
    let updated = desk.with_popover(
        crate::macos::popover::inbox::ReviewPopoverView { update_state: around.updates, ..desk.popover },
    );
    let synchronized = updated.synchronized();
    let known = synchronized.with_popover(
        crate::macos::popover::inbox::ReviewPopoverView {
            keyboard_state: synchronized.keyboard.state,
            ..synchronized.popover
        },
    );
    assert(goes_on(desk, known));
    leading_goes_on(known, rebuild, around.clock);
    let (led, rebuilt) = known.led(rebuild, around.clock);
    let drawn = if rebuilt {
        led.with_popover(led.popover.drawn(led.news(around)))
    } else {
        led
    };
    assert(goes_on(desk, drawn.synchronized()));
    flashing_goes_on(drawn.synchronized(), around.clock);
    replacing_goes_on(drawn.synchronized().flashing(around.clock), rebuilt, around);
}

/// The application ends only where the worker has stopped.
proof fn ending_goes_well(desk: DeskView, reason: Seq<char>)
    ensures
        goes_well(desk, desk.ending(reason)),
        desk.ending(reason).shutting_down,
{
    let told = desk.outputs.push(OutputView::Send(CommandView::Shutdown));
    one_more(desk.outputs, OutputView::Send(CommandView::Shutdown));
    one_more(told, OutputView::Exit);
}

/// What the worker reports ends the application only where it is to.
proof fn reports_go_well(desk: DeskView, event: UiEventView)
    ensures
        goes_well(desk, desk.reported(event).0),
{
    reveal(DeskView::reported);
    match event {
        UiEventView::Stopped => {
            one_more(desk.outputs, OutputView::Exit);
        },
        UiEventView::Open { url, pr, update } => {
            asking_goes_on(desk, OutputView::OpenUrl { url, pr, update });
        },
        UiEventView::DismissNotifications(ids) => {
            let stay = chosen(desk.pending, ids, false);
            let gone = chosen(desk.pending, ids, true);
            let dropped = DeskView { pending: stay, ..desk };
            answering_goes_on(dropped, gone);
            asking_goes_on(dropped.asking_all(failures_of(gone)), OutputView::Withdraw(ids));
        },
        UiEventView::Notify { review, id, title, body } => {
            asking_goes_on(desk, OutputView::Deliver(AnnouncementView { id, title, body, review }));
            asking_goes_on(desk, OutputView::Send(CommandView::NotificationFailed(id)));
        },
        _ => {},
    }
}

/// An action ends the application only where the worker has stopped.
proof fn actions_go_well(desk: DeskView, action: ActionView, heading: Seq<char>)
    ensures
        goes_well(desk, desk.acted(action, heading).0),
{
    reveal(DeskView::acted);
    match action {
        ActionView::Open { url, pr, update } => {
            asking_goes_on(desk, OutputView::OpenUrl { url, pr, update });
        },
        ActionView::Ignore(pr) => {
            asking_goes_on(desk, OutputView::Send(CommandView::Ignore(pr)));
        },
        ActionView::Restore(pr) => {
            asking_goes_on(desk, OutputView::Send(CommandView::Restore(pr)));
        },
        ActionView::ShowIgnored => {
            asking_goes_on(desk.with_popover(desk.popover.turned(true)), OutputView::Send(CommandView::ShowIgnored));
        },
        ActionView::Labels(id) => {
            if let Some(pr) = action_views::found(desk.prs, id) {
                asking_goes_on(
                    desk.with_popover(desk.popover.with_panel(crate::macos::popover::inbox::labels_panel(pr))),
                    OutputView::Send(
                        CommandView::Acknowledge { pr: pr.snapshot.id, update: pr.update_id, checked: true },
                    ),
                );
            }
        },
        ActionView::Ack { pr, update, checked } => {
            asking_goes_on(desk, OutputView::Send(CommandView::Acknowledge { pr, update, checked }));
        },
        ActionView::Refresh => {
            asking_goes_on(desk, OutputView::Send(CommandView::Refresh));
            asking_goes_on(desk.asking(OutputView::Send(CommandView::Refresh)), OutputView::RequestPermission);
        },
        ActionView::ConfigFile => {
            asking_goes_on(desk, OutputView::OpenConfigFile);
        },
        ActionView::Logs => {
            asking_goes_on(desk, OutputView::OpenLogs);
        },
        ActionView::Login => {
            asking_goes_on(desk, OutputView::ToggleLogin);
        },
        ActionView::NotificationSettings => {
            asking_goes_on(desk, OutputView::OpenNotificationSettings);
        },
        ActionView::CheckUpdates => {
            asking_goes_on(desk, OutputView::CheckUpdates);
        },
        ActionView::Quit => {
            asking_goes_on(desk, OutputView::Log("quit"@));
            ending_goes_well(desk.asking(OutputView::Log("quit"@)), "quit"@);
        },
        _ => {},
    }
}

/// A control ends the application only where the worker has stopped.
proof fn controls_go_well(desk: DeskView, press: PressView, heading: Seq<char>)
    ensures
        goes_well(desk, desk.used(press, heading).0),
{
    reveal(DeskView::used);
    match press {
        PressView::UpdateEdit(edit) => {
            asking_goes_on(desk, OutputView::EditUpdates(edit));
        },
        PressView::PopoverAction(action) => {
            actions_go_well(desk, action, heading);
        },
        PressView::PrAction(request) => {
            asking_goes_on(
                desk,
                OutputView::Send(
                    CommandView::PrAction(
                        crate::worker::action_worker::effects::ActionCommandView::Request(request),
                    ),
                ),
            );
        },
        _ => {},
    }
}

/// What is known of the permission ends nothing, and leaves nothing that waits.
proof fn permissions_go_well(desk: DeskView, granted: bool)
    ensures
        goes_well(desk, desk.permitted(granted)),
{
    answering_goes_on(desk, desk.pending);
    assert(desk.asking_all(failures_of(desk.pending)).outputs == desk.outputs + failures_of(desk.pending));
}

/// Whatever happens ends the application only where the worker has stopped and it is to end,
/// and lets notifications wait only in a packaged application.
proof fn events_go_well(desk: DeskView, event: AppEventView, around: AroundView)
    ensures
        goes_well(desk, desk.stepped(event, around)),
{
    let (after, rebuild) = desk.handled(event, around);
    assert(goes_well(desk, after)) by {
        reveal(DeskView::handled);
        match event {
            AppEventView::Worker(event) => {
                reports_go_well(desk, event);
            },
            AppEventView::Menu(id) => {
                if let Some(action) = desk.menu_state.action_of(id) {
                    actions_go_well(desk, action, around.heading);
                }
            },
            AppEventView::Permission(granted) => {
                permissions_go_well(desk, granted);
            },
            AppEventView::Pressed(press) => {
                controls_go_well(desk, press, around.heading);
            },
            AppEventView::Opened { pr, update, .. } => {
                asking_goes_on(desk, OutputView::Send(CommandView::Acknowledge { pr, update, checked: true }));
            },
            AppEventView::Shutdown(reason) => {
                ending_goes_well(desk, reason);
            },
            _ => {},
        }
    }
    settling_goes_on(after, rebuild, around);
}

/// The application ends only when it is to and the worker has stopped.
pub proof fn the_end_awaits_the_worker(desk: DeskView, event: AppEventView, around: AroundView)
    requires
        !exits(desk),
        exits(desk.stepped(event, around)),
    ensures
        desk.stepped(event, around).shutting_down,
        desk.stepped(event, around).worker_stopped,
{
    events_go_well(desk, event, around);
}

/// Once the application is to end, it ends when the worker has stopped.
pub proof fn the_end_comes(desk: DeskView, around: AroundView)
    requires
        desk.shutting_down,
    ensures
        exits(desk.stepped(AppEventView::Worker(UiEventView::Stopped), around)),
{
    let (after, rebuild) = desk.handled(AppEventView::Worker(UiEventView::Stopped), around);
    assert(exits(after)) by {
        reveal(DeskView::handled);
        reveal(DeskView::reported);
        one_more(desk.outputs, OutputView::Exit);
    }
    settling_goes_on(after, rebuild, around);
}

/// While the application ends, nothing counts but the worker and the wish to end.
pub proof fn the_end_is_not_disturbed(desk: DeskView, event: AppEventView, around: AroundView)
    requires
        desk.shutting_down,
        !(event is Worker),
        !(event is Shutdown),
    ensures
        desk.stepped(event, around) == desk,
{
}

/// Notifications wait for the permission only in a packaged application, which can show them.
pub proof fn only_packages_let_notifications_wait(desk: DeskView, event: AppEventView, around: AroundView)
    requires
        desk.pending.len() > 0 ==> desk.bundled,
    ensures
        desk.stepped(event, around).pending.len() > 0 ==> desk.stepped(event, around).bundled,
{
    events_go_well(desk, event, around);
}

/// No notification that waits for the permission is forgotten: once the permission is known,
/// each is shown, or the worker learns that it was not.
pub proof fn waiting_notifications_are_answered(desk: DeskView, granted: bool, i: int)
    requires
        desk.bundled,
        0 <= i < desk.pending.len(),
    ensures
        desk.permitted(granted).pending.len() == 0,
        desk.permitted(granted).outputs.contains(
            if granted {
                OutputView::Deliver(desk.pending[i])
            } else {
                OutputView::Send(CommandView::NotificationFailed(desk.pending[i].id))
            },
        ),
{
    let before = desk.outputs;
    if granted {
        let all = before + deliveries_of(desk.pending);
        assert(all[before.len() + i] == OutputView::Deliver(desk.pending[i]));
    } else {
        let all = before + failures_of(desk.pending);
        assert(all[before.len() + i] == OutputView::Send(CommandView::NotificationFailed(desk.pending[i].id)));
    }
}

/// To open the labels of a pull request acknowledges the update that is shown.
pub proof fn opened_labels_acknowledge(desk: DeskView, id: Seq<char>, heading: Seq<char>)
    requires
        action_views::found(desk.prs, id) is Some,
    ensures
        ({
            let pr = action_views::found(desk.prs, id)->0;
            desk.acted(ActionView::Labels(id), heading).0.outputs == desk.outputs.push(
                OutputView::Send(CommandView::Acknowledge { pr: pr.snapshot.id, update: pr.update_id, checked: true }),
            )
        }),
{
    reveal(DeskView::acted);
}

/// Where a notification leads to is remembered until the list of active pull requests is
/// shown.
pub proof fn destinations_are_not_forgotten(desk: DeskView, rebuild: bool, clock: u64)
    requires
        desk.pending_reveal is Some,
    ensures
        ({
            let (after, _) = desk.led(rebuild, clock);
            ||| after.pending_reveal == desk.pending_reveal
            ||| {
                &&& after.pending_reveal is None
                &&& after.popover.visible
                &&& after.popover.detail is None
                &&& !after.popover.showing_ignored
                &&& after.popover.active.navigation.selected == desk.pending_reveal->0
            }
        }),
{
    reveal(DeskView::led);
}

} // verus!
