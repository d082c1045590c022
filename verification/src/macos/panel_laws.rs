//! What holds of panels, settings and pictures.

use crate::actions::{Condition, Kind, MergeMethod, Preferences, RequestView, Setting};
use crate::github::exchange;
use crate::hotkeys;
use crate::identity;
use crate::macos;
use crate::macos::icons;
use crate::macos::keyboard::StateView as KeyboardStateView;
use crate::macos::menu;
use crate::macos::menu::{EntryView, ItemView};
use crate::macos::popover::action_views;
use crate::macos::popover::action_views::ConfigEditorView;
use crate::macos::popover::inbox;
use crate::macos::popover::inbox::ReviewPopoverView;
use crate::macos::popover::rows;
use crate::macos::popover::settings::SettingsEditorView;
use crate::macos::popover::PressView;
use crate::macos::updates::{DelegateView, StateView as UpdateStateView};
use crate::macos::ActionView;
use crate::model::{PullRequestView, State};
use crate::text;
use vstd::prelude::*;

verus! {

broadcast use vstd::seq_lib::group_seq_properties;

// ---------------------------------------------------------------- menus

/// Each state has a symbol of its own.
pub proof fn states_have_their_symbols()
    ensures
        macos::symbol_of(State::Unknown) == "questionmark.circle"@,
        macos::symbol_of(State::Reviewing) == "arrow.triangle.2.circlepath"@,
        macos::symbol_of(State::Comments) == "text.bubble"@,
        macos::symbol_of(State::Approved) == "checkmark.circle"@,
{
}

/// The menu of the inbox shows the ignored pull requests, the settings and the logs, launches the
/// application at login where it is packaged, and quits.
pub proof fn the_inbox_has_a_menu(dev: bool, bundled: bool, at_login: bool)
    ensures
        ({
            let items = menu::inbox_items(dev, bundled, at_login);
            &&& items.len() == 8
            &&& items[0] == (ItemView::Button { title: "Show ignored"@, enabled: true, action: ActionView::ShowIgnored })
            &&& items[2] == (ItemView::Button { title: "Settings"@, enabled: true, action: ActionView::Config })
            &&& items[3] == (ItemView::Button {
                title: "Notification settings"@,
                enabled: true,
                action: ActionView::NotificationSettings,
            })
            &&& items[4] == (ItemView::Button { title: "Open logs"@, enabled: true, action: ActionView::Logs })
            &&& items[6] == (ItemView::Check {
                title: "Launch at login"@,
                enabled: bundled,
                checked: bundled && at_login,
                action: ActionView::Login,
            })
            &&& dev ==> items[7] == (ItemView::Button { title: "Quit Gopher Dev"@, enabled: true, action: ActionView::Quit })
            &&& !dev ==> items[7] == (ItemView::Button { title: "Quit Gopher"@, enabled: true, action: ActionView::Quit })
        }),
{
}

/// The menu starts with how many pull requests are open and ends with the updates and the way out.
pub proof fn menus_have_a_start_and_an_end(
    prs: Seq<PullRequestView>,
    error: Option<Seq<char>>,
    dev: bool,
    bundled: bool,
    at_login: bool,
    updates: UpdateStateView,
    now: i64,
    times: Map<Seq<char>, Seq<char>>,
)
    ensures
        ({
            let entries = menu::menu_of(prs, error, dev, bundled, at_login, updates, now, times);
            &&& entries.len() >= 5
            &&& !dev ==> entries[0] == EntryView::Item(
                ItemView::Text("Gopher"@ + " · "@ + text::decimal_of(prs.len()) + " open PRs"@),
            )
            &&& entries[entries.len() - 2] == EntryView::Item(
                ItemView::Button { title: updates.title(), enabled: updates.can_check, action: ActionView::CheckUpdates },
            )
            &&& entries.last() == EntryView::Item(
                ItemView::Button {
                    title: if dev {
                        "Quit Gopher Dev"@
                    } else {
                        "Quit Gopher"@
                    },
                    enabled: true,
                    action: ActionView::Quit,
                },
            )
            &&& error is Some ==> (entries[1] matches EntryView::Submenu { title, state, action, items } && title
                == "⚠ Gopher needs attention"@ && state is None && action is None)
        }),
{
    let first = seq![
        EntryView::Item(
            ItemView::Text(identity::identity_of(dev).name + " · "@ + text::decimal_of(prs.len()) + " open PRs"@),
        ),
    ];
    let faults = menu::error_entries(error);
    let listed = menu::pr_entries(macos::shown_order(prs), now, times);
    let closing = menu::closing_entries(dev, bundled, at_login, updates);
    let entries = menu::menu_of(prs, error, dev, bundled, at_login, updates, now, times);
    assert(entries == first + faults + listed + closing);
    assert(closing.len() == 4);
    assert(entries[entries.len() - 2] == closing[2]);
    assert(entries[entries.len() - 1] == closing[3]);
    if error is Some {
        assert(entries[1] == faults[0]);
    }
}

/// An error is shown in lines of a hundred bytes, which together are all of it.
pub proof fn errors_are_shown_whole(bytes: Seq<u8>, k: int)
    requires
        0 <= k,
        100 * k < bytes.len(),
    ensures
        ({
            let items = menu::error_items(bytes);
            let end = if 100 * (k + 1) < bytes.len() {
                100 * (k + 1)
            } else {
                bytes.len() as int
            };
            &&& k < items.len()
            &&& items[k] == ItemView::Text(exchange::lossy_text(bytes.subrange(100 * k, end)))
            &&& end == bytes.len() ==> items.len() == k + 1
        }),
    decreases k,
{
    if k == 0 {
        if bytes.len() <= 100 {
            assert(bytes.subrange(0, bytes.len() as int) =~= bytes);
        } else {
            assert(bytes.subrange(0, 100) =~= bytes.take(100));
        }
    } else {
        let rest = bytes.skip(100);
        errors_are_shown_whole(rest, k - 1);
        let end = if 100 * (k + 1) < bytes.len() {
            100 * (k + 1)
        } else {
            bytes.len() as int
        };
        assert(rest.subrange(100 * (k - 1), end - 100) =~= bytes.subrange(100 * k, end));
    }
}

// ---------------------------------------------------------------- rows

/// The details of a pull request have its branches, what each agent has concluded and why, what
/// went wrong and when it was checked, in this order and a line apart.
pub proof fn details_have_everything(pr: PullRequestView, fetched: Option<Seq<char>>, i: int)
    ensures
        ({
            let parts = rows::detail_parts(pr, fetched);
            let agents = pr.agents;
            &&& 0 <= i < agents.len() ==> parts.contains(
                agents[i].agent.label_text() + " · "@ + agents[i].verdict.label_text() + "\n"@ + agents[i].reason,
            )
            &&& agents.len() == 0 ==> parts.contains("No agent review activity detected."@)
            &&& pr.error matches Some(message) ==> parts.contains(message)
            &&& fetched is Some && pr.fetched_at > 0 ==> parts.contains("Last checked "@ + fetched->0)
            &&& pr.snapshot.head_branch is Some && pr.snapshot.base_branch is Some && pr.snapshot.source_owner is None
                ==> parts.len() > 0 && parts[0] == pr.snapshot.head_branch->0 + " → "@ + pr.snapshot.base_branch->0
            &&& pr.snapshot.head_branch is Some && pr.snapshot.base_branch is Some && pr.snapshot.source_owner is Some
                ==> parts.len() > 0 && parts[0] == pr.snapshot.source_owner->0 + ":"@ + pr.snapshot.head_branch->0 + " → "@
                + pr.snapshot.base_branch->0
            &&& rows::details_of(pr, fetched) == text::joined(parts, "\n\n"@)
        }),
{
    let parts = rows::detail_parts(pr, fetched);
    let branches = rows::branches_of(pr.snapshot);
    let told = pr.agents.map_values(|agent: crate::model::AgentResultView| rows::agent_text(agent));
    let none: Seq<Seq<char>> = if pr.agents.len() == 0 {
        seq!["No agent review activity detected."@]
    } else {
        Seq::empty()
    };
    let error: Seq<Seq<char>> = match pr.error {
        Some(message) => seq![message],
        None => Seq::empty(),
    };
    if 0 <= i < pr.agents.len() {
        assert(parts[branches.len() + i] == told[i]);
    }
    if pr.agents.len() == 0 {
        assert(parts[branches.len() as int] == none[0]);
    }
    let k = (branches.len() + told.len() + none.len()) as int;
    if pr.error is Some {
        assert(parts[k] == error[0]);
    }
    if fetched is Some && pr.fetched_at > 0 {
        assert(parts[k + error.len()] == "Last checked "@ + fetched->0);
    }
}

/// The title of a row is the number and the title of its pull request, or its identity where
/// nothing else is known of it.
pub proof fn rows_have_titles(pr: PullRequestView)
    ensures
        pr.snapshot.number > 0 ==> rows::title_of(pr) == "#"@ + text::decimal_of(pr.snapshot.number as nat) + "  "@
            + text::spaced(pr.snapshot.title),
        pr.snapshot.number == 0 ==> rows::title_of(pr) == "Unavailable PR · "@ + pr.snapshot.id,
{
}

/// The menu of a row opens and closes for itself alone; once it closes, everything is drawn again.
pub proof fn menus_of_rows_open_and_close(inbox: ReviewPopoverView, id: Seq<char>, other: Seq<char>)
    requires
        inbox.rows.contains_key(id),
        other != id,
    ensures
        ({
            let opened = inbox.menu_used(id, true);
            let closed = opened.menu_used(id, false);
            &&& opened.rows[id].actions.tracking && !closed.rows[id].actions.tracking
            &&& opened.rows.contains_key(other) == inbox.rows.contains_key(other)
            &&& inbox.rows.contains_key(other) ==> opened.rows[other] == inbox.rows[other] && closed.rows[other]
                == inbox.rows[other]
            &&& opened.gestures == inbox.gestures
            &&& closed.gestures == inbox.gestures.push(inbox::GestureView::Refresh)
        }),
{
}

// ---------------------------------------------------------------- the settings of a repository

/// Whether a choice changes a setting of a repository.
pub open spec fn changes_to(choice: action_views::ChoiceView, repo: Seq<char>, change: Setting, title: Seq<char>) -> bool {
    &&& choice.title == title
    &&& choice.press == PressView::PrAction(RequestView::Configure { repo, change })
}

/// A condition and a merge method are chosen out of all that there are, and the one that is chosen
/// stands at its place.
pub proof fn settings_offer_every_choice(editor: ConfigEditorView, kind: Kind, preferences: Preferences)
    ensures
        ({
            let conditions = editor.conditions(kind);
            let methods = editor.methods();
            let shown = ConfigEditorView::showing(editor.repo, preferences);
            &&& conditions.len() == 4 && methods.len() == 3
            &&& changes_to(conditions[0], editor.repo, Setting::Condition(kind, Condition::Always), "Always"@)
            &&& changes_to(conditions[1], editor.repo, Setting::Condition(kind, Condition::Reviewing), "Reviewing"@)
            &&& changes_to(conditions[2], editor.repo, Setting::Condition(kind, Condition::Comments), "Comments"@)
            &&& changes_to(conditions[3], editor.repo, Setting::Condition(kind, Condition::Approved), "Approved"@)
            &&& changes_to(methods[0], editor.repo, Setting::MergeMethod(MergeMethod::Merge), "Merge commit"@)
            &&& changes_to(methods[1], editor.repo, Setting::MergeMethod(MergeMethod::Squash), "Squash"@)
            &&& changes_to(methods[2], editor.repo, Setting::MergeMethod(MergeMethod::Rebase), "Rebase"@)
            &&& shown.rows.len() == 2
            &&& shown.rows[0].kind == Kind::Merge && shown.rows[1].kind == Kind::Label
            &&& shown.rows[0].enabled == preferences.merge.enabled && shown.rows[1].enabled == preferences.label.enabled
            &&& conditions[shown.rows[0].condition as int].press == PressView::PrAction(
                RequestView::Configure { repo: editor.repo, change: Setting::Condition(kind, preferences.merge.condition) },
            )
            &&& conditions[shown.rows[1].condition as int].press == PressView::PrAction(
                RequestView::Configure { repo: editor.repo, change: Setting::Condition(kind, preferences.label.condition) },
            )
            &&& shown.rows[0].method matches Some(place) && methods[place as int].press == PressView::PrAction(
                RequestView::Configure { repo: editor.repo, change: Setting::MergeMethod(preferences.merge_method) },
            )
            &&& shown.rows[1].method is None
        }),
{
}

/// The color of a label is the number that its six hexadecimal digits stand for, and grey where
/// there are not six.
pub proof fn labels_have_their_colors(hex: Seq<char>)
    ensures
        hex.len() != 6 ==> action_views::color_of(hex) == 0x808080,
        hex.len() == 6 && (forall|i: int| 0 <= i < 6 ==> text::hex_digit(#[trigger] hex[i])) ==> action_views::color_of(hex)
            == 1048576 * text::hex_digit_value(hex[0]) + 65536 * text::hex_digit_value(hex[1]) + 4096
            * text::hex_digit_value(hex[2]) + 256 * text::hex_digit_value(hex[3]) + 16 * text::hex_digit_value(hex[4])
            + text::hex_digit_value(hex[5]),
        hex.len() == 6 && (exists|i: int| 1 <= i < 6 && !text::hex_digit(#[trigger] hex[i])) ==> action_views::color_of(hex)
            == 0x808080,
{
    if hex.len() == 6 {
        if forall|i: int| 0 <= i < 6 ==> text::hex_digit(#[trigger] hex[i]) {
            reveal_with_fuel(text::hex_value, 7);
            assert(text::hex_digit(hex[0]));
            assert forall|i: int| 0 <= i < 6 implies text::hex_digit_value(#[trigger] hex[i]) <= 15 by {
                assert(text::hex_digit(hex[i]));
            }
            let a = hex.drop_last();
            let b = a.drop_last();
            let c = b.drop_last();
            let d = c.drop_last();
            let e = d.drop_last();
            assert(e.len() == 1 && e.last() == hex[0] && d.last() == hex[1] && c.last() == hex[2]);
            assert(b.last() == hex[3] && a.last() == hex[4] && hex.last() == hex[5]);
            assert(text::hex_value(e.drop_last()) == 0);
            assert(text::hex_value(e) == text::hex_digit_value(hex[0]));
            assert(text::hex_value(d) == 16 * text::hex_value(e) + text::hex_digit_value(hex[1]));
            assert(text::hex_value(c) == 16 * text::hex_value(d) + text::hex_digit_value(hex[2]));
            assert(text::hex_value(b) == 16 * text::hex_value(c) + text::hex_digit_value(hex[3]));
            assert(text::hex_value(a) == 16 * text::hex_value(b) + text::hex_digit_value(hex[4]));
            assert(text::hex_value(hex) == 16 * text::hex_value(a) + text::hex_digit_value(hex[5]));
        }
        if exists|i: int| 1 <= i < 6 && !text::hex_digit(#[trigger] hex[i]) {
            let i = choose|i: int| 1 <= i < 6 && !text::hex_digit(#[trigger] hex[i]);
            assert(hex.drop_first()[i - 1] == hex[i]);
        }
    }
}

// ---------------------------------------------------------------- settings

/// The settings have a row for each action, which shows its shortcut, that none is set, or that
/// one is awaited; nothing can be changed while a change is saved.
pub proof fn settings_show_every_shortcut(
    editor: SettingsEditorView,
    state: KeyboardStateView,
    updates: UpdateStateView,
    i: int,
)
    requires
        0 <= i < 8,
    ensures
        ({
            let shown = editor.updated(state, updates);
            let action = hotkeys::all_actions()[i];
            let row = shown.rows[i];
            let free = state.ready && !state.pending;
            let binding = hotkeys::binding_of(state.preferences, action);
            &&& shown.rows.len() == 8
            &&& row.action == action
            &&& state.recording == Some(action) ==> row.title == "Press shortcut…"@
            &&& state.recording != Some(action) && binding is None ==> row.title == "Not set"@
            &&& state.recording != Some(action) && binding is Some ==> row.title == binding->0.shown()
            &&& row.record_enabled == free
            &&& row.clear_enabled == (free && binding is Some)
            &&& shown.reset_enabled == free
            &&& shown.failed == state.error is Some
            &&& state.error matches Some(message) ==> shown.message == message
            &&& state.error is None && state.pending ==> shown.message == "Saving…"@
            &&& state.error is None && !state.pending && !state.ready ==> shown.message == "Loading settings…"@
            &&& state.error is None && free ==> shown.message == "Changes save and apply automatically."@
            &&& shown.checks_enabled == updates.enabled && shown.checks == updates.checks
            &&& shown.downloads_enabled == (updates.enabled && updates.checks) && shown.downloads == updates.downloads
            &&& updates.message.len() > 0 ==> shown.updates_message == updates.message
            &&& shown.heading == editor.heading
        }),
{
}

/// The version of a build is shown with its name; a development build says where it comes from.
pub proof fn versions_are_shown(version: Seq<char>, revision: Seq<char>, status: Seq<char>)
    ensures
        identity::version_text(false, version, revision, status) == "Updates · "@ + "Gopher"@ + " "@ + version,
        identity::version_text(true, version, revision, status) == "Gopher Dev"@ + " "@ + version + "\n"@ + revision + " · "@
            + status,
{
}

/// Before anything is reported no update is available, and nothing ends.
pub proof fn updates_start_unknown()
    ensures
        !DelegateView::silent().available,
        !DelegateView::silent().on_quit,
        !DelegateView::silent().terminating,
        DelegateView::silent().message == Seq::<char>::empty(),
{
}

// ---------------------------------------------------------------- the icon

/// The alpha bytes of a row lie where those of its pixels do.
proof fn rows_lie_between(pixels: Seq<u8>, width: int, y: int, from: int, to: int, low: u8, high: u8)
    requires
        from <= to,
        forall|x: int| from <= x < to ==> low <= #[trigger] alpha_at(pixels, width, x, y) <= high,
    ensures
        low * (to - from) <= icons::row_alpha(pixels, width, y, from, to) <= high * (to - from),
    decreases to - from,
{
    if from < to {
        rows_lie_between(pixels, width, y, from, to - 1, low, high);
        assert(low <= alpha_at(pixels, width, to - 1, y) <= high);
        assert(low * (to - from) == low * (to - 1 - from) + low) by (nonlinear_arith);
        assert(high * (to - from) == high * (to - 1 - from) + high) by (nonlinear_arith);
    } else {
        assert(low * (to - from) == 0 && high * (to - from) == 0) by (nonlinear_arith)
            requires
                from == to,
        ;
    }
}

/// The alpha byte of a pixel of a picture.
pub open spec fn alpha_at(pixels: Seq<u8>, width: int, x: int, y: int) -> u8 {
    pixels[(y * width + x) * 4 + 3]
}

/// The alpha bytes of an area lie where those of its pixels do.
proof fn areas_lie_between(
    pixels: Seq<u8>,
    width: int,
    top: int,
    bottom: int,
    left: int,
    right: int,
    low: u8,
    high: u8,
)
    requires
        top <= bottom,
        left <= right,
        forall|x: int, y: int|
            left <= x < right && top <= y < bottom ==> low <= #[trigger] alpha_at(pixels, width, x, y) <= high,
    ensures
        low * ((bottom - top) * (right - left)) <= icons::area_alpha(pixels, width, top, bottom, left, right) <= high * ((bottom
            - top) * (right - left)),
    decreases bottom - top,
{
    if top < bottom {
        areas_lie_between(pixels, width, top, bottom - 1, left, right, low, high);
        rows_lie_between(pixels, width, bottom - 1, left, right, low, high);
        let w = right - left;
        let h = bottom - top;
        assert((bottom - 1 - top) * w == (h - 1) * w);
        assert(low * (h * w) == low * ((h - 1) * w) + low * w) by (nonlinear_arith);
        assert(high * (h * w) == high * ((h - 1) * w) + high * w) by (nonlinear_arith);
    } else {
        assert((bottom - top) * (right - left) == 0) by (nonlinear_arith)
            requires
                bottom == top,
        ;
    }
}

/// Where all pixels of a picture that a pixel of the icon covers are as opaque as one another, that
/// one is as opaque; else it lies between the least and the most opaque of them.
pub proof fn icons_are_as_opaque_as_their_pictures(pixels: Seq<u8>, width: int, height: int, x: int, y: int, low: u8, high: u8)
    requires
        36 <= width,
        36 <= height,
        0 <= x < 36,
        0 <= y < 36,
        forall|px: int, py: int|
            x * width / 36 <= px < (x + 1) * width / 36 && y * height / 36 <= py < (y + 1) * height / 36 ==> low
                <= #[trigger] alpha_at(pixels, width, px, py) <= high,
    ensures
        low <= icons::icon_of(pixels, width, height)[(y * 36 + x) * 4 + 3] <= high,
{
    let i = (y * 36 + x) * 4 + 3;
    assert(i % 4 == 3);
    assert(i / 4 == y * 36 + x);
    assert((y * 36 + x) % 36 == x);
    assert((y * 36 + x) / 36 == y);
    let (top, bottom) = (y * height / 36, (y + 1) * height / 36);
    let (left, right) = (x * width / 36, (x + 1) * width / 36);
    assert((y + 1) * height == y * height + height) by (nonlinear_arith);
    assert((x + 1) * width == x * width + width) by (nonlinear_arith);
    assert(top < bottom && left < right);
    areas_lie_between(pixels, width, top, bottom, left, right, low, high);
    let samples = (bottom - top) * (right - left);
    assert(samples > 0) by (nonlinear_arith)
        requires
            top < bottom,
            left < right,
            samples == (bottom - top) * (right - left),
    ;
    let total = icons::area_alpha(pixels, width, top, bottom, left, right) as int;
    let average = (total + samples / 2) / samples;
    averages_lie_between(total, samples, low as int, high as int);
    assert(icons::average_alpha(pixels, width, height, x, y) == average);
    assert(0 <= average <= 255);
}

/// A rounded average lies between the least and the most.
proof fn averages_lie_between(total: int, samples: int, low: int, high: int)
    requires
        samples > 0,
        low * samples <= total <= high * samples,
        0 <= low,
    ensures
        low <= (total + samples / 2) / samples <= high,
{
    let average = (total + samples / 2) / samples;
    let rest = (total + samples / 2) % samples;
    vstd::arithmetic::div_mod::lemma_fundamental_div_mod(total + samples / 2, samples);
    vstd::arithmetic::div_mod::lemma_mod_bound(total + samples / 2, samples);
    assert(total + samples / 2 == samples * average + rest);
    assert(low <= average) by (nonlinear_arith)
        requires
            samples > 0,
            low * samples <= total,
            total + samples / 2 == samples * average + rest,
            0 <= rest < samples,
    ;
    assert(average <= high) by (nonlinear_arith)
        requires
            samples > 0,
            total <= high * samples,
            total + samples / 2 == samples * average + rest,
            0 <= rest < samples,
    ;
}

/// Only pictures with four channels of eight bits, of thirty-six pixels or more on each side, make
/// an icon.
pub proof fn large_pictures_make_icons(width: u32, height: u32, layout: u8, depth: u8, pixels: Seq<u8>)
    ensures
        icons::icon_of_picture(Some((width, height, layout, depth, pixels))) is Some <==> {
            &&& layout == 6
            &&& depth == 8
            &&& width >= 36
            &&& height >= 36
            &&& width * height * 4 <= pixels.len()
        },
        icons::icon_of_picture(Some((width, height, layout, depth, pixels))) matches Some(icon) ==> icon.len() == 36 * 36 * 4,
        icons::icon_of_picture(None) is None,
{
}

} // verus!
