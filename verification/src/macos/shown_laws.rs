//! What holds of what is shown.

use crate::actions::{ActionStateView, Kind, LabelsView, RequestView};
use crate::macos;
use crate::macos::menu;
use crate::macos::menu::{EntryView, ItemView};
use crate::macos::popover::action_views;
use crate::macos::popover::action_views::{LabelPickerView, PrActionsView};
use crate::macos::popover::inbox;
use crate::macos::popover::rows;
use crate::macos::popover::PressView;
use crate::macos::updates::StateView as UpdateStateView;
use crate::macos::{ActionView, MenuBarState};
use crate::model;
use crate::model::{CheckState, PullRequestView, State, ThreadView};
use crate::order;
use crate::text;
use crate::worker::events::CommandView;
use vstd::prelude::*;

verus! {

broadcast use vstd::seq_lib::group_seq_properties;

// ---------------------------------------------------------------- the icon

/// A click on a notification shows its pull request in the inbox, its first button only
/// acknowledges it, its second one opens it in the browser, and nothing else means anything.
pub proof fn notifications_have_three_actions(action: Seq<char>, id: Seq<char>)
    ensures
        macos::command_of("com.apple.UNNotificationDefaultActionIdentifier"@, id) == Some(
            CommandView::NotificationAction { id, open: false, reveal: true },
        ),
        macos::command_of("gopher.acknowledge"@, id) == Some(
            CommandView::NotificationAction { id, open: false, reveal: false },
        ),
        macos::command_of("gopher.open-pr"@, id) == Some(
            CommandView::NotificationAction { id, open: true, reveal: false },
        ),
        macos::command_of(action, id) is Some ==> action == "com.apple.UNNotificationDefaultActionIdentifier"@ || action
            == "gopher.acknowledge"@ || action == "gopher.open-pr"@,
{
    reveal_strlit("com.apple.UNNotificationDefaultActionIdentifier");
    reveal_strlit("gopher.acknowledge");
    reveal_strlit("gopher.open-pr");
    assert("com.apple.UNNotificationDefaultActionIdentifier"@[0] == 'c');
    assert("gopher.acknowledge"@[7] == 'a' && "gopher.open-pr"@[7] == 'o');
}

/// Whether an update that the user has not acknowledged is known to be current and has a state.
pub open spec fn asks(pr: PullRequestView, state: State) -> bool {
    !pr.stale && pr.acknowledged != Some(pr.update_id) && pr.state == state
}

/// An error shows the icon of what is unknown.
pub proof fn errors_are_unknown(prs: Seq<PullRequestView>)
    ensures
        macos::bar_state(prs, true) == MenuBarState::Review(State::Unknown),
{
}

/// Without an error, the icon shows comments exactly where an update with comments waits; an
/// approval exactly where one waits and no comments do; a review exactly where one is under way
/// and nothing else waits; and it is idle exactly where every update is acknowledged or its state
/// asks for nothing.
pub proof fn the_icon_shows_the_first_that_waits(prs: Seq<PullRequestView>)
    ensures
        ({
            let shown = macos::bar_state(prs, false);
            let comments = exists|i: int| 0 <= i < prs.len() && asks(#[trigger] prs[i], State::Comments);
            let approved = exists|i: int| 0 <= i < prs.len() && asks(#[trigger] prs[i], State::Approved);
            let reviewing = exists|i: int| 0 <= i < prs.len() && asks(#[trigger] prs[i], State::Reviewing);
            let waiting = exists|i: int| 0 <= i < prs.len() && (#[trigger] prs[i]).acknowledged != Some(prs[i].update_id);
            &&& shown == MenuBarState::Review(State::Comments) <==> comments
            &&& shown == MenuBarState::Review(State::Approved) <==> approved && !comments
            &&& shown == MenuBarState::Review(State::Reviewing) <==> reviewing && !approved && !comments
            &&& shown == MenuBarState::Idle <==> !waiting
        }),
{
    assert forall|s: State| s == State::Comments || s == State::Approved implies #[trigger] macos::some_wants_attention(
        prs,
        s,
    ) == (exists|i: int| 0 <= i < prs.len() && asks(#[trigger] prs[i], s)) by {
        if macos::some_wants_attention(prs, s) {
            let i = choose|i: int| 0 <= i < prs.len() && (#[trigger] prs[i]).wants_attention() && prs[i].state == s;
            assert(asks(prs[i], s));
        }
        if exists|i: int| 0 <= i < prs.len() && asks(#[trigger] prs[i], s) {
            let i = choose|i: int| 0 <= i < prs.len() && asks(#[trigger] prs[i], s);
            assert(prs[i].wants_attention());
        }
    }
    let comments = macos::some_wants_attention(prs, State::Comments);
    let approved = macos::some_wants_attention(prs, State::Approved);
    if macos::some_in_review(prs) {
        let i = choose|i: int|
            0 <= i < prs.len() && (#[trigger] prs[i]).acknowledged != Some(prs[i].update_id) && !prs[i].stale && prs[i].state
                == State::Reviewing;
        assert(asks(prs[i], State::Reviewing));
    }
    if exists|i: int| 0 <= i < prs.len() && asks(#[trigger] prs[i], State::Reviewing) {
        let i = choose|i: int| 0 <= i < prs.len() && asks(#[trigger] prs[i], State::Reviewing);
        assert(macos::some_in_review(prs));
    }
    if exists|i: int| 0 <= i < prs.len() && (#[trigger] prs[i]).acknowledged != Some(prs[i].update_id) {
        let i = choose|i: int| 0 <= i < prs.len() && (#[trigger] prs[i]).acknowledged != Some(prs[i].update_id);
        if prs[i].stale || prs[i].state == State::Unknown {
            assert(macos::some_unknown(prs));
        } else {
            assert(asks(prs[i], prs[i].state));
        }
    }
}

/// Only addresses of pages of GitHub that carry no account are opened.
pub proof fn only_pages_of_github_are_opened(
    scheme: Seq<char>,
    host: Option<Seq<char>>,
    username: Seq<char>,
    password: Option<Seq<char>>,
    message: Seq<char>,
)
    ensures
        macos::address_fault(Ok((scheme, host, username, password))) is Ok <==> scheme == "https"@ && host == Some(
            "github.com"@,
        ) && username == Seq::<char>::empty() && password is None,
        macos::address_fault(Ok((scheme, host, username, password))) is Err ==> macos::address_fault(
            Ok((scheme, host, username, password)),
        ) == Err::<(), Seq<char>>("Refusing an invalid GitHub PR URL"@),
        macos::address_fault(Err(message)) == Err::<(), Seq<char>>(message),
{
    if username.len() == 0 {
        assert(username =~= Seq::empty());
    }
}

/// What is opened is acknowledged as it was shown; where it was not opened, what went wrong is said.
pub proof fn opening_acknowledges(listening: bool, pr: Seq<char>, update: Seq<char>, message: Seq<char>)
    ensures
        macos::opened(Ok(()), true, pr, update) == Ok::<CommandView, Seq<char>>(
            CommandView::Acknowledge { pr, update, checked: true },
        ),
        macos::opened(Ok(()), false, pr, update) == Err::<CommandView, Seq<char>>(
            "PR opened, but Gopher could not acknowledge the update"@,
        ),
        macos::opened(Err(message), listening, pr, update) == Err::<CommandView, Seq<char>>(message),
{
}

// ---------------------------------------------------------------- headings

/// The heading of a repository has its name before that of its owner; a name without an owner
/// stands alone.
pub proof fn headings_start_with_the_repository(owner: Seq<char>, name: Seq<char>)
    requires
        owner.len() > 0,
        !owner.contains('/'),
    ensures
        macos::heading_of(owner + "/"@ + name) == name + " • "@ + owner,
        macos::heading_of("/"@ + name) == name,
        macos::heading_of(owner) == owner,
{
    reveal_strlit("/");
    parts_stand_around_the_slash(owner, name);
    parts_stand_around_the_slash(Seq::empty(), name);
    assert(Seq::<char>::empty() + "/"@ + name =~= "/"@ + name);
    if text::occurs(owner, "/"@) {
        let i = choose|i: int| text::occurs_at(owner, "/"@, i);
        assert(owner.subrange(i, i + 1)[0] == owner[i]);
        assert(owner.contains('/'));
    }
}

/// A text is parted at its first slash.
proof fn parts_stand_around_the_slash(owner: Seq<char>, name: Seq<char>)
    requires
        !owner.contains('/'),
    ensures
        macos::parts_of(owner + "/"@ + name) == (owner, name),
{
    reveal_strlit("/");
    let t = owner + "/"@ + name;
    let at = owner.len() as int;
    assert(t.subrange(at, at + 1) =~= "/"@);
    assert(text::occurs_at(t, "/"@, at));
    assert forall|i: int| 0 <= i < at implies !text::occurs_at(t, "/"@, i) by {
        if text::occurs_at(t, "/"@, i) {
            assert(t.subrange(i, i + 1)[0] == t[i]);
            assert(owner[i] == '/');
        }
    }
    assert(text::first_at(t, "/"@, at));
    let i = text::first_index(t, "/"@).unwrap();
    assert(text::first_at(t, "/"@, i));
    assert(i == at);
    assert(t.take(at) =~= owner);
    assert(t.skip(at + 1) =~= name);
}

/// Of two pull requests that are shown, the one of the organization that comes first in the
/// alphabet stands first; of two of one organization, the one of the repository that comes first;
/// and of two of one repository, the one with the smaller number.
pub proof fn prs_stand_under_their_repositories(prs: Seq<PullRequestView>, i: int, j: int)
    requires
        0 <= i < j < macos::shown_order(prs).len(),
    ensures
        ({
            let a = macos::shown_order(prs)[i].snapshot;
            let b = macos::shown_order(prs)[j].snapshot;
            let (org_a, repo_a) = macos::parts_of(a.repo);
            let (org_b, repo_b) = macos::parts_of(b.repo);
            &&& !text::text_lt(text::unicode_lowercase(org_b), text::unicode_lowercase(org_a))
            &&& text::unicode_lowercase(org_a) == text::unicode_lowercase(org_b) ==> !text::text_lt(
                text::unicode_lowercase(repo_b),
                text::unicode_lowercase(repo_a),
            )
            &&& a.repo == b.repo ==> a.number <= b.number
        }),
{
    macos::prs_are_shown_in_order(prs, i, j);
}

/// Every pull request is shown, and nothing else is.
pub proof fn every_pr_is_shown(prs: Seq<PullRequestView>, pr: PullRequestView)
    ensures
        macos::shown_order(prs).len() == prs.len(),
        macos::shown_order(prs).contains(pr) <==> prs.contains(pr),
{
    let shown = macos::shown_order(prs);
    order::ordering_rearranges(prs, macos::keys_of(prs), macos::repo_order());
    shown.to_multiset_ensures();
    prs.to_multiset_ensures();
    assert(shown.to_multiset().contains(pr) == prs.to_multiset().contains(pr));
}

// ---------------------------------------------------------------- the menu

/// The title of a pull request in the menu has a dot exactly where its update asks for attention,
/// then its number, and then its title, of which at most seventy-five letters stand.
pub proof fn menu_titles_show_attention(pr: PullRequestView)
    ensures
        ({
            let name = text::spaced(pr.snapshot.title);
            let shown = if name.len() <= 75 {
                name
            } else {
                name.take(75)
            };
            let rest = "#"@ + text::decimal_of(pr.snapshot.number as nat) + " "@ + shown;
            &&& asks(pr, State::Comments) || asks(pr, State::Approved) ==> menu::title_of(pr) == "● "@ + rest
            &&& !asks(pr, State::Comments) && !asks(pr, State::Approved) ==> menu::title_of(pr) == rest
        }),
{
    let name = text::spaced(pr.snapshot.title);
    let shown = if name.len() <= 75 {
        name
    } else {
        name.take(75)
    };
    let rest = "#"@ + text::decimal_of(pr.snapshot.number as nat) + " "@ + shown;
    assert(pr.wants_attention() == (asks(pr, State::Comments) || asks(pr, State::Approved)));
    assert(menu::title_of(pr) =~= (if pr.wants_attention() {
        "● "@
    } else {
        Seq::empty()
    }) + rest);
    assert(Seq::<char>::empty() + rest =~= rest);
}

/// A text that is shown on one line has the letters of the text, but for control characters,
/// which are spaces.
pub proof fn lines_have_no_controls(t: Seq<char>, i: int)
    requires
        0 <= i < t.len(),
    ensures
        text::spaced(t).len() == t.len(),
        text::control(t[i]) ==> text::spaced(t)[i] == ' ',
        !text::control(t[i]) ==> text::spaced(t)[i] == t[i],
{
}

/// The threads that are counted are those that are open.
pub proof fn open_threads_are_counted(threads: Seq<ThreadView>)
    ensures
        model::unresolved(threads) == threads.filter(|t: ThreadView| !t.resolved).len(),
    decreases threads.len(),
{
    reveal(Seq::filter);
    if threads.len() > 0 {
        open_threads_are_counted(threads.drop_last());
    }
}

/// What the menu offers for a pull request opens it, takes or gives back the acknowledgement of
/// the update that is shown, which is possible while that is current, or ignores it.
pub proof fn menus_act_on_what_they_show(pr: PullRequestView, now: i64, fetched: Option<Seq<char>>)
    ensures
        ({
            let items = menu::items_of(pr, now, fetched);
            let seen = pr.acknowledged == Some(pr.update_id);
            &&& items.len() >= 5
            &&& items[0] == (ItemView::Button {
                title: "Open PR"@,
                enabled: true,
                action: ActionView::Open { url: pr.snapshot.url, pr: pr.snapshot.id, update: pr.update_id },
            })
            &&& items[1] == (ItemView::Check {
                title: "Acknowledge update"@,
                enabled: !pr.stale,
                checked: seen,
                action: ActionView::Ack { pr: pr.snapshot.id, update: pr.update_id, checked: !seen },
            })
            &&& items[2] == (ItemView::Button { title: "Ignore PR"@, enabled: true, action: ActionView::Ignore(pr.snapshot.id) })
        }),
{
}

/// The menu says what the state of a pull request is and how many of its threads are open; a
/// state that may be out of date is said to be.
pub proof fn menus_say_the_state(pr: PullRequestView, now: i64, fetched: Option<Seq<char>>)
    ensures
        ({
            let items = menu::items_of(pr, now, fetched);
            let open = " · "@ + text::decimal_of(model::unresolved(pr.snapshot.threads)) + " unresolved threads"@;
            &&& items.len() >= 5
            &&& !pr.stale ==> items[4] == ItemView::Text(pr.status_text(now) + open)
            &&& pr.stale ==> items[4] == ItemView::Text("Unknown (cached)"@ + open)
        }),
{
    reveal_strlit("Unknown");
    reveal_strlit(" (cached)");
    reveal_strlit("Unknown (cached)");
    let open = " · "@ + text::decimal_of(model::unresolved(pr.snapshot.threads)) + " unresolved threads"@;
    assert("Unknown"@ + " (cached)"@ =~= "Unknown (cached)"@);
    assert(menu::status_of(pr, now) =~= (if pr.stale {
        "Unknown (cached)"@
    } else {
        pr.status_text(now)
    }) + open);
}

/// Whether items stand somewhere in the menu of a pull request.
pub open spec fn says(items: Seq<ItemView>, said: Seq<char>) -> bool {
    items.contains(ItemView::Text(said))
}

/// The menu of a pull request says what each agent has concluded and why, what went wrong, when
/// it was fetched and that it is a draft; where no agent takes part, it says so.
pub proof fn menus_say_what_agents_concluded(pr: PullRequestView, now: i64, fetched: Option<Seq<char>>, i: int)
    requires
        0 <= i < pr.agents.len(),
    ensures
        ({
            let items = menu::items_of(pr, now, fetched);
            let agent = pr.agents[i];
            &&& says(items, agent.agent.label_text() + ": "@ + agent.verdict.label_text())
            &&& says(items, agent.reason)
        }),
{
    let items = menu::items_of(pr, now, fetched);
    let first = items.take(5);
    let told = menu::agent_items(pr.agents);
    agents_are_told(pr.agents, i);
    let agent = pr.agents[i];
    let a = ItemView::Text(agent.agent.label_text() + ": "@ + agent.verdict.label_text());
    let b = ItemView::Text(agent.reason);
    let more = menu::optional_items(pr.snapshot.draft, pr.agents, pr.error, fetched);
    let draft = if pr.snapshot.draft {
        seq![ItemView::Text("Draft pull request"@)]
    } else {
        Seq::empty()
    };
    assert forall|x: ItemView| told.contains(x) implies #[trigger] items.contains(x) by {
        let k = choose|k: int| 0 <= k < told.len() && told[k] == x;
        assert(more[draft.len() + k] == x);
        assert(items[5 + draft.len() + k] == x);
    }
    assert(items.contains(a));
    assert(items.contains(b));
}

/// What each agent has concluded is among what is told of agents.
proof fn agents_are_told(agents: Seq<crate::model::AgentResultView>, i: int)
    requires
        0 <= i < agents.len(),
    ensures
        menu::agent_items(agents).contains(
            ItemView::Text(agents[i].agent.label_text() + ": "@ + agents[i].verdict.label_text()),
        ),
        menu::agent_items(agents).contains(ItemView::Text(agents[i].reason)),
    decreases agents.len(),
{
    let told = menu::agent_items(agents);
    let before = menu::agent_items(agents.drop_last());
    if i < agents.len() - 1 {
        agents_are_told(agents.drop_last(), i);
        assert forall|x: ItemView| before.contains(x) implies #[trigger] told.contains(x) by {
            let k = choose|k: int| 0 <= k < before.len() && before[k] == x;
            assert(told[k] == x);
        }
        assert(before.contains(ItemView::Text(agents[i].agent.label_text() + ": "@ + agents[i].verdict.label_text())));
        assert(before.contains(ItemView::Text(agents[i].reason)));
    } else {
        assert(told[told.len() - 2] == ItemView::Text(agents[i].agent.label_text() + ": "@ + agents[i].verdict.label_text()));
        assert(told[told.len() - 1] == ItemView::Text(agents[i].reason));
    }
}

/// The menu of a pull request says that it is a draft, that no agent takes part, what went wrong
/// and when it was fetched.
pub proof fn menus_say_the_rest(pr: PullRequestView, now: i64, fetched: Option<Seq<char>>)
    ensures
        ({
            let items = menu::items_of(pr, now, fetched);
            &&& pr.snapshot.draft ==> says(items, "Draft pull request"@)
            &&& pr.agents.len() == 0 ==> says(items, "No agent review activity detected"@)
            &&& pr.error matches Some(message) ==> says(items, message)
            &&& fetched matches Some(time) ==> says(items, "Last fetched "@ + time)
            &&& !pr.snapshot.draft && pr.agents.len() == 0 && pr.error is None && fetched is None ==> items.len() == 6
        }),
{
    let items = menu::items_of(pr, now, fetched);
    let draft: Seq<ItemView> = if pr.snapshot.draft {
        seq![ItemView::Text("Draft pull request"@)]
    } else {
        Seq::empty()
    };
    let told = menu::agent_items(pr.agents);
    let none: Seq<ItemView> = if pr.agents.len() == 0 {
        seq![ItemView::Text("No agent review activity detected"@)]
    } else {
        Seq::empty()
    };
    let error: Seq<ItemView> = match pr.error {
        Some(message) => seq![ItemView::Text(message)],
        None => Seq::empty(),
    };
    let time: Seq<ItemView> = match fetched {
        Some(time) => seq![ItemView::Text("Last fetched "@ + time)],
        None => Seq::empty(),
    };
    let more = menu::optional_items(pr.snapshot.draft, pr.agents, pr.error, fetched);
    assert(more == draft + told + none + error + time);
    if pr.snapshot.draft {
        assert(items[5] == draft[0]);
    }
    if pr.agents.len() == 0 {
        assert(more[(draft.len() + told.len()) as int] == none[0]);
        assert(items[(5 + draft.len() + told.len()) as int] == none[0]);
    }
    if pr.error is Some {
        let k = (draft.len() + told.len() + none.len()) as int;
        assert(more[k] == error[0]);
        assert(items[5 + k] == error[0]);
    }
    if fetched is Some {
        let k = (draft.len() + told.len() + none.len() + error.len()) as int;
        assert(more[k] == time[0]);
        assert(items[5 + k] == time[0]);
    }
}

/// Each pull request has a menu of its own in the menu, which acknowledges the update that it
/// shows; what may be out of date has the symbol of what is unknown.
pub proof fn each_pr_has_a_menu(
    prs: Seq<PullRequestView>,
    error: Option<Seq<char>>,
    dev: bool,
    bundled: bool,
    at_login: bool,
    updates: UpdateStateView,
    now: i64,
    times: Map<Seq<char>, Seq<char>>,
    i: int,
)
    requires
        0 <= i < prs.len(),
    ensures
        exists|k: int|
            0 <= k < menu::menu_of(prs, error, dev, bundled, at_login, updates, now, times).len() && is_menu_of(
                #[trigger] menu::menu_of(prs, error, dev, bundled, at_login, updates, now, times)[k],
                prs[i],
            ),
{
    let entries = menu::menu_of(prs, error, dev, bundled, at_login, updates, now, times);
    let shown = macos::shown_order(prs);
    every_pr_is_shown(prs, prs[i]);
    assert(prs.contains(prs[i]));
    let j = choose|j: int| 0 <= j < shown.len() && shown[j] == prs[i];
    let listed = menu::pr_entries(shown, now, times);
    prs_are_listed(shown, now, times, j);
    let at = choose|at: int| 0 <= at < listed.len() && is_menu_of(#[trigger] listed[at], shown[j]);
    let head = 1 + menu::error_entries(error).len();
    assert(entries[head + at] == listed[at]);
}

/// Whether an entry is the menu of a pull request.
pub open spec fn is_menu_of(entry: EntryView, pr: PullRequestView) -> bool {
    entry matches EntryView::Submenu { title, state, action, items } && {
        &&& title == menu::title_of(pr)
        &&& state == Some(
            if pr.stale {
                State::Unknown
            } else {
                pr.state
            },
        )
        &&& action == Some(ActionView::Ack { pr: pr.snapshot.id, update: pr.update_id, checked: true })
        &&& items.len() >= 5
    }
}

/// Each pull request is listed.
proof fn prs_are_listed(prs: Seq<PullRequestView>, now: i64, times: Map<Seq<char>, Seq<char>>, i: int)
    requires
        0 <= i < prs.len(),
    ensures
        exists|k: int|
            0 <= k < menu::pr_entries(prs, now, times).len() && is_menu_of(
                #[trigger] menu::pr_entries(prs, now, times)[k],
                prs[i],
            ),
    decreases prs.len(),
{
    let listed = menu::pr_entries(prs, now, times);
    let before = menu::pr_entries(prs.drop_last(), now, times);
    if i < prs.len() - 1 {
        prs_are_listed(prs.drop_last(), now, times, i);
        let k = choose|k: int| 0 <= k < before.len() && is_menu_of(#[trigger] before[k], prs.drop_last()[i]);
        assert(listed[k] == before[k]);
    } else {
        let k = listed.len() - 1;
        assert(is_menu_of(listed[k], prs[i]));
    }
}

/// The first pull request of a repository stands below the heading of the repository.
pub proof fn repositories_have_headings(prs: Seq<PullRequestView>, now: i64, times: Map<Seq<char>, Seq<char>>)
    requires
        prs.len() > 0,
        prs.len() == 1 ==> prs[0].snapshot.repo.len() > 0,
        prs.len() > 1 ==> prs[prs.len() - 2].snapshot.repo != prs.last().snapshot.repo,
    ensures
        ({
            let listed = menu::pr_entries(prs, now, times);
            &&& listed.len() >= 2
            &&& listed[listed.len() - 2] == EntryView::Item(ItemView::Text(macos::heading_of(prs.last().snapshot.repo)))
        }),
{
    let rest = prs.drop_last();
    if prs.len() > 1 {
        assert(rest.last() == prs[prs.len() - 2]);
    }
}

// ---------------------------------------------------------------- the inbox

/// What a row offers concerns the pull request and the update that it shows, and nothing that may
/// be out of date or is ignored can be acknowledged.
pub proof fn rows_act_on_what_they_show(
    pr: PullRequestView,
    expanded: bool,
    ignored: bool,
    state: ActionStateView,
    now: i64,
    fetched: Option<Seq<char>>,
)
    ensures
        ({
            let row = rows::row_of(pr, expanded, ignored, state, now, fetched);
            let id = pr.snapshot.id;
            &&& row.acknowledge == PressView::PopoverAction(ActionView::Ack { pr: id, update: pr.update_id, checked: true })
            &&& row.open == PressView::PopoverAction(ActionView::Open { url: pr.snapshot.url, pr: id, update: pr.update_id })
            &&& row.disclosure == PressView::ToggleDetails(id)
            &&& ignored ==> row.ignore == PressView::PopoverAction(ActionView::Restore(id))
            &&& ignored ==> row.ignore_title == "Restore"@ && !row.ignore_hidden
            &&& !ignored ==> row.ignore == PressView::PopoverAction(ActionView::Ignore(id))
            &&& !ignored ==> row.ignore_hidden && row.ignore_title == "Ignore"@
            &&& row.title_enabled <==> !pr.stale && !ignored
            &&& row.open_enabled <==> pr.snapshot.url.len() > 0
            &&& row.attention <==> !ignored && (asks(pr, State::Comments) || asks(pr, State::Approved))
            &&& row.details is Some <==> expanded
            &&& expanded ==> row.disclosure_title == "Hide details"@
            &&& !expanded ==> row.disclosure_title == "Details"@
            &&& row.labels == pr.snapshot.labels
            &&& pr.stale && !ignored ==> row.state == State::Unknown
            &&& !pr.stale || ignored ==> row.state == pr.state
            &&& row.check == (if ignored || pr.stale {
                None::<CheckState>
            } else {
                pr.snapshot.check_state
            })
            &&& !ignored && state.merges.contains_key(id) && state.merges[id] is Failed ==> row.message == Some(
                state.merges[id]->Failed_0,
            )
            &&& ignored || !state.merges.contains_key(id) || !(state.merges[id] is Failed) ==> row.message is None
        }),
{
}

/// A row says the state of its pull request, whether that may be out of date, whether it is a
/// draft, how many threads are open and how its checks stand; of an ignored one it says only that.
pub proof fn rows_say_the_state(pr: PullRequestView, now: i64)
    ensures
        ({
            let open = " · "@ + text::decimal_of(model::unresolved(pr.snapshot.threads)) + " unresolved threads"@;
            let current = rows::status_of(pr, false, now);
            &&& rows::status_of(pr, true, now) == "Ignored · not monitored"@
            &&& pr.stale && !pr.snapshot.draft ==> current == "Unknown · cached"@ + open
            &&& pr.stale && pr.snapshot.draft ==> current == "Unknown · cached · draft"@ + open
            &&& !pr.stale && !pr.snapshot.draft && pr.snapshot.check_state is None ==> current == pr.status_text(now) + open
            &&& !pr.stale && pr.snapshot.draft && pr.snapshot.check_state is None ==> current == pr.status_text(now)
                + " · draft"@ + open
            &&& !pr.stale && !pr.snapshot.draft && pr.snapshot.check_state == Some(CheckState::Green) ==> current
                == pr.status_text(now) + open + " · Checks green"@
            &&& !pr.stale && !pr.snapshot.draft && pr.snapshot.check_state == Some(CheckState::Failed) ==> current
                == pr.status_text(now) + open + " · Checks failed"@
            &&& !pr.stale && !pr.snapshot.draft && pr.snapshot.check_state == Some(CheckState::Running) ==> current
                == pr.status_text(now) + open + " · Checks running..."@
            &&& !pr.stale && !pr.snapshot.draft && pr.snapshot.check_state == Some(CheckState::Conflicts) ==> current
                == pr.status_text(now) + open + " · Merge conflicts"@
        }),
{
    let open = " · "@ + text::decimal_of(model::unresolved(pr.snapshot.threads)) + " unresolved threads"@;
    let current = rows::status_of(pr, false, now);
    reveal_strlit("Unknown");
    reveal_strlit(" · cached");
    reveal_strlit("Unknown · cached");
    reveal_strlit("Unknown · cached · draft");
    reveal_strlit(" · draft");
    reveal_strlit(" · ");
    reveal_strlit("Checks green");
    reveal_strlit("Checks failed");
    reveal_strlit("Checks running...");
    reveal_strlit("Merge conflicts");
    reveal_strlit(" · Checks green");
    reveal_strlit(" · Checks failed");
    reveal_strlit(" · Checks running...");
    reveal_strlit(" · Merge conflicts");
    assert("Unknown"@ + " · cached"@ =~= "Unknown · cached"@);
    assert("Unknown · cached"@ + " · draft"@ =~= "Unknown · cached · draft"@);
    assert(" · "@ + "Checks green"@ =~= " · Checks green"@);
    assert(" · "@ + "Checks failed"@ =~= " · Checks failed"@);
    assert(" · "@ + "Checks running..."@ =~= " · Checks running..."@);
    assert(" · "@ + "Merge conflicts"@ =~= " · Merge conflicts"@);
    let a = if pr.stale {
        " · cached"@
    } else {
        Seq::empty()
    };
    let b = if pr.snapshot.draft {
        " · draft"@
    } else {
        Seq::empty()
    };
    let c = match rows::shown_check(pr, false) {
        Some(check) => " · "@ + check.label_text(),
        None => Seq::empty(),
    };
    assert(current =~= pr.status_text(now) + a + b + open + c);
    assert(rows::status_of(pr, true, now) =~= "Ignored · not monitored"@);
    if !pr.stale {
        assert(pr.status_text(now) + a =~= pr.status_text(now));
    }
    if !pr.snapshot.draft {
        assert(pr.status_text(now) + a + b =~= pr.status_text(now) + a);
    }
    if rows::shown_check(pr, false) is None {
        assert(current =~= pr.status_text(now) + a + b + open);
    }
}

/// The updates that are counted are those that ask for attention.
pub proof fn updates_are_counted(prs: Seq<PullRequestView>)
    ensures
        inbox::updates_in(prs) == prs.filter(
            |pr: PullRequestView| asks(pr, State::Comments) || asks(pr, State::Approved),
        ).len(),
    decreases prs.len(),
{
    reveal(Seq::filter);
    if prs.len() > 0 {
        updates_are_counted(prs.drop_last());
        assert(prs.last().wants_attention() == (asks(prs.last(), State::Comments) || asks(prs.last(), State::Approved)));
    }
}

/// While a merge is under way or done, its withdrawal stands in place of the actions; it can be
/// withdrawn until it is sent. What is not switched on is not offered, and what the rules do not
/// allow cannot be chosen.
pub proof fn merges_under_way_can_be_withdrawn(actions: PrActionsView, pr: PullRequestView, state: ActionStateView)
    requires
        !actions.tracking,
    ensures
        ({
            let shown = actions.updated(pr, false, state);
            let id = pr.snapshot.id;
            let merging = state.merges.contains_key(id) && !(state.merges[id] is Failed);
            let preferences = state.preferences_of(pr.snapshot.repo);
            &&& shown.menu_hidden <==> merging
            &&& shown.cancel_hidden <==> !merging
            &&& shown.cancel_enabled <==> state.merges.contains_key(id) && (state.merges[id] is Countdown || state.merges[id] is Checking)
            &&& shown.merge == PressView::PrAction(
                RequestView::Merge { pr: id, head: pr.snapshot.head, update: pr.update_id },
            )
            &&& shown.merge_enabled <==> preferences.allowed(Kind::Merge, pr) && !merging
            &&& shown.labels_enabled <==> preferences.allowed(Kind::Label, pr)
            &&& shown.merge_hidden <==> !preferences.merge.enabled
            &&& shown.labels_hidden <==> !preferences.label.enabled
            &&& actions.updated(pr, true, state).menu_hidden && actions.updated(pr, true, state).cancel_hidden
        }),
{
}

/// The picker has a row for each label of the repository, in their order, which switches the
/// label; a label whose change is under way cannot be switched.
pub proof fn pickers_have_every_label(picker: LabelPickerView, prs: Seq<PullRequestView>, state: ActionStateView, i: int)
    requires
        state.labels.contains_key(picker.id),
        0 <= i < state.labels[picker.id].items.len(),
    ensures
        ({
            let labels = state.labels[picker.id];
            let shown = picker.updated(prs, state);
            let item = labels.items[i];
            let row = shown.rows[i];
            let allowed = action_views::labels_allowed(prs, state, picker.id);
            &&& shown.rows.len() == labels.items.len()
            &&& row.name == item.name
            &&& row.selected == item.selected
            &&& row.press == PressView::PrAction(
                RequestView::Label { pr: picker.id, name: item.name, selected: !item.selected },
            )
            &&& row.enabled <==> allowed && !labels.loading && !labels.pending.contains(item.name)
            &&& shown.refresh_enabled <==> allowed && !labels.loading && labels.pending.len() == 0
            &&& shown.id == picker.id && shown.title == picker.title
        }),
{
}

/// The picker says first what went wrong, then that labels cannot be changed, that they are
/// loaded, that a change is saved, and that there are none.
pub proof fn pickers_say_what_is_going_on(labels: LabelsView, allowed: bool)
    ensures
        ({
            let said = action_views::labels_message(labels, allowed);
            &&& labels.error matches Some(message) ==> said == message
            &&& labels.error is None && !allowed ==> said == "Label action unavailable for this PR's current state."@
            &&& labels.error is None && allowed && labels.loading ==> said == "Loading labels…"@
            &&& labels.error is None && allowed && !labels.loading && labels.pending.len() > 0 ==> said
                == "Saving label changes…"@
            &&& labels.error is None && allowed && !labels.loading && labels.pending.len() == 0 && labels.items.len() == 0
                ==> said == "This repository has no labels."@
            &&& labels.error is None && allowed && !labels.loading && labels.pending.len() == 0 && labels.items.len() > 0
                ==> said == "Toggle labels to add or remove them."@
        }),
{
}

} // verus!
