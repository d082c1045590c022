//! The menu that the menu bar icon offers beside the inbox.

use crate::github::exchange;
use crate::identity;
use crate::macos;
use crate::macos::updates::{State as UpdateState, StateView as UpdateStateView};
use crate::macos::{by_repository, repo_heading, Action, ActionView};
use crate::model;
use crate::model::{AgentResult, AgentResultView, PullRequest, PullRequestView, State};
use crate::text;
use crate::text_map::TextMap;
use vstd::prelude::*;
use vstd::slice::slice_subrange;

verus! {

/// An item of a menu.
#[derive(Debug)]
pub enum Item {
    Separator,
    /// A text that nothing can be done with.
    Text(String),
    Button { title: String, enabled: bool, action: Action },
    Check { title: String, enabled: bool, checked: bool, action: Action },
}

/// The contents of an [`Item`].
pub enum ItemView {
    Separator,
    Text(Seq<char>),
    Button { title: Seq<char>, enabled: bool, action: ActionView },
    Check { title: Seq<char>, enabled: bool, checked: bool, action: ActionView },
}

impl View for Item {
    type V = ItemView;

    open spec fn view(&self) -> ItemView {
        match self {
            Item::Separator => ItemView::Separator,
            Item::Text(value) => ItemView::Text(value@),
            Item::Button { title, enabled, action } => ItemView::Button { title: title@, enabled: *enabled, action: action@ },
            Item::Check { title, enabled, checked, action } => ItemView::Check { title: title@, enabled: *enabled, checked: *checked, action: action@ },
        }
    }
}

impl DeepView for Item {
    type V = ItemView;

    open spec fn deep_view(&self) -> ItemView {
        self@
    }
}

/// An entry of the menu: an item, or a menu of its own, which may have a symbol and an action.
#[derive(Debug)]
pub enum Entry {
    Item(Item),
    Submenu { title: String, state: Option<State>, action: Option<Action>, items: Vec<Item> },
}

/// The contents of an [`Entry`].
pub enum EntryView {
    Item(ItemView),
    Submenu { title: Seq<char>, state: Option<State>, action: Option<ActionView>, items: Seq<ItemView> },
}

impl View for Entry {
    type V = EntryView;

    open spec fn view(&self) -> EntryView {
        match self {
            Entry::Item(value) => EntryView::Item(value@),
            Entry::Submenu { title, state, action, items } => EntryView::Submenu { title: title@, state: *state, action: action.deep_view(), items: items.deep_view() },
        }
    }
}

impl DeepView for Entry {
    type V = EntryView;

    open spec fn deep_view(&self) -> EntryView {
        self@
    }
}

/// How many bytes of an error one item shows.
pub const ERROR_WIDTH: usize = 100;

/// How many characters of a title the menu shows.
pub const TITLE_WIDTH: usize = 75;

/// Adds an item.
fn add_item(items: &mut Vec<Item>, item: Item)
    ensures
        final(items).deep_view() == old(items).deep_view().push(item@),
{
    let ghost before = items.deep_view();
    items.push(item);
    assert(items.deep_view() =~= before.push(item@));
}

/// Adds an entry.
fn add_entry(entries: &mut Vec<Entry>, entry: Entry)
    ensures
        final(entries).deep_view() == old(entries).deep_view().push(entry@),
{
    let ghost before = entries.deep_view();
    entries.push(entry);
    assert(entries.deep_view() =~= before.push(entry@));
}

// ---------------------------------------------------------------- errors

/// An error in parts of at most [`ERROR_WIDTH`] bytes.
pub open spec fn error_items(bytes: Seq<u8>) -> Seq<ItemView>
    decreases bytes.len(),
{
    if bytes.len() == 0 {
        Seq::empty()
    } else if bytes.len() <= ERROR_WIDTH {
        seq![ItemView::Text(exchange::lossy_text(bytes))]
    } else {
        seq![ItemView::Text(exchange::lossy_text(bytes.take(ERROR_WIDTH as int)))] + error_items(
            bytes.skip(ERROR_WIDTH as int),
        )
    }
}

/// An error in parts.
fn error_parts(error: &str) -> (r: Vec<Item>)
    ensures
        r.deep_view() == error_items(vstd::utf8::encode_utf8(error@)),
{
    let bytes = error.as_bytes();
    let ghost all = bytes@;
    let mut items: Vec<Item> = Vec::new();
    let mut i: usize = 0;
    assert(items.deep_view() =~= Seq::empty());
    assert(all.skip(0) =~= all);
    while i < bytes.len()
        invariant
            bytes@ == all,
            i <= all.len(),
            items.deep_view() + error_items(all.skip(i as int)) =~= error_items(all),
        decreases bytes.len() - i,
    {
        let rest: usize = bytes.len() - i;
        let width: usize = if rest <= ERROR_WIDTH {
            rest
        } else {
            ERROR_WIDTH
        };
        let part = slice_subrange(bytes, i, i + width);
        let ghost left = all.skip(i as int);
        assert(part@ =~= left.take(width as int));
        assert(rest <= ERROR_WIDTH ==> part@ =~= left);
        assert(left.skip(width as int) =~= all.skip(i + width));
        add_item(&mut items, Item::Text(exchange::read_lossy(part)));
        i += width;
    }
    assert(all.skip(i as int).len() == 0);
    items
}

// ---------------------------------------------------------------- one pull request

/// A text with at most so many characters.
pub open spec fn shortened(text: Seq<char>, width: int) -> Seq<char> {
    if text.len() <= width {
        text
    } else {
        text.take(width)
    }
}

/// The title of a pull request in the menu. A dot stands before one that wants attention.
pub open spec fn title_of(pr: PullRequestView) -> Seq<char> {
    (if pr.wants_attention() {
        "● "@
    } else {
        Seq::empty()
    }) + "#"@ + text::decimal_of(pr.snapshot.number as nat) + " "@ + shortened(
        text::spaced(pr.snapshot.title),
        TITLE_WIDTH as int,
    )
}

/// The title of a pull request in the menu.
fn pr_title(pr: &PullRequest) -> (r: String)
    ensures
        r@ == title_of(pr@),
{
    let letters = text::chars(&text::without_controls(&pr.snapshot.title));
    let width: usize = if letters.len() <= TITLE_WIDTH {
        letters.len()
    } else {
        TITLE_WIDTH
    };
    let title = text::slice(&letters, 0, width);
    assert(title@ =~= shortened(text::spaced(pr@.snapshot.title), TITLE_WIDTH as int));
    let dot = if pr.needs_attention() {
        "● ".to_owned()
    } else {
        String::new()
    };
    let number = text::concat3(&dot, "#", &text::decimal(pr.snapshot.number));
    text::concat3(&number, " ", &title)
}

/// What is said of the state of a pull request.
pub open spec fn status_of(pr: PullRequestView, now: i64) -> Seq<char> {
    pr.status_text(now) + (if pr.stale {
        " (cached)"@
    } else {
        Seq::empty()
    }) + " · "@ + text::decimal_of(model::unresolved(pr.snapshot.threads)) + " unresolved threads"@
}

/// What is said of the state of a pull request.
fn pr_status(pr: &PullRequest, now: i64) -> (r: String)
    ensures
        r@ == status_of(pr@, now),
{
    let cached = if pr.stale {
        " (cached)".to_owned()
    } else {
        String::new()
    };
    let status = text::concat3(&pr.status_label(now), &cached, " · ");
    text::concat3(&status, &text::decimal(pr.unresolved_threads()), " unresolved threads")
}

/// What is said of an agent.
pub open spec fn agent_items(agents: Seq<AgentResultView>) -> Seq<ItemView>
    decreases agents.len(),
{
    if agents.len() == 0 {
        Seq::empty()
    } else {
        let agent = agents.last();
        agent_items(agents.drop_last()).push(
            ItemView::Text(agent.agent.label_text() + ": "@ + agent.verdict.label_text()),
        ).push(ItemView::Text(agent.reason))
    }
}

/// The optional items.
pub open spec fn optional_items(
    draft: bool,
    agents: Seq<AgentResultView>,
    error: Option<Seq<char>>,
    fetched: Option<Seq<char>>,
) -> Seq<ItemView> {
    (if draft {
        seq![ItemView::Text("Draft pull request"@)]
    } else {
        Seq::empty()
    }) + agent_items(agents) + (if agents.len() == 0 {
        seq![ItemView::Text("No agent review activity detected"@)]
    } else {
        Seq::empty()
    }) + (match error {
        Some(message) => seq![ItemView::Text(message)],
        None => Seq::empty(),
    }) + (match fetched {
        Some(time) => seq![ItemView::Text("Last fetched "@ + time)],
        None => Seq::empty(),
    })
}

/// Whether the update of a pull request is acknowledged.
pub open spec fn is_acknowledged(pr: PullRequestView) -> bool {
    pr.acknowledged == Some(pr.update_id)
}

/// The items of a pull request.
pub open spec fn items_of(pr: PullRequestView, now: i64, fetched: Option<Seq<char>>) -> Seq<ItemView> {
    let id = pr.snapshot.id;
    let update = pr.update_id;
    seq![
        ItemView::Button {
            title: "Open PR"@,
            enabled: true,
            action: ActionView::Open { url: pr.snapshot.url, pr: id, update },
        },
        ItemView::Check {
            title: "Acknowledge update"@,
            enabled: !pr.stale,
            checked: is_acknowledged(pr),
            action: ActionView::Ack { pr: id, update, checked: !is_acknowledged(pr) },
        },
        ItemView::Button { title: "Ignore PR"@, enabled: true, action: ActionView::Ignore(id) },
        ItemView::Separator,
        ItemView::Text(status_of(pr, now)),
    ] + optional_items(pr.snapshot.draft, pr.agents, pr.error, fetched)
}

/// What is said of agents.
fn add_agents(items: &mut Vec<Item>, agents: &Vec<AgentResult>)
    ensures
        final(items).deep_view() == old(items).deep_view() + agent_items(agents.deep_view()),
{
    let ghost start = items.deep_view();
    let ghost v = agents.deep_view();
    let mut i: usize = 0;
    assert(agent_items(v.take(0)) =~= Seq::empty());
    while i < agents.len()
        invariant
            v == agents.deep_view(),
            i <= agents@.len(),
            items.deep_view() =~= start + agent_items(v.take(i as int)),
        decreases agents.len() - i,
    {
        let agent = &agents[i];
        assert(v.take(i + 1).drop_last() =~= v.take(i as int));
        assert(v.take(i + 1).last() == agent@);
        add_item(items, Item::Text(text::concat3(agent.agent.label(), ": ", agent.verdict.label())));
        add_item(items, Item::Text(agent.reason.clone()));
        i += 1;
    }
    assert(v.take(i as int) =~= v);
}

/// The items of a pull request.
fn pr_items(pr: &PullRequest, now: i64, fetched: Option<&String>) -> (r: Vec<Item>)
    ensures
        r.deep_view() == items_of(pr@, now, fetched.deep_view()),
{
    let id = &pr.snapshot.id;
    let checked = match &pr.acknowledged {
        Some(update) => text::same(update, &pr.update_id),
        None => false,
    };
    let mut items: Vec<Item> = Vec::new();
    assert(items.deep_view() =~= Seq::empty());
    add_item(
        &mut items,
        Item::Button {
            title: "Open PR".to_owned(),
            enabled: true,
            action: Action::Open { url: pr.snapshot.url.clone(), pr: id.clone(), update: pr.update_id.clone() },
        },
    );
    add_item(
        &mut items,
        Item::Check {
            title: "Acknowledge update".to_owned(),
            enabled: !pr.stale,
            checked,
            action: Action::Ack { pr: id.clone(), update: pr.update_id.clone(), checked: !checked },
        },
    );
    add_item(
        &mut items,
        Item::Button { title: "Ignore PR".to_owned(), enabled: true, action: Action::Ignore(id.clone()) },
    );
    add_item(&mut items, Item::Separator);
    add_item(&mut items, Item::Text(pr_status(pr, now)));
    if pr.snapshot.draft {
        add_item(&mut items, Item::Text("Draft pull request".to_owned()));
    }
    add_agents(&mut items, &pr.agents);
    if pr.agents.len() == 0 {
        add_item(&mut items, Item::Text("No agent review activity detected".to_owned()));
    }
    if let Some(message) = &pr.error {
        add_item(&mut items, Item::Text(message.clone()));
    }
    if let Some(time) = fetched {
        add_item(&mut items, Item::Text(text::concat("Last fetched ", time)));
    }
    assert(items.deep_view() =~= items_of(pr@, now, fetched.deep_view()));
    items
}

/// The state whose symbol stands before a pull request.
pub open spec fn shown_state(pr: PullRequestView) -> State {
    if pr.stale {
        State::Unknown
    } else {
        pr.state
    }
}

/// The menu of a pull request. Choosing the pull request itself acknowledges its update.
pub open spec fn submenu_of(pr: PullRequestView, now: i64, times: Map<Seq<char>, Seq<char>>) -> EntryView {
    EntryView::Submenu {
        title: title_of(pr),
        state: Some(shown_state(pr)),
        action: Some(ActionView::Ack { pr: pr.snapshot.id, update: pr.update_id, checked: true }),
        items: items_of(pr, now, time_of(times, pr.snapshot.id)),
    }
}

/// The time shown for a pull request.
pub open spec fn time_of(times: Map<Seq<char>, Seq<char>>, id: Seq<char>) -> Option<Seq<char>> {
    if times.contains_key(id) {
        Some(times[id])
    } else {
        None
    }
}

// ---------------------------------------------------------------- the whole menu

/// The repository of the last pull request.
pub open spec fn last_repo(prs: Seq<PullRequestView>) -> Seq<char> {
    if prs.len() == 0 {
        Seq::empty()
    } else {
        prs.last().snapshot.repo
    }
}

/// The entries of pull requests, with a heading for each repository.
pub open spec fn pr_entries(prs: Seq<PullRequestView>, now: i64, times: Map<Seq<char>, Seq<char>>) -> Seq<EntryView>
    decreases prs.len(),
{
    if prs.len() == 0 {
        Seq::empty()
    } else {
        let pr = prs.last();
        let before = pr_entries(prs.drop_last(), now, times);
        (if pr.snapshot.repo == last_repo(prs.drop_last()) {
            before
        } else {
            before.push(EntryView::Item(ItemView::Separator)).push(
                EntryView::Item(ItemView::Text(macos::heading_of(pr.snapshot.repo))),
            )
        }).push(submenu_of(pr, now, times))
    }
}

/// The entry of an error.
pub open spec fn error_entries(error: Option<Seq<char>>) -> Seq<EntryView> {
    match error {
        Some(message) => seq![
            EntryView::Submenu {
                title: "⚠ Gopher needs attention"@,
                state: None,
                action: None,
                items: error_items(vstd::utf8::encode_utf8(message)),
            },
        ],
        None => Seq::empty(),
    }
}

/// An enabled item.
pub open spec fn button_of(title: Seq<char>, action: ActionView) -> ItemView {
    ItemView::Button { title, enabled: true, action }
}

/// The entries that follow the pull requests.
pub open spec fn closing_entries(dev: bool, bundled: bool, at_login: bool, updates: UpdateStateView) -> Seq<EntryView> {
    seq![
        EntryView::Item(ItemView::Separator),
        EntryView::Submenu {
            title: "Actions"@,
            state: None,
            action: None,
            items: seq![
                button_of("Refresh now"@, ActionView::Refresh),
                button_of("Settings…"@, ActionView::Config),
                button_of("Open logs…"@, ActionView::Logs),
                button_of("Notification settings…"@, ActionView::NotificationSettings),
                ItemView::Check {
                    title: "Launch at login"@,
                    enabled: bundled,
                    checked: bundled && at_login,
                    action: ActionView::Login,
                },
            ],
        },
        EntryView::Item(
            ItemView::Button { title: updates.title(), enabled: updates.can_check, action: ActionView::CheckUpdates },
        ),
        EntryView::Item(button_of(identity::identity_of(dev).quit, ActionView::Quit)),
    ]
}

/// The menu: how many pull requests are open, what is wrong, the pull requests by
/// repository, and what else can be done.
pub open spec fn menu_of(
    prs: Seq<PullRequestView>,
    error: Option<Seq<char>>,
    dev: bool,
    bundled: bool,
    at_login: bool,
    updates: UpdateStateView,
    now: i64,
    times: Map<Seq<char>, Seq<char>>,
) -> Seq<EntryView> {
    seq![
        EntryView::Item(
            ItemView::Text(identity::identity_of(dev).name + " · "@ + text::decimal_of(prs.len()) + " open PRs"@),
        ),
    ] + error_entries(error) + pr_entries(macos::shown_order(prs), now, times) + closing_entries(
        dev,
        bundled,
        at_login,
        updates,
    )
}

/// An enabled item.
fn button(title: &str, action: Action) -> (r: Item)
    ensures
        r@ == button_of(title@, action@),
{
    Item::Button { title: title.to_owned(), enabled: true, action }
}

/// What else can be done.
fn action_items(bundled: bool, at_login: bool) -> (r: Vec<Item>)
    ensures
        r.deep_view() == (closing_entries(false, bundled, at_login, UpdateStateView::unknown(Seq::empty()))[1]->items),
{
    let mut items: Vec<Item> = Vec::new();
    assert(items.deep_view() =~= Seq::empty());
    add_item(&mut items, button("Refresh now", Action::Refresh));
    add_item(&mut items, button("Settings…", Action::Config));
    add_item(&mut items, button("Open logs…", Action::Logs));
    add_item(&mut items, button("Notification settings…", Action::NotificationSettings));
    add_item(
        &mut items,
        Item::Check {
            title: "Launch at login".to_owned(),
            enabled: bundled,
            checked: bundled && at_login,
            action: Action::Login,
        },
    );
    items
}

/// What the menu in the inbox holds.
pub open spec fn inbox_items(dev: bool, bundled: bool, at_login: bool) -> Seq<ItemView> {
    seq![
        button_of("Show ignored"@, ActionView::ShowIgnored),
        ItemView::Separator,
        button_of("Settings"@, ActionView::Config),
        button_of("Notification settings"@, ActionView::NotificationSettings),
        button_of("Open logs"@, ActionView::Logs),
        ItemView::Separator,
        ItemView::Check {
            title: "Launch at login"@,
            enabled: bundled,
            checked: bundled && at_login,
            action: ActionView::Login,
        },
        button_of(identity::identity_of(dev).quit, ActionView::Quit),
    ]
}

/// What the menu in the inbox holds.
pub fn inbox_menu(dev: bool, bundled: bool, at_login: bool) -> (r: Vec<Item>)
    ensures
        r.deep_view() == inbox_items(dev, bundled, at_login),
{
    let mut items: Vec<Item> = Vec::new();
    assert(items.deep_view() =~= Seq::empty());
    add_item(&mut items, button("Show ignored", Action::ShowIgnored));
    add_item(&mut items, Item::Separator);
    add_item(&mut items, button("Settings", Action::Config));
    add_item(&mut items, button("Notification settings", Action::NotificationSettings));
    add_item(&mut items, button("Open logs", Action::Logs));
    add_item(&mut items, Item::Separator);
    add_item(
        &mut items,
        Item::Check {
            title: "Launch at login".to_owned(),
            enabled: bundled,
            checked: bundled && at_login,
            action: Action::Login,
        },
    );
    add_item(&mut items, button(identity::quit(dev), Action::Quit));
    items
}

/// The entries of pull requests, with a heading for each repository.
fn add_prs(entries: &mut Vec<Entry>, prs: &Vec<PullRequest>, now: i64, times: &TextMap<String>)
    ensures
        final(entries).deep_view() == old(entries).deep_view() + pr_entries(prs.deep_view(), now, times@),
{
    let ghost start = entries.deep_view();
    let ghost v = prs.deep_view();
    let mut last = String::new();
    let mut i: usize = 0;
    assert(pr_entries(v.take(0), now, times@) =~= Seq::empty());
    while i < prs.len()
        invariant
            v == prs.deep_view(),
            i <= prs@.len(),
            last@ == last_repo(v.take(i as int)),
            entries.deep_view() =~= start + pr_entries(v.take(i as int), now, times@),
        decreases prs.len() - i,
    {
        let pr = &prs[i];
        assert(v.take(i + 1).drop_last() =~= v.take(i as int));
        assert(v.take(i + 1).last() == pr@);
        if !text::same(&pr.snapshot.repo, &last) {
            add_entry(entries, Entry::Item(Item::Separator));
            add_entry(entries, Entry::Item(Item::Text(repo_heading(&pr.snapshot.repo))));
            last = pr.snapshot.repo.clone();
        }
        let state = if pr.stale {
            State::Unknown
        } else {
            pr.state
        };
        let entry = Entry::Submenu {
            title: pr_title(pr),
            state: Some(state),
            action: Some(
                Action::Ack { pr: pr.snapshot.id.clone(), update: pr.update_id.clone(), checked: true },
            ),
            items: pr_items(pr, now, times.get(&pr.snapshot.id)),
        };
        assert(entry@ == submenu_of(pr@, now, times@));
        add_entry(entries, entry);
        i += 1;
    }
    assert(v.take(i as int) =~= v);
}

/// The menu. The times at which pull requests were fetched are texts of the local time zone,
/// for those of which the time can be shown.
pub fn menu(
    prs: &Vec<PullRequest>,
    error: Option<&str>,
    dev: bool,
    bundled: bool,
    at_login: bool,
    updates: &UpdateState,
    now: i64,
    times: &TextMap<String>,
) -> (r: Vec<Entry>)
    ensures
        r.deep_view() == menu_of(
            prs.deep_view(),
            exchange::account_view(error),
            dev,
            bundled,
            at_login,
            updates@,
            now,
            times@,
        ),
{
    let mut entries: Vec<Entry> = Vec::new();
    assert(entries.deep_view() =~= Seq::empty());
    let heading = text::concat(identity::name(dev), " · ");
    let counted = text::concat3(&heading, &text::decimal(prs.len() as u64), " open PRs");
    add_entry(&mut entries, Entry::Item(Item::Text(counted)));
    if let Some(message) = error {
        add_entry(
            &mut entries,
            Entry::Submenu {
                title: "⚠ Gopher needs attention".to_owned(),
                state: None,
                action: None,
                items: error_parts(message),
            },
        );
    }
    let sorted = by_repository(prs);
    add_prs(&mut entries, &sorted, now, times);
    let ghost opening = entries.deep_view();
    add_entry(&mut entries, Entry::Item(Item::Separator));
    add_entry(
        &mut entries,
        Entry::Submenu {
            title: "Actions".to_owned(),
            state: None,
            action: None,
            items: action_items(bundled, at_login),
        },
    );
    add_entry(
        &mut entries,
        Entry::Item(
            Item::Button {
                title: updates.menu_title().to_owned(),
                enabled: updates.can_check,
                action: Action::CheckUpdates,
            },
        ),
    );
    add_entry(&mut entries, Entry::Item(button(identity::quit(dev), Action::Quit)));
    assert(entries.deep_view() =~= opening + closing_entries(dev, bundled, at_login, updates@));
    entries
}

} // verus!
