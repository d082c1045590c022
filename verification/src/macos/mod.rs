//! The menu bar application: what it shows and how it answers.

pub mod acting_laws;
pub mod desk;
pub mod icons;
pub mod keyboard;
pub mod laws;
pub mod menu;
pub mod panel_laws;
pub mod popover;
pub mod shown_laws;
pub mod updates;

use crate::model::{PullRequest, PullRequestView, State};
use crate::order;
use crate::order::{Key, Order};
use crate::text;
use crate::text_map::{Duplicate, TextMap};
use crate::worker::events::{Command, CommandView};
use vstd::prelude::*;

verus! {

// ---------------------------------------------------------------- notifications

/// The category of notifications about reviews.
pub const REVIEW_CATEGORY: &'static str = "gopher.review";

/// The action that acknowledges a notification's update.
pub const ACKNOWLEDGE_ACTION: &'static str = "gopher.acknowledge";

/// The action that opens a notification's pull request.
pub const OPEN_PR_ACTION: &'static str = "gopher.open-pr";

/// A click on a notification itself.
pub const DEFAULT_ACTION: &'static str = "com.apple.UNNotificationDefaultActionIdentifier";

/// What an action on a notification means. A click on it acknowledges its update and shows
/// the pull request in the inbox.
pub open spec fn command_of(action: Seq<char>, id: Seq<char>) -> Option<CommandView> {
    if action == DEFAULT_ACTION@ {
        Some(CommandView::NotificationAction { id, open: false, reveal: true })
    } else if action == ACKNOWLEDGE_ACTION@ {
        Some(CommandView::NotificationAction { id, open: false, reveal: false })
    } else if action == OPEN_PR_ACTION@ {
        Some(CommandView::NotificationAction { id, open: true, reveal: false })
    } else {
        None
    }
}

/// What an action on a notification means.
pub fn notification_command(action: &str, id: String) -> (r: Option<Command>)
    ensures
        r.deep_view() == command_of(action@, id@),
{
    if text::same(action, DEFAULT_ACTION) {
        Some(Command::NotificationAction { id, open: false, reveal: true })
    } else if text::same(action, ACKNOWLEDGE_ACTION) {
        Some(Command::NotificationAction { id, open: false, reveal: false })
    } else if text::same(action, OPEN_PR_ACTION) {
        Some(Command::NotificationAction { id, open: true, reveal: false })
    } else {
        None
    }
}

// ---------------------------------------------------------------- the menu

/// What a menu item or a button of the inbox does.
#[derive(Debug)]
pub enum Action {
    Open { url: String, pr: String, update: String },
    Ignore(String),
    Restore(String),
    ShowIgnored,
    BackToActive,
    ConfigureRepo(String),
    Labels(String),
    Ack { pr: String, update: String, checked: bool },
    Refresh,
    Config,
    ConfigFile,
    Logs,
    Login,
    NotificationSettings,
    CheckUpdates,
    Quit,
}

/// The contents of an [`Action`].
pub enum ActionView {
    Open { url: Seq<char>, pr: Seq<char>, update: Seq<char> },
    Ignore(Seq<char>),
    Restore(Seq<char>),
    ShowIgnored,
    BackToActive,
    ConfigureRepo(Seq<char>),
    Labels(Seq<char>),
    Ack { pr: Seq<char>, update: Seq<char>, checked: bool },
    Refresh,
    Config,
    ConfigFile,
    Logs,
    Login,
    NotificationSettings,
    CheckUpdates,
    Quit,
}

impl View for Action {
    type V = ActionView;

    open spec fn view(&self) -> ActionView {
        match self {
            Action::Open { url, pr, update } => ActionView::Open { url: url@, pr: pr@, update: update@ },
            Action::Ignore(value) => ActionView::Ignore(value@),
            Action::Restore(value) => ActionView::Restore(value@),
            Action::ShowIgnored => ActionView::ShowIgnored,
            Action::BackToActive => ActionView::BackToActive,
            Action::ConfigureRepo(value) => ActionView::ConfigureRepo(value@),
            Action::Labels(value) => ActionView::Labels(value@),
            Action::Ack { pr, update, checked } => ActionView::Ack { pr: pr@, update: update@, checked: *checked },
            Action::Refresh => ActionView::Refresh,
            Action::Config => ActionView::Config,
            Action::ConfigFile => ActionView::ConfigFile,
            Action::Logs => ActionView::Logs,
            Action::Login => ActionView::Login,
            Action::NotificationSettings => ActionView::NotificationSettings,
            Action::CheckUpdates => ActionView::CheckUpdates,
            Action::Quit => ActionView::Quit,
        }
    }
}

impl DeepView for Action {
    type V = ActionView;

    open spec fn deep_view(&self) -> ActionView {
        self@
    }
}

impl Clone for Action {
    fn clone(&self) -> (r: Self)
        ensures
            r@ == self@,
    {
        match self {
            Action::Open { url, pr, update } => Action::Open { url: url.clone(), pr: pr.clone(), update: update.clone() },
            Action::Ignore(value) => Action::Ignore(value.clone()),
            Action::Restore(value) => Action::Restore(value.clone()),
            Action::ShowIgnored => Action::ShowIgnored,
            Action::BackToActive => Action::BackToActive,
            Action::ConfigureRepo(value) => Action::ConfigureRepo(value.clone()),
            Action::Labels(value) => Action::Labels(value.clone()),
            Action::Ack { pr, update, checked } => Action::Ack { pr: pr.clone(), update: update.clone(), checked: *checked },
            Action::Refresh => Action::Refresh,
            Action::Config => Action::Config,
            Action::ConfigFile => Action::ConfigFile,
            Action::Logs => Action::Logs,
            Action::Login => Action::Login,
            Action::NotificationSettings => Action::NotificationSettings,
            Action::CheckUpdates => Action::CheckUpdates,
            Action::Quit => Action::Quit,
        }
    }
}

impl Duplicate for Action {
    fn duplicate(&self) -> (r: Action) {
        self.clone()
    }
}

/// The actions of the menu, kept as they were shown while the user chooses.
#[derive(Debug)]
pub struct MenuState {
    /// Whether the menu is open.
    pub tracking: bool,
    /// Whether the menu is to be replaced.
    pub dirty: bool,
    pub actions: TextMap<Action>,
    /// The actions that the menu had when it was last opened.
    pub shown_actions: TextMap<Action>,
}

/// The contents of a [`MenuState`].
#[verifier::ext_equal]
pub struct MenuStateView {
    pub tracking: bool,
    pub dirty: bool,
    pub actions: Map<Seq<char>, ActionView>,
    pub shown_actions: Map<Seq<char>, ActionView>,
}

impl View for MenuState {
    type V = MenuStateView;

    open spec fn view(&self) -> MenuStateView {
        MenuStateView {
            tracking: self.tracking,
            dirty: self.dirty,
            actions: self.actions@,
            shown_actions: self.shown_actions@,
        }
    }
}

impl DeepView for MenuState {
    type V = MenuStateView;

    open spec fn deep_view(&self) -> MenuStateView {
        self@
    }
}

impl MenuStateView {
    /// No menu was made.
    pub open spec fn blank() -> MenuStateView {
        MenuStateView { tracking: false, dirty: false, actions: Map::empty(), shown_actions: Map::empty() }
    }

    /// The menu opens.
    pub open spec fn begun(self) -> MenuStateView {
        MenuStateView { tracking: true, shown_actions: self.actions, ..self }
    }

    /// The menu closes.
    pub open spec fn ended(self) -> MenuStateView {
        MenuStateView { tracking: false, ..self }
    }

    /// The menu is to be replaced.
    pub open spec fn requested(self) -> MenuStateView {
        MenuStateView { dirty: true, ..self }
    }

    /// Whether the menu may be replaced now.
    pub open spec fn ready(self) -> bool {
        self.dirty && !self.tracking
    }

    /// The menu is replaced.
    pub open spec fn replaced(self, actions: Map<Seq<char>, ActionView>) -> MenuStateView {
        MenuStateView { actions, dirty: false, ..self }
    }

    /// What an item does: what it did when the menu was last opened, since the user may have
    /// chosen it before the menu was replaced.
    pub open spec fn action_of(self, id: Seq<char>) -> Option<ActionView> {
        if self.shown_actions.contains_key(id) {
            Some(self.shown_actions[id])
        } else if self.actions.contains_key(id) {
            Some(self.actions[id])
        } else {
            None
        }
    }
}

impl Default for MenuState {
    fn default() -> (r: Self)
        ensures
            r@ == MenuStateView::blank(),
    {
        MenuState { tracking: false, dirty: false, actions: TextMap::new(), shown_actions: TextMap::new() }
    }
}

impl MenuState {
    /// The menu opens.
    pub fn begin_tracking(&mut self)
        ensures
            final(self)@ == old(self)@.begun(),
    {
        self.tracking = true;
        self.shown_actions = self.actions.copy();
    }

    /// The menu closes.
    pub fn end_tracking(&mut self)
        ensures
            final(self)@ == old(self)@.ended(),
    {
        self.tracking = false;
    }

    /// The menu is to be replaced.
    pub fn request_update(&mut self)
        ensures
            final(self)@ == old(self)@.requested(),
    {
        self.dirty = true;
    }

    /// Whether the menu may be replaced now.
    pub fn can_update(&self) -> (r: bool)
        ensures
            r == self@.ready(),
    {
        self.dirty && !self.tracking
    }

    /// The menu was replaced.
    pub fn installed(&mut self, actions: TextMap<Action>)
        ensures
            final(self)@ == old(self)@.replaced(actions@),
    {
        self.actions = actions;
        self.dirty = false;
    }

    /// What an item does.
    pub fn action(&self, id: &str) -> (r: Option<Action>)
        ensures
            r.deep_view() == self@.action_of(id@),
    {
        match self.shown_actions.get(id) {
            Some(action) => Some(action.clone()),
            None => match self.actions.get(id) {
                Some(action) => Some(action.clone()),
                None => None,
            },
        }
    }
}

// ---------------------------------------------------------------- repositories

/// The organization and the name of a repository.
pub open spec fn parts_of(repo: Seq<char>) -> (Seq<char>, Seq<char>) {
    match text::split_once_at(repo, "/"@) {
        Some(parts) => parts,
        None => (Seq::empty(), repo),
    }
}

/// The organization and the name of a repository.
pub fn repo_parts(repo: &str) -> (r: (String, String))
    ensures
        (r.0@, r.1@) == parts_of(repo@),
{
    match text::split_once(repo, "/") {
        Some(parts) => parts,
        None => (String::new(), repo.to_owned()),
    }
}

/// The heading of a repository.
pub open spec fn heading_of(repo: Seq<char>) -> Seq<char> {
    let (organization, repository) = parts_of(repo);
    if organization.len() == 0 {
        repository
    } else {
        repository + " • "@ + organization
    }
}

/// The heading of a repository.
pub fn repo_heading(repo: &str) -> (r: String)
    ensures
        r@ == heading_of(repo@),
{
    let (organization, repository) = repo_parts(repo);
    if organization.as_str().is_empty() {
        repository
    } else {
        text::concat3(&repository, " • ", &organization)
    }
}

/// What a pull request is ordered by: the organization and the name of its repository,
/// without regard to capitals, and its number.
pub struct RepoKey {
    pub organization: String,
    pub repository: String,
    pub number: u64,
}

impl DeepView for RepoKey {
    type V = (Seq<char>, Seq<char>, u64);

    open spec fn deep_view(&self) -> (Seq<char>, Seq<char>, u64) {
        (self.organization@, self.repository@, self.number)
    }
}

impl Duplicate for RepoKey {
    fn duplicate(&self) -> (r: RepoKey) {
        RepoKey {
            organization: self.organization.clone(),
            repository: self.repository.clone(),
            number: self.number,
        }
    }
}

/// The order of pull requests: by organization, then by repository, then by number.
pub open spec fn repo_order() -> Order<(Seq<char>, Seq<char>, u64)> {
    |a: (Seq<char>, Seq<char>, u64), b: (Seq<char>, Seq<char>, u64)|
        text::text_lt(a.0, b.0) || (a.0 == b.0 && (text::text_lt(a.1, b.1) || (a.1 == b.1 && a.2 < b.2)))
}

impl Key for RepoKey {
    open spec fn order() -> Order<(Seq<char>, Seq<char>, u64)> {
        repo_order()
    }

    fn is_before(&self, other: &RepoKey) -> (r: bool) {
        if text::less(&self.organization, &other.organization) {
            return true;
        }
        if !text::same(&self.organization, &other.organization) {
            return false;
        }
        if text::less(&self.repository, &other.repository) {
            return true;
        }
        text::same(&self.repository, &other.repository) && self.number < other.number
    }
}

/// What a pull request is ordered by.
pub open spec fn key_of(pr: PullRequestView) -> (Seq<char>, Seq<char>, u64) {
    let (organization, repository) = parts_of(pr.snapshot.repo);
    (text::unicode_lowercase(organization), text::unicode_lowercase(repository), pr.snapshot.number)
}

/// What pull requests are ordered by.
pub open spec fn keys_of(prs: Seq<PullRequestView>) -> Seq<(Seq<char>, Seq<char>, u64)> {
    prs.map_values(|pr: PullRequestView| key_of(pr))
}

/// Pull requests in the order in which they are shown.
pub open spec fn shown_order(prs: Seq<PullRequestView>) -> Seq<PullRequestView> {
    order::ordered(prs, keys_of(prs), repo_order())
}

/// Pull requests in the order in which they are shown.
pub fn by_repository(prs: &Vec<PullRequest>) -> (r: Vec<PullRequest>)
    ensures
        r.deep_view() == shown_order(prs.deep_view()),
{
    let ghost v = prs.deep_view();
    let mut keys: Vec<RepoKey> = Vec::new();
    let mut i: usize = 0;
    while i < prs.len()
        invariant
            v == prs.deep_view(),
            i <= prs@.len(),
            keys.deep_view() =~= keys_of(v.take(i as int)),
        decreases prs.len() - i,
    {
        let pr = &prs[i];
        assert(v[i as int] == pr@);
        let (organization, repository) = repo_parts(&pr.snapshot.repo);
        let ghost before = keys.deep_view();
        keys.push(
            RepoKey {
                organization: text::lowercase(&organization),
                repository: text::lowercase(&repository),
                number: pr.snapshot.number,
            },
        );
        assert(keys.deep_view() =~= before.push(key_of(pr@)));
        assert(v.take(i + 1) =~= v.take(i as int).push(pr@));
        i += 1;
    }
    assert(v.take(i as int) =~= v);
    assert(keys.deep_view().len() == v.len());
    order::order(prs, &keys)
}

// ---------------------------------------------------------------- the menu bar

/// What the icon in the menu bar shows.
#[derive(Clone, Copy, Debug, PartialEq, Eq, Structural)]
pub enum MenuBarState {
    Idle,
    Review(State),
}

/// Whether a pull request in a state wants attention.
pub open spec fn some_wants_attention(prs: Seq<PullRequestView>, state: State) -> bool {
    exists|i: int| 0 <= i < prs.len() && (#[trigger] prs[i]).wants_attention() && prs[i].state == state
}

/// Whether agents are at work on an update that was not acknowledged.
pub open spec fn some_in_review(prs: Seq<PullRequestView>) -> bool {
    exists|i: int|
        0 <= i < prs.len() && (#[trigger] prs[i]).acknowledged != Some(prs[i].update_id) && !prs[i].stale && prs[i].state
            == State::Reviewing
}

/// Whether nothing reliable is known of an update that was not acknowledged.
pub open spec fn some_unknown(prs: Seq<PullRequestView>) -> bool {
    exists|i: int|
        0 <= i < prs.len() && (#[trigger] prs[i]).acknowledged != Some(prs[i].update_id) && (prs[i].stale || prs[i].state
            == State::Unknown)
}

/// What the icon in the menu bar shows: an error, or the first of comments, approvals,
/// reviews under way and what is unknown that the user did not acknowledge.
pub open spec fn bar_state(prs: Seq<PullRequestView>, has_error: bool) -> MenuBarState {
    if has_error {
        MenuBarState::Review(State::Unknown)
    } else if some_wants_attention(prs, State::Comments) {
        MenuBarState::Review(State::Comments)
    } else if some_wants_attention(prs, State::Approved) {
        MenuBarState::Review(State::Approved)
    } else if some_in_review(prs) {
        MenuBarState::Review(State::Reviewing)
    } else if some_unknown(prs) {
        MenuBarState::Review(State::Unknown)
    } else {
        MenuBarState::Idle
    }
}

/// What the icon in the menu bar shows.
pub fn menu_bar_state(prs: &Vec<PullRequest>, has_error: bool) -> (r: MenuBarState)
    ensures
        r == bar_state(prs.deep_view(), has_error),
{
    if has_error {
        return MenuBarState::Review(State::Unknown);
    }
    let ghost v = prs.deep_view();
    let mut comments = false;
    let mut approved = false;
    let mut reviewing = false;
    let mut unknown = false;
    let mut i: usize = 0;
    while i < prs.len()
        invariant
            v == prs.deep_view(),
            i <= prs@.len(),
            comments == some_wants_attention(v.take(i as int), State::Comments),
            approved == some_wants_attention(v.take(i as int), State::Approved),
            reviewing == some_in_review(v.take(i as int)),
            unknown == some_unknown(v.take(i as int)),
        decreases prs.len() - i,
    {
        let pr = &prs[i];
        let ghost before = v.take(i as int);
        let ghost after = v.take(i + 1);
        assert(after =~= before.push(pr@));
        let attention = pr.needs_attention();
        let unacknowledged = match &pr.acknowledged {
            Some(id) => !text::same(id, &pr.update_id),
            None => true,
        };
        assert(after[i as int] == pr@);
        assert(forall|k: int| 0 <= k < i ==> after[k] == before[k]);
        comments = comments || (attention && pr.state == State::Comments);
        approved = approved || (attention && pr.state == State::Approved);
        reviewing = reviewing || (unacknowledged && !pr.stale && pr.state == State::Reviewing);
        unknown = unknown || (unacknowledged && (pr.stale || pr.state == State::Unknown));
        proof {
            attention_grows(before, pr@);
        }
        i += 1;
    }
    assert(v.take(i as int) =~= v);
    if comments {
        MenuBarState::Review(State::Comments)
    } else if approved {
        MenuBarState::Review(State::Approved)
    } else if reviewing {
        MenuBarState::Review(State::Reviewing)
    } else if unknown {
        MenuBarState::Review(State::Unknown)
    } else {
        MenuBarState::Idle
    }
}

/// What one more pull request adds.
proof fn attention_grows(prs: Seq<PullRequestView>, pr: PullRequestView)
    ensures
        forall|state: State| #[trigger]
            some_wants_attention(prs.push(pr), state) == (some_wants_attention(prs, state) || (pr.wants_attention()
                && pr.state == state)),
        some_in_review(prs.push(pr)) == (some_in_review(prs) || (pr.acknowledged != Some(pr.update_id) && !pr.stale
            && pr.state == State::Reviewing)),
        some_unknown(prs.push(pr)) == (some_unknown(prs) || (pr.acknowledged != Some(pr.update_id) && (pr.stale || pr.state
            == State::Unknown))),
{
    let all = prs.push(pr);
    assert(all[prs.len() as int] == pr);
    assert(forall|k: int| 0 <= k < prs.len() ==> all[k] == prs[k]);
    assert forall|state: State| #[trigger]
        some_wants_attention(all, state) == (some_wants_attention(prs, state) || (pr.wants_attention() && pr.state
            == state)) by {
        if some_wants_attention(prs, state) {
            let i = choose|i: int| 0 <= i < prs.len() && (#[trigger] prs[i]).wants_attention() && prs[i].state == state;
            assert(all[i].wants_attention() && all[i].state == state);
        }
        if some_wants_attention(all, state) {
            let i = choose|i: int| 0 <= i < all.len() && (#[trigger] all[i]).wants_attention() && all[i].state == state;
            if i < prs.len() {
                assert(prs[i].wants_attention() && prs[i].state == state);
            }
        }
    }
    if some_in_review(prs) {
        let i = choose|i: int|
            0 <= i < prs.len() && (#[trigger] prs[i]).acknowledged != Some(prs[i].update_id) && !prs[i].stale
                && prs[i].state == State::Reviewing;
        assert(all[i] == prs[i]);
    }
    if some_in_review(all) {
        let i = choose|i: int|
            0 <= i < all.len() && (#[trigger] all[i]).acknowledged != Some(all[i].update_id) && !all[i].stale
                && all[i].state == State::Reviewing;
        if i < prs.len() {
            assert(all[i] == prs[i]);
        }
    }
    if some_unknown(prs) {
        let i = choose|i: int|
            0 <= i < prs.len() && (#[trigger] prs[i]).acknowledged != Some(prs[i].update_id) && (prs[i].stale
                || prs[i].state == State::Unknown);
        assert(all[i] == prs[i]);
    }
    if some_unknown(all) {
        let i = choose|i: int|
            0 <= i < all.len() && (#[trigger] all[i]).acknowledged != Some(all[i].update_id) && (all[i].stale
                || all[i].state == State::Unknown);
        if i < prs.len() {
            assert(all[i] == prs[i]);
        }
    }
}

/// The symbol of a state.
pub open spec fn symbol_of(state: State) -> Seq<char> {
    match state {
        State::Unknown => "questionmark.circle"@,
        State::Reviewing => "arrow.triangle.2.circlepath"@,
        State::Comments => "text.bubble"@,
        State::Approved => "checkmark.circle"@,
    }
}

/// The symbol of a state.
pub fn symbol(state: State) -> (r: &'static str)
    ensures
        r@ == symbol_of(state),
{
    match state {
        State::Unknown => "questionmark.circle",
        State::Reviewing => "arrow.triangle.2.circlepath",
        State::Comments => "text.bubble",
        State::Approved => "checkmark.circle",
    }
}

// ---------------------------------------------------------------- opening

/// What `url::Url::parse` makes of a text: the scheme, the host, the user name and the
/// password of an address, or what is wrong with it.
pub uninterp spec fn address_of(
    url: Seq<char>,
) -> Result<(Seq<char>, Option<Seq<char>>, Seq<char>, Option<Seq<char>>), Seq<char>>;

/// The contents of an address.
pub open spec fn address_view(
    r: Result<(String, Option<String>, String, Option<String>), String>,
) -> Result<(Seq<char>, Option<Seq<char>>, Seq<char>, Option<Seq<char>>), Seq<char>> {
    match r {
        Ok((scheme, host, username, password)) => Ok((scheme@, host.deep_view(), username@, password.deep_view())),
        Err(message) => Err(message@),
    }
}

/// Trusted: `url::Url::parse`, with `scheme`, `host_str`, `username` and `password` of what
/// it returns, or the text of its error. All of it is a function of the text alone.
#[verifier::external_body]
fn parse_address(url: &str) -> (r: Result<(String, Option<String>, String, Option<String>), String>)
    ensures
        address_view(r) == address_of(url@),
{
    match url::Url::parse(url) {
        Ok(address) => Ok(
            (
                address.scheme().to_owned(),
                address.host_str().map(str::to_owned),
                address.username().to_owned(),
                address.password().map(str::to_owned),
            ),
        ),
        Err(error) => Err(error.to_string()),
    }
}

/// Why an address is not opened: only GitHub's own addresses are, without credentials.
pub open spec fn address_fault(
    address: Result<(Seq<char>, Option<Seq<char>>, Seq<char>, Option<Seq<char>>), Seq<char>>,
) -> Result<(), Seq<char>> {
    match address {
        Err(message) => Err(message),
        Ok((scheme, host, username, password)) => if scheme == "https"@ && host == Some("github.com"@) && username.len()
            == 0 && password is None {
            Ok(())
        } else {
            Err("Refusing an invalid GitHub PR URL"@)
        },
    }
}

/// The contents of what a check says.
pub open spec fn checked(r: Result<(), String>) -> Result<(), Seq<char>> {
    match r {
        Ok(()) => Ok(()),
        Err(message) => Err(message@),
    }
}

/// Whether an address may be opened that was read like this.
pub fn check_address(address: Result<(String, Option<String>, String, Option<String>), String>) -> (r: Result<
    (),
    String,
>)
    ensures
        checked(r) == address_fault(address_view(address)),
{
    match address {
        Err(message) => Err(message),
        Ok((scheme, host, username, password)) => {
            let github = match &host {
                Some(host) => text::same(host, "github.com"),
                None => false,
            };
            if text::same(&scheme, "https") && github && username.as_str().is_empty() && password.is_none() {
                Ok(())
            } else {
                Err("Refusing an invalid GitHub PR URL".to_owned())
            }
        },
    }
}

/// Whether the address of a pull request may be opened in the browser.
pub fn check_url(url: &str) -> (r: Result<(), String>)
    ensures
        checked(r) == address_fault(address_of(url@)),
{
    check_address(parse_address(url))
}

/// What follows when a pull request was opened, or was not: its update is acknowledged only
/// when it was, and only where the worker is listening.
pub open spec fn opened(
    result: Result<(), Seq<char>>,
    listening: bool,
    pr: Seq<char>,
    update: Seq<char>,
) -> Result<CommandView, Seq<char>> {
    match result {
        Ok(()) => if listening {
            Ok(CommandView::Acknowledge { pr, update, checked: true })
        } else {
            Err("PR opened, but Gopher could not acknowledge the update"@)
        },
        Err(message) => Err(message),
    }
}

/// What follows when a pull request was opened, or was not.
pub fn open_and_acknowledge(result: Result<(), String>, listening: bool, pr: &str, update: &str) -> (r: Result<
    Command,
    String,
>)
    ensures
        match r {
            Ok(command) => opened(checked(result), listening, pr@, update@) == Ok::<CommandView, Seq<char>>(command@),
            Err(message) => opened(checked(result), listening, pr@, update@) == Err::<CommandView, Seq<char>>(message@),
        },
{
    match result {
        Ok(()) => if listening {
            Ok(Command::Acknowledge { pr: pr.to_owned(), update: update.to_owned(), checked: true })
        } else {
            Err("PR opened, but Gopher could not acknowledge the update".to_owned())
        },
        Err(message) => Err(message),
    }
}

// ---------------------------------------------------------------- laws

/// An open menu is never replaced, and however often a replacement is asked for meanwhile,
/// there is one when the menu closes.
pub proof fn open_menus_are_not_replaced(menu: MenuStateView, actions: Map<Seq<char>, ActionView>)
    ensures
        !menu.begun().ready(),
        !menu.begun().requested().ready(),
        menu.begun().requested().requested() == menu.begun().requested(),
        menu.begun().requested().ended().ready(),
        !menu.begun().requested().ended().begun().ready(),
        !menu.replaced(actions).ready(),
{
}

/// An item that the user chose does what it did when the menu was opened, even when the menu
/// was closed and replaced, more than once, before the choice arrives. An item of an older
/// menu does nothing once a menu without it was opened.
pub proof fn choices_mean_what_was_shown(
    menu: MenuStateView,
    first: Map<Seq<char>, ActionView>,
    second: Map<Seq<char>, ActionView>,
    id: Seq<char>,
)
    requires
        menu.actions.contains_key(id),
    ensures
        menu.begun().requested().ended().replaced(first).replaced(second).action_of(id) == Some(menu.actions[id]),
        !second.contains_key(id) ==> menu.begun().ended().replaced(first).replaced(second).begun().action_of(id) is None,
{
}

/// Without an error and with every update acknowledged, the icon is the idle one.
pub proof fn acknowledged_updates_are_quiet(prs: Seq<PullRequestView>)
    requires
        forall|i: int| 0 <= i < prs.len() ==> (#[trigger] prs[i]).acknowledged == Some(prs[i].update_id),
    ensures
        bar_state(prs, false) == MenuBarState::Idle,
{
}

/// Comments come before everything but an error, and approvals before reviews under way.
pub proof fn comments_come_first(prs: Seq<PullRequestView>, i: int)
    requires
        0 <= i < prs.len(),
        prs[i].wants_attention(),
    ensures
        prs[i].state == State::Comments ==> bar_state(prs, false) == MenuBarState::Review(State::Comments),
        bar_state(prs, false) == MenuBarState::Review(State::Comments) || bar_state(prs, false) == MenuBarState::Review(
            State::Approved,
        ),
{
    assert(prs[i].state == State::Comments || prs[i].state == State::Approved);
    assert(some_wants_attention(prs, prs[i].state));
}

/// What is not opened is not acknowledged, and what is opened is acknowledged where the worker is
/// listening.
pub proof fn unopened_is_not_acknowledged(
    result: Result<(), Seq<char>>,
    listening: bool,
    pr: Seq<char>,
    update: Seq<char>,
)
    ensures
        opened(result, listening, pr, update) is Ok <==> result is Ok && listening,
{
}

/// Pull requests are shown by organization, then by repository, then by number, and each of
/// them once.
pub proof fn prs_are_shown_in_order(prs: Seq<PullRequestView>, i: int, j: int)
    requires
        0 <= i < j < shown_order(prs).len(),
    ensures
        !repo_order()(key_of(shown_order(prs)[j]), key_of(shown_order(prs)[i])),
        shown_order(prs).to_multiset() == prs.to_multiset(),
{
    let lt = repo_order();
    let key = |pr: PullRequestView| key_of(pr);
    assert(keys_of(prs) =~= prs.map_values(key));
    assert forall|a: (Seq<char>, Seq<char>, u64), b: (Seq<char>, Seq<char>, u64)| #[trigger] lt(a, b) implies !lt(
        b,
        a,
    ) by {
        repo_order_is_one(a, b, b);
    }
    assert forall|a: (Seq<char>, Seq<char>, u64), b: (Seq<char>, Seq<char>, u64), c: (Seq<char>, Seq<char>, u64)|
        !(#[trigger] lt(b, a)) && !(#[trigger] lt(c, b)) implies !lt(c, a) by {
        repo_order_is_one(a, b, c);
    }
    order::ordering_rearranges(prs, keys_of(prs), lt);
    order::keyed_items_are_ordered(prs, keys_of(prs), lt, i, j);
    order::items_keep_their_keys(prs, key, lt, i);
    order::items_keep_their_keys(prs, key, lt, j);
}

/// The order of pull requests is an order.
proof fn repo_order_is_one(
    a: (Seq<char>, Seq<char>, u64),
    b: (Seq<char>, Seq<char>, u64),
    c: (Seq<char>, Seq<char>, u64),
)
    ensures
        repo_order()(a, b) ==> !repo_order()(b, a),
        !repo_order()(b, a) && !repo_order()(c, b) ==> !repo_order()(c, a),
{
    text::text_lt_total(a.0, b.0);
    text::text_lt_total(b.0, c.0);
    text::text_lt_total(a.0, c.0);
    text::text_lt_total(a.1, b.1);
    text::text_lt_total(b.1, c.1);
    text::text_lt_total(a.1, c.1);
    text::text_lt_irreflexive(a.0);
    text::text_lt_irreflexive(a.1);
    text::text_lt_irreflexive(b.0);
    text::text_lt_irreflexive(b.1);
    if text::text_lt(a.0, b.0) && text::text_lt(b.0, c.0) {
        text::text_lt_transitive(a.0, b.0, c.0);
    }
    if text::text_lt(a.1, b.1) && text::text_lt(b.1, c.1) {
        text::text_lt_transitive(a.1, b.1, c.1);
    }
    if text::text_lt(a.0, b.0) && text::text_lt(b.0, a.0) {
        text::text_lt_transitive(a.0, b.0, a.0);
    }
    if text::text_lt(a.1, b.1) && text::text_lt(b.1, a.1) {
        text::text_lt_transitive(a.1, b.1, a.1);
    }
    if text::text_lt(c.0, a.0) && text::text_lt(a.0, b.0) {
        text::text_lt_transitive(c.0, a.0, b.0);
    }
    if text::text_lt(b.0, c.0) && text::text_lt(c.0, a.0) {
        text::text_lt_transitive(b.0, c.0, a.0);
    }
    if text::text_lt(c.1, a.1) && text::text_lt(a.1, b.1) {
        text::text_lt_transitive(c.1, a.1, b.1);
    }
    if text::text_lt(b.1, c.1) && text::text_lt(c.1, a.1) {
        text::text_lt_transitive(b.1, c.1, a.1);
    }
}

} // verus!
