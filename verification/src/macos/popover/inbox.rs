//! The inbox: the lists of pull requests, and what is shown in their place.

use crate::actions::{ActionState, ActionStateView, Request, RequestView, Setting};
use crate::github::exchange;
use crate::hotkeys::{HotkeyAction, Navigation, NavigationView};
use crate::identity;
use crate::macos;
use crate::macos::keyboard::{State as KeyboardState, StateView as KeyboardStateView};
use crate::macos::menu;
use crate::macos::popover::action_views::{DetailPanel, DetailPanelView, PrActionsView};
use crate::macos::popover::attention::{Flash, FlashView};
use crate::macos::popover::rows;
use crate::macos::popover::rows::{Row, RowView};
use crate::macos::popover::{Press, PressView};
use crate::macos::updates::{State as UpdateState, StateView as UpdateStateView};
use crate::macos::{by_repository, repo_heading, Action, ActionView};
use crate::model::{PullRequest, PullRequestView};
use crate::text;
use crate::text_map;
use crate::text_map::TextMap;
use vstd::prelude::*;

verus! {

/// A line of the list: a pull request, below a heading where its repository begins.
#[derive(Debug)]
pub struct Line {
    pub heading: Option<String>,
    pub divider: bool,
    pub pr: String,
}

/// The contents of a [`Line`].
#[verifier::ext_equal]
pub struct LineView {
    pub heading: Option<Seq<char>>,
    pub divider: bool,
    pub pr: Seq<char>,
}

impl View for Line {
    type V = LineView;

    open spec fn view(&self) -> LineView {
        LineView {
            heading: self.heading.deep_view(),
            divider: self.divider,
            pr: self.pr@,
        }
    }
}

impl DeepView for Line {
    type V = LineView;

    open spec fn deep_view(&self) -> LineView {
        self@
    }
}

/// What the inbox shows around the pull requests.
#[derive(Debug)]
pub struct Screen {
    pub title: String,
    pub title_tooltip: Option<String>,
    pub summary: String,
    pub summary_tooltip: Option<String>,
    pub refresh_hidden: bool,
    pub refresh_enabled: bool,
    pub refresh_title: String,
    pub menu_hidden: bool,
    pub back_hidden: bool,
    pub back_enabled: bool,
    /// What is wrong.
    pub banner: Option<String>,
    /// What is shown in place of pull requests.
    pub empty: Option<String>,
    pub at_login: bool,
    /// The highlighted pull request.
    pub selected: Option<String>,
    pub lines: Vec<Line>,
}

/// The contents of a [`Screen`].
#[verifier::ext_equal]
pub struct ScreenView {
    pub title: Seq<char>,
    pub title_tooltip: Option<Seq<char>>,
    pub summary: Seq<char>,
    pub summary_tooltip: Option<Seq<char>>,
    pub refresh_hidden: bool,
    pub refresh_enabled: bool,
    pub refresh_title: Seq<char>,
    pub menu_hidden: bool,
    pub back_hidden: bool,
    pub back_enabled: bool,
    pub banner: Option<Seq<char>>,
    pub empty: Option<Seq<char>>,
    pub at_login: bool,
    pub selected: Option<Seq<char>>,
    pub lines: Seq<LineView>,
}

impl View for Screen {
    type V = ScreenView;

    open spec fn view(&self) -> ScreenView {
        ScreenView {
            title: self.title@,
            title_tooltip: self.title_tooltip.deep_view(),
            summary: self.summary@,
            summary_tooltip: self.summary_tooltip.deep_view(),
            refresh_hidden: self.refresh_hidden,
            refresh_enabled: self.refresh_enabled,
            refresh_title: self.refresh_title@,
            menu_hidden: self.menu_hidden,
            back_hidden: self.back_hidden,
            back_enabled: self.back_enabled,
            banner: self.banner.deep_view(),
            empty: self.empty.deep_view(),
            at_login: self.at_login,
            selected: self.selected.deep_view(),
            lines: self.lines.deep_view(),
        }
    }
}

impl DeepView for Screen {
    type V = ScreenView;

    open spec fn deep_view(&self) -> ScreenView {
        self@
    }
}

/// What the inbox asks for.
#[derive(Debug)]
pub enum Gesture {
    /// Shows the inbox and gives it the focus.
    Present,
    Close,
    /// Remembers how far the list of ignored or of active pull requests is scrolled.
    SaveScroll(bool),
    RestoreScroll(bool),
    ScrollToTop,
    /// Scrolls to a pull request.
    Reveal(String),
    ShowPanel,
    ShowList,
    /// Uses a control, as if the user had.
    Click(Press),
    /// Opens the actions of a pull request.
    OpenMenu(String),
    Send(Request),
    Acknowledge { pr: String, update: String },
    Queue(Press),
    Highlight(String),
    Refresh,
}

/// The contents of a [`Gesture`].
pub enum GestureView {
    Present,
    Close,
    SaveScroll(bool),
    RestoreScroll(bool),
    ScrollToTop,
    Reveal(Seq<char>),
    ShowPanel,
    ShowList,
    Click(PressView),
    OpenMenu(Seq<char>),
    Send(RequestView),
    Acknowledge { pr: Seq<char>, update: Seq<char> },
    Queue(PressView),
    Highlight(Seq<char>),
    Refresh,
}

impl View for Gesture {
    type V = GestureView;

    open spec fn view(&self) -> GestureView {
        match self {
            Gesture::Present => GestureView::Present,
            Gesture::Close => GestureView::Close,
            Gesture::SaveScroll(ignored) => GestureView::SaveScroll(*ignored),
            Gesture::RestoreScroll(ignored) => GestureView::RestoreScroll(*ignored),
            Gesture::ScrollToTop => GestureView::ScrollToTop,
            Gesture::Reveal(pr) => GestureView::Reveal(pr@),
            Gesture::ShowPanel => GestureView::ShowPanel,
            Gesture::ShowList => GestureView::ShowList,
            Gesture::Click(press) => GestureView::Click(press@),
            Gesture::OpenMenu(pr) => GestureView::OpenMenu(pr@),
            Gesture::Send(request) => GestureView::Send(request@),
            Gesture::Acknowledge { pr, update } => GestureView::Acknowledge { pr: pr@, update: update@ },
            Gesture::Queue(press) => GestureView::Queue(press@),
            Gesture::Highlight(pr) => GestureView::Highlight(pr@),
            Gesture::Refresh => GestureView::Refresh,
        }
    }
}

impl DeepView for Gesture {
    type V = GestureView;

    open spec fn deep_view(&self) -> GestureView {
        self@
    }
}

/// The selection in a list, and the pull requests whose details are shown.
#[derive(Debug)]
pub struct ListState {
    pub navigation: Navigation,
    pub expanded: TextMap<()>,
}

/// The contents of a [`ListState`].
#[verifier::ext_equal]
pub struct ListStateView {
    pub navigation: NavigationView,
    pub expanded: Set<Seq<char>>,
}

impl View for ListState {
    type V = ListStateView;

    open spec fn view(&self) -> ListStateView {
        ListStateView {
            navigation: self.navigation@,
            expanded: self.expanded@.dom(),
        }
    }
}

/// The inbox.
#[derive(Debug)]
pub struct ReviewPopover {
    pub dev: bool,
    /// Whether the inbox is shown.
    pub visible: bool,
    pub showing_ignored: bool,
    pub restore_scroll: bool,
    pub pending_scroll: Option<String>,
    pub flash: Option<Flash>,
    /// Whether the flashing pull request is blue now.
    pub tint: Option<bool>,
    pub active: ListState,
    pub ignored: ListState,
    pub keyboard_state: KeyboardState,
    pub update_state: UpdateState,
    pub action_state: ActionState,
    pub detail: Option<DetailPanel>,
    pub rows: TextMap<Row>,
    pub screen: Screen,
    pub pending_label_requests: u64,
    pub gestures: Vec<Gesture>,
}

/// The contents of a [`ReviewPopover`].
pub struct ReviewPopoverView {
    pub dev: bool,
    pub visible: bool,
    pub showing_ignored: bool,
    pub restore_scroll: bool,
    pub pending_scroll: Option<Seq<char>>,
    pub flash: Option<FlashView>,
    pub tint: Option<bool>,
    pub active: ListStateView,
    pub ignored: ListStateView,
    pub keyboard_state: KeyboardStateView,
    pub update_state: UpdateStateView,
    pub action_state: ActionStateView,
    pub detail: Option<DetailPanelView>,
    pub rows: Map<Seq<char>, RowView>,
    pub screen: ScreenView,
    pub pending_label_requests: u64,
    pub gestures: Seq<GestureView>,
}

impl View for ReviewPopover {
    type V = ReviewPopoverView;

    open spec fn view(&self) -> ReviewPopoverView {
        ReviewPopoverView {
            dev: self.dev,
            visible: self.visible,
            showing_ignored: self.showing_ignored,
            restore_scroll: self.restore_scroll,
            pending_scroll: self.pending_scroll.deep_view(),
            flash: self.flash.deep_view(),
            tint: self.tint,
            active: self.active@,
            ignored: self.ignored@,
            keyboard_state: self.keyboard_state@,
            update_state: self.update_state@,
            action_state: self.action_state@,
            detail: self.detail.deep_view(),
            rows: self.rows@,
            screen: self.screen@,
            pending_label_requests: self.pending_label_requests,
            gestures: self.gestures.deep_view(),
        }
    }
}

// ---------------------------------------------------------------- what is shown

/// The identities of pull requests.
pub open spec fn ids_of(prs: Seq<PullRequestView>) -> Seq<Seq<char>> {
    prs.map_values(|pr: PullRequestView| pr.snapshot.id)
}

/// How many pull requests want attention.
pub open spec fn updates_in(prs: Seq<PullRequestView>) -> nat
    decreases prs.len(),
{
    if prs.len() == 0 {
        0
    } else {
        updates_in(prs.drop_last()) + if prs.last().wants_attention() {
            1nat
        } else {
            0nat
        }
    }
}

/// How many pull requests want attention.
pub fn count_updates(prs: &Vec<PullRequest>) -> (r: u64)
    ensures
        r == updates_in(prs.deep_view()),
        r <= prs@.len(),
{
    let ghost v = prs.deep_view();
    let mut count: u64 = 0;
    let mut i: usize = 0;
    while i < prs.len()
        invariant
            v == prs.deep_view(),
            i <= prs@.len(),
            count == updates_in(v.take(i as int)),
            count <= i,
        decreases prs.len() - i,
    {
        assert(v.take(i + 1).drop_last() =~= v.take(i as int));
        assert(v.take(i + 1).last() == prs@[i as int]@);
        if prs[i].needs_attention() {
            count += 1;
        }
        i += 1;
    }
    assert(v.take(i as int) =~= v);
    count
}

/// The lines of a list, with a heading where a repository begins.
pub open spec fn lines_of(prs: Seq<PullRequestView>) -> Seq<LineView>
    decreases prs.len(),
{
    if prs.len() == 0 {
        Seq::empty()
    } else {
        let pr = prs.last();
        let last = menu::last_repo(prs.drop_last());
        lines_of(prs.drop_last()).push(
            if pr.snapshot.repo == last {
                LineView { heading: None, divider: false, pr: pr.snapshot.id }
            } else {
                LineView {
                    heading: Some(macos::heading_of(pr.snapshot.repo)),
                    divider: last.len() != 0,
                    pr: pr.snapshot.id,
                }
            },
        )
    }
}

/// The rows of a list.
pub open spec fn rows_of(
    prs: Seq<PullRequestView>,
    expanded: Set<Seq<char>>,
    ignored: bool,
    state: ActionStateView,
    now: i64,
    times: Map<Seq<char>, Seq<char>>,
) -> Map<Seq<char>, RowView>
    decreases prs.len(),
{
    if prs.len() == 0 {
        Map::empty()
    } else {
        let pr = prs.last();
        let id = pr.snapshot.id;
        rows_of(prs.drop_last(), expanded, ignored, state, now, times).insert(
            id,
            rows::row_of(pr, expanded.contains(id), ignored, state, now, menu::time_of(times, id)),
        )
    }
}

/// What stands below the title of a list.
pub open spec fn summary_of(prs: Seq<PullRequestView>, ignored: bool, loading: bool) -> Seq<char> {
    if ignored {
        text::decimal_of(prs.len()) + " ignored PRs"@ + (if loading {
            " · loading details…"@
        } else {
            Seq::empty()
        })
    } else {
        text::decimal_of(prs.len()) + " open PRs · "@ + text::decimal_of(updates_in(prs)) + " updates"@
    }
}

/// What is shown in place of pull requests.
pub open spec fn empty_text(ignored: bool) -> Seq<char> {
    if ignored {
        "No ignored pull requests."@
    } else {
        "No open pull requests. Gopher will keep checking for you."@
    }
}

/// The identities of pull requests as a list.
fn id_list(prs: &Vec<PullRequest>) -> (r: Vec<String>)
    ensures
        r.deep_view() == ids_of(prs.deep_view()),
{
    let mut ids: Vec<String> = Vec::new();
    let mut i: usize = 0;
    while i < prs.len()
        invariant
            i <= prs@.len(),
            ids@.len() == i,
            forall|k: int| 0 <= k < i ==> (#[trigger] ids@[k])@ == prs@[k]@.snapshot.id,
        decreases prs.len() - i,
    {
        ids.push(prs[i].snapshot.id.clone());
        i += 1;
    }
    assert(ids.deep_view() =~= ids_of(prs.deep_view()));
    ids
}

/// The identities of pull requests as a set.
fn id_set(ids: &Vec<String>) -> (r: TextMap<()>)
    ensures
        r@.dom() == ids.deep_view().to_set(),
{
    let ghost v = ids.deep_view();
    let mut set: TextMap<()> = TextMap::new();
    let mut i: usize = 0;
    assert(set@.dom() =~= v.take(0).to_set());
    while i < ids.len()
        invariant
            v == ids.deep_view(),
            i <= ids@.len(),
            set@.dom() =~= v.take(i as int).to_set(),
        decreases ids.len() - i,
    {
        let ghost before = v.take(i as int);
        let ghost after = v.take(i + 1);
        assert(after =~= before.push(v[i as int]));
        set.insert(ids[i].clone(), ());
        proof {
            assert forall|k: Seq<char>| set@.dom().contains(k) <==> after.to_set().contains(k) by {
                if before.to_set().contains(k) {
                    let j = choose|j: int| 0 <= j < before.len() && before[j] == k;
                    assert(after[j] == k);
                }
                assert(after[i as int] == v[i as int]);
                if after.to_set().contains(k) {
                    let j = choose|j: int| 0 <= j < after.len() && after[j] == k;
                    if j < i {
                        assert(before[j] == k);
                    }
                }
            }
        }
        i += 1;
    }
    assert(v.take(i as int) =~= v);
    set
}

/// The lines of a list.
fn make_lines(prs: &Vec<PullRequest>) -> (r: Vec<Line>)
    ensures
        r.deep_view() == lines_of(prs.deep_view()),
{
    let ghost v = prs.deep_view();
    let mut lines: Vec<Line> = Vec::new();
    let mut last = String::new();
    let mut i: usize = 0;
    assert(lines.deep_view() =~= lines_of(v.take(0)));
    while i < prs.len()
        invariant
            v == prs.deep_view(),
            i <= prs@.len(),
            last@ == menu::last_repo(v.take(i as int)),
            lines.deep_view() =~= lines_of(v.take(i as int)),
        decreases prs.len() - i,
    {
        let pr = &prs[i];
        assert(v.take(i + 1).drop_last() =~= v.take(i as int));
        assert(v.take(i + 1).last() == pr@);
        let ghost before = lines.deep_view();
        let line = if text::same(&pr.snapshot.repo, &last) {
            Line { heading: None, divider: false, pr: pr.snapshot.id.clone() }
        } else {
            let divider = !last.as_str().is_empty();
            last = pr.snapshot.repo.clone();
            Line { heading: Some(repo_heading(&pr.snapshot.repo)), divider, pr: pr.snapshot.id.clone() }
        };
        let ghost added = line@;
        lines.push(line);
        assert(lines.deep_view() =~= before.push(added));
        i += 1;
    }
    assert(v.take(i as int) =~= v);
    lines
}

/// The rows of a list.
fn make_rows(
    prs: &Vec<PullRequest>,
    expanded: &TextMap<()>,
    ignored: bool,
    state: &ActionState,
    now: i64,
    times: &TextMap<String>,
) -> (r: TextMap<Row>)
    ensures
        r@ == rows_of(prs.deep_view(), expanded@.dom(), ignored, state@, now, times@),
{
    let ghost v = prs.deep_view();
    let mut rows: TextMap<Row> = TextMap::new();
    let mut i: usize = 0;
    assert(v.take(0).len() == 0);
    while i < prs.len()
        invariant
            v == prs.deep_view(),
            i <= prs@.len(),
            rows@ == rows_of(v.take(i as int), expanded@.dom(), ignored, state@, now, times@),
        decreases prs.len() - i,
    {
        let pr = &prs[i];
        assert(v.take(i + 1).drop_last() =~= v.take(i as int));
        assert(v.take(i + 1).last() == pr@);
        let id = &pr.snapshot.id;
        let row = rows::make_row(pr, expanded.contains_key(id), ignored, state, now, times.get(id));
        rows.insert(id.clone(), row);
        i += 1;
    }
    assert(v.take(i as int) =~= v);
    rows
}

/// Whether a menu of a row is open.
pub open spec fn any_tracking(rows: Map<Seq<char>, RowView>) -> bool {
    exists|id: Seq<char>| #[trigger] rows.contains_key(id) && rows[id].actions.tracking
}

/// Whether a menu of a row is open.
fn is_any_tracking(rows: &TextMap<Row>) -> (r: bool)
    ensures
        r == any_tracking(rows@),
{
    let count: usize = rows.len();
    let ghost keys = text_map::sorted_keys(rows@.dom());
    let mut i: usize = 0;
    while i < count
        invariant
            keys == text_map::sorted_keys(rows@.dom()),
            count == keys.len(),
            i <= count,
            forall|k: int| 0 <= k < i ==> !rows@[#[trigger] keys[k]].actions.tracking,
        decreases count - i,
    {
        if rows.value_at(i).actions.is_tracking() {
            assert(rows@.contains_key(keys[i as int]));
            return true;
        }
        i += 1;
    }
    proof {
        if any_tracking(rows@) {
            let id = choose|id: Seq<char>| #[trigger] rows@.contains_key(id) && rows@[id].actions.tracking;
            rows.key_is_listed(id);
            let k = choose|k: int| 0 <= k < keys.len() && keys[k] == id;
            assert(!rows@[keys[k]].actions.tracking);
        }
    }
    false
}

/// Rows of which one has its menu open, or not.
pub open spec fn marked(rows: Map<Seq<char>, RowView>, id: Seq<char>, open: bool) -> Map<Seq<char>, RowView> {
    if rows.contains_key(id) {
        let row = rows[id];
        rows.insert(id, RowView { actions: PrActionsView { tracking: open, ..row.actions }, ..row })
    } else {
        rows
    }
}

/// Marks a row whose menu is open, or not.
fn mark_tracking(rows: &mut TextMap<Row>, id: &str, open: bool)
    ensures
        final(rows)@ == marked(old(rows)@, id@, open),
{
    let ghost before = rows@;
    match rows.remove(id) {
        Some(mut row) => {
            let ghost shown = row@;
            row.actions.tracking = open;
            assert(row@ == (RowView { actions: PrActionsView { tracking: open, ..shown.actions }, ..shown }));
            let ghost now = row@;
            rows.insert(id.to_owned(), row);
            assert(rows@ =~= before.insert(id@, now));
        },
        None => {
            assert(rows@ =~= before);
        },
    }
}

// ---------------------------------------------------------------- the inbox as a state machine

impl ListStateView {
    /// Nothing is selected and no details are shown.
    pub open spec fn blank() -> ListStateView {
        ListStateView {
            navigation: NavigationView { selected: None, order: Seq::empty() },
            expanded: Set::empty(),
        }
    }

    /// Another selection.
    pub open spec fn selecting(self, id: Option<Seq<char>>) -> ListStateView {
        ListStateView { navigation: NavigationView { selected: id, ..self.navigation }, ..self }
    }
}

/// What the inbox is told when it is drawn anew.
pub struct News<'a> {
    pub prs: &'a Vec<PullRequest>,
    pub error: Option<&'a str>,
    pub bundled: bool,
    pub at_login: bool,
    pub loading: bool,
    pub now: i64,
    pub times: &'a TextMap<String>,
}

/// The contents of [`News`].
pub struct NewsView {
    pub prs: Seq<PullRequestView>,
    pub error: Option<Seq<char>>,
    pub bundled: bool,
    pub at_login: bool,
    pub loading: bool,
    pub now: i64,
    pub times: Map<Seq<char>, Seq<char>>,
}

impl<'a> View for News<'a> {
    type V = NewsView;

    open spec fn view(&self) -> NewsView {
        NewsView {
            prs: self.prs.deep_view(),
            error: exchange::account_view(self.error),
            bundled: self.bundled,
            at_login: self.at_login,
            loading: self.loading,
            now: self.now,
            times: self.times@,
        }
    }
}

/// A request with the state of the control that was used.
pub open spec fn with_state(request: RequestView, on: bool) -> RequestView {
    match request {
        RequestView::Configure { repo, change: Setting::Enabled(kind, _) } => RequestView::Configure {
            repo,
            change: Setting::Enabled(kind, on),
        },
        RequestView::Label { pr, name, selected: _ } => RequestView::Label { pr, name, selected: on },
        _ => request,
    }
}

impl ReviewPopoverView {
    /// The list that is shown, or that a panel is shown in place of.
    pub open spec fn list(self) -> ListStateView {
        if self.showing_ignored {
            self.ignored
        } else {
            self.active
        }
    }

    /// The same with another state of the list.
    pub open spec fn with_list(self, list: ListStateView) -> ReviewPopoverView {
        if self.showing_ignored {
            ReviewPopoverView { ignored: list, ..self }
        } else {
            ReviewPopoverView { active: list, ..self }
        }
    }

    /// Something is asked for.
    pub open spec fn asking(self, gesture: GestureView) -> ReviewPopoverView {
        ReviewPopoverView { gestures: self.gestures.push(gesture), ..self }
    }

    /// Whether changes of labels are being saved.
    pub open spec fn labels_busy(self) -> bool {
        self.pending_label_requests > 0 || match self.detail {
            Some(panel) => panel.saving(self.action_state),
            None => false,
        }
    }

    /// Whether nothing may be left, because changes are being saved.
    pub open spec fn held(self) -> bool {
        self.labels_busy() || self.keyboard_state.pending
    }

    /// The inbox is shown. Opened anew, it has no selection.
    pub open spec fn presented(self) -> ReviewPopoverView {
        let fresh = if self.visible {
            self
        } else {
            ReviewPopoverView {
                visible: true,
                active: self.active.selecting(None),
                ignored: self.ignored.selecting(None),
                screen: ScreenView { selected: None, ..self.screen },
                ..self
            }
        };
        fresh.asking(GestureView::Present)
    }

    /// The inbox is opened or closed.
    pub open spec fn toggled(self) -> ReviewPopoverView {
        if self.visible {
            self.closed()
        } else {
            self.presented()
        }
    }

    /// The inbox is closed.
    pub open spec fn closed(self) -> ReviewPopoverView {
        ReviewPopoverView { visible: false, ..self }.asking(GestureView::Close)
    }

    /// The other list is shown.
    pub open spec fn turned(self, ignored: bool) -> ReviewPopoverView {
        if self.showing_ignored != ignored {
            let saved = self.asking(GestureView::SaveScroll(self.showing_ignored));
            ReviewPopoverView { showing_ignored: ignored, restore_scroll: true, ..saved }
        } else {
            self
        }
    }

    /// A panel is shown in place of the list.
    pub open spec fn with_panel(self, panel: DetailPanelView) -> ReviewPopoverView {
        let saved = if self.detail is Some {
            self
        } else {
            self.asking(GestureView::SaveScroll(self.showing_ignored))
        };
        ReviewPopoverView { detail: Some(panel), ..saved }.asking(GestureView::ShowPanel).asking(
            GestureView::ScrollToTop,
        )
    }

    /// The user goes back: from a panel to the list, or to the active pull requests.
    pub open spec fn returned(self) -> ReviewPopoverView {
        if self.held() {
            self
        } else if self.detail is Some {
            ReviewPopoverView { detail: None, restore_scroll: true, ..self }.asking(GestureView::ShowList)
        } else {
            self.turned(false)
        }
    }

    /// The Escape key: it leaves what is shown, or closes the inbox.
    pub open spec fn escaped(self) -> ReviewPopoverView {
        if !self.visible || any_tracking(self.rows) || self.held() {
            self
        } else if self.detail is Some || self.showing_ignored {
            self.returned().turned(false)
        } else {
            self.closed()
        }
    }

    /// Whether a notification may not lead to its pull request yet: a control is in use, or
    /// changes are being saved or could not be.
    pub open spec fn reveal_deferred(self) -> bool {
        any_tracking(self.rows) || self.held() || self.keyboard_state.recording is Some || match self.detail {
            Some(panel) => panel.failed(self.action_state),
            None => false,
        }
    }

    /// A notification leads to its pull request: the active list is shown.
    pub open spec fn reveal_prepared(self) -> (ReviewPopoverView, bool) {
        if self.reveal_deferred() {
            (self, false)
        } else {
            let left = if self.detail is Some {
                self.returned()
            } else {
                self
            };
            (left.turned(false), true)
        }
    }

    /// Nothing flashes.
    pub open spec fn calm(self) -> ReviewPopoverView {
        ReviewPopoverView { flash: None, tint: None, ..self }
    }

    /// The list is to be scrolled to a pull request, which flashes.
    pub open spec fn scrolled_to(self, pr: Option<Seq<char>>, clock: u64) -> ReviewPopoverView {
        let selected = self.calm().with_list(self.list().selecting(pr));
        ReviewPopoverView {
            flash: match pr {
                Some(pr) => Some(FlashView { pr, started: clock }),
                None => None,
            },
            pending_scroll: pr,
            ..selected
        }
    }

    /// The flashing goes on, while the pull request is shown and selected, or is over.
    pub open spec fn animated(self, clock: u128) -> (ReviewPopoverView, Option<u128>) {
        match self.flash {
            None => (self, None),
            Some(flash) => if self.visible && self.detail is None && !self.showing_ignored
                && self.active.navigation.selected == Some(flash.pr) && self.rows.contains_key(flash.pr) {
                match flash.phase_at(clock) {
                    Some((blue, next)) => (ReviewPopoverView { tint: Some(blue), ..self }, Some(next)),
                    None => (self.calm(), None),
                }
            } else {
                (self.calm(), None)
            },
        }
    }

    /// A pull request that is shown is selected.
    pub open spec fn highlighted(self, id: Seq<char>) -> ReviewPopoverView {
        if self.rows.contains_key(id) {
            self.with_list(self.list().selecting(Some(id)))
        } else {
            self
        }
    }

    /// Whether the inbox takes shortcuts.
    pub open spec fn takes_shortcuts(self) -> bool {
        self.visible && self.detail is None && !any_tracking(self.rows)
    }

    /// Whether the inbox shows the settings.
    pub open spec fn shows_settings(self) -> bool {
        self.detail matches Some(panel) && panel is Settings
    }

    /// The settings are opened.
    pub open spec fn with_settings(self, heading: Seq<char>) -> ReviewPopoverView {
        if self.held() || self.shows_settings() {
            self
        } else {
            self.with_panel(
                DetailPanelView::Settings(
                    crate::macos::popover::settings::SettingsEditorView::initial(heading),
                ),
            )
        }
    }

    /// What a shortcut does to the selected pull request.
    pub open spec fn acted(self, action: HotkeyAction, id: Seq<char>) -> ReviewPopoverView {
        let row = self.rows[id];
        if !self.rows.contains_key(id) {
            self
        } else {
            match action {
                HotkeyAction::Acknowledge => if !self.showing_ignored && row.title_enabled {
                    self.asking(GestureView::Click(row.acknowledge))
                } else {
                    self
                },
                HotkeyAction::OpenPr => if row.open_enabled {
                    self.asking(GestureView::Click(row.open))
                } else {
                    self
                },
                HotkeyAction::Details => self.asking(GestureView::Click(row.disclosure)),
                HotkeyAction::Actions => if !self.showing_ignored && !row.actions.menu_hidden {
                    self.asking(GestureView::OpenMenu(id))
                } else {
                    self
                },
                _ => self,
            }
        }
    }

    /// A shortcut. The result says whether the inbox is to be drawn anew.
    pub open spec fn performed(self, action: HotkeyAction) -> (ReviewPopoverView, bool) {
        if !self.takes_shortcuts() {
            (self, false)
        } else if action == HotkeyAction::Next || action == HotkeyAction::Previous {
            let list = self.list();
            let stepped = ListStateView {
                navigation: list.navigation.stepped(action == HotkeyAction::Next),
                ..list
            };
            (ReviewPopoverView { pending_scroll: stepped.navigation.selected, ..self.with_list(stepped) }, true)
        } else if action == HotkeyAction::Refresh {
            (
                if !self.showing_ignored && self.screen.refresh_enabled {
                    self.asking(GestureView::Click(PressView::PopoverAction(ActionView::Refresh)))
                } else {
                    self
                },
                false,
            )
        } else {
            (
                match self.list().navigation.selected {
                    Some(id) => self.acted(action, id),
                    None => self,
                },
                false,
            )
        }
    }

    /// The details of a pull request are shown or hidden.
    pub open spec fn details_toggled(self, id: Seq<char>) -> ReviewPopoverView {
        let list = self.list();
        self.with_list(
            ListStateView {
                expanded: if list.expanded.contains(id) {
                    list.expanded.remove(id)
                } else {
                    list.expanded.insert(id)
                },
                ..list
            },
        )
    }

    /// A request about a label was handled.
    pub open spec fn label_handled(self) -> ReviewPopoverView {
        ReviewPopoverView {
            pending_label_requests: if self.pending_label_requests > 0 {
                (self.pending_label_requests - 1) as u64
            } else {
                0
            },
            ..self
        }
    }

    /// A menu of a row opens or closes.
    pub open spec fn menu_used(self, id: Seq<char>, open: bool) -> ReviewPopoverView {
        let changed = ReviewPopoverView { rows: marked(self.rows, id, open), ..self };
        if open {
            changed
        } else {
            changed.asking(GestureView::Refresh)
        }
    }

    /// A control is used. A change of a label keeps the panel until it is handled; a merge,
    /// like a click on a title, acknowledges the update that is shown.
    pub open spec fn pressed(self, press: PressView, on: bool) -> ReviewPopoverView {
        match press {
            PressView::PrAction(request) => {
                let sent = with_state(request, on);
                let counted = if sent is Label {
                    ReviewPopoverView {
                        pending_label_requests: if self.pending_label_requests < u64::MAX {
                            (self.pending_label_requests + 1) as u64
                        } else {
                            self.pending_label_requests
                        },
                        ..self
                    }.asking(GestureView::Refresh)
                } else {
                    self
                };
                let done = counted.asking(GestureView::Send(sent));
                match sent {
                    RequestView::Merge { pr, head, update } => done.asking(GestureView::Acknowledge { pr, update }),
                    _ => done,
                }
            },
            PressView::PopoverAction(ActionView::Ack { pr, update, checked }) => self.asking(
                GestureView::Highlight(pr),
            ).asking(GestureView::Queue(press)),
            _ => self.asking(GestureView::Queue(press)),
        }
    }

    /// What is wrong.
    pub open spec fn message(self, news: NewsView) -> Option<Seq<char>> {
        if self.action_state.error is Some {
            self.action_state.error
        } else {
            news.error
        }
    }

    /// A panel is drawn anew.
    pub open spec fn panel_drawn(self, panel: DetailPanelView, news: NewsView) -> ReviewPopoverView {
        let message = self.message(news);
        ReviewPopoverView {
            screen: ScreenView {
                title: panel.title_text(),
                title_tooltip: Some(panel.title_text()),
                summary: match message {
                    Some(message) => message,
                    None => panel.subtitle_text(),
                },
                summary_tooltip: message,
                refresh_hidden: true,
                menu_hidden: true,
                back_hidden: false,
                back_enabled: !self.held(),
                ..self.screen
            },
            detail: Some(panel.updated(news.prs, self.action_state, self.keyboard_state, self.update_state)),
            ..self
        }
    }

    /// A list is drawn anew.
    pub open spec fn list_drawn(self, news: NewsView) -> ReviewPopoverView {
        let ignored = self.showing_ignored;
        let sorted = macos::shown_order(news.prs);
        let ids = ids_of(sorted);
        let list = ListStateView {
            navigation: self.list().navigation.updated(ids),
            expanded: self.list().expanded.intersect(ids.to_set()),
        };
        let rows = rows_of(sorted, list.expanded, ignored, self.action_state, news.now, news.times);
        let drawn = ReviewPopoverView {
            rows,
            tint: None,
            screen: ScreenView {
                title: if ignored {
                    "Ignored PRs"@
                } else {
                    identity::identity_of(self.dev).header
                },
                title_tooltip: None,
                summary: summary_of(news.prs, ignored, news.loading),
                summary_tooltip: None,
                refresh_hidden: ignored,
                refresh_enabled: !news.loading,
                refresh_title: if news.loading {
                    "Refreshing..."@
                } else {
                    "Refresh"@
                },
                menu_hidden: ignored,
                back_hidden: !ignored,
                back_enabled: !self.held(),
                banner: self.message(news),
                empty: if news.prs.len() == 0 {
                    Some(empty_text(ignored))
                } else {
                    None
                },
                at_login: news.bundled && news.at_login,
                selected: list.navigation.selected,
                lines: lines_of(sorted),
            },
            restore_scroll: false,
            pending_scroll: None,
            ..self.with_list(list)
        };
        let restored = if self.restore_scroll {
            drawn.asking(GestureView::RestoreScroll(ignored))
        } else {
            drawn
        };
        match self.pending_scroll {
            Some(id) => if rows.contains_key(id) {
                restored.asking(GestureView::Reveal(id))
            } else {
                restored
            },
            None => restored,
        }
    }

    /// The inbox is drawn anew, unless a menu of a row is open: then everything stays as the
    /// user sees it.
    #[verifier::opaque]
    pub open spec fn drawn(self, news: NewsView) -> ReviewPopoverView {
        if any_tracking(self.rows) {
            self
        } else {
            match self.detail {
                Some(panel) => self.panel_drawn(panel, news),
                None => self.list_drawn(news),
            }
        }
    }
}

impl ListState {
    /// Nothing is selected and no details are shown.
    pub fn new() -> (r: Self)
        ensures
            r@ == ListStateView::blank(),
    {
        let expanded: TextMap<()> = TextMap::new();
        assert(expanded@.dom() =~= Set::empty());
        ListState { navigation: Navigation::default(), expanded }
    }
}

impl ReviewPopoverView {
    /// The inbox of a build before anything is known.
    pub open spec fn blank(dev: bool) -> ReviewPopoverView {
        ReviewPopoverView {
            dev,
            visible: false,
            showing_ignored: false,
            restore_scroll: false,
            pending_scroll: None,
            flash: None,
            tint: None,
            active: ListStateView::blank(),
            ignored: ListStateView::blank(),
            keyboard_state: KeyboardStateView::blank(),
            update_state: UpdateStateView::unknown(Seq::empty()),
            action_state: ActionStateView::blank(),
            detail: None,
            rows: Map::empty(),
            screen: ScreenView {
                title: identity::identity_of(dev).header,
                title_tooltip: None,
                summary: "Waiting for GitHub…"@,
                summary_tooltip: None,
                refresh_hidden: false,
                refresh_enabled: true,
                refresh_title: "Refresh"@,
                menu_hidden: false,
                back_hidden: true,
                back_enabled: true,
                banner: None,
                empty: Some(empty_text(false)),
                at_login: false,
                selected: None,
                lines: Seq::empty(),
            },
            pending_label_requests: 0,
            gestures: Seq::empty(),
        }
    }
}

impl ReviewPopover {
    /// The inbox of a build.
    pub fn new(dev: bool) -> (r: Self)
        ensures
            r@ == ReviewPopoverView::blank(dev),
    {
        let lines: Vec<Line> = Vec::new();
        assert(lines.deep_view() =~= Seq::empty());
        let gestures: Vec<Gesture> = Vec::new();
        assert(gestures.deep_view() =~= Seq::empty());
        ReviewPopover {
            dev,
            visible: false,
            showing_ignored: false,
            restore_scroll: false,
            pending_scroll: None,
            flash: None,
            tint: None,
            active: ListState::new(),
            ignored: ListState::new(),
            keyboard_state: KeyboardState::default(),
            update_state: UpdateState::default(),
            action_state: ActionState::default(),
            detail: None,
            rows: TextMap::new(),
            screen: Screen {
                title: identity::header(dev).to_owned(),
                title_tooltip: None,
                summary: "Waiting for GitHub…".to_owned(),
                summary_tooltip: None,
                refresh_hidden: false,
                refresh_enabled: true,
                refresh_title: "Refresh".to_owned(),
                menu_hidden: false,
                back_hidden: true,
                back_enabled: true,
                banner: None,
                empty: Some("No open pull requests. Gopher will keep checking for you.".to_owned()),
                at_login: false,
                selected: None,
                lines,
            },
            pending_label_requests: 0,
            gestures,
        }
    }

    /// Takes what is asked for.
    pub fn take_gestures(&mut self) -> (r: Vec<Gesture>)
        ensures
            r.deep_view() == old(self)@.gestures,
            final(self)@ == (ReviewPopoverView { gestures: Seq::empty(), ..old(self)@ }),
    {
        let mut taken: Vec<Gesture> = Vec::new();
        std::mem::swap(&mut self.gestures, &mut taken);
        assert(self.gestures.deep_view() =~= Seq::empty());
        taken
    }

    /// Asks for something.
    fn ask(&mut self, gesture: Gesture)
        ensures
            final(self)@ == old(self)@.asking(gesture@),
    {
        let ghost before = self.gestures.deep_view();
        self.gestures.push(gesture);
        assert(self.gestures.deep_view() =~= before.push(gesture@));
    }

    /// Selects a pull request in the list that is shown.
    fn select(&mut self, id: Option<String>)
        ensures
            final(self)@ == old(self)@.with_list(old(self)@.list().selecting(id.deep_view())),
    {
        if self.showing_ignored {
            self.ignored.navigation.selected = id;
        } else {
            self.active.navigation.selected = id;
        }
    }

    /// Whether a menu of a row is open.
    fn is_tracking(&self) -> (r: bool)
        ensures
            r == any_tracking(self@.rows),
    {
        is_any_tracking(&self.rows)
    }

    /// Whether changes of labels are being saved.
    pub fn labels_saving(&self) -> (r: bool)
        ensures
            r == self@.labels_busy(),
    {
        self.pending_label_requests > 0 || match &self.detail {
            Some(panel) => panel.labels_saving(&self.action_state),
            None => false,
        }
    }

    /// Whether nothing may be left.
    fn is_held(&self) -> (r: bool)
        ensures
            r == self@.held(),
    {
        self.labels_saving() || self.keyboard_state.pending
    }

    /// Opens or closes the inbox.
    pub fn toggle(&mut self)
        ensures
            final(self)@ == old(self)@.toggled(),
    {
        if self.visible {
            self.close();
        } else {
            self.show();
        }
    }

    /// Closes the inbox.
    fn close(&mut self)
        ensures
            final(self)@ == old(self)@.closed(),
    {
        self.visible = false;
        self.ask(Gesture::Close);
    }

    /// Shows the inbox; it is never closed by that.
    pub fn show(&mut self)
        ensures
            final(self)@ == old(self)@.presented(),
    {
        if !self.visible {
            self.visible = true;
            self.active.navigation.selected = None;
            self.ignored.navigation.selected = None;
            self.screen.selected = None;
        }
        self.ask(Gesture::Present);
    }

    /// Whether the ignored pull requests are shown.
    pub fn is_showing_ignored(&self) -> (r: bool)
        ensures
            r == self@.showing_ignored,
    {
        self.showing_ignored
    }

    /// Shows the ignored or the active pull requests.
    pub fn show_ignored(&mut self, ignored: bool)
        ensures
            final(self)@ == old(self)@.turned(ignored),
    {
        if self.showing_ignored != ignored {
            let left = self.showing_ignored;
            self.ask(Gesture::SaveScroll(left));
            self.showing_ignored = ignored;
            self.restore_scroll = true;
        }
    }

    /// Shows a panel in place of the list.
    fn show_detail(&mut self, panel: DetailPanel)
        ensures
            final(self)@ == old(self)@.with_panel(panel@),
    {
        if self.detail.is_none() {
            let left = self.showing_ignored;
            self.ask(Gesture::SaveScroll(left));
        }
        self.detail = Some(panel);
        self.ask(Gesture::ShowPanel);
        self.ask(Gesture::ScrollToTop);
    }

    /// Configures the actions of a repository.
    pub fn configure_repo(&mut self, repo: &str)
        ensures
            final(self)@ == old(self)@.with_panel(
                DetailPanelView::Configuration(
                    crate::macos::popover::action_views::ConfigEditorView::showing(
                        repo@,
                        crate::actions::Preferences::initial(),
                    ),
                ),
            ),
    {
        self.show_detail(DetailPanel::configuration(repo));
    }

    /// Shows the labels of a pull request.
    pub fn show_labels(&mut self, pr: &PullRequest)
        ensures
            final(self)@ == old(self)@.with_panel(labels_panel(pr@)),
    {
        let panel = DetailPanel::labels(pr);
        assert(panel@ == labels_panel(pr@));
        self.show_detail(panel);
    }

    /// Opens the settings.
    pub fn settings(&mut self, heading: String)
        ensures
            final(self)@ == old(self)@.with_settings(heading@),
    {
        if self.is_held() {
            return;
        }
        if let Some(DetailPanel::Settings(_)) = &self.detail {
            return;
        }
        self.show_detail(DetailPanel::settings(heading));
    }

    /// Goes back.
    pub fn back(&mut self)
        ensures
            final(self)@ == old(self)@.returned(),
    {
        if self.is_held() {
            return;
        }
        if self.detail.is_some() {
            self.detail = None;
            self.restore_scroll = true;
            self.ask(Gesture::ShowList);
        } else {
            self.show_ignored(false);
        }
    }

    /// The Escape key.
    pub fn escape(&mut self)
        ensures
            final(self)@ == old(self)@.escaped(),
    {
        if !self.visible || self.is_tracking() || self.is_held() {
            return;
        }
        if self.detail.is_some() || self.showing_ignored {
            self.back();
            self.show_ignored(false);
        } else {
            self.close();
        }
    }

    /// Prepares for a notification that leads to its pull request. The result says whether
    /// that may happen now.
    pub fn prepare_notification_reveal(&mut self) -> (r: bool)
        ensures
            (final(self)@, r) == old(self)@.reveal_prepared(),
    {
        let failed = match &self.detail {
            Some(panel) => panel.label_error(&self.action_state),
            None => false,
        };
        if self.is_tracking() || self.is_held() || self.keyboard_state.recording.is_some() || failed {
            return false;
        }
        if self.detail.is_some() {
            self.back();
        }
        self.show_ignored(false);
        true
    }

    /// Nothing flashes.
    fn stop_flash(&mut self)
        ensures
            final(self)@ == old(self)@.calm(),
    {
        self.flash = None;
        self.tint = None;
    }

    /// The list is to be scrolled to a pull request, which flashes.
    pub fn scroll_to_pr(&mut self, pr: Option<String>, clock: u64)
        ensures
            final(self)@ == old(self)@.scrolled_to(pr.deep_view(), clock),
    {
        self.stop_flash();
        let selected = text::copy_option(&pr);
        let flashing = text::copy_option(&pr);
        self.select(selected);
        self.flash = match flashing {
            Some(pr) => Some(Flash::new(pr, clock)),
            None => None,
        };
        self.pending_scroll = pr;
    }

    /// Whether the pull request that flashes is shown and selected.
    fn flash_shown(&self, flash: &Flash) -> (r: bool)
        ensures
            r == (self@.visible && self@.detail is None && !self@.showing_ignored && self@.active.navigation.selected == Some(
                flash@.pr,
            ) && self@.rows.contains_key(flash@.pr)),
    {
        let selected = match &self.active.navigation.selected {
            Some(id) => text::same(id, &flash.pr),
            None => false,
        };
        self.visible && self.detail.is_none() && !self.showing_ignored && selected && self.rows.contains_key(&flash.pr)
    }

    /// The flashing goes on or is over. The result says when to ask again.
    pub fn animate(&mut self, clock: u128) -> (r: Option<u128>)
        ensures
            (final(self)@, r) == old(self)@.animated(clock),
    {
        let phase = match &self.flash {
            None => {
                return None;
            },
            Some(flash) => if self.flash_shown(flash) {
                flash.phase(clock)
            } else {
                None
            },
        };
        match phase {
            Some((blue, next)) => {
                self.tint = Some(blue);
                Some(next)
            },
            None => {
                self.stop_flash();
                None
            },
        }
    }

    /// Selects a pull request that is shown.
    pub fn highlight(&mut self, id: String)
        ensures
            final(self)@ == old(self)@.highlighted(id@),
    {
        if self.rows.contains_key(&id) {
            self.select(Some(id));
        }
    }

    /// Whether the inbox takes shortcuts, and whether it shows the settings.
    pub fn keyboard_context(&self) -> (r: (bool, bool))
        ensures
            r.0 == self@.takes_shortcuts(),
            r.1 == self@.shows_settings(),
    {
        let settings = match &self.detail {
            Some(DetailPanel::Settings(_)) => true,
            _ => false,
        };
        (self.visible && self.detail.is_none() && !self.is_tracking(), settings)
    }

    /// What a shortcut does to the selected pull request.
    fn act(&mut self, action: HotkeyAction, id: &str)
        ensures
            final(self)@ == old(self)@.acted(action, id@),
    {
        let gesture = match self.rows.get(id) {
            None => None,
            Some(row) => match action {
                HotkeyAction::Acknowledge => if !self.showing_ignored && row.title_enabled {
                    Some(Gesture::Click(row.acknowledge.clone()))
                } else {
                    None
                },
                HotkeyAction::OpenPr => if row.open_enabled {
                    Some(Gesture::Click(row.open.clone()))
                } else {
                    None
                },
                HotkeyAction::Details => Some(Gesture::Click(row.disclosure.clone())),
                HotkeyAction::Actions => if !self.showing_ignored && !row.actions.menu_hidden {
                    Some(Gesture::OpenMenu(id.to_owned()))
                } else {
                    None
                },
                _ => None,
            },
        };
        if let Some(gesture) = gesture {
            self.ask(gesture);
        }
    }

    /// The selection moves.
    fn step(&mut self, forward: bool)
        ensures
            ({
                let list = old(self)@.list();
                let stepped = ListStateView { navigation: list.navigation.stepped(forward), ..list };
                final(self)@ == (ReviewPopoverView {
                    pending_scroll: stepped.navigation.selected,
                    ..old(self)@.with_list(stepped)
                })
            }),
    {
        if self.showing_ignored {
            self.ignored.navigation.step(forward);
            self.pending_scroll = text::copy_option(&self.ignored.navigation.selected);
        } else {
            self.active.navigation.step(forward);
            self.pending_scroll = text::copy_option(&self.active.navigation.selected);
        }
    }

    /// A shortcut. The result says whether the inbox is to be drawn anew.
    pub fn shortcut(&mut self, action: HotkeyAction) -> (r: bool)
        ensures
            (final(self)@, r) == old(self)@.performed(action),
    {
        if !self.visible || self.detail.is_some() || self.is_tracking() {
            return false;
        }
        if action == HotkeyAction::Next || action == HotkeyAction::Previous {
            self.step(action == HotkeyAction::Next);
            return true;
        }
        if action == HotkeyAction::Refresh {
            if !self.showing_ignored && self.screen.refresh_enabled {
                self.ask(Gesture::Click(Press::PopoverAction(Action::Refresh)));
            }
            return false;
        }
        let selected = if self.showing_ignored {
            text::copy_option(&self.ignored.navigation.selected)
        } else {
            text::copy_option(&self.active.navigation.selected)
        };
        if let Some(id) = selected {
            self.act(action, &id);
        }
        false
    }

    /// Shows or hides the details of a pull request.
    pub fn toggle_details(&mut self, id: &str)
        ensures
            final(self)@ == old(self)@.details_toggled(id@),
    {
        let ghost before = self@.list().expanded;
        if self.showing_ignored {
            if self.ignored.expanded.contains_key(id) {
                let _ = self.ignored.expanded.remove(id);
            } else {
                self.ignored.expanded.insert(id.to_owned(), ());
            }
        } else {
            if self.active.expanded.contains_key(id) {
                let _ = self.active.expanded.remove(id);
            } else {
                self.active.expanded.insert(id.to_owned(), ());
            }
        }
        assert(self@.list().expanded =~= (if before.contains(id@) {
            before.remove(id@)
        } else {
            before.insert(id@)
        }));
    }

    /// A request about a label was handled.
    pub fn label_request_handled(&mut self)
        ensures
            final(self)@ == old(self)@.label_handled(),
    {
        if self.pending_label_requests > 0 {
            self.pending_label_requests = self.pending_label_requests - 1;
        }
    }

    /// A menu of a row opens or closes.
    pub fn row_menu(&mut self, id: &str, open: bool)
        ensures
            final(self)@ == old(self)@.menu_used(id@, open),
    {
        mark_tracking(&mut self.rows, id, open);
        if !open {
            self.ask(Gesture::Refresh);
        }
    }

    /// A control is used.
    pub fn press(&mut self, press: Press, on: bool)
        ensures
            final(self)@ == old(self)@.pressed(press@, on),
    {
        match press {
            Press::PrAction(request) => {
                let sent = match request {
                    Request::Configure { repo, change: Setting::Enabled(kind, _) } => Request::Configure {
                        repo,
                        change: Setting::Enabled(kind, on),
                    },
                    Request::Label { pr, name, selected: _ } => Request::Label { pr, name, selected: on },
                    other => other,
                };
                assert(sent@ == with_state(request@, on));
                if let Request::Label { .. } = &sent {
                    if self.pending_label_requests < u64::MAX {
                        self.pending_label_requests = self.pending_label_requests + 1;
                    }
                    self.ask(Gesture::Refresh);
                }
                let acknowledged = match &sent {
                    Request::Merge { pr, head: _, update } => Some((pr.clone(), update.clone())),
                    _ => None,
                };
                self.ask(Gesture::Send(sent));
                if let Some((pr, update)) = acknowledged {
                    self.ask(Gesture::Acknowledge { pr, update });
                }
            },
            Press::PopoverAction(Action::Ack { pr, update, checked }) => {
                self.ask(Gesture::Highlight(pr.clone()));
                self.ask(Gesture::Queue(Press::PopoverAction(Action::Ack { pr, update, checked })));
            },
            other => {
                self.ask(Gesture::Queue(other));
            },
        }
    }

    /// What is wrong.
    fn message_of(&self, error: Option<&str>) -> (r: Option<String>)
        ensures
            r.deep_view() == (if self@.action_state.error is Some {
                self@.action_state.error
            } else {
                exchange::account_view(error)
            }),
    {
        match &self.action_state.error {
            Some(message) => Some(message.clone()),
            None => match error {
                Some(message) => Some(message.to_owned()),
                None => None,
            },
        }
    }

    /// Draws a panel anew.
    fn draw_panel(&mut self, panel: DetailPanel, news: &News)
        requires
            old(self)@.detail is None,
        ensures
            final(self)@ == (ReviewPopoverView { detail: Some(panel@), ..old(self)@ }).panel_drawn(panel@, news@),
    {
        let ghost shown = ReviewPopoverView { detail: Some(panel@), ..self@ };
        let mut panel = panel;
        let held = self.pending_label_requests > 0 || panel.labels_saving(&self.action_state)
            || self.keyboard_state.pending;
        let title = panel.title();
        let message = self.message_of(news.error);
        self.screen.back_enabled = !held;
        self.screen.refresh_hidden = true;
        self.screen.menu_hidden = true;
        self.screen.back_hidden = false;
        self.screen.title_tooltip = Some(title.clone());
        self.screen.title = title;
        self.screen.summary = match &message {
            Some(message) => message.clone(),
            None => panel.subtitle().to_owned(),
        };
        self.screen.summary_tooltip = message;
        panel.update(news.prs, &self.action_state, &self.keyboard_state, &self.update_state);
        self.detail = Some(panel);
        assert(self@.screen =~= shown.panel_drawn(shown.detail->Some_0, news@).screen);
    }

    /// The state of the list that is shown, taken up anew.
    fn renew_list(&mut self, ids: Vec<String>)
        ensures
            final(self)@ == old(self)@.with_list(
                ListStateView {
                    navigation: old(self)@.list().navigation.updated(ids.deep_view()),
                    expanded: old(self)@.list().expanded.intersect(ids.deep_view().to_set()),
                },
            ),
    {
        let ghost before = self@.list();
        let known = id_set(&ids);
        if self.showing_ignored {
            self.ignored.expanded.restrict(&known);
            self.ignored.navigation.update(ids);
        } else {
            self.active.expanded.restrict(&known);
            self.active.navigation.update(ids);
        }
        assert(self@.list().expanded =~= before.expanded.intersect(ids.deep_view().to_set()));
    }

    /// Draws a list anew.
    fn draw_list(&mut self, news: &News)
        ensures
            final(self)@ == old(self)@.list_drawn(news@),
    {
        let ghost start = self@;
        let ignored = self.showing_ignored;
        let held = self.is_held();
        let sorted = by_repository(news.prs);
        let ids = id_list(&sorted);
        self.renew_list(ids);
        let selected = if ignored {
            text::copy_option(&self.ignored.navigation.selected)
        } else {
            text::copy_option(&self.active.navigation.selected)
        };
        let rows = if ignored {
            make_rows(&sorted, &self.ignored.expanded, ignored, &self.action_state, news.now, news.times)
        } else {
            make_rows(&sorted, &self.active.expanded, ignored, &self.action_state, news.now, news.times)
        };
        self.rows = rows;
        self.tint = None;
        let count = text::decimal(news.prs.len() as u64);
        let summary = if ignored {
            let counted = text::concat(&count, " ignored PRs");
            if news.loading {
                text::concat(&counted, " · loading details…")
            } else {
                counted
            }
        } else {
            let updates = text::concat(&text::decimal(count_updates(news.prs)), " updates");
            text::concat3(&count, " open PRs · ", &updates)
        };
        assert(summary@ =~= summary_of(news@.prs, ignored, news.loading));
        let banner = self.message_of(news.error);
        self.screen = Screen {
            title: if ignored {
                "Ignored PRs".to_owned()
            } else {
                identity::header(self.dev).to_owned()
            },
            title_tooltip: None,
            summary,
            summary_tooltip: None,
            refresh_hidden: ignored,
            refresh_enabled: !news.loading,
            refresh_title: if news.loading {
                "Refreshing...".to_owned()
            } else {
                "Refresh".to_owned()
            },
            menu_hidden: ignored,
            back_hidden: !ignored,
            back_enabled: !held,
            banner,
            empty: if news.prs.len() == 0 {
                Some(
                    if ignored {
                        "No ignored pull requests.".to_owned()
                    } else {
                        "No open pull requests. Gopher will keep checking for you.".to_owned()
                    },
                )
            } else {
                None
            },
            at_login: news.bundled && news.at_login,
            selected,
            lines: make_lines(&sorted),
        };
        let restore = self.restore_scroll;
        self.restore_scroll = false;
        let target = self.pending_scroll.take();
        if restore {
            self.ask(Gesture::RestoreScroll(ignored));
        }
        if let Some(id) = target {
            if self.rows.contains_key(&id) {
                self.ask(Gesture::Reveal(id));
            }
        }
        assert(self@.screen =~= start.list_drawn(news@).screen);
        assert(self@.gestures =~= start.list_drawn(news@).gestures);
    }

    /// Draws the inbox anew.
    pub fn update(&mut self, news: &News)
        ensures
            final(self)@ == old(self)@.drawn(news@),
    {
        proof {
            reveal(ReviewPopoverView::drawn);
        }
        if self.is_tracking() {
            return;
        }
        match self.detail.take() {
            Some(panel) => {
                self.draw_panel(panel, news);
            },
            None => {
                self.draw_list(news);
            },
        }
    }
}

/// The panel that chooses the labels of a pull request.
pub open spec fn labels_panel(pr: PullRequestView) -> DetailPanelView {
    DetailPanelView::Labels(
        crate::macos::popover::action_views::LabelPickerView {
            id: pr.snapshot.id,
            title: "Labels #"@ + text::decimal_of(pr.snapshot.number as nat) + " · "@ + macos::heading_of(
                pr.snapshot.repo,
            ),
            message: "Loading labels…"@,
            refresh_enabled: true,
            rows: Seq::empty(),
        },
    )
}

// ---------------------------------------------------------------- laws

/// While a menu of a row is open, the inbox stays as the user sees it, and neither Escape
/// nor a shortcut nor a notification changes it.
pub proof fn open_menus_hold_the_inbox(inbox: ReviewPopoverView, news: NewsView, action: HotkeyAction)
    requires
        any_tracking(inbox.rows),
    ensures
        inbox.drawn(news) == inbox,
        inbox.escaped() == inbox,
        inbox.performed(action) == (inbox, false),
        inbox.reveal_prepared() == (inbox, false),
{
    reveal(ReviewPopoverView::drawn);
}

/// While changes of labels or of shortcuts are being saved, the user cannot leave the panel:
/// neither with Back nor with Escape, nor by opening the settings, nor through a
/// notification.
pub proof fn saving_holds_the_panel(inbox: ReviewPopoverView, heading: Seq<char>)
    requires
        inbox.held(),
    ensures
        inbox.returned() == inbox,
        inbox.escaped() == inbox,
        inbox.with_settings(heading) == inbox,
        inbox.reveal_prepared() == (inbox, false),
{
}

/// A change of a label holds the panel from the moment of the click until it is handled.
pub proof fn label_clicks_hold_the_panel(inbox: ReviewPopoverView, pr: Seq<char>, name: Seq<char>, was: bool, on: bool)
    requires
        inbox.pending_label_requests < u64::MAX,
    ensures
        ({
            let clicked = inbox.pressed(
                PressView::PrAction(RequestView::Label { pr, name, selected: was }),
                on,
            );
            &&& clicked.held()
            &&& clicked.gestures.last() == GestureView::Send(RequestView::Label { pr, name, selected: on })
            &&& clicked.label_handled().pending_label_requests == inbox.pending_label_requests
        }),
{
}

/// Starting a merge acknowledges the update that is shown.
pub proof fn merges_acknowledge(inbox: ReviewPopoverView, pr: Seq<char>, head: Seq<char>, update: Seq<char>, on: bool)
    ensures
        inbox.pressed(PressView::PrAction(RequestView::Merge { pr, head, update }), on).gestures == inbox.gestures.push(
            GestureView::Send(RequestView::Merge { pr, head, update }),
        ).push(GestureView::Acknowledge { pr, update }),
{
}

/// A failed change of labels stays visible: no notification leads away from it.
pub proof fn failures_stay_visible(inbox: ReviewPopoverView, panel: DetailPanelView)
    requires
        inbox.detail == Some(panel),
        panel.failed(inbox.action_state),
    ensures
        inbox.reveal_prepared() == (inbox, false),
{
}

/// Showing the inbox never closes it, and keeps the selection of an open one.
pub proof fn showing_never_closes(inbox: ReviewPopoverView)
    ensures
        inbox.presented().visible,
        inbox.visible ==> inbox.presented().active == inbox.active && inbox.presented().ignored == inbox.ignored,
        !inbox.visible ==> inbox.presented().list().navigation.selected is None,
{
}

/// Drawing a list anew keeps the details that are shown, of every pull request that is still
/// there, and leaves the other list alone.
pub proof fn details_stay_open(inbox: ReviewPopoverView, news: NewsView, id: Seq<char>)
    requires
        !any_tracking(inbox.rows),
        inbox.detail is None,
    ensures
        ({
            let drawn = inbox.drawn(news);
            &&& drawn.list().expanded.contains(id) == (inbox.list().expanded.contains(id) && ids_of(
                macos::shown_order(news.prs),
            ).contains(id))
            &&& inbox.showing_ignored ==> drawn.active == inbox.active
            &&& !inbox.showing_ignored ==> drawn.ignored == inbox.ignored
        }),
{
    reveal(ReviewPopoverView::drawn);
}

/// Leaving a list and coming back restores how far it was scrolled: the place is remembered
/// when the list is left, and asked for when it is shown again.
pub proof fn scrolling_is_restored(inbox: ReviewPopoverView, news: NewsView, ignored: bool)
    requires
        inbox.showing_ignored != ignored,
        inbox.detail is None,
        !any_tracking(inbox.rows),
        inbox.pending_scroll is None,
    ensures
        inbox.turned(ignored).gestures.last() == GestureView::SaveScroll(!ignored),
        inbox.turned(ignored).drawn(news).gestures.last() == GestureView::RestoreScroll(ignored),
{
    reveal(ReviewPopoverView::drawn);
}

/// What flashes is what a notification led to, and only while it is shown and selected in
/// the list of active pull requests.
pub proof fn only_shown_rows_flash(inbox: ReviewPopoverView, clock: u128)
    requires
        inbox.animated(clock).1 is Some,
    ensures
        inbox.flash is Some,
        inbox.visible,
        inbox.detail is None,
        !inbox.showing_ignored,
        inbox.active.navigation.selected == Some(inbox.flash->Some_0.pr),
        inbox.rows.contains_key(inbox.flash->Some_0.pr),
{
}

} // verus!
