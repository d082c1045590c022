//! What is kept between runs: tables, the changes made to them, and what follows from them.

use crate::actions;
use crate::actions::{LabelCatalogue, LabelCatalogueView};
use crate::evidence;
use crate::hotkeys;
use crate::model::{PullRequest, PullRequestView, Snapshot, SnapshotView};
use crate::text;
use crate::text_map;
use crate::text_map::TextMap;
use vstd::prelude::*;

verus! {

broadcast use vstd::seq_lib::group_seq_properties;

/// The newest version of the tables that this library knows.
pub const VERSION: i64 = 2;

/// How many notifications are kept.
pub const KEPT_NOTICES: usize = 10_000;

/// A notification of an update.
#[derive(Debug)]
pub struct Notice {
    pub id: String,
    pub pr: String,
    pub update: String,
    pub url: String,
    pub delivered: bool,
}

/// The contents of a [`Notice`].
#[verifier::ext_equal]
pub struct NoticeView {
    pub id: Seq<char>,
    pub pr: Seq<char>,
    pub update: Seq<char>,
    pub url: Seq<char>,
    pub delivered: bool,
}

impl View for Notice {
    type V = NoticeView;

    open spec fn view(&self) -> NoticeView {
        NoticeView { id: self.id@, pr: self.pr@, update: self.update@, url: self.url@, delivered: self.delivered }
    }
}

impl DeepView for Notice {
    type V = NoticeView;

    open spec fn deep_view(&self) -> NoticeView {
        self@
    }
}

impl Clone for Notice {
    fn clone(&self) -> (r: Self)
        ensures
            r@ == self@,
    {
        Notice {
            id: self.id.clone(),
            pr: self.pr.clone(),
            update: self.update.clone(),
            url: self.url.clone(),
            delivered: self.delivered,
        }
    }
}

/// All tables. Notifications stand in the order in which they were added.
pub struct Tables {
    pub viewer: Option<String>,
    pub hotkeys: hotkeys::Preferences,
    pub prs: TextMap<PullRequest>,
    pub notices: Vec<Notice>,
    pub ignored: TextMap<()>,
    pub details: TextMap<PullRequest>,
    pub actions: TextMap<actions::Preferences>,
    pub catalogues: TextMap<TextMap<LabelCatalogue>>,
}

/// The contents of [`Tables`].
#[verifier::ext_equal]
pub struct TablesView {
    pub viewer: Option<Seq<char>>,
    pub hotkeys: hotkeys::PreferencesView,
    pub prs: Map<Seq<char>, PullRequestView>,
    pub notices: Seq<NoticeView>,
    pub ignored: Map<Seq<char>, ()>,
    pub details: Map<Seq<char>, PullRequestView>,
    pub actions: Map<Seq<char>, actions::Preferences>,
    pub catalogues: Map<Seq<char>, Map<Seq<char>, LabelCatalogueView>>,
}

impl View for Tables {
    type V = TablesView;

    open spec fn view(&self) -> TablesView {
        TablesView {
            viewer: self.viewer.deep_view(),
            hotkeys: self.hotkeys@,
            prs: self.prs@,
            notices: self.notices.deep_view(),
            ignored: self.ignored@,
            details: self.details@,
            actions: self.actions@,
            catalogues: self.catalogues@,
        }
    }
}

impl Default for Tables {
    fn default() -> (r: Self)
        ensures
            r@ == TablesView::blank(),
    {
        let r = Tables {
            viewer: None,
            hotkeys: hotkeys::Preferences::default(),
            prs: TextMap::new(),
            notices: Vec::new(),
            ignored: TextMap::new(),
            details: TextMap::new(),
            actions: TextMap::new(),
            catalogues: TextMap::new(),
        };
        assert(r.notices.deep_view() =~= Seq::empty());
        r
    }
}

/// A change of one table.
pub enum Change {
    SetViewer(String),
    SetHotkeys(hotkeys::Preferences),
    SetActions { repo: String, preferences: actions::Preferences },
    SetCatalogue { viewer: String, repo: String, catalogue: LabelCatalogue },
    SavePr(PullRequest),
    DropPr(String),
    ClearPrs,
    /// A notification that is not yet delivered, unless there is one of its identity.
    AddNotice { id: String, pr: String, update: String, url: String },
    Deliver(String),
    DropNotices(String),
    ClearNotices,
    /// Only the newest notifications stay.
    TrimNotices,
    Ignore(String),
    Unignore(String),
    SaveDetails { id: String, details: PullRequest },
    DropDetails(String),
}

/// The contents of a [`Change`].
pub enum ChangeView {
    SetViewer(Seq<char>),
    SetHotkeys(hotkeys::PreferencesView),
    SetActions { repo: Seq<char>, preferences: actions::Preferences },
    SetCatalogue { viewer: Seq<char>, repo: Seq<char>, catalogue: LabelCatalogueView },
    SavePr(PullRequestView),
    DropPr(Seq<char>),
    ClearPrs,
    AddNotice { id: Seq<char>, pr: Seq<char>, update: Seq<char>, url: Seq<char> },
    Deliver(Seq<char>),
    DropNotices(Seq<char>),
    ClearNotices,
    TrimNotices,
    Ignore(Seq<char>),
    Unignore(Seq<char>),
    SaveDetails { id: Seq<char>, details: PullRequestView },
    DropDetails(Seq<char>),
}

impl View for Change {
    type V = ChangeView;

    open spec fn view(&self) -> ChangeView {
        match self {
            Change::SetViewer(viewer) => ChangeView::SetViewer(viewer@),
            Change::SetHotkeys(preferences) => ChangeView::SetHotkeys(preferences@),
            Change::SetActions { repo, preferences } => ChangeView::SetActions { repo: repo@, preferences: *preferences },
            Change::SetCatalogue { viewer, repo, catalogue } => ChangeView::SetCatalogue {
                viewer: viewer@,
                repo: repo@,
                catalogue: catalogue@,
            },
            Change::SavePr(pr) => ChangeView::SavePr(pr@),
            Change::DropPr(id) => ChangeView::DropPr(id@),
            Change::ClearPrs => ChangeView::ClearPrs,
            Change::AddNotice { id, pr, update, url } => ChangeView::AddNotice {
                id: id@,
                pr: pr@,
                update: update@,
                url: url@,
            },
            Change::Deliver(id) => ChangeView::Deliver(id@),
            Change::DropNotices(pr) => ChangeView::DropNotices(pr@),
            Change::ClearNotices => ChangeView::ClearNotices,
            Change::TrimNotices => ChangeView::TrimNotices,
            Change::Ignore(id) => ChangeView::Ignore(id@),
            Change::Unignore(id) => ChangeView::Unignore(id@),
            Change::SaveDetails { id, details } => ChangeView::SaveDetails { id: id@, details: details@ },
            Change::DropDetails(id) => ChangeView::DropDetails(id@),
        }
    }
}

impl DeepView for Change {
    type V = ChangeView;

    open spec fn deep_view(&self) -> ChangeView {
        self@
    }
}

/// The place of the notification of an identity.
pub open spec fn notice_place(notices: Seq<NoticeView>, id: Seq<char>) -> Option<int>
    decreases notices.len(),
{
    if notices.len() == 0 {
        None
    } else {
        match notice_place(notices.drop_last(), id) {
            Some(i) => Some(i),
            None => if notices.last().id == id {
                Some(notices.len() - 1)
            } else {
                None
            },
        }
    }
}

/// The notification of an identity.
pub open spec fn notice_of(notices: Seq<NoticeView>, id: Seq<char>) -> Option<NoticeView> {
    match notice_place(notices, id) {
        Some(i) => Some(notices[i]),
        None => None,
    }
}

/// The notifications of other pull requests.
pub open spec fn notices_without(notices: Seq<NoticeView>, pr: Seq<char>) -> Seq<NoticeView>
    decreases notices.len(),
{
    if notices.len() == 0 {
        Seq::empty()
    } else if notices.last().pr == pr {
        notices_without(notices.drop_last(), pr)
    } else {
        notices_without(notices.drop_last(), pr).push(notices.last())
    }
}

/// The newest notifications.
pub open spec fn newest(notices: Seq<NoticeView>) -> Seq<NoticeView> {
    if notices.len() <= KEPT_NOTICES {
        notices
    } else {
        notices.skip(notices.len() - KEPT_NOTICES)
    }
}

/// The identities of the notifications of a pull request: all of them, or those of one
/// update.
pub open spec fn notice_ids(notices: Seq<NoticeView>, pr: Seq<char>, update: Option<Seq<char>>) -> Seq<Seq<char>>
    decreases notices.len(),
{
    if notices.len() == 0 {
        Seq::empty()
    } else {
        let rest = notice_ids(notices.drop_last(), pr, update);
        let last = notices.last();
        if last.pr == pr && (update is None || update == Some(last.update)) {
            rest.push(last.id)
        } else {
            rest
        }
    }
}

/// The text that is digested for the identity of a notification.
pub open spec fn notice_key(pr: PullRequestView) -> Seq<char> {
    pr.snapshot.id + ":"@ + pr.update_id
}

/// The identity of the notification of an update.
pub open spec fn notice_id(pr: PullRequestView) -> Seq<char> {
    evidence::hash_of(vstd::utf8::encode_utf8(notice_key(pr)))
}

/// What is shown of an ignored pull request of which nothing is known.
pub open spec fn unavailable(id: Seq<char>) -> PullRequestView {
    PullRequestView::before_review(
        SnapshotView {
            id,
            repo: "Unavailable"@,
            title: "Pull request details unavailable"@,
            ..SnapshotView::blank()
        },
    )
}

/// A pull request as cached evidence.
pub open spec fn as_stale(pr: PullRequestView) -> PullRequestView {
    PullRequestView { stale: true, ..pr }
}

/// The pull requests of ignored identities that are not known to be closed.
pub open spec fn shown_ignored(ids: Seq<Seq<char>>, details: Map<Seq<char>, PullRequestView>) -> Seq<PullRequestView>
    decreases ids.len(),
{
    if ids.len() == 0 {
        Seq::empty()
    } else {
        let rest = shown_ignored(ids.drop_last(), details);
        let pr = as_stale(
            if details.contains_key(ids.last()) {
                details[ids.last()]
            } else {
                unavailable(ids.last())
            },
        );
        if pr.snapshot.number == 0 || pr.snapshot.open {
            rest.push(pr)
        } else {
            rest
        }
    }
}

/// What is known of an ignored pull request once a lookup of its status has come: its
/// identity and its lifecycle are current, and its evidence is kept.
pub open spec fn with_status(known: Option<PullRequestView>, snapshot: SnapshotView) -> PullRequestView {
    let pr = match known {
        Some(pr) => pr,
        None => PullRequestView::before_review(snapshot),
    };
    PullRequestView {
        snapshot: SnapshotView {
            repo: snapshot.repo,
            number: snapshot.number,
            title: snapshot.title,
            url: snapshot.url,
            open: snapshot.open,
            draft: snapshot.draft,
            ..pr.snapshot
        },
        stale: true,
        ..pr
    }
}

/// The catalogues of an account.
pub open spec fn catalogues_of(
    catalogues: Map<Seq<char>, Map<Seq<char>, LabelCatalogueView>>,
    viewer: Seq<char>,
) -> Map<Seq<char>, LabelCatalogueView> {
    if catalogues.contains_key(viewer) {
        catalogues[viewer]
    } else {
        Map::empty()
    }
}

impl TablesView {
    /// Nothing was ever kept.
    pub open spec fn blank() -> TablesView {
        TablesView {
            viewer: None,
            hotkeys: hotkeys::nothing_chosen(),
            prs: Map::empty(),
            notices: Seq::empty(),
            ignored: Map::empty(),
            details: Map::empty(),
            actions: Map::empty(),
            catalogues: Map::empty(),
        }
    }

    /// The tables after a change.
    pub open spec fn after(self, change: ChangeView) -> TablesView {
        match change {
            ChangeView::SetViewer(viewer) => TablesView { viewer: Some(viewer), ..self },
            ChangeView::SetHotkeys(preferences) => TablesView { hotkeys: preferences, ..self },
            ChangeView::SetActions { repo, preferences } => TablesView {
                actions: self.actions.insert(repo, preferences),
                ..self
            },
            ChangeView::SetCatalogue { viewer, repo, catalogue } => TablesView {
                catalogues: self.catalogues.insert(
                    viewer,
                    catalogues_of(self.catalogues, viewer).insert(repo, catalogue),
                ),
                ..self
            },
            ChangeView::SavePr(pr) => TablesView { prs: self.prs.insert(pr.snapshot.id, pr), ..self },
            ChangeView::DropPr(id) => TablesView { prs: self.prs.remove(id), ..self },
            ChangeView::ClearPrs => TablesView { prs: Map::empty(), ..self },
            ChangeView::AddNotice { id, pr, update, url } => if notice_place(self.notices, id) is Some {
                self
            } else {
                TablesView {
                    notices: self.notices.push(NoticeView { id, pr, update, url, delivered: false }),
                    ..self
                }
            },
            ChangeView::Deliver(id) => match notice_place(self.notices, id) {
                Some(i) => TablesView {
                    notices: self.notices.update(i, NoticeView { delivered: true, ..self.notices[i] }),
                    ..self
                },
                None => self,
            },
            ChangeView::DropNotices(pr) => TablesView { notices: notices_without(self.notices, pr), ..self },
            ChangeView::ClearNotices => TablesView { notices: Seq::empty(), ..self },
            ChangeView::TrimNotices => TablesView { notices: newest(self.notices), ..self },
            ChangeView::Ignore(id) => TablesView { ignored: self.ignored.insert(id, ()), ..self },
            ChangeView::Unignore(id) => TablesView { ignored: self.ignored.remove(id), ..self },
            ChangeView::SaveDetails { id, details } => TablesView { details: self.details.insert(id, details), ..self },
            ChangeView::DropDetails(id) => TablesView { details: self.details.remove(id), ..self },
        }
    }

    /// The tables after changes, one after the other.
    pub open spec fn after_all(self, changes: Seq<ChangeView>) -> TablesView
        decreases changes.len(),
    {
        if changes.len() == 0 {
            self
        } else {
            self.after_all(changes.drop_last()).after(changes.last())
        }
    }

    /// A pull request is ignored: it leaves the active ones, with its notifications, and
    /// what is known of it is kept aside.
    pub open spec fn with_ignored(self, id: Seq<char>) -> TablesView {
        TablesView {
            ignored: self.ignored.insert(id, ()),
            details: if self.prs.contains_key(id) {
                self.details.insert(id, self.prs[id])
            } else {
                self.details
            },
            prs: self.prs.remove(id),
            notices: notices_without(self.notices, id),
            ..self
        }
    }

    /// A pull request is no longer ignored.
    pub open spec fn with_restored(self, id: Seq<char>) -> TablesView {
        TablesView { ignored: self.ignored.remove(id), details: self.details.remove(id), ..self }
    }

    /// Whether an account is another one than before.
    pub open spec fn is_other_viewer(self, viewer: Seq<char>) -> bool {
        self.viewer is Some && self.viewer != Some(viewer)
    }

    /// An account is signed in. Where it is another one, nothing is kept of what the
    /// previous one saw.
    pub open spec fn with_viewer(self, viewer: Seq<char>) -> TablesView {
        if self.is_other_viewer(viewer) {
            TablesView { viewer: Some(viewer), prs: Map::empty(), notices: Seq::empty(), ..self }
        } else {
            TablesView { viewer: Some(viewer), ..self }
        }
    }

    /// Only some pull requests stay, and the newest notifications.
    pub open spec fn retained(self, ids: Set<Seq<char>>) -> TablesView {
        TablesView { prs: self.prs.restrict(ids), notices: newest(self.notices), ..self }
    }

    /// Whether an update may be announced: it was not delivered before.
    pub open spec fn may_announce(self, pr: PullRequestView) -> bool {
        match notice_of(self.notices, notice_id(pr)) {
            Some(notice) => !notice.delivered,
            None => true,
        }
    }

    /// The tables once an update is announced.
    pub open spec fn announced(self, pr: PullRequestView) -> TablesView {
        if self.may_announce(pr) {
            self.after(
                ChangeView::AddNotice {
                    id: notice_id(pr),
                    pr: pr.snapshot.id,
                    update: pr.update_id,
                    url: pr.snapshot.url,
                },
            )
        } else {
            self
        }
    }
}

/// An acknowledgement of an update, or its withdrawal, where the update is the current one.
pub open spec fn acknowledged(pr: PullRequestView, update: Seq<char>, checked: bool) -> PullRequestView {
    if pr.update_id != update {
        pr
    } else {
        PullRequestView {
            acknowledged: if checked {
                Some(update)
            } else {
                None
            },
            ..pr
        }
    }
}

/// The place of the notification of an identity.
fn find_notice(notices: &Vec<Notice>, id: &str) -> (r: Option<usize>)
    ensures
        match r {
            Some(i) => notice_place(notices.deep_view(), id@) == Some(i as int) && i < notices@.len(),
            None => notice_place(notices.deep_view(), id@) is None,
        },
{
    let ghost v = notices.deep_view();
    let mut i: usize = 0;
    assert(v.take(0) =~= Seq::empty());
    while i < notices.len()
        invariant
            v == notices.deep_view(),
            i <= notices@.len(),
            notice_place(v.take(i as int), id@) is None,
        decreases notices.len() - i,
    {
        assert(v.take(i + 1).drop_last() =~= v.take(i as int));
        if text::same(&notices[i].id, id) {
            proof {
                notice_places_stay(v, i + 1, id@);
            }
            return Some(i);
        }
        i += 1;
    }
    assert(v.take(i as int) =~= v);
    None
}

/// The first notification of an identity stays the first one.
proof fn notice_places_stay(notices: Seq<NoticeView>, i: int, id: Seq<char>)
    requires
        0 <= i <= notices.len(),
        notice_place(notices.take(i), id) is Some,
    ensures
        notice_place(notices, id) == notice_place(notices.take(i), id),
    decreases notices.len() - i,
{
    if i < notices.len() {
        assert(notices.take(i + 1).drop_last() =~= notices.take(i));
        notice_places_stay(notices, i + 1, id);
    } else {
        assert(notices.take(i) =~= notices);
    }
}

/// A found place is one of a notification of the identity.
proof fn notice_place_is_of(notices: Seq<NoticeView>, id: Seq<char>)
    ensures
        notice_place(notices, id) is Some ==> 0 <= notice_place(notices, id)->0 < notices.len() && notices[notice_place(
            notices,
            id,
        )->0].id == id,
    decreases notices.len(),
{
    if notices.len() > 0 {
        notice_place_is_of(notices.drop_last(), id);
    }
}

impl Tables {
    /// Makes a change.
    pub fn apply(&mut self, change: &Change)
        ensures
            final(self)@ == old(self)@.after(change@),
    {
        match change {
            Change::SetViewer(viewer) => {
                self.viewer = Some(viewer.clone());
            },
            Change::SetHotkeys(preferences) => {
                self.hotkeys = preferences.copy();
            },
            Change::SetActions { repo, preferences } => {
                self.actions.insert(repo.clone(), *preferences);
            },
            Change::SetCatalogue { viewer, repo, catalogue } => {
                let mut known = match self.catalogues.remove(viewer) {
                    Some(known) => known,
                    None => TextMap::new(),
                };
                known.insert(repo.clone(), catalogue.clone());
                self.catalogues.insert(viewer.clone(), known);
                assert(self@.catalogues =~= old(self)@.after(change@).catalogues);
            },
            Change::SavePr(pr) => {
                self.prs.insert(pr.snapshot.id.clone(), pr.clone());
            },
            Change::DropPr(id) => {
                let _ = self.prs.remove(id);
            },
            Change::ClearPrs => {
                self.prs = TextMap::new();
            },
            Change::AddNotice { id, pr, update, url } => {
                if find_notice(&self.notices, id).is_none() {
                    let ghost before = self.notices.deep_view();
                    let notice = Notice {
                        id: id.clone(),
                        pr: pr.clone(),
                        update: update.clone(),
                        url: url.clone(),
                        delivered: false,
                    };
                    let ghost view = notice@;
                    self.notices.push(notice);
                    assert(self.notices.deep_view() =~= before.push(view));
                }
            },
            Change::Deliver(id) => {
                if let Some(i) = find_notice(&self.notices, id) {
                    let ghost before = self.notices.deep_view();
                    let mut notice = self.notices[i].clone();
                    notice.delivered = true;
                    let ghost view = notice@;
                    self.notices.set(i, notice);
                    assert(self.notices.deep_view() =~= before.update(i as int, view));
                }
            },
            Change::DropNotices(pr) => {
                let kept = keep_notices(&self.notices, pr);
                self.notices = kept;
            },
            Change::ClearNotices => {
                self.notices = Vec::new();
                assert(self.notices.deep_view() =~= Seq::empty());
            },
            Change::TrimNotices => {
                let kept = newest_notices(&self.notices);
                self.notices = kept;
            },
            Change::Ignore(id) => {
                self.ignored.insert(id.clone(), ());
            },
            Change::Unignore(id) => {
                let _ = self.ignored.remove(id);
            },
            Change::SaveDetails { id, details } => {
                self.details.insert(id.clone(), details.clone());
            },
            Change::DropDetails(id) => {
                let _ = self.details.remove(id);
            },
        }
    }
}

/// The notifications of other pull requests.
fn keep_notices(notices: &Vec<Notice>, pr: &str) -> (r: Vec<Notice>)
    ensures
        r.deep_view() == notices_without(notices.deep_view(), pr@),
{
    let ghost v = notices.deep_view();
    let mut r: Vec<Notice> = Vec::new();
    let mut i: usize = 0;
    assert(v.take(0) =~= Seq::empty());
    assert(r.deep_view() =~= Seq::empty());
    while i < notices.len()
        invariant
            v == notices.deep_view(),
            i <= notices@.len(),
            r.deep_view() == notices_without(v.take(i as int), pr@),
        decreases notices.len() - i,
    {
        assert(v.take(i + 1).drop_last() =~= v.take(i as int));
        if !text::same(&notices[i].pr, pr) {
            let ghost before = r.deep_view();
            r.push(notices[i].clone());
            assert(r.deep_view() =~= before.push(v[i as int]));
        }
        i += 1;
    }
    assert(v.take(i as int) =~= v);
    r
}

/// The newest notifications.
fn newest_notices(notices: &Vec<Notice>) -> (r: Vec<Notice>)
    ensures
        r.deep_view() == newest(notices.deep_view()),
{
    let ghost v = notices.deep_view();
    let first: usize = if notices.len() <= KEPT_NOTICES {
        0
    } else {
        notices.len() - KEPT_NOTICES
    };
    let mut r: Vec<Notice> = Vec::new();
    let mut i: usize = first;
    assert(r.deep_view() =~= v.subrange(first as int, first as int));
    while i < notices.len()
        invariant
            v == notices.deep_view(),
            first <= i <= notices@.len(),
            r.deep_view() == v.subrange(first as int, i as int),
        decreases notices.len() - i,
    {
        let ghost before = r.deep_view();
        r.push(notices[i].clone());
        assert(r.deep_view() =~= before.push(v[i as int]));
        assert(r.deep_view() =~= v.subrange(first as int, i + 1));
        i += 1;
    }
    assert(r.deep_view() =~= newest(v));
    r
}

/// The tables, and the changes to them that are not yet written down.
pub struct Store {
    tables: Tables,
    changes: Vec<Change>,
    written: Ghost<TablesView>,
}

impl View for Store {
    type V = TablesView;

    closed spec fn view(&self) -> TablesView {
        self.tables@
    }
}

impl Store {
    /// What is written down.
    pub closed spec fn on_disk(&self) -> TablesView {
        self.written@
    }

    #[verifier::type_invariant]
    spec fn changes_explain_tables(&self) -> bool {
        self.tables@ == self.written@.after_all(self.changes.deep_view())
    }

    /// A store of tables that were read, given their version.
    pub fn open(version: i64, tables: Tables) -> (r: Result<Store, String>)
        ensures
            match r {
                Ok(store) => version <= VERSION && store@ == tables@ && store.on_disk() == tables@,
                Err(message) => version > VERSION && message@ == "Database belongs to a newer Gopher version"@,
            },
    {
        if version > VERSION {
            return Err("Database belongs to a newer Gopher version".to_owned());
        }
        let ghost view = tables@;
        let changes: Vec<Change> = Vec::new();
        assert(changes.deep_view() =~= Seq::empty());
        Ok(Store { tables, changes, written: Ghost(view) })
    }

    /// Hands out the changes that are not yet written down. Written down in their order,
    /// they make what is on disk the same as the tables.
    pub fn take_changes(&mut self) -> (r: Vec<Change>)
        ensures
            old(self).on_disk().after_all(r.deep_view()) == old(self)@,
            final(self)@ == old(self)@,
            final(self).on_disk() == old(self)@,
    {
        proof {
            use_type_invariant(&*self);
        }
        let mut own = Store::blank();
        std::mem::swap(self, &mut own);
        let Store { tables, changes, written: _ } = own;
        let ghost view = tables@;
        let none: Vec<Change> = Vec::new();
        assert(none.deep_view() =~= Seq::empty());
        *self = Store { tables, changes: none, written: Ghost(view) };
        changes
    }

    /// A store of nothing.
    fn blank() -> (r: Store)
        ensures
            r@ == TablesView::blank(),
            r.on_disk() == TablesView::blank(),
    {
        let tables = Tables::default();
        let changes: Vec<Change> = Vec::new();
        assert(changes.deep_view() =~= Seq::empty());
        Store { tables, changes, written: Ghost(TablesView::blank()) }
    }

    /// Makes a change, to be written down.
    fn record(&mut self, change: Change)
        ensures
            final(self)@ == old(self)@.after(change@),
            final(self).on_disk() == old(self).on_disk(),
    {
        proof {
            use_type_invariant(&*self);
        }
        let ghost written = self.written@;
        let mut own = Store::blank();
        std::mem::swap(self, &mut own);
        let Store { tables, changes, written: _ } = own;
        let mut tables = tables;
        let mut changes = changes;
        tables.apply(&change);
        let ghost before = changes.deep_view();
        let ghost view = change@;
        changes.push(change);
        assert(changes.deep_view() =~= before.push(view));
        assert(changes.deep_view().drop_last() =~= before);
        *self = Store { tables, changes, written: Ghost(written) };
    }

    /// Makes a change that is written down already.
    pub fn adopt(&mut self, change: Change)
        ensures
            final(self)@ == old(self)@.after(change@),
            final(self).on_disk() == old(self).on_disk() || (old(self).on_disk() == old(self)@ && final(self).on_disk()
                == final(self)@),
    {
        proof {
            use_type_invariant(&*self);
        }
        if self.changes.len() > 0 {
            self.record(change);
            return;
        }
        let mut own = Store::blank();
        std::mem::swap(self, &mut own);
        let Store { tables, changes, written: _ } = own;
        let mut tables = tables;
        assert(changes.deep_view() =~= Seq::empty());
        tables.apply(&change);
        let ghost view = tables@;
        *self = Store { tables, changes, written: Ghost(view) };
    }

    /// The shortcuts that the user chose.
    pub fn hotkeys(&self, dev: bool) -> (r: Result<hotkeys::Preferences, String>)
        ensures
            match r {
                Ok(preferences) => preferences@ == self@.hotkeys && hotkeys::fault_of(self@.hotkeys, dev) is None,
                Err(message) => hotkeys::fault_of(self@.hotkeys, dev) == Some(message@),
            },
    {
        match self.tables.hotkeys.validate(dev) {
            Ok(_) => Ok(self.tables.hotkeys.copy()),
            Err(message) => Err(message),
        }
    }

    /// Keeps shortcuts, if they are sound.
    pub fn save_hotkeys(&mut self, preferences: &hotkeys::Preferences, dev: bool) -> (r: Result<(), String>)
        ensures
            final(self).on_disk() == old(self).on_disk(),
            match r {
                Ok(_) => hotkeys::fault_of(preferences@, dev) is None && final(self)@ == (TablesView {
                    hotkeys: preferences@,
                    ..old(self)@
                }),
                Err(message) => hotkeys::fault_of(preferences@, dev) == Some(message@) && final(self)@ == old(self)@,
            },
    {
        match preferences.validate(dev) {
            Ok(_) => {
                self.record(Change::SetHotkeys(preferences.copy()));
                Ok(())
            },
            Err(message) => Err(message),
        }
    }

    /// The identities of ignored pull requests, in ascending order.
    pub fn ignored(&self) -> (r: Vec<String>)
        ensures
            r.deep_view() == text_map::sorted_keys(self@.ignored.dom()),
    {
        self.tables.ignored.key_list()
    }

    /// Whether no pull request is ignored.
    pub fn ignores_none(&self) -> (r: bool)
        ensures
            r == (self@.ignored == Map::<Seq<char>, ()>::empty()),
    {
        self.tables.ignored.is_empty()
    }

    /// Whether a pull request is ignored.
    pub fn is_ignored(&self, id: &str) -> (r: bool)
        ensures
            r == self@.ignored.contains_key(id@),
    {
        self.tables.ignored.contains_key(id)
    }

    /// The preferences of the repositories that were configured, by key.
    pub fn action_preferences(&self) -> (r: TextMap<actions::Preferences>)
        ensures
            r@ == self@.actions,
    {
        self.tables.actions.copy()
    }

    /// Keeps the preferences of a repository, however its name is written.
    pub fn save_action_preferences(&mut self, repo: &str, preferences: &actions::Preferences)
        ensures
            final(self)@ == (TablesView {
                actions: old(self)@.actions.insert(actions::repo_key_of(repo@), *preferences),
                ..old(self)@
            }),
            final(self).on_disk() == old(self).on_disk(),
    {
        self.record(Change::SetActions { repo: actions::repo_key(repo), preferences: *preferences });
    }

    /// The label catalogues of an account, by repository.
    pub fn label_catalogues(&self, viewer: &str) -> (r: TextMap<LabelCatalogue>)
        ensures
            r@ == catalogues_of(self@.catalogues, viewer@),
    {
        match self.tables.catalogues.get(viewer) {
            Some(catalogues) => catalogues.copy(),
            None => TextMap::new(),
        }
    }

    /// Keeps the label catalogue of a repository, for an account.
    pub fn save_label_catalogue(&mut self, viewer: &str, repo: &str, catalogue: &LabelCatalogue)
        ensures
            final(self)@ == (TablesView {
                catalogues: old(self)@.catalogues.insert(
                    viewer@,
                    catalogues_of(old(self)@.catalogues, viewer@).insert(actions::repo_key_of(repo@), catalogue@),
                ),
                ..old(self)@
            }),
            final(self).on_disk() == old(self).on_disk(),
    {
        self.record(
            Change::SetCatalogue {
                viewer: viewer.to_owned(),
                repo: actions::repo_key(repo),
                catalogue: catalogue.clone(),
            },
        );
    }

    /// Ignores a pull request. What comes back are the notifications that it had.
    pub fn ignore(&mut self, id: &str) -> (r: Vec<String>)
        ensures
            final(self)@ == old(self)@.with_ignored(id@),
            final(self).on_disk() == old(self).on_disk(),
            r.deep_view() == notice_ids(old(self)@.notices, id@, None),
    {
        let r = self.notification_ids(id, None);
        self.record(Change::Ignore(id.to_owned()));
        let known = match self.tables.prs.get(id) {
            Some(pr) => Some(pr.clone()),
            None => None,
        };
        if let Some(pr) = known {
            self.record(Change::SaveDetails { id: id.to_owned(), details: pr });
        }
        self.record(Change::DropPr(id.to_owned()));
        self.record(Change::DropNotices(id.to_owned()));
        assert(self@ =~= old(self)@.with_ignored(id@));
        r
    }

    /// The ignored pull requests that are shown. Those of which nothing is known stay
    /// visible, and only those known to be closed are not.
    pub fn load_ignored(&self) -> (r: Vec<PullRequest>)
        ensures
            r.deep_view() == shown_ignored(text_map::sorted_keys(self@.ignored.dom()), self@.details),
    {
        let ids = self.tables.ignored.key_list();
        let ghost v = ids.deep_view();
        let mut r: Vec<PullRequest> = Vec::new();
        let mut i: usize = 0;
        assert(v.take(0) =~= Seq::empty());
        assert(r.deep_view() =~= Seq::empty());
        while i < ids.len()
            invariant
                v == ids.deep_view(),
                i <= ids@.len(),
                r.deep_view() == shown_ignored(v.take(i as int), self@.details),
            decreases ids.len() - i,
        {
            assert(v.take(i + 1).drop_last() =~= v.take(i as int));
            assert(v.take(i + 1).last() == ids@[i as int]@);
            let mut pr = match self.tables.details.get(&ids[i]) {
                Some(pr) => pr.clone(),
                None => {
                    let mut snapshot = Snapshot::default();
                    snapshot.id = ids[i].clone();
                    snapshot.repo = "Unavailable".to_owned();
                    snapshot.title = "Pull request details unavailable".to_owned();
                    PullRequest::unreviewed(snapshot)
                },
            };
            pr.stale = true;
            if pr.snapshot.number == 0 || pr.snapshot.open {
                let ghost before = r.deep_view();
                let ghost view = pr@;
                r.push(pr);
                assert(r.deep_view() =~= before.push(view));
            }
            i += 1;
        }
        assert(v.take(i as int) =~= v);
        r
    }

    /// Keeps what a lookup of an ignored pull request said of its status. One that is no
    /// longer ignored stays as it is.
    pub fn update_ignored_status(&mut self, snapshot: &Snapshot)
        ensures
            final(self).on_disk() == old(self).on_disk(),
            final(self)@ == if old(self)@.ignored.contains_key(snapshot@.id) {
                TablesView {
                    details: old(self)@.details.insert(
                        snapshot@.id,
                        with_status(
                            if old(self)@.details.contains_key(snapshot@.id) {
                                Some(old(self)@.details[snapshot@.id])
                            } else {
                                None
                            },
                            snapshot@,
                        ),
                    ),
                    ..old(self)@
                }
            } else {
                old(self)@
            },
    {
        if !self.is_ignored(&snapshot.id) {
            return;
        }
        let mut pr = match self.tables.details.get(&snapshot.id) {
            Some(pr) => pr.clone(),
            None => PullRequest::unreviewed(snapshot.clone()),
        };
        pr.snapshot.repo = snapshot.repo.clone();
        pr.snapshot.number = snapshot.number;
        pr.snapshot.title = snapshot.title.clone();
        pr.snapshot.url = snapshot.url.clone();
        pr.snapshot.open = snapshot.open;
        pr.snapshot.draft = snapshot.draft;
        pr.stale = true;
        self.record(Change::SaveDetails { id: snapshot.id.clone(), details: pr });
    }

    /// Keeps what is known of an ignored pull request, unless something is known already
    /// or it is no longer ignored.
    pub fn save_ignored_details(&mut self, pr: &PullRequest)
        ensures
            final(self).on_disk() == old(self).on_disk(),
            final(self)@ == if old(self)@.ignored.contains_key(pr@.snapshot.id) && !old(self)@.details.contains_key(
                pr@.snapshot.id,
            ) {
                TablesView { details: old(self)@.details.insert(pr@.snapshot.id, pr@), ..old(self)@ }
            } else {
                old(self)@
            },
    {
        if self.is_ignored(&pr.snapshot.id) && !self.tables.details.contains_key(&pr.snapshot.id) {
            self.record(Change::SaveDetails { id: pr.snapshot.id.clone(), details: pr.clone() });
        }
    }

    /// A pull request is no longer ignored. The result says whether it was.
    pub fn restore(&mut self, id: &str) -> (r: bool)
        ensures
            final(self)@ == old(self)@.with_restored(id@),
            final(self).on_disk() == old(self).on_disk(),
            r == old(self)@.ignored.contains_key(id@),
    {
        let r = self.is_ignored(id);
        self.record(Change::Unignore(id.to_owned()));
        self.record(Change::DropDetails(id.to_owned()));
        r
    }

    /// The identities of the notifications of a pull request: all of them, or those of one
    /// update.
    pub fn notification_ids(&self, pr: &str, update: Option<&str>) -> (r: Vec<String>)
        ensures
            r.deep_view() == notice_ids(
                self@.notices,
                pr@,
                match update {
                    Some(update) => Some(update@),
                    None => None,
                },
            ),
    {
        let ghost v = self.tables.notices.deep_view();
        let ghost wanted = match update {
            Some(update) => Some(update@),
            None => None,
        };
        let mut r: Vec<String> = Vec::new();
        let mut i: usize = 0;
        assert(v.take(0) =~= Seq::empty());
        assert(r.deep_view() =~= Seq::empty());
        while i < self.tables.notices.len()
            invariant
                v == self.tables.notices.deep_view(),
                wanted == (match update {
                    Some(update) => Some(update@),
                    None => None,
                }),
                i <= self.tables.notices@.len(),
                r.deep_view() == notice_ids(v.take(i as int), pr@, wanted),
            decreases self.tables.notices.len() - i,
        {
            assert(v.take(i + 1).drop_last() =~= v.take(i as int));
            let notice = &self.tables.notices[i];
            let fits = match update {
                Some(update) => text::same(&notice.update, update),
                None => true,
            };
            if text::same(&notice.pr, pr) && fits {
                let ghost before = r.deep_view();
                r.push(notice.id.clone());
                assert(r.deep_view() =~= before.push(v[i as int].id));
            }
            i += 1;
        }
        assert(v.take(i as int) =~= v);
        r
    }

    /// The account that was signed in last.
    pub fn viewer(&self) -> (r: Option<String>)
        ensures
            r.deep_view() == self@.viewer,
    {
        text::copy_option(&self.tables.viewer)
    }

    /// An account is signed in. The result says whether it is another one than before.
    pub fn set_viewer(&mut self, viewer: &str) -> (r: bool)
        ensures
            final(self)@ == old(self)@.with_viewer(viewer@),
            final(self).on_disk() == old(self).on_disk(),
            r == old(self)@.is_other_viewer(viewer@),
    {
        let changed = match &self.tables.viewer {
            Some(previous) => !text::same(previous, viewer),
            None => false,
        };
        if changed {
            self.record(Change::ClearPrs);
            self.record(Change::ClearNotices);
        }
        self.record(Change::SetViewer(viewer.to_owned()));
        changed
    }

    /// The active pull requests in the order of their identities, as cached evidence.
    pub fn load(&self) -> (r: Vec<PullRequest>)
        ensures
            r.deep_view() == text_map::values_in_order(self@.prs).map_values(|pr: PullRequestView| as_stale(pr)),
    {
        let ghost ids = text_map::sorted_keys(self@.prs.dom());
        let ghost all = text_map::values_in_order(self@.prs).map_values(|pr: PullRequestView| as_stale(pr));
        let mut r: Vec<PullRequest> = Vec::new();
        let mut i: usize = 0;
        let count: usize = self.tables.prs.len();
        assert(r.deep_view() =~= all.take(0));
        while i < count
            invariant
                i <= count,
                count == ids.len(),
                ids == text_map::sorted_keys(self@.prs.dom()),
                all == text_map::values_in_order(self@.prs).map_values(|pr: PullRequestView| as_stale(pr)),
                r.deep_view() == all.take(i as int),
            decreases count - i,
        {
            let mut pr = self.tables.prs.value_at(i).clone();
            pr.stale = true;
            let ghost before = r.deep_view();
            let ghost view = pr@;
            assert(view == all[i as int]);
            r.push(pr);
            assert(r.deep_view() =~= before.push(view));
            assert(all.take(i + 1) =~= all.take(i as int).push(all[i as int]));
            i += 1;
        }
        assert(all.take(i as int) =~= all);
        r
    }

    /// Keeps what is known of a pull request.
    pub fn save(&mut self, pr: &PullRequest)
        ensures
            final(self)@ == (TablesView { prs: old(self)@.prs.insert(pr@.snapshot.id, pr@), ..old(self)@ }),
            final(self).on_disk() == old(self).on_disk(),
    {
        self.record(Change::SavePr(pr.clone()));
    }

    /// Only some pull requests stay, and the newest notifications. A notification of a pull
    /// request that leaves can still be opened.
    pub fn retain<V: DeepView>(&mut self, ids: &TextMap<V>)
        ensures
            final(self)@ == old(self)@.retained(ids@.dom()),
            final(self).on_disk() == old(self).on_disk(),
    {
        let all = self.tables.prs.key_list();
        let ghost v = all.deep_view();
        let ghost start = self@;
        let mut i: usize = 0;
        proof {
            self.tables.prs.domain_is_finite();
        }
        while i < all.len()
            invariant
                v == all.deep_view(),
                v == text_map::sorted_keys(start.prs.dom()),
                i <= all@.len(),
                self.on_disk() == old(self).on_disk(),
                self@ == (TablesView { prs: self@.prs, ..start }),
                forall|id: Seq<char>| #[trigger]
                    self@.prs.contains_key(id) <==> start.prs.contains_key(id) && (ids@.contains_key(id) || !v.take(
                        i as int,
                    ).contains(id)),
                forall|id: Seq<char>| #[trigger] self@.prs.contains_key(id) ==> self@.prs[id] == start.prs[id],
            decreases all.len() - i,
        {
            assert(v.take(i + 1) =~= v.take(i as int).push(v[i as int]));
            if !ids.contains_key(&all[i]) {
                self.record(Change::DropPr(all[i].clone()));
            }
            i += 1;
        }
        assert(v.take(i as int) =~= v);
        proof {
            text_map::sorted_keys_exist(start.prs.dom());
            assert forall|id: Seq<char>| start.prs.contains_key(id) implies #[trigger] v.contains(id) by {
                assert(v.to_set().contains(id));
            }
        }
        self.record(Change::TrimNotices);
        assert(self@.prs =~= start.prs.restrict(ids@.dom()));
    }

    /// Acknowledges an update, or withdraws that, where the update is the current one. The
    /// result says whether it is.
    pub fn acknowledge(&mut self, pr: &mut PullRequest, update: &str, checked: bool) -> (r: bool)
        ensures
            r == (old(pr)@.update_id == update@),
            final(pr)@ == acknowledged(old(pr)@, update@, checked),
            final(self)@ == if r {
                TablesView { prs: old(self)@.prs.insert(final(pr)@.snapshot.id, final(pr)@), ..old(self)@ }
            } else {
                old(self)@
            },
            final(self).on_disk() == old(self).on_disk(),
    {
        if !text::same(&pr.update_id, update) {
            return false;
        }
        pr.acknowledged = if checked {
            Some(update.to_owned())
        } else {
            None
        };
        self.save(pr);
        true
    }

    /// The identity under which an update is announced, unless that was delivered before.
    pub fn notification(&mut self, pr: &PullRequest) -> (r: Option<String>)
        ensures
            final(self)@ == old(self)@.announced(pr@),
            final(self).on_disk() == old(self).on_disk(),
            r.deep_view() == if old(self)@.may_announce(pr@) {
                Some(notice_id(pr@))
            } else {
                None
            },
    {
        let key = text::concat3(&pr.snapshot.id, ":", &pr.update_id);
        let id = evidence::hash(key.as_str().as_bytes());
        if let Some(i) = find_notice(&self.tables.notices, &id) {
            if self.tables.notices[i].delivered {
                return None;
            }
        }
        self.record(
            Change::AddNotice {
                id: id.clone(),
                pr: pr.snapshot.id.clone(),
                update: pr.update_id.clone(),
                url: pr.snapshot.url.clone(),
            },
        );
        Some(id)
    }

    /// A notification was delivered.
    pub fn mark_delivered(&mut self, id: &str)
        ensures
            final(self)@ == old(self)@.after(ChangeView::Deliver(id@)),
            final(self).on_disk() == old(self).on_disk(),
    {
        self.record(Change::Deliver(id.to_owned()));
    }

    /// The pull request, the update and the address that a notification is about.
    pub fn notification_target(&self, id: &str) -> (r: Option<(String, String, String)>)
        ensures
            r.deep_view() == (match notice_of(self@.notices, id@) {
                Some(notice) => Some((notice.pr, notice.update, notice.url)),
                None => None,
            }),
    {
        match find_notice(&self.tables.notices, id) {
            Some(i) => {
                let notice = &self.tables.notices[i];
                Some((notice.pr.clone(), notice.update.clone(), notice.url.clone()))
            },
            None => None,
        }
    }
}

// ---------------------------------------------------------------- laws

/// An ignored pull request is no longer an active one and has no notifications. Nothing
/// else changes: not the other pull requests, nor their notifications.
pub proof fn ignoring_touches_one(tables: TablesView, id: Seq<char>, other: Seq<char>)
    requires
        id != other,
    ensures
        tables.with_ignored(id).ignored.contains_key(id),
        !tables.with_ignored(id).prs.contains_key(id),
        notice_ids(tables.with_ignored(id).notices, id, None) == Seq::<Seq<char>>::empty(),
        tables.with_ignored(id).prs.contains_key(other) == tables.prs.contains_key(other),
        tables.prs.contains_key(other) ==> tables.with_ignored(id).prs[other] == tables.prs[other],
        tables.with_ignored(id).ignored.contains_key(other) == tables.ignored.contains_key(other),
        notice_ids(tables.with_ignored(id).notices, other, None) == notice_ids(tables.notices, other, None),
{
    dropped_notices(tables.notices, id, other);
}

/// Without the notifications of a pull request, those of the others are as they were.
proof fn dropped_notices(notices: Seq<NoticeView>, id: Seq<char>, other: Seq<char>)
    requires
        id != other,
    ensures
        notice_ids(notices_without(notices, id), id, None) == Seq::<Seq<char>>::empty(),
        notice_ids(notices_without(notices, id), other, None) == notice_ids(notices, other, None),
    decreases notices.len(),
{
    if notices.len() > 0 {
        let rest = notices_without(notices.drop_last(), id);
        dropped_notices(notices.drop_last(), id, other);
        if notices.last().pr != id {
            assert(rest.push(notices.last()).drop_last() =~= rest);
        }
    }
}

/// An ignored pull request stays ignored through everything but its restoration: saved
/// snapshots, acknowledgements, notifications and even a change of the account.
pub proof fn ignored_stays_ignored(tables: TablesView, change: ChangeView, id: Seq<char>)
    requires
        tables.ignored.contains_key(id),
        change != ChangeView::Unignore(id),
    ensures
        tables.after(change).ignored.contains_key(id),
{
}

/// Restoring undoes ignoring: the identity is no longer ignored and nothing is kept aside
/// of it. The pull request itself comes back only with a new discovery.
pub proof fn restoring_undoes_ignoring(tables: TablesView, id: Seq<char>)
    requires
        !tables.ignored.contains_key(id),
        !tables.details.contains_key(id),
    ensures
        tables.with_ignored(id).with_restored(id).ignored == tables.ignored,
        tables.with_ignored(id).with_restored(id).details == tables.details,
        tables.with_ignored(id).with_restored(id).prs == tables.prs.remove(id),
{
    assert(tables.with_ignored(id).with_restored(id).ignored =~= tables.ignored);
    assert(tables.with_ignored(id).with_restored(id).details =~= tables.details);
}

/// What one account saw is not kept for another one. What the user chose stays: the ignored
/// pull requests, the shortcuts and the preferences of repositories.
pub proof fn accounts_are_separate(tables: TablesView, viewer: Seq<char>)
    requires
        tables.viewer is Some,
        tables.viewer->0 != viewer,
    ensures
        tables.with_viewer(viewer).prs == Map::<Seq<char>, PullRequestView>::empty(),
        tables.with_viewer(viewer).notices == Seq::<NoticeView>::empty(),
        tables.with_viewer(viewer).ignored == tables.ignored,
        tables.with_viewer(viewer).details == tables.details,
        tables.with_viewer(viewer).hotkeys == tables.hotkeys,
        tables.with_viewer(viewer).actions == tables.actions,
        tables.with_viewer(viewer).catalogues == tables.catalogues,
        !tables.with_viewer(viewer).is_other_viewer(viewer),
{
}

/// An update that was delivered is not announced again, whatever else is announced or
/// delivered in between.
pub proof fn delivered_once(tables: TablesView, pr: PullRequestView, other: PullRequestView, id: Seq<char>)
    requires
        notice_of(tables.notices, notice_id(pr)) is Some,
    ensures
        !tables.after(ChangeView::Deliver(notice_id(pr))).may_announce(pr),
        !tables.may_announce(pr) ==> !tables.announced(other).may_announce(pr),
        !tables.may_announce(pr) ==> !tables.after(ChangeView::Deliver(id)).may_announce(pr),
{
    let target = notice_id(pr);
    notice_place_is_of(tables.notices, target);
    notice_place_is_of(tables.notices, id);
    delivery_keeps_places(tables.notices, target, target);
    if notice_place(tables.notices, id) is Some {
        delivery_keeps_places(tables.notices, id, target);
    }
    let added = NoticeView {
        id: notice_id(other),
        pr: other.snapshot.id,
        update: other.update_id,
        url: other.snapshot.url,
        delivered: false,
    };
    assert(tables.notices.push(added).drop_last() =~= tables.notices);
}

/// A delivery moves no notification.
proof fn delivery_keeps_places(notices: Seq<NoticeView>, delivered: Seq<char>, id: Seq<char>)
    requires
        notice_place(notices, delivered) is Some,
    ensures
        ({
            let i = notice_place(notices, delivered)->0;
            let after = notices.update(i, NoticeView { delivered: true, ..notices[i] });
            notice_place(after, id) == notice_place(notices, id)
        }),
    decreases notices.len(),
{
    notice_place_is_of(notices, delivered);
    let i = notice_place(notices, delivered)->0;
    marked_places(notices, i, id);
}

/// A mark on a notification moves none.
proof fn marked_places(notices: Seq<NoticeView>, i: int, id: Seq<char>)
    requires
        0 <= i < notices.len(),
    ensures
        notice_place(notices.update(i, NoticeView { delivered: true, ..notices[i] }), id) == notice_place(notices, id),
    decreases notices.len(),
{
    let after = notices.update(i, NoticeView { delivered: true, ..notices[i] });
    if i < notices.len() - 1 {
        marked_places(notices.drop_last(), i, id);
        assert(after.drop_last() =~= notices.drop_last().update(i, NoticeView { delivered: true, ..notices[i] }));
    } else {
        assert(after.drop_last() =~= notices.drop_last());
    }
}

/// An announcement can be traced back to its pull request and its update.
pub proof fn announcements_have_targets(tables: TablesView, pr: PullRequestView)
    requires
        notice_of(tables.notices, notice_id(pr)) is None,
    ensures
        notice_of(tables.announced(pr).notices, notice_id(pr)) == Some(
            NoticeView {
                id: notice_id(pr),
                pr: pr.snapshot.id,
                update: pr.update_id,
                url: pr.snapshot.url,
                delivered: false,
            },
        ),
        tables.announced(pr).announced(pr) == tables.announced(pr),
{
    let added = NoticeView {
        id: notice_id(pr),
        pr: pr.snapshot.id,
        update: pr.update_id,
        url: pr.snapshot.url,
        delivered: false,
    };
    assert(tables.notices.push(added).drop_last() =~= tables.notices);
}

/// An acknowledgement of an older update does not touch a newer one.
pub proof fn old_updates_cannot_be_acknowledged(pr: PullRequestView, update: Seq<char>, checked: bool)
    ensures
        pr.update_id != update ==> acknowledged(pr, update, checked) == pr,
        pr.update_id == update && checked ==> !acknowledged(pr, update, checked).wants_attention(),
        acknowledged(acknowledged(pr, update, true), update, false).acknowledged == if pr.update_id == update {
            None
        } else {
            pr.acknowledged
        },
{
}

/// The notifications that are kept are bounded, and the pull requests that leave take none
/// of them along.
pub proof fn notifications_are_bounded(tables: TablesView, ids: Set<Seq<char>>)
    ensures
        tables.retained(ids).notices.len() <= KEPT_NOTICES,
        tables.notices.len() <= KEPT_NOTICES ==> tables.retained(ids).notices == tables.notices,
        tables.retained(ids).retained(ids) == tables.retained(ids),
{
    assert(tables.retained(ids).retained(ids) =~= tables.retained(ids));
}

/// Every ignored identity of which nothing is known is shown.
pub proof fn unknown_ignored_are_shown(ids: Seq<Seq<char>>, details: Map<Seq<char>, PullRequestView>, i: int)
    requires
        0 <= i < ids.len(),
        !details.contains_key(ids[i]),
    ensures
        shown_ignored(ids, details).contains(as_stale(unavailable(ids[i]))),
    decreases ids.len(),
{
    let rest = shown_ignored(ids.drop_last(), details);
    if i < ids.len() - 1 {
        unknown_ignored_are_shown(ids.drop_last(), details, i);
        let place = choose|k: int| 0 <= k < rest.len() && rest[k] == as_stale(unavailable(ids[i]));
        assert(shown_ignored(ids, details)[place] == rest[place]);
    } else {
        assert(shown_ignored(ids, details).last() == as_stale(unavailable(ids[i])));
    }
}

/// Cached evidence is never current: nothing that is loaded asks for attention.
pub proof fn loaded_evidence_is_stale(pr: PullRequestView)
    ensures
        as_stale(pr).stale,
        !as_stale(pr).wants_attention(),
{
}

} // verus!
