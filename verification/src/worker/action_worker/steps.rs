//! How a coordinator takes in what it is told.

use crate::actions;
use crate::actions::{
    ActionState, ActionStateView, Kind, Label, LabelCatalogue, LabelView, Labels, LabelsView, MergeProgress,
    MergeProgressView, Preferences, Request,
};
use crate::github::fields;
use crate::model::{PrLabel, PullRequest, Snapshot};
use crate::store;
use crate::store::Store;
use crate::text;
use crate::text_map;
use crate::text_map::TextMap;
use crate::worker;
use crate::worker::action_worker::catalogues;
use crate::worker::action_worker::effects::{ActionCommand, Context, Effect, Intent, LabelJob, LabelJobView};
use crate::worker::action_worker::{
    Coordinator, CoordinatorView, ATTEMPT_MILLISECONDS, COUNTDOWN, FRESH_SECONDS, LABEL_CANCELLED,
};
use vstd::prelude::*;

verus! {

broadcast use vstd::seq_lib::group_seq_properties;

/// The place of the first label of a name.
fn find_label(items: &Vec<Label>, name: &str) -> (r: Option<usize>)
    ensures
        match r {
            Some(i) => super::label_place(items.deep_view(), name@) == Some(i as int) && i < items@.len(),
            None => super::label_place(items.deep_view(), name@) is None,
        },
{
    let ghost v = items.deep_view();
    let mut i: usize = 0;
    assert(v.take(0) =~= Seq::empty());
    while i < items.len()
        invariant
            v == items.deep_view(),
            i <= items@.len(),
            super::label_place(v.take(i as int), name@) is None,
        decreases items.len() - i,
    {
        assert(v.take(i + 1).drop_last() =~= v.take(i as int));
        if text::same(&items[i].name, name) {
            proof {
                label_places_stay(v, i + 1, name@);
            }
            return Some(i);
        }
        i += 1;
    }
    assert(v.take(i as int) =~= v);
    None
}

/// The first label of a name stays the first one.
proof fn label_places_stay(items: Seq<LabelView>, i: int, name: Seq<char>)
    requires
        0 <= i <= items.len(),
        super::label_place(items.take(i), name) is Some,
    ensures
        super::label_place(items, name) == super::label_place(items.take(i), name),
    decreases items.len() - i,
{
    if i < items.len() {
        assert(items.take(i + 1).drop_last() =~= items.take(i));
        label_places_stay(items, i + 1, name);
    } else {
        assert(items.take(i) =~= items);
    }
}

/// Chooses the first label of a name, or not.
fn choose_label(items: &mut Vec<Label>, name: &str, selected: bool)
    ensures
        final(items).deep_view() == super::with_choice(old(items).deep_view(), name@, selected),
{
    let ghost before = items.deep_view();
    if let Some(i) = find_label(items, name) {
        let mut label = items[i].clone();
        label.selected = selected;
        let ghost view = label@;
        items.set(i, label);
        assert(items.deep_view() =~= before.update(i as int, view));
    }
}

/// The place of the first job of a token.
fn find_job(jobs: &Vec<LabelJob>, token: u64) -> (r: Option<usize>)
    ensures
        match r {
            Some(i) => super::job_place(jobs.deep_view(), token) == Some(i as int) && i < jobs@.len(),
            None => super::job_place(jobs.deep_view(), token) is None,
        },
{
    let ghost v = jobs.deep_view();
    let mut i: usize = 0;
    assert(v.take(0) =~= Seq::empty());
    while i < jobs.len()
        invariant
            v == jobs.deep_view(),
            i <= jobs@.len(),
            super::job_place(v.take(i as int), token) is None,
        decreases jobs.len() - i,
    {
        assert(v.take(i + 1).drop_last() =~= v.take(i as int));
        if jobs[i].intent.token == token {
            proof {
                job_places_stay(v, i + 1, token);
            }
            return Some(i);
        }
        i += 1;
    }
    assert(v.take(i as int) =~= v);
    None
}

/// The first job of a token stays the first one.
proof fn job_places_stay(jobs: Seq<LabelJobView>, i: int, token: u64)
    requires
        0 <= i <= jobs.len(),
        super::job_place(jobs.take(i), token) is Some,
    ensures
        super::job_place(jobs, token) == super::job_place(jobs.take(i), token),
    decreases jobs.len() - i,
{
    if i < jobs.len() {
        assert(jobs.take(i + 1).drop_last() =~= jobs.take(i));
        job_places_stay(jobs, i + 1, token);
    } else {
        assert(jobs.take(i) =~= jobs);
    }
}

/// Tokens without one.
fn drop_token(tokens: &Vec<u64>, token: u64) -> (r: Vec<u64>)
    ensures
        r@ == super::without_token(tokens@, token),
{
    let mut r: Vec<u64> = Vec::new();
    let mut i: usize = 0;
    assert(tokens@.take(0) =~= Seq::empty());
    while i < tokens.len()
        invariant
            i <= tokens@.len(),
            r@ == super::without_token(tokens@.take(i as int), token),
        decreases tokens.len() - i,
    {
        assert(tokens@.take(i + 1).drop_last() =~= tokens@.take(i as int));
        if tokens[i] != token {
            r.push(tokens[i]);
        }
        i += 1;
    }
    assert(tokens@.take(i as int) =~= tokens@);
    r
}

impl Intent {
    /// Whether a change may still be made.
    pub fn valid(&self, c: &Context<'_>, state: &ActionState, kind: Kind) -> (r: bool)
        ensures
            r == self@.is_valid(c@, state@, kind),
    {
        let same_viewer = match c.viewer {
            Some(viewer) => text::same(viewer, &self.viewer),
            None => false,
        };
        if !same_viewer {
            return false;
        }
        match c.prs.get(&self.pr.snapshot.id) {
            None => false,
            Some(pr) => {
                let preferences = state.preferences(&pr.snapshot.repo);
                *preferences.rule(kind) == *self.preferences.rule(kind) && (kind != Kind::Merge || preferences.merge_method
                    == self.preferences.merge_method) && preferences.allows(kind, pr) && (kind != Kind::Merge || (text::same(
                    &pr.snapshot.head,
                    &self.pr.snapshot.head,
                ) && text::same(&pr.update_id, &self.pr.update_id)))
            },
        }
    }

    /// Whether a snapshot that was just taken shows what the user saw.
    fn confirmed(&self, snapshot: Snapshot, c: &Context<'_>) -> (r: bool)
        ensures
            r == self@.is_confirmed(self@.freshly(snapshot@, c@)),
    {
        let expected = c.config.expected(&snapshot.repo);
        let fresh = worker::transition(snapshot, Some(&self.pr), expected, c.now, c.config.settle_seconds);
        self.preferences.allows(Kind::Merge, &fresh) && text::same(&fresh.snapshot.head, &self.pr.snapshot.head)
            && text::same(&fresh.update_id, &self.pr.update_id)
    }
}

impl Coordinator {
    /// A coordinator that takes up what is kept.
    pub fn new(store: &Store) -> (r: Coordinator)
        ensures
            r@ == CoordinatorView::taking_up(store@),
    {
        let viewer = store.viewer();
        let catalogues = match &viewer {
            Some(viewer) => store.label_catalogues(viewer),
            None => TextMap::new(),
        };
        let mut state = ActionState::default();
        state.preferences = store.action_preferences();
        let r = Coordinator {
            state,
            viewer,
            sequence: 0,
            merges: TextMap::new(),
            submitted_merges: Vec::new(),
            loads: TextMap::new(),
            load_errors: TextMap::new(),
            attempts: TextMap::new(),
            catalogues,
            label_jobs: TextMap::new(),
            submitted_labels: Vec::new(),
            completed_labels: TextMap::new(),
            stopping: false,
            effects: Vec::new(),
        };
        assert(r@ =~= CoordinatorView::taking_up(store@));
        r
    }

    /// Hands out what was asked for.
    pub fn take_effects(&mut self) -> (r: Vec<Effect>)
        ensures
            r.deep_view() == old(self)@.effects,
            final(self)@ == (CoordinatorView { effects: Seq::empty(), ..old(self)@ }),
    {
        let mut r: Vec<Effect> = Vec::new();
        std::mem::swap(&mut r, &mut self.effects);
        assert(self.effects.deep_view() =~= Seq::empty());
        r
    }

    /// Asks for something.
    fn ask(&mut self, effect: Effect)
        ensures
            final(self)@ == old(self)@.asking(effect@),
    {
        let ghost before = self.effects.deep_view();
        let ghost view = effect@;
        self.effects.push(effect);
        assert(self.effects.deep_view() =~= before.push(view));
    }

    /// Shows the state.
    pub fn publish(&mut self)
        ensures
            final(self)@ == old(self)@.publishing(),
    {
        let state = self.state.clone();
        self.ask(Effect::Publish(state));
    }

    /// Gives out a token.
    fn token(&mut self) -> (r: u64)
        ensures
            final(self)@ == old(self)@.counting(),
            r == super::next_token(old(self)@.sequence),
    {
        self.sequence = if self.sequence == u64::MAX {
            0
        } else {
            self.sequence + 1
        };
        self.sequence
    }

    /// Shows an error.
    fn fail(&mut self, message: String)
        ensures
            final(self)@ == old(self)@.failing(message@),
    {
        self.state.error = Some(message);
    }

    /// Whether a merge with a token is pending.
    fn has_merge(&self, pr: &str, token: u64) -> (r: bool)
        ensures
            r == self@.merge_is(pr@, token),
    {
        match self.merges.get(pr) {
            Some(intent) => intent.token == token,
            None => false,
        }
    }

    /// Whether a merge was sent.
    fn is_merging(&self, pr: &str) -> (r: bool)
        ensures
            r == (self@.state.merges.contains_key(pr@) && self@.state.merges[pr@] is Merging),
    {
        match self.state.merges.get(pr) {
            Some(MergeProgress::Merging) => true,
            _ => false,
        }
    }

    /// A copy of the first waiting change of a pull request's labels.
    fn first_job(&self, pr: &str) -> (r: Option<LabelJob>)
        ensures
            match r {
                Some(job) => self@.jobs_of(pr@).len() > 0 && job@ == self@.jobs_of(pr@)[0],
                None => self@.jobs_of(pr@).len() == 0,
            },
    {
        match self.label_jobs.get(pr) {
            Some(jobs) => if jobs.len() > 0 {
                assert(jobs.deep_view()[0] == jobs@[0]@);
                Some(jobs[0].clone())
            } else {
                None
            },
            None => None,
        }
    }

    // ------------------------------------------------------------ agreement with what is known

    /// Cancels the merges that are no longer valid.
    fn cancel_merges(&mut self, c: &Context<'_>)
        ensures
            final(self)@ == old(self)@.with_cancelled(c@),
    {
        let ghost start = self@;
        let ids = self.merges.key_list();
        let ghost v = ids.deep_view();
        let mut any = false;
        let mut i: usize = 0;
        proof {
            self.merges.domain_is_finite();
            text_map::sorted_keys_exist(self.merges@.dom());
        }
        while i < ids.len()
            invariant
                v == ids.deep_view(),
                v.to_set() == start.merges.dom(),
                text_map::strictly_sorted(v),
                i <= ids@.len(),
                self@ == (CoordinatorView {
                    merges: self@.merges,
                    state: ActionStateView { merges: self@.state.merges, ..start.state },
                    ..start
                }),
                any == exists|k: int| 0 <= k < i && start.is_cancelled(#[trigger] v[k], c@),
                forall|id: Seq<char>| #[trigger]
                    self@.merges.contains_key(id) <==> start.merges.contains_key(id) && !(v.take(i as int).contains(id)
                        && start.is_cancelled(id, c@)),
                forall|id: Seq<char>| #[trigger] self@.merges.contains_key(id) ==> self@.merges[id] == start.merges[id],
                forall|id: Seq<char>| #[trigger]
                    self@.state.merges.contains_key(id) <==> start.state.merges.contains_key(id) || (v.take(
                        i as int,
                    ).contains(id) && start.is_cancelled(id, c@)),
                forall|id: Seq<char>| #[trigger]
                    self@.state.merges.contains_key(id) ==> self@.state.merges[id] == if v.take(i as int).contains(id)
                        && start.is_cancelled(id, c@) {
                        MergeProgressView::Failed(super::merge_cancelled())
                    } else {
                        start.state.merges[id]
                    },
            decreases ids.len() - i,
        {
            let id = &ids[i];
            assert(v.take(i + 1) =~= v.take(i as int).push(v[i as int]));
            assert(!v.take(i as int).contains(id@)) by {
                if v.take(i as int).contains(id@) {
                    let k = choose|k: int| 0 <= k < i && v.take(i as int)[k] == id@;
                    text_map::strictly_sorted_unique(v, k, i as int);
                }
            }
            assert(v.to_set().contains(v[i as int]));
            let merging = self.is_merging(id);
            let cancelled = match self.merges.get(id) {
                Some(intent) => !merging && !intent.valid(c, &self.state, Kind::Merge),
                None => false,
            };
            assert(cancelled == start.is_cancelled(id@, c@));
            if cancelled {
                any = true;
                let _ = self.merges.remove(id);
                self.state.merges.insert(
                    id.clone(),
                    MergeProgress::Failed("Merge cancelled: the PR or action settings changed.".to_owned()),
                );
            }
            i += 1;
        }
        assert(v.take(i as int) =~= v);
        assert forall|id: Seq<char>| start.is_cancelled(id, c@) implies v.contains(id) by {
            assert(v.to_set().contains(id));
        }
        if any {
            let ghost k = choose|k: int| 0 <= k < v.len() && start.is_cancelled(#[trigger] v[k], c@);
            assert(start.is_cancelled(v[k], c@));
            let ghost target = start.with_cancelled(c@);
            assert(self@.merges =~= target.merges);
            assert(self@.state.merges =~= target.state.merges);
            self.publish();
            assert(self@ =~= target);
        } else {
            assert(self@.merges =~= start.merges);
            assert(self@.state.merges =~= start.state.merges);
        }
    }

    /// The changes made after the last snapshot of a pull request.
    fn completed(&self, pr: &str) -> (r: TextMap<bool>)
        ensures
            r@ == self@.completed_of(pr@),
    {
        match self.completed_labels.get(pr) {
            Some(completed) => completed.copy(),
            None => TextMap::new(),
        }
    }

    /// The labels of a pull request by all that is known.
    fn labels_for(&self, id: &str, pr: &PullRequest, c: &Context<'_>) -> (r: Labels)
        requires
            c@.prs.contains_key(id@),
            c@.prs[id@] == pr@,
        ensures
            r@ == self@.synced_labels(id@, c@),
    {
        let repo = actions::repo_key(&pr.snapshot.repo);
        let known = match self.state.labels.get(id) {
            Some(labels) => labels.clone(),
            None => Labels::default(),
        };
        let fault = match self.load_errors.get(&repo) {
            Some(message) => Some(message.clone()),
            None => None,
        };
        let completed = self.completed(id);
        catalogues::sync(
            &known,
            &pr.snapshot.labels,
            self.catalogues.get(&repo),
            &completed,
            self.loads.contains_key(&repo),
            fault,
        )
    }

    /// Brings the labels up to date.
    pub fn sync_labels(&mut self, c: &Context<'_>)
        ensures
            final(self)@ == old(self)@.with_synced(c@),
    {
        let ghost start = self@;
        let mut labels: TextMap<Labels> = TextMap::new();
        let count: usize = c.prs.len();
        let ghost keys = text_map::sorted_keys(c.prs@.dom());
        proof {
            c.prs.domain_is_finite();
            text_map::sorted_keys_exist(c.prs@.dom());
        }
        let mut i: usize = 0;
        while i < count
            invariant
                keys == text_map::sorted_keys(c.prs@.dom()),
                keys.to_set() == c.prs@.dom(),
                count == keys.len(),
                i <= count,
                self@ == start,
                forall|id: Seq<char>| #[trigger] labels@.contains_key(id) <==> keys.take(i as int).contains(id),
                forall|id: Seq<char>| #[trigger] labels@.contains_key(id) ==> labels@[id] == start.synced_labels(id, c@),
            decreases count - i,
        {
            assert(keys.take(i + 1) =~= keys.take(i as int).push(keys[i as int]));
            let id = c.prs.key_at(i);
            let pr = c.prs.value_at(i);
            let synced = self.labels_for(id, pr, c);
            labels.insert(id.clone(), synced);
            i += 1;
        }
        assert(keys.take(i as int) =~= keys);
        assert(labels@ =~= start.all_labels(c@)) by {
            assert forall|id: Seq<char>| labels@.contains_key(id) <==> c.prs@.contains_key(id) by {
                assert(keys.contains(id) <==> keys.to_set().contains(id));
            }
        }
        let completed = self.completed_for(c);
        self.completed_labels = completed;
        let changed = !labels.same_as(&self.state.labels);
        self.state.labels = labels;
        if changed {
            self.publish();
        }
        assert(self@ =~= start.with_synced(c@));
    }

    /// The changes made after the last snapshots of the pull requests that are monitored.
    fn completed_for(&self, c: &Context<'_>) -> (r: TextMap<TextMap<bool>>)
        ensures
            r@ == self@.completed_labels.restrict(c@.prs.dom()),
    {
        let mut r: TextMap<TextMap<bool>> = TextMap::new();
        let count: usize = self.completed_labels.len();
        let ghost keys = text_map::sorted_keys(self.completed_labels@.dom());
        proof {
            self.completed_labels.domain_is_finite();
            text_map::sorted_keys_exist(self.completed_labels@.dom());
        }
        let mut i: usize = 0;
        while i < count
            invariant
                keys == text_map::sorted_keys(self.completed_labels@.dom()),
                keys.to_set() == self.completed_labels@.dom(),
                count == keys.len(),
                i <= count,
                forall|id: Seq<char>| #[trigger]
                    r@.contains_key(id) <==> keys.take(i as int).contains(id) && c.prs@.contains_key(id),
                forall|id: Seq<char>| #[trigger] r@.contains_key(id) ==> r@[id] == self.completed_labels@[id],
            decreases count - i,
        {
            assert(keys.take(i + 1) =~= keys.take(i as int).push(keys[i as int]));
            let id = self.completed_labels.key_at(i);
            if c.prs.contains_key(id) {
                r.insert(id.clone(), self.completed_labels.value_at(i).copy());
            }
            i += 1;
        }
        assert(keys.take(i as int) =~= keys);
        assert(r@ =~= self@.completed_labels.restrict(c@.prs.dom())) by {
            assert forall|id: Seq<char>| self.completed_labels@.contains_key(id) <==> keys.contains(id) by {
                assert(keys.contains(id) <==> keys.to_set().contains(id));
            }
        }
        r
    }

    /// Makes what is pending agree again with what is known.
    pub fn reconcile(&mut self, c: &Context<'_>)
        ensures
            final(self)@ == old(self)@.reconciled(c@),
    {
        let same_viewer = match (&self.viewer, c.viewer) {
            (Some(a), Some(b)) => text::same(a, b),
            (None, None) => true,
            _ => false,
        };
        if same_viewer {
            self.cancel_merges(c);
            self.sync_labels(c);
            return;
        }
        let changed = !self.state.merges.is_empty() || !self.state.labels.is_empty();
        self.viewer = match c.viewer {
            Some(viewer) => Some(viewer.to_owned()),
            None => None,
        };
        self.catalogues = match c.viewer {
            Some(viewer) => c.store.label_catalogues(viewer),
            None => TextMap::new(),
        };
        self.merges = TextMap::new();
        self.loads = TextMap::new();
        self.load_errors = TextMap::new();
        self.attempts = TextMap::new();
        self.label_jobs = TextMap::new();
        self.completed_labels = TextMap::new();
        self.state.merges = TextMap::new();
        self.state.labels = TextMap::new();
        if changed {
            self.publish();
        }
        assert(self@ =~= old(self)@.reconciled(c@));
    }

    // ------------------------------------------------------------ catalogues

    /// Whether the catalogue of a repository is fresh, or was asked for not long ago.
    fn fresh(&self, repo: &str, c: &Context<'_>) -> (r: bool)
        ensures
            r == self@.is_fresh(repo@, c@),
    {
        if let Some(catalogue) = self.catalogues.get(repo) {
            let age: i128 = c.now as i128 - catalogue.fetched_at as i128;
            if 0 <= age && age < FRESH_SECONDS as i128 {
                return true;
            }
        }
        match self.attempts.get(repo) {
            Some(at) => c.clock < *at || c.clock - *at < ATTEMPT_MILLISECONDS,
            None => false,
        }
    }

    /// The repositories with open pull requests, by key, in ascending order.
    fn repos(c: &Context<'_>) -> (r: Vec<String>)
        ensures
            r.deep_view() == text_map::sorted_keys(super::open_repos(c@.prs)),
    {
        let mut repos: TextMap<()> = TextMap::new();
        let count: usize = c.prs.len();
        let ghost keys = text_map::sorted_keys(c.prs@.dom());
        proof {
            c.prs.domain_is_finite();
            text_map::sorted_keys_exist(c.prs@.dom());
        }
        let mut i: usize = 0;
        while i < count
            invariant
                keys == text_map::sorted_keys(c.prs@.dom()),
                keys.to_set() == c.prs@.dom(),
                count == keys.len(),
                i <= count,
                forall|repo: Seq<char>| #[trigger]
                    repos@.contains_key(repo) <==> exists|k: int|
                        0 <= k < i && c.prs@[#[trigger] keys[k]].snapshot.open && actions::repo_key_of(
                            c.prs@[keys[k]].snapshot.repo,
                        ) == repo,
            decreases count - i,
        {
            let pr = c.prs.value_at(i);
            let ghost before = repos@;
            if pr.snapshot.open {
                let repo = actions::repo_key(&pr.snapshot.repo);
                let ghost key = repo@;
                repos.insert(repo, ());
                assert forall|repo: Seq<char>| #[trigger]
                    repos@.contains_key(repo) <==> exists|k: int|
                        0 <= k < i + 1 && c.prs@[#[trigger] keys[k]].snapshot.open && actions::repo_key_of(
                            c.prs@[keys[k]].snapshot.repo,
                        ) == repo by {
                    if repo == key {
                        assert(c.prs@[keys[i as int]].snapshot.open);
                    } else if before.contains_key(repo) {
                    }
                }
            }
            i += 1;
        }
        let ghost wanted = super::open_repos(c@.prs);
        assert forall|repo: Seq<char>| repos@.dom().contains(repo) <==> wanted.contains(repo) by {
            if repos@.contains_key(repo) {
                let k = choose|k: int|
                    0 <= k < i && c.prs@[#[trigger] keys[k]].snapshot.open && actions::repo_key_of(
                        c.prs@[keys[k]].snapshot.repo,
                    ) == repo;
                assert(keys.to_set().contains(keys[k]));
                assert(c@.prs.contains_key(keys[k]));
            }
            if wanted.contains(repo) {
                let id = choose|id: Seq<char>| #[trigger]
                    c@.prs.contains_key(id) && c@.prs[id].snapshot.open && actions::repo_key_of(c@.prs[id].snapshot.repo)
                        == repo;
                assert(keys.to_set().contains(id));
                let k = choose|k: int| 0 <= k < keys.len() && keys[k] == id;
                assert(c.prs@[keys[k]].snapshot.open);
            }
        }
        assert(repos@.dom() =~= wanted);
        repos.key_list()
    }

    /// Asks for the catalogues that are due: all of them, or that of one repository even if
    /// it is fresh.
    pub fn refresh_catalogues(&mut self, c: &Context<'_>, manual_repo: Option<&str>)
        ensures
            final(self)@ == old(self)@.refreshing(
                c@,
                match manual_repo {
                    Some(repo) => Some(repo@),
                    None => None,
                },
            ),
    {
        let viewer = match c.viewer {
            Some(viewer) => viewer,
            None => {
                return;
            },
        };
        let own = match &self.viewer {
            Some(own) => text::same(own, viewer),
            None => false,
        };
        if !own {
            return;
        }
        let wanted: Option<String> = match manual_repo {
            Some(repo) => Some(actions::repo_key(repo)),
            None => None,
        };
        let ghost want = wanted.deep_view();
        let repos = Coordinator::repos(c);
        let ghost v = repos.deep_view();
        let ghost start = self@;
        let mut jobs: Vec<(String, u64)> = Vec::new();
        assert(jobs.deep_view() =~= Seq::empty());
        assert(v.take(0) =~= Seq::empty());
        let mut i: usize = 0;
        while i < repos.len()
            invariant
                v == repos.deep_view(),
                want == wanted.deep_view(),
                i <= repos@.len(),
                (self@, jobs.deep_view()) == start.asking_for(v.take(i as int), want, c@),
            decreases repos.len() - i,
        {
            assert(v.take(i + 1).drop_last() =~= v.take(i as int));
            assert(v.take(i + 1).last() == repos@[i as int]@);
            let repo = &repos[i];
            let ghost before = self@;
            let chosen = match &wanted {
                Some(key) => text::same(key, repo),
                None => !self.fresh(repo, c),
            };
            let due = !self.loads.contains_key(repo) && chosen;
            assert(due == before.is_due(repo@, want, c@));
            if due {
                if c.paused {
                    if wanted.is_some() {
                        self.load_errors.insert(
                            repo.clone(),
                            "GitHub rate limit: label refresh is paused until the quota cooldown ends.".to_owned(),
                        );
                    }
                } else {
                    let token: u64 = self.token();
                    self.loads.insert(repo.clone(), token);
                    self.attempts.insert(repo.clone(), c.clock);
                    let _ = self.load_errors.remove(repo);
                    let ghost listed = jobs.deep_view();
                    jobs.push((repo.clone(), token));
                    assert(jobs.deep_view() =~= listed.push((repo@, token)));
                }
            }
            i += 1;
        }
        assert(v.take(i as int) =~= v);
        self.sync_labels(c);
        if jobs.len() > 0 {
            self.ask(Effect::LoadCatalogues { viewer: viewer.to_owned(), jobs });
        }
    }

    /// A change of a label has reached the snapshot.
    pub fn label_saved(&mut self, pr: &str, name: &str)
        ensures
            final(self)@ == (CoordinatorView {
                completed_labels: if old(self)@.completed_labels.contains_key(pr@) {
                    old(self)@.completed_labels.insert(pr@, old(self)@.completed_labels[pr@].remove(name@))
                } else {
                    old(self)@.completed_labels
                },
                ..old(self)@
            }),
    {
        let ghost before = self@.completed_labels;
        if let Some(completed) = self.completed_labels.remove(pr) {
            let mut completed = completed;
            let _ = completed.remove(name);
            self.completed_labels.insert(pr.to_owned(), completed);
        }
        assert(before.contains_key(pr@) ==> self@.completed_labels =~= before.insert(pr@, before[pr@].remove(name@)));
        assert(!before.contains_key(pr@) ==> self@.completed_labels =~= before);
    }

    // ------------------------------------------------------------ requests

    /// The intent of a request, or why there can be none.
    fn intend(&mut self, id: &str, kind: Kind, c: &Context<'_>) -> (r: Result<Intent, String>)
        ensures
            final(self)@ == old(self)@.after_intent(id@, kind, c@),
            fields::result_view(r) == old(self)@.intent(id@, kind, c@),
    {
        let pr = match c.prs.get(id) {
            Some(pr) => pr,
            None => {
                return Err("This PR is no longer in the active list".to_owned());
            },
        };
        let preferences = self.state.preferences(&pr.snapshot.repo);
        if !preferences.allows(kind, pr) {
            return Err("Action is unavailable for this PR's current state".to_owned());
        }
        let token: u64 = self.token();
        match c.viewer {
            Some(viewer) => Ok(Intent { token, pr: pr.clone(), viewer: viewer.to_owned(), preferences }),
            None => Err("Waiting for GitHub authentication".to_owned()),
        }
    }

    /// A merge is asked for.
    fn request_merge(&mut self, pr: String, head: String, update: String, c: &Context<'_>)
        ensures
            final(self)@ == old(self)@.merge_requested(pr@, head@, update@, c@),
    {
        if self.merges.contains_key(&pr) {
            self.fail("A merge is already pending for this PR".to_owned());
            return;
        }
        let intent = match self.intend(&pr, Kind::Merge, c) {
            Ok(intent) => intent,
            Err(message) => {
                self.fail(message);
                return;
            },
        };
        if !text::same(&head, &intent.pr.snapshot.head) || head.as_str().is_empty() {
            self.fail("The PR commit changed; refresh before merging".to_owned());
            return;
        }
        if !text::same(&update, &intent.pr.update_id) {
            self.fail("The PR review changed; refresh before merging".to_owned());
            return;
        }
        let token: u64 = intent.token;
        self.merges.insert(pr.clone(), intent);
        self.state.merges.insert(pr.clone(), MergeProgress::Countdown(COUNTDOWN));
        self.ask(Effect::Countdown { pr, token });
    }

    /// A merge is cancelled.
    fn withdraw_merge(&mut self, pr: &str)
        ensures
            final(self)@ == old(self)@.merge_withdrawn(pr@),
    {
        if !self.is_merging(pr) {
            let _ = self.merges.remove(pr);
            let _ = self.state.merges.remove(pr);
        }
    }

    /// Has the first waiting change of a label checked.
    fn start_label(&mut self, pr: &str, c: &Context<'_>)
        ensures
            final(self)@ == old(self)@.starting_label(pr@, c@),
    {
        let job = match self.first_job(pr) {
            Some(job) => job,
            None => {
                return;
            },
        };
        if job.intent.valid(c, &self.state, Kind::Label) {
            self.ask(Effect::CheckLabel { pr: pr.to_owned(), token: job.intent.token, viewer: job.intent.viewer });
        } else {
            self.ask(Effect::RejectLabel { pr: pr.to_owned(), token: job.intent.token });
        }
    }

    /// A change of a label is asked for.
    fn request_label(&mut self, pr: String, name: String, selected: bool, c: &Context<'_>)
        ensures
            final(self)@ == old(self)@.label_requested(pr@, name@, selected, c@),
    {
        let intent = match self.intend(&pr, Kind::Label, c) {
            Ok(intent) => intent,
            Err(message) => {
                self.fail(message);
                return;
            },
        };
        let mut labels = match self.state.labels.get(&pr) {
            Some(labels) => labels.clone(),
            None => {
                self.fail("Load the PR labels first".to_owned());
                return;
            },
        };
        if labels.loading || labels.pending.contains_key(&name) {
            self.fail("Label update already pending".to_owned());
            return;
        }
        let i: usize = match find_label(&labels.items, &name) {
            Some(i) => i,
            None => {
                self.fail("Label no longer exists".to_owned());
                return;
            },
        };
        let previous = labels.items[i].selected;
        if previous == selected {
            return;
        }
        let color = labels.items[i].color.clone();
        let ghost was = labels@;
        assert(was.items[i as int] == labels.items@[i as int]@);
        choose_label(&mut labels.items, &name, selected);
        labels.pending.insert(name.clone(), ());
        labels.error = None;
        assert(labels.pending@.dom() =~= was.pending.insert(name@));
        assert(labels@ =~= (LabelsView {
            items: super::with_choice(was.items, name@, selected),
            pending: was.pending.insert(name@),
            error: None,
            ..was
        }));
        self.state.labels.insert(pr.clone(), labels);
        let job = LabelJob { intent, name, color, selected, previous };
        self.queue(pr, job, c);
    }

    /// A change of a label waits behind the others.
    fn queue(&mut self, pr: String, job: LabelJob, c: &Context<'_>)
        ensures
            final(self)@ == old(self)@.queueing(pr@, job@, c@),
    {
        let ghost before = self@;
        let ghost view = job@;
        let mut jobs = match self.label_jobs.remove(&pr) {
            Some(jobs) => jobs,
            None => Vec::new(),
        };
        assert(jobs.deep_view() =~= before.jobs_of(pr@));
        jobs.push(job);
        assert(jobs.deep_view() =~= before.jobs_of(pr@).push(view));
        let first = jobs.len() == 1;
        self.label_jobs.insert(pr.clone(), jobs);
        assert(self@.label_jobs =~= before.label_jobs.insert(pr@, before.jobs_of(pr@).push(view)));
        if first {
            self.start_label(&pr, c);
        }
    }

    /// The labels of a repository are asked for.
    fn request_labels(&mut self, pr: &str, c: &Context<'_>)
        ensures
            final(self)@ == old(self)@.labels_requested(pr@, c@),
    {
        match self.intend(pr, Kind::Label, c) {
            Ok(intent) => {
                self.refresh_catalogues(c, Some(intent.pr.snapshot.repo.as_str()));
            },
            Err(message) => {
                self.fail(message);
            },
        }
    }

    /// The user asks for something.
    fn request(&mut self, request: Request, c: &Context<'_>)
        ensures
            final(self)@ == old(self)@.requested(request@, c@),
    {
        self.state.error = None;
        if self.stopping {
            self.fail("Gopher is shutting down".to_owned());
            return;
        }
        match request {
            Request::Configure { repo: _, change: _ } => {},
            Request::Merge { pr, head, update } => {
                self.request_merge(pr, head, update, c);
            },
            Request::CancelMerge(pr) => {
                self.withdraw_merge(&pr);
            },
            Request::LoadLabels(pr) => {
                self.request_labels(&pr, c);
            },
            Request::Label { pr, name, selected } => {
                self.request_label(pr, name, selected, c);
            },
        }
    }

    // ------------------------------------------------------------ answers

    /// The preferences of a repository were written down, or not.
    fn configure(&mut self, repo: &str, preferences: Preferences, result: Result<(), String>)
        ensures
            final(self)@ == old(self)@.configured(repo@, preferences, fields::result_view(result)),
    {
        match result {
            Ok(_) => {
                self.state.preferences.insert(actions::repo_key(repo), preferences);
                self.state.error = None;
            },
            Err(message) => {
                self.fail(message);
            },
        }
    }

    /// A second of a countdown has passed.
    fn tick(&mut self, pr: String, token: u64, remaining: u8)
        ensures
            final(self)@ == old(self)@.ticked(pr@, token, remaining),
    {
        if !self.has_merge(&pr, token) {
            return;
        }
        if remaining > 0 {
            self.state.merges.insert(pr, MergeProgress::Countdown(remaining));
            return;
        }
        self.check_merge(pr);
    }

    /// Has a pending merge checked.
    fn check_merge(&mut self, pr: String)
        requires
            old(self)@.merges.contains_key(pr@),
        ensures
            final(self)@ == old(self)@.ticked(pr@, old(self)@.merges[pr@].token, 0),
    {
        if let Some(intent) = self.merges.get(&pr) {
            let token: u64 = intent.token;
            let reference = intent.reference();
            let viewer = intent.viewer.clone();
            self.state.merges.insert(pr.clone(), MergeProgress::Checking);
            self.ask(Effect::CheckMerge { pr, token, reference, viewer });
        }
    }

    /// A merge was checked.
    fn finish_check(&mut self, pr: String, token: u64, result: Result<Box<Snapshot>, String>, c: &Context<'_>)
        ensures
            final(self)@ == old(self)@.merge_checked(
                pr@,
                token,
                match result {
                    Ok(snapshot) => Ok(snapshot@),
                    Err(message) => Err(message@),
                },
                c@,
            ),
    {
        let intent = match self.merges.get(&pr) {
            Some(intent) => intent.clone(),
            None => {
                return;
            },
        };
        if intent.token != token {
            return;
        }
        let fault: Option<String> = match result {
            Err(message) => Some(message),
            Ok(snapshot) => {
                let valid = intent.valid(c, &self.state, Kind::Merge);
                if valid && intent.confirmed(*snapshot, c) {
                    None
                } else {
                    Some("Merge cancelled: the commit, review state, or action settings changed.".to_owned())
                }
            },
        };
        match fault {
            Some(message) => {
                let _ = self.merges.remove(&pr);
                self.state.merges.insert(pr, MergeProgress::Failed(message));
            },
            None => {
                self.state.merges.insert(pr.clone(), MergeProgress::Merging);
                self.submitted_merges.push(token);
                let reference = intent.reference();
                self.ask(
                    Effect::SubmitMerge {
                        pr,
                        token,
                        reference,
                        head: intent.pr.snapshot.head,
                        method: intent.preferences.merge_method,
                    },
                );
            },
        }
    }

    /// A merge that was sent was answered.
    fn finish_merge(&mut self, pr: String, token: u64, result: Result<(), String>)
        ensures
            final(self)@ == old(self)@.merged(pr@, token, fields::result_view(result)),
    {
        let rest = drop_token(&self.submitted_merges, token);
        self.submitted_merges = rest;
        if !self.has_merge(&pr, token) {
            return;
        }
        let _ = self.merges.remove(&pr);
        match result {
            Ok(_) => {
                self.state.merges.insert(pr, MergeProgress::Complete);
                self.ask(Effect::Refresh);
            },
            Err(message) => {
                self.state.merges.insert(pr, MergeProgress::Failed(message));
            },
        }
    }

    /// The labels of a repository have come.
    fn finish_load(&mut self, repo: String, token: u64, result: Result<Vec<PrLabel>, String>, c: &Context<'_>)
        ensures
            final(self)@ == old(self)@.labels_loaded(repo@, token, fields::result_view(result), c@),
    {
        let current = match self.loads.get(&repo) {
            Some(load) => *load == token,
            None => false,
        };
        if !current {
            return;
        }
        let _ = self.loads.remove(&repo);
        match result {
            Ok(labels) => {
                let catalogue = LabelCatalogue { labels, fetched_at: c.now };
                let _ = self.load_errors.remove(&repo);
                self.catalogues.insert(repo.clone(), catalogue.clone());
                if let Some(viewer) = &self.viewer {
                    let viewer = viewer.clone();
                    self.ask(Effect::SaveCatalogue { viewer, repo, catalogue });
                }
            },
            Err(message) => {
                self.load_errors.insert(repo, message);
            },
        }
    }

    /// Ends the first waiting change of a label.
    fn pop_job(&mut self, pr: &str)
        requires
            old(self)@.jobs_of(pr@).len() > 0,
        ensures
            final(self)@ == old(self)@.without_job(pr@),
    {
        let ghost before = self@;
        if let Some(jobs) = self.label_jobs.remove(pr) {
            let mut jobs = jobs;
            assert(jobs.deep_view() == before.jobs_of(pr@));
            let _ = jobs.remove(0);
            assert(jobs.deep_view() =~= before.jobs_of(pr@).drop_first());
            self.label_jobs.insert(pr.to_owned(), jobs);
            assert(self@.label_jobs =~= before.label_jobs.insert(pr@, before.jobs_of(pr@).drop_first()));
        }
    }

    /// The first waiting change of a label was not made.
    fn fail_label(&mut self, pr: &str, message: String, c: &Context<'_>)
        requires
            old(self)@.jobs_of(pr@).len() > 0,
        ensures
            final(self)@ == old(self)@.label_failed(pr@, message@, c@),
    {
        let job = match self.first_job(pr) {
            Some(job) => job,
            None => {
                return;
            },
        };
        self.pop_job(pr);
        let known = match self.state.labels.get(pr) {
            Some(labels) => Some(labels.clone()),
            None => None,
        };
        if let Some(labels) = known {
            let mut labels = labels;
            let ghost was = labels@;
            choose_label(&mut labels.items, &job.name, job.previous);
            let _ = labels.pending.remove(&job.name);
            labels.error = Some(message);
            assert(labels.pending@.dom() =~= was.pending.remove(job.name@));
            self.state.labels.insert(pr.to_owned(), labels);
        }
        self.start_label(pr, c);
    }

    /// The account of a change of a label was verified, or not.
    fn check_label(&mut self, pr: String, token: u64, result: Result<(), String>, c: &Context<'_>)
        ensures
            final(self)@ == old(self)@.label_checked(pr@, token, fields::result_view(result), c@),
    {
        let job = match self.first_job(&pr) {
            Some(job) => job,
            None => {
                return;
            },
        };
        if job.intent.token != token {
            return;
        }
        match result {
            Err(message) => {
                self.fail_label(&pr, message, c);
            },
            Ok(_) => {
                if !job.intent.valid(c, &self.state, Kind::Label) {
                    self.fail_label(&pr, LABEL_CANCELLED.to_owned(), c);
                } else {
                    let ghost before = self.submitted_labels.deep_view();
                    self.submitted_labels.push(job.clone());
                    assert(self.submitted_labels.deep_view() =~= before.push(job@));
                    let reference = job.intent.reference();
                    self.ask(Effect::SubmitLabel { pr, token, reference, name: job.name, selected: job.selected });
                }
            },
        }
    }

    /// The first waiting change of a label was made.
    fn make_label(&mut self, pr: &str, job: &LabelJob)
        requires
            old(self)@.jobs_of(pr@).len() > 0,
        ensures
            final(self)@ == old(self)@.label_made(pr@, job@),
    {
        self.pop_job(pr);
        let known = match self.state.labels.get(pr) {
            Some(labels) => Some(labels.clone()),
            None => None,
        };
        if let Some(labels) = known {
            let mut labels = labels;
            let ghost was = labels@;
            let _ = labels.pending.remove(&job.name);
            assert(labels.pending@.dom() =~= was.pending.remove(job.name@));
            self.state.labels.insert(pr.to_owned(), labels);
        }
        let mut completed = self.completed(pr);
        completed.insert(job.name.clone(), job.selected);
        self.completed_labels.insert(pr.to_owned(), completed);
    }

    /// A change of a label that was sent was answered.
    fn finish_label(&mut self, pr: String, token: u64, result: Result<(), String>, c: &Context<'_>)
        ensures
            final(self)@ == old(self)@.label_done(pr@, token, fields::result_view(result), c@),
    {
        let i: usize = match find_job(&self.submitted_labels, token) {
            Some(i) => i,
            None => {
                return;
            },
        };
        let ghost before = self.submitted_labels.deep_view();
        let job = self.submitted_labels.remove(i);
        assert(job@ == before[i as int]);
        assert(self.submitted_labels.deep_view() =~= before.remove(i as int));
        let waiting = match self.first_job(&pr) {
            Some(first) => first.intent.token == token,
            None => false,
        };
        match result {
            Ok(_) => {
                if waiting {
                    self.make_label(&pr, &job);
                }
                let label = PrLabel { name: job.name.clone(), color: job.color.clone() };
                self.ask(
                    Effect::LabelSaved {
                        pr: pr.clone(),
                        viewer: job.intent.viewer.clone(),
                        label,
                        selected: job.selected,
                    },
                );
                if waiting {
                    self.start_label(&pr, c);
                }
            },
            Err(message) => {
                if waiting {
                    self.fail_label(&pr, message, c);
                }
            },
        }
    }

    /// Takes in what was told.
    fn take_in(&mut self, command: ActionCommand, c: &Context<'_>)
        ensures
            final(self)@ == old(self)@.told(command@, c@),
    {
        match command {
            ActionCommand::Request(request) => {
                self.request(request, c);
            },
            ActionCommand::Configured { repo, preferences, result } => {
                self.configure(&repo, preferences, result);
            },
            ActionCommand::Tick { pr, token, remaining } => {
                self.tick(pr, token, remaining);
            },
            ActionCommand::MergeChecked { pr, token, result } => {
                self.finish_check(pr, token, result, c);
            },
            ActionCommand::Merged { pr, token, result } => {
                self.finish_merge(pr, token, result);
            },
            ActionCommand::LabelsLoaded { repo, token, result } => {
                self.finish_load(repo, token, result, c);
            },
            ActionCommand::LabelChecked { pr, token, result } => {
                self.check_label(pr, token, result, c);
            },
            ActionCommand::LabelDone { pr, token, result } => {
                self.finish_label(pr, token, result, c);
            },
        }
    }

    /// Takes in what was told, and asks for what follows from it.
    pub fn handle(&mut self, command: ActionCommand, c: &Context<'_>)
        ensures
            final(self)@ == old(self)@.handled(command@, c@),
    {
        if !self.stopping {
            if let ActionCommand::Request(Request::Configure { repo, change }) = &command {
                let mut preferences = self.state.preferences(repo);
                preferences.apply(change);
                self.ask(Effect::SavePreferences { repo: repo.clone(), preferences });
                return;
            }
        }
        let label = match &command {
            ActionCommand::Request(Request::Label { pr: _, name: _, selected: _ }) => true,
            _ => false,
        };
        self.take_in(command, c);
        self.reconcile(c);
        self.publish();
        if label {
            self.ask(Effect::LabelRequestHandled);
        }
    }

    /// Begins nothing new any more.
    pub fn begin_shutdown(&mut self)
        ensures
            final(self)@ == old(self)@.shut_down(),
    {
        let ghost start = self@;
        self.stopping = true;
        self.merges = TextMap::new();
        self.loads = TextMap::new();
        self.label_jobs = TextMap::new();
        let ids = self.state.merges.key_list();
        let ghost v = ids.deep_view();
        let mut kept: TextMap<MergeProgress> = TextMap::new();
        proof {
            self.state.merges.domain_is_finite();
            text_map::sorted_keys_exist(self.state.merges@.dom());
        }
        let mut i: usize = 0;
        while i < ids.len()
            invariant
                v == ids.deep_view(),
                v.to_set() == start.state.merges.dom(),
                i <= ids@.len(),
                self@ == (CoordinatorView {
                    stopping: true,
                    merges: Map::empty(),
                    loads: Map::empty(),
                    label_jobs: Map::empty(),
                    ..start
                }),
                forall|id: Seq<char>| #[trigger]
                    kept@.contains_key(id) <==> v.take(i as int).contains(id) && start.state.merges[id] is Merging,
                forall|id: Seq<char>| #[trigger] kept@.contains_key(id) ==> kept@[id] == start.state.merges[id],
            decreases ids.len() - i,
        {
            assert(v.take(i + 1) =~= v.take(i as int).push(v[i as int]));
            assert(v.to_set().contains(v[i as int]));
            if self.is_merging(&ids[i]) {
                kept.insert(ids[i].clone(), MergeProgress::Merging);
            }
            i += 1;
        }
        assert(v.take(i as int) =~= v);
        assert(kept@ =~= start.shut_down().state.merges) by {
            assert forall|id: Seq<char>| v.contains(id) <==> start.state.merges.contains_key(id) by {
                assert(v.contains(id) <==> v.to_set().contains(id));
            }
        }
        self.state.merges = kept;
        assert(self@ =~= start.shut_down());
    }

    /// Whether something that was sent is not yet answered.
    pub fn has_submissions(&self) -> (r: bool)
        ensures
            r == self@.awaits_answers(),
    {
        self.submitted_merges.len() > 0 || self.submitted_labels.len() > 0
    }
}

} // verus!
