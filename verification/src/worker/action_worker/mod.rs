//! Changes that the user asks for: merges and labels. Each is checked before it is made, and
//! none is made again by itself. What is pending is not kept between runs.

pub mod catalogues;
pub mod effects;
pub mod laws;
pub mod request_laws;
pub mod steps;

use crate::actions;
use crate::actions::{
    ActionState, ActionStateView, Kind, LabelCatalogue, LabelCatalogueView, LabelView, Labels, LabelsView,
    MergeProgressView, Preferences, Request, RequestView,
};
use crate::model::{PrLabelView, PullRequestView, SnapshotView};
use crate::store;
use crate::text_map;
use crate::text_map::TextMap;
use crate::worker;
use effects::{ActionCommandView, ContextView, Effect, EffectView, Intent, IntentView, LabelJob, LabelJobView};
use vstd::prelude::*;

verus! {

broadcast use vstd::seq_lib::group_seq_properties;

/// The seconds of a countdown before a merge.
pub const COUNTDOWN: u8 = 5;

/// For how many seconds a catalogue is fresh.
pub const FRESH_SECONDS: i64 = 900;

/// For how many milliseconds a catalogue is not fetched again by itself.
pub const ATTEMPT_MILLISECONDS: u64 = 900_000;

/// Holds what is pending, and what the interface shows of it.
pub struct Coordinator {
    pub state: ActionState,
    pub viewer: Option<String>,
    /// The last token that was given out.
    pub sequence: u64,
    pub merges: TextMap<Intent>,
    /// The tokens of the merges that were sent and not yet answered.
    pub submitted_merges: Vec<u64>,
    /// The tokens of the loads of label catalogues, by repository.
    pub loads: TextMap<u64>,
    pub load_errors: TextMap<String>,
    /// When a catalogue was last asked for, by repository.
    pub attempts: TextMap<u64>,
    pub catalogues: TextMap<LabelCatalogue>,
    /// The changes of labels that are waiting, by pull request.
    pub label_jobs: TextMap<Vec<LabelJob>>,
    /// The changes of labels that were sent and not yet answered.
    pub submitted_labels: Vec<LabelJob>,
    /// The changes of labels that were made after the last snapshot.
    pub completed_labels: TextMap<TextMap<bool>>,
    pub stopping: bool,
    /// What is asked for and not yet handed out.
    pub effects: Vec<Effect>,
}

/// The contents of a [`Coordinator`].
#[verifier::ext_equal]
pub struct CoordinatorView {
    pub state: ActionStateView,
    pub viewer: Option<Seq<char>>,
    pub sequence: u64,
    pub merges: Map<Seq<char>, IntentView>,
    pub submitted_merges: Seq<u64>,
    pub loads: Map<Seq<char>, u64>,
    pub load_errors: Map<Seq<char>, Seq<char>>,
    pub attempts: Map<Seq<char>, u64>,
    pub catalogues: Map<Seq<char>, LabelCatalogueView>,
    pub label_jobs: Map<Seq<char>, Seq<LabelJobView>>,
    pub submitted_labels: Seq<LabelJobView>,
    pub completed_labels: Map<Seq<char>, Map<Seq<char>, bool>>,
    pub stopping: bool,
    pub effects: Seq<EffectView>,
}

impl View for Coordinator {
    type V = CoordinatorView;

    open spec fn view(&self) -> CoordinatorView {
        CoordinatorView {
            state: self.state@,
            viewer: self.viewer.deep_view(),
            sequence: self.sequence,
            merges: self.merges@,
            submitted_merges: self.submitted_merges@,
            loads: self.loads@,
            load_errors: self.load_errors@,
            attempts: self.attempts@,
            catalogues: self.catalogues@,
            label_jobs: self.label_jobs@,
            submitted_labels: self.submitted_labels.deep_view(),
            completed_labels: self.completed_labels@,
            stopping: self.stopping,
            effects: self.effects.deep_view(),
        }
    }
}

/// The token after another one.
pub open spec fn next_token(token: u64) -> u64 {
    if token == u64::MAX {
        0
    } else {
        (token + 1) as u64
    }
}

/// Why a merge is cancelled before its check.
pub open spec fn merge_cancelled() -> Seq<char> {
    "Merge cancelled: the PR or action settings changed."@
}

/// Why a merge is cancelled after its check.
pub open spec fn merge_refused() -> Seq<char> {
    "Merge cancelled: the commit, review state, or action settings changed."@
}

/// Why a change of a label is cancelled.
pub const LABEL_CANCELLED: &'static str = "Label action cancelled: PR or settings changed.";

/// The place of the first label of a name.
pub open spec fn label_place(items: Seq<LabelView>, name: Seq<char>) -> Option<int>
    decreases items.len(),
{
    if items.len() == 0 {
        None
    } else {
        match label_place(items.drop_last(), name) {
            Some(i) => Some(i),
            None => if items.last().name == name {
                Some(items.len() - 1)
            } else {
                None
            },
        }
    }
}

/// Labels with the first one of a name chosen or not.
pub open spec fn with_choice(items: Seq<LabelView>, name: Seq<char>, selected: bool) -> Seq<LabelView> {
    match label_place(items, name) {
        Some(i) => items.update(i, LabelView { selected, ..items[i] }),
        None => items,
    }
}

/// The place of the first job of a token.
pub open spec fn job_place(jobs: Seq<LabelJobView>, token: u64) -> Option<int>
    decreases jobs.len(),
{
    if jobs.len() == 0 {
        None
    } else {
        match job_place(jobs.drop_last(), token) {
            Some(i) => Some(i),
            None => if jobs.last().intent.token == token {
                Some(jobs.len() - 1)
            } else {
                None
            },
        }
    }
}

/// Tokens without one.
pub open spec fn without_token(tokens: Seq<u64>, token: u64) -> Seq<u64>
    decreases tokens.len(),
{
    if tokens.len() == 0 {
        Seq::empty()
    } else if tokens.last() == token {
        without_token(tokens.drop_last(), token)
    } else {
        without_token(tokens.drop_last(), token).push(tokens.last())
    }
}

/// The repositories with open pull requests, by key.
pub open spec fn open_repos(prs: Map<Seq<char>, PullRequestView>) -> Set<Seq<char>> {
    Set::new(
        |repo: Seq<char>|
            exists|id: Seq<char>| #[trigger]
                prs.contains_key(id) && prs[id].snapshot.open && actions::repo_key_of(prs[id].snapshot.repo) == repo,
    )
}

impl IntentView {
    /// Whether a change may still be made: for the account that asked for it, under the
    /// rules that it was based on, with evidence that still allows it. A merge also needs the
    /// commit and the review that the user saw.
    pub open spec fn is_valid(self, c: ContextView, state: ActionStateView, kind: Kind) -> bool {
        let id = self.pr.snapshot.id;
        let pr = c.prs[id];
        let preferences = state.preferences_of(pr.snapshot.repo);
        &&& c.viewer == Some(self.viewer)
        &&& c.prs.contains_key(id)
        &&& preferences.rule_of(kind) == self.preferences.rule_of(kind)
        &&& kind == Kind::Merge ==> preferences.merge_method == self.preferences.merge_method
        &&& preferences.allowed(kind, pr)
        &&& kind == Kind::Merge ==> pr.snapshot.head == self.pr.snapshot.head && pr.update_id == self.pr.update_id
    }

    /// Whether a fresh snapshot shows what the user saw.
    pub open spec fn is_confirmed(self, fresh: PullRequestView) -> bool {
        &&& self.preferences.allowed(Kind::Merge, fresh)
        &&& fresh.snapshot.head == self.pr.snapshot.head
        &&& fresh.update_id == self.pr.update_id
    }

    /// What a fresh snapshot says.
    pub open spec fn freshly(self, snapshot: SnapshotView, c: ContextView) -> PullRequestView {
        worker::next_state(
            snapshot,
            Some(self.pr),
            c.config.expected_in(snapshot.repo),
            c.now,
            c.config.settle_seconds,
        )
    }
}

impl CoordinatorView {
    /// Something is asked for.
    pub open spec fn asking(self, effect: EffectView) -> CoordinatorView {
        CoordinatorView { effects: self.effects.push(effect), ..self }
    }

    /// The state is shown.
    pub open spec fn publishing(self) -> CoordinatorView {
        self.asking(EffectView::Publish(self.state))
    }

    /// An error is shown.
    pub open spec fn failing(self, message: Seq<char>) -> CoordinatorView {
        CoordinatorView { state: ActionStateView { error: Some(message), ..self.state }, ..self }
    }

    /// A token is given out.
    pub open spec fn counting(self) -> CoordinatorView {
        CoordinatorView { sequence: next_token(self.sequence), ..self }
    }

    /// Whether a merge with a token is pending.
    pub open spec fn merge_is(self, pr: Seq<char>, token: u64) -> bool {
        self.merges.contains_key(pr) && self.merges[pr].token == token
    }

    /// How far a merge has come is shown.
    pub open spec fn merge_at(self, pr: Seq<char>, progress: MergeProgressView) -> CoordinatorView {
        CoordinatorView {
            state: ActionStateView { merges: self.state.merges.insert(pr, progress), ..self.state },
            ..self
        }
    }

    /// A merge is no longer pending.
    pub open spec fn without_merge(self, pr: Seq<char>) -> CoordinatorView {
        CoordinatorView { merges: self.merges.remove(pr), ..self }
    }

    /// The changes of labels of a pull request that are waiting.
    pub open spec fn jobs_of(self, pr: Seq<char>) -> Seq<LabelJobView> {
        if self.label_jobs.contains_key(pr) {
            self.label_jobs[pr]
        } else {
            Seq::empty()
        }
    }

    /// Whether the first waiting change of a pull request has a token.
    pub open spec fn job_is(self, pr: Seq<char>, token: u64) -> bool {
        self.jobs_of(pr).len() > 0 && self.jobs_of(pr)[0].intent.token == token
    }

    /// The changes made after the last snapshot of a pull request.
    pub open spec fn completed_of(self, pr: Seq<char>) -> Map<Seq<char>, bool> {
        if self.completed_labels.contains_key(pr) {
            self.completed_labels[pr]
        } else {
            Map::empty()
        }
    }

    /// The labels shown for a pull request.
    pub open spec fn labels_of(self, pr: Seq<char>) -> LabelsView {
        if self.state.labels.contains_key(pr) {
            self.state.labels[pr]
        } else {
            LabelsView::blank()
        }
    }

    /// Other labels are shown for a pull request.
    pub open spec fn labels_at(self, pr: Seq<char>, labels: LabelsView) -> CoordinatorView {
        CoordinatorView {
            state: ActionStateView { labels: self.state.labels.insert(pr, labels), ..self.state },
            ..self
        }
    }

    // ------------------------------------------------------------ agreement with what is known

    /// Whether a pending merge is to be cancelled. One that was sent is not.
    pub open spec fn is_cancelled(self, id: Seq<char>, c: ContextView) -> bool {
        &&& self.merges.contains_key(id)
        &&& !(self.state.merges.contains_key(id) && self.state.merges[id] is Merging)
        &&& !self.merges[id].is_valid(c, self.state, Kind::Merge)
    }

    /// The merges that are no longer valid are cancelled.
    pub open spec fn with_cancelled(self, c: ContextView) -> CoordinatorView {
        if exists|id: Seq<char>| self.is_cancelled(id, c) {
            CoordinatorView {
                merges: Map::new(
                    |id: Seq<char>| self.merges.contains_key(id) && !self.is_cancelled(id, c),
                    |id: Seq<char>| self.merges[id],
                ),
                state: ActionStateView {
                    merges: Map::new(
                        |id: Seq<char>| self.state.merges.contains_key(id) || self.is_cancelled(id, c),
                        |id: Seq<char>|
                            if self.is_cancelled(id, c) {
                                MergeProgressView::Failed(merge_cancelled())
                            } else {
                                self.state.merges[id]
                            },
                    ),
                    ..self.state
                },
                ..self
            }.publishing()
        } else {
            self
        }
    }

    /// The labels of a pull request by all that is known.
    pub open spec fn synced_labels(self, id: Seq<char>, c: ContextView) -> LabelsView {
        let repo = actions::repo_key_of(c.prs[id].snapshot.repo);
        catalogues::synced(
            self.labels_of(id),
            c.prs[id].snapshot.labels,
            if self.catalogues.contains_key(repo) {
                Some(self.catalogues[repo])
            } else {
                None
            },
            self.completed_of(id),
            self.loads.contains_key(repo),
            if self.load_errors.contains_key(repo) {
                Some(self.load_errors[repo])
            } else {
                None
            },
        )
    }

    /// The labels of all pull requests by all that is known.
    pub open spec fn all_labels(self, c: ContextView) -> Map<Seq<char>, LabelsView> {
        Map::new(|id: Seq<char>| c.prs.contains_key(id), |id: Seq<char>| self.synced_labels(id, c))
    }

    /// The labels are brought up to date, and shown where that changes them.
    pub open spec fn with_synced(self, c: ContextView) -> CoordinatorView {
        let next = CoordinatorView {
            completed_labels: self.completed_labels.restrict(c.prs.dom()),
            state: ActionStateView { labels: self.all_labels(c), ..self.state },
            ..self
        };
        if next.state.labels != self.state.labels {
            next.publishing()
        } else {
            next
        }
    }

    /// Everything that belongs to an account is dropped, and what is kept of another one is
    /// taken up.
    pub open spec fn for_account(self, c: ContextView) -> CoordinatorView {
        CoordinatorView {
            viewer: c.viewer,
            merges: Map::empty(),
            loads: Map::empty(),
            load_errors: Map::empty(),
            attempts: Map::empty(),
            catalogues: match c.viewer {
                Some(viewer) => store::catalogues_of(c.catalogues, viewer),
                None => Map::empty(),
            },
            label_jobs: Map::empty(),
            completed_labels: Map::empty(),
            state: ActionStateView { merges: Map::empty(), labels: Map::empty(), ..self.state },
            ..self
        }
    }

    /// What is pending agrees again with what is known.
    pub open spec fn reconciled(self, c: ContextView) -> CoordinatorView {
        if self.viewer != c.viewer {
            if self.state.merges != Map::<Seq<char>, MergeProgressView>::empty() || self.state.labels != Map::<
                Seq<char>,
                LabelsView,
            >::empty() {
                self.for_account(c).publishing()
            } else {
                self.for_account(c)
            }
        } else {
            self.with_cancelled(c).with_synced(c)
        }
    }

    // ------------------------------------------------------------ catalogues

    /// Whether the catalogue of a repository is fresh, or was asked for not long ago.
    pub open spec fn is_fresh(self, repo: Seq<char>, c: ContextView) -> bool {
        ||| self.catalogues.contains_key(repo) && 0 <= worker::elapsed(c.now, self.catalogues[repo].fetched_at)
            < FRESH_SECONDS
        ||| self.attempts.contains_key(repo) && c.clock - self.attempts[repo] < ATTEMPT_MILLISECONDS
    }

    /// Whether the catalogue of a repository is due: nobody is fetching it, and it was asked
    /// for or is no longer fresh.
    pub open spec fn is_due(self, repo: Seq<char>, wanted: Option<Seq<char>>, c: ContextView) -> bool {
        &&& !self.loads.contains_key(repo)
        &&& match wanted {
            Some(key) => key == repo,
            None => !self.is_fresh(repo, c),
        }
    }

    /// The catalogues of repositories are asked for, one after the other.
    pub open spec fn asking_for(
        self,
        repos: Seq<Seq<char>>,
        wanted: Option<Seq<char>>,
        c: ContextView,
    ) -> (CoordinatorView, Seq<(Seq<char>, u64)>)
        decreases repos.len(),
    {
        if repos.len() == 0 {
            (self, Seq::empty())
        } else {
            let (before, jobs) = self.asking_for(repos.drop_last(), wanted, c);
            let repo = repos.last();
            if !before.is_due(repo, wanted, c) {
                (before, jobs)
            } else if c.paused {
                if wanted is Some {
                    (
                        CoordinatorView {
                            load_errors: before.load_errors.insert(
                                repo,
                                "GitHub rate limit: label refresh is paused until the quota cooldown ends."@,
                            ),
                            ..before
                        },
                        jobs,
                    )
                } else {
                    (before, jobs)
                }
            } else {
                let token = next_token(before.sequence);
                (
                    CoordinatorView {
                        sequence: token,
                        loads: before.loads.insert(repo, token),
                        attempts: before.attempts.insert(repo, c.clock),
                        load_errors: before.load_errors.remove(repo),
                        ..before
                    },
                    jobs.push((repo, token)),
                )
            }
        }
    }

    /// The catalogues that are due are asked for: all of them, or that of one repository
    /// even if it is fresh.
    pub open spec fn refreshing(self, c: ContextView, repo: Option<Seq<char>>) -> CoordinatorView {
        if c.viewer is None || self.viewer != c.viewer {
            self
        } else {
            let wanted = match repo {
                Some(repo) => Some(actions::repo_key_of(repo)),
                None => None,
            };
            let (next, jobs) = self.asking_for(text_map::sorted_keys(open_repos(c.prs)), wanted, c);
            let shown = next.with_synced(c);
            if jobs.len() == 0 {
                shown
            } else {
                shown.asking(EffectView::LoadCatalogues { viewer: c.viewer->0, jobs })
            }
        }
    }

    // ------------------------------------------------------------ requests

    /// The intent of a request, or why there can be none.
    pub open spec fn intent(self, id: Seq<char>, kind: Kind, c: ContextView) -> Result<IntentView, Seq<char>> {
        if !c.prs.contains_key(id) {
            Err("This PR is no longer in the active list"@)
        } else if !self.state.preferences_of(c.prs[id].snapshot.repo).allowed(kind, c.prs[id]) {
            Err("Action is unavailable for this PR's current state"@)
        } else {
            match c.viewer {
                None => Err("Waiting for GitHub authentication"@),
                Some(viewer) => Ok(
                    IntentView {
                        token: next_token(self.sequence),
                        pr: c.prs[id],
                        viewer,
                        preferences: self.state.preferences_of(c.prs[id].snapshot.repo),
                    },
                ),
            }
        }
    }

    /// The coordinator once an intent was tried: a token is given out where evidence allows
    /// the action.
    pub open spec fn after_intent(self, id: Seq<char>, kind: Kind, c: ContextView) -> CoordinatorView {
        if c.prs.contains_key(id) && self.state.preferences_of(c.prs[id].snapshot.repo).allowed(kind, c.prs[id]) {
            self.counting()
        } else {
            self
        }
    }

    /// A merge is asked for.
    pub open spec fn merge_requested(
        self,
        pr: Seq<char>,
        head: Seq<char>,
        update: Seq<char>,
        c: ContextView,
    ) -> CoordinatorView {
        if self.merges.contains_key(pr) {
            self.failing("A merge is already pending for this PR"@)
        } else {
            let next = self.after_intent(pr, Kind::Merge, c);
            match self.intent(pr, Kind::Merge, c) {
                Err(message) => next.failing(message),
                Ok(intent) => if head != intent.pr.snapshot.head || head.len() == 0 {
                    next.failing("The PR commit changed; refresh before merging"@)
                } else if update != intent.pr.update_id {
                    next.failing("The PR review changed; refresh before merging"@)
                } else {
                    CoordinatorView { merges: next.merges.insert(pr, intent), ..next }.merge_at(
                        pr,
                        MergeProgressView::Countdown(COUNTDOWN),
                    ).asking(EffectView::Countdown { pr, token: intent.token })
                },
            }
        }
    }

    /// A merge is cancelled, unless it was sent.
    pub open spec fn merge_withdrawn(self, pr: Seq<char>) -> CoordinatorView {
        if self.state.merges.contains_key(pr) && self.state.merges[pr] is Merging {
            self
        } else {
            CoordinatorView {
                merges: self.merges.remove(pr),
                state: ActionStateView { merges: self.state.merges.remove(pr), ..self.state },
                ..self
            }
        }
    }

    /// The first waiting change of a label is checked.
    pub open spec fn starting_label(self, pr: Seq<char>, c: ContextView) -> CoordinatorView {
        if self.jobs_of(pr).len() == 0 {
            self
        } else {
            let job = self.jobs_of(pr)[0];
            if job.intent.is_valid(c, self.state, Kind::Label) {
                self.asking(EffectView::CheckLabel { pr, token: job.intent.token, viewer: job.intent.viewer })
            } else {
                self.asking(EffectView::RejectLabel { pr, token: job.intent.token })
            }
        }
    }

    /// A change of a label waits behind the others.
    pub open spec fn queueing(self, pr: Seq<char>, job: LabelJobView, c: ContextView) -> CoordinatorView {
        let jobs = self.jobs_of(pr).push(job);
        let next = CoordinatorView { label_jobs: self.label_jobs.insert(pr, jobs), ..self };
        if jobs.len() == 1 {
            next.starting_label(pr, c)
        } else {
            next
        }
    }

    /// A change of a label is asked for.
    pub open spec fn label_requested(
        self,
        pr: Seq<char>,
        name: Seq<char>,
        selected: bool,
        c: ContextView,
    ) -> CoordinatorView {
        let next = self.after_intent(pr, Kind::Label, c);
        match self.intent(pr, Kind::Label, c) {
            Err(message) => next.failing(message),
            Ok(intent) => if !next.state.labels.contains_key(pr) {
                next.failing("Load the PR labels first"@)
            } else {
                let labels = next.state.labels[pr];
                if labels.loading || labels.pending.contains(name) {
                    next.failing("Label update already pending"@)
                } else {
                    match label_place(labels.items, name) {
                        None => next.failing("Label no longer exists"@),
                        Some(i) => if labels.items[i].selected == selected {
                            next
                        } else {
                            next.labels_at(
                                pr,
                                LabelsView {
                                    items: with_choice(labels.items, name, selected),
                                    pending: labels.pending.insert(name),
                                    error: None,
                                    ..labels
                                },
                            ).queueing(
                                pr,
                                LabelJobView {
                                    intent,
                                    name,
                                    color: labels.items[i].color,
                                    selected,
                                    previous: labels.items[i].selected,
                                },
                                c,
                            )
                        },
                    }
                }
            },
        }
    }

    /// The labels of a repository are asked for.
    pub open spec fn labels_requested(self, pr: Seq<char>, c: ContextView) -> CoordinatorView {
        let next = self.after_intent(pr, Kind::Label, c);
        match self.intent(pr, Kind::Label, c) {
            Err(message) => next.failing(message),
            Ok(intent) => next.refreshing(c, Some(intent.pr.snapshot.repo)),
        }
    }

    /// The user asks for something.
    pub open spec fn requested(self, request: RequestView, c: ContextView) -> CoordinatorView {
        let fresh = CoordinatorView { state: ActionStateView { error: None, ..self.state }, ..self };
        if self.stopping {
            fresh.failing("Gopher is shutting down"@)
        } else {
            match request {
                RequestView::Configure { .. } => fresh,
                RequestView::Merge { pr, head, update } => fresh.merge_requested(pr, head, update, c),
                RequestView::CancelMerge(pr) => fresh.merge_withdrawn(pr),
                RequestView::LoadLabels(pr) => fresh.labels_requested(pr, c),
                RequestView::Label { pr, name, selected } => fresh.label_requested(pr, name, selected, c),
            }
        }
    }

    // ------------------------------------------------------------ answers

    /// The preferences of a repository were written down, or not.
    pub open spec fn configured(
        self,
        repo: Seq<char>,
        preferences: Preferences,
        saved: Result<(), Seq<char>>,
    ) -> CoordinatorView {
        match saved {
            Ok(_) => CoordinatorView {
                state: ActionStateView {
                    preferences: self.state.preferences.insert(actions::repo_key_of(repo), preferences),
                    error: None,
                    ..self.state
                },
                ..self
            },
            Err(message) => self.failing(message),
        }
    }

    /// A second of a countdown has passed.
    pub open spec fn ticked(self, pr: Seq<char>, token: u64, remaining: u8) -> CoordinatorView {
        if !self.merge_is(pr, token) {
            self
        } else if remaining > 0 {
            self.merge_at(pr, MergeProgressView::Countdown(remaining))
        } else {
            self.merge_at(pr, MergeProgressView::Checking).asking(
                EffectView::CheckMerge {
                    pr,
                    token,
                    reference: self.merges[pr].target(),
                    viewer: self.merges[pr].viewer,
                },
            )
        }
    }

    /// Why a checked merge may not be made, if there is a reason.
    pub open spec fn merge_fault(
        self,
        intent: IntentView,
        checked: Result<SnapshotView, Seq<char>>,
        c: ContextView,
    ) -> Option<Seq<char>> {
        match checked {
            Err(message) => Some(message),
            Ok(snapshot) => if intent.is_valid(c, self.state, Kind::Merge) && intent.is_confirmed(intent.freshly(snapshot, c)) {
                None
            } else {
                Some(merge_refused())
            },
        }
    }

    /// A merge was checked.
    pub open spec fn merge_checked(
        self,
        pr: Seq<char>,
        token: u64,
        checked: Result<SnapshotView, Seq<char>>,
        c: ContextView,
    ) -> CoordinatorView {
        if !self.merge_is(pr, token) {
            self
        } else {
            let intent = self.merges[pr];
            match self.merge_fault(intent, checked, c) {
                Some(message) => self.without_merge(pr).merge_at(pr, MergeProgressView::Failed(message)),
                None => CoordinatorView {
                    submitted_merges: self.submitted_merges.push(token),
                    ..self
                }.merge_at(pr, MergeProgressView::Merging).asking(
                    EffectView::SubmitMerge {
                        pr,
                        token,
                        reference: intent.target(),
                        head: intent.pr.snapshot.head,
                        method: intent.preferences.merge_method,
                    },
                ),
            }
        }
    }

    /// A merge that was sent was answered.
    pub open spec fn merged(self, pr: Seq<char>, token: u64, merged: Result<(), Seq<char>>) -> CoordinatorView {
        let next = CoordinatorView { submitted_merges: without_token(self.submitted_merges, token), ..self };
        if !self.merge_is(pr, token) {
            next
        } else {
            match merged {
                Ok(_) => next.without_merge(pr).merge_at(pr, MergeProgressView::Complete).asking(EffectView::Refresh),
                Err(message) => next.without_merge(pr).merge_at(pr, MergeProgressView::Failed(message)),
            }
        }
    }

    /// The labels of a repository have come.
    pub open spec fn labels_loaded(
        self,
        repo: Seq<char>,
        token: u64,
        loaded: Result<Seq<PrLabelView>, Seq<char>>,
        c: ContextView,
    ) -> CoordinatorView {
        if !(self.loads.contains_key(repo) && self.loads[repo] == token) {
            self
        } else {
            let next = CoordinatorView { loads: self.loads.remove(repo), ..self };
            match loaded {
                Err(message) => CoordinatorView { load_errors: next.load_errors.insert(repo, message), ..next },
                Ok(labels) => {
                    let catalogue = LabelCatalogueView { labels, fetched_at: c.now };
                    let known = CoordinatorView {
                        load_errors: next.load_errors.remove(repo),
                        catalogues: next.catalogues.insert(repo, catalogue),
                        ..next
                    };
                    match self.viewer {
                        Some(viewer) => known.asking(EffectView::SaveCatalogue { viewer, repo, catalogue }),
                        None => known,
                    }
                },
            }
        }
    }

    /// The first waiting change of a label is over.
    pub open spec fn without_job(self, pr: Seq<char>) -> CoordinatorView {
        CoordinatorView { label_jobs: self.label_jobs.insert(pr, self.jobs_of(pr).drop_first()), ..self }
    }

    /// The first waiting change of a label was not made: what was chosen before is chosen
    /// again.
    pub open spec fn label_failed(self, pr: Seq<char>, message: Seq<char>, c: ContextView) -> CoordinatorView {
        let job = self.jobs_of(pr)[0];
        let next = self.without_job(pr);
        let shown = if next.state.labels.contains_key(pr) {
            let labels = next.state.labels[pr];
            next.labels_at(
                pr,
                LabelsView {
                    items: with_choice(labels.items, job.name, job.previous),
                    pending: labels.pending.remove(job.name),
                    error: Some(message),
                    ..labels
                },
            )
        } else {
            next
        };
        shown.starting_label(pr, c)
    }

    /// The account of a change of a label was verified, or not.
    pub open spec fn label_checked(
        self,
        pr: Seq<char>,
        token: u64,
        verified: Result<(), Seq<char>>,
        c: ContextView,
    ) -> CoordinatorView {
        if !self.job_is(pr, token) {
            self
        } else {
            let job = self.jobs_of(pr)[0];
            match verified {
                Err(message) => self.label_failed(pr, message, c),
                Ok(_) => if !job.intent.is_valid(c, self.state, Kind::Label) {
                    self.label_failed(pr, LABEL_CANCELLED@, c)
                } else {
                    CoordinatorView { submitted_labels: self.submitted_labels.push(job), ..self }.asking(
                        EffectView::SubmitLabel {
                            pr,
                            token,
                            reference: job.intent.target(),
                            name: job.name,
                            selected: job.selected,
                        },
                    )
                },
            }
        }
    }

    /// A change of a label was made: until the next snapshot says so too, it is remembered.
    pub open spec fn label_made(self, pr: Seq<char>, job: LabelJobView) -> CoordinatorView {
        let next = self.without_job(pr);
        let shown = if next.state.labels.contains_key(pr) {
            let labels = next.state.labels[pr];
            next.labels_at(pr, LabelsView { pending: labels.pending.remove(job.name), ..labels })
        } else {
            next
        };
        CoordinatorView {
            completed_labels: shown.completed_labels.insert(pr, shown.completed_of(pr).insert(job.name, job.selected)),
            ..shown
        }
    }

    /// A change of a label that was sent was answered. That it was made is reported even
    /// where the coordinator no longer waits for it.
    pub open spec fn label_done(
        self,
        pr: Seq<char>,
        token: u64,
        done: Result<(), Seq<char>>,
        c: ContextView,
    ) -> CoordinatorView {
        match job_place(self.submitted_labels, token) {
            None => self,
            Some(i) => {
                let job = self.submitted_labels[i];
                let next = CoordinatorView { submitted_labels: self.submitted_labels.remove(i), ..self };
                let saved = EffectView::LabelSaved {
                    pr,
                    viewer: job.intent.viewer,
                    label: PrLabelView { name: job.name, color: job.color },
                    selected: job.selected,
                };
                match done {
                    Ok(_) => if next.job_is(pr, token) {
                        next.label_made(pr, job).asking(saved).starting_label(pr, c)
                    } else {
                        next.asking(saved)
                    },
                    Err(message) => if next.job_is(pr, token) {
                        next.label_failed(pr, message, c)
                    } else {
                        next
                    },
                }
            },
        }
    }

    /// What was told is taken in.
    pub open spec fn told(self, command: ActionCommandView, c: ContextView) -> CoordinatorView {
        match command {
            ActionCommandView::Request(request) => self.requested(request, c),
            ActionCommandView::Configured { repo, preferences, saved } => self.configured(repo, preferences, saved),
            ActionCommandView::Tick { pr, token, remaining } => self.ticked(pr, token, remaining),
            ActionCommandView::MergeChecked { pr, token, checked } => self.merge_checked(pr, token, checked, c),
            ActionCommandView::Merged { pr, token, merged } => self.merged(pr, token, merged),
            ActionCommandView::LabelsLoaded { repo, token, loaded } => self.labels_loaded(repo, token, loaded, c),
            ActionCommandView::LabelChecked { pr, token, verified } => self.label_checked(pr, token, verified, c),
            ActionCommandView::LabelDone { pr, token, done } => self.label_done(pr, token, done, c),
        }
    }

    /// The coordinator after it was told something.
    pub open spec fn handled(self, command: ActionCommandView, c: ContextView) -> CoordinatorView {
        match command {
            ActionCommandView::Request(RequestView::Configure { repo, change }) if !self.stopping => self.asking(
                EffectView::SavePreferences { repo, preferences: self.state.preferences_of(repo).changed(change) },
            ),
            _ => {
                let next = self.told(command, c).reconciled(c).publishing();
                if command is Request && command->Request_0 is Label {
                    next.asking(EffectView::LabelRequestHandled)
                } else {
                    next
                }
            },
        }
    }

    /// Nothing new is begun any more. What was sent is still waited for.
    pub open spec fn shut_down(self) -> CoordinatorView {
        CoordinatorView {
            stopping: true,
            merges: Map::empty(),
            loads: Map::empty(),
            label_jobs: Map::empty(),
            state: ActionStateView {
                merges: Map::new(
                    |id: Seq<char>| self.state.merges.contains_key(id) && self.state.merges[id] is Merging,
                    |id: Seq<char>| self.state.merges[id],
                ),
                ..self.state
            },
            ..self
        }
    }

    /// Whether something that was sent is not yet answered.
    pub open spec fn awaits_answers(self) -> bool {
        self.submitted_merges.len() > 0 || self.submitted_labels.len() > 0
    }

    /// A coordinator that takes up what is kept.
    pub open spec fn taking_up(tables: store::TablesView) -> CoordinatorView {
        CoordinatorView {
            state: ActionStateView { preferences: tables.actions, ..ActionStateView::blank() },
            viewer: tables.viewer,
            sequence: 0,
            merges: Map::empty(),
            submitted_merges: Seq::empty(),
            loads: Map::empty(),
            load_errors: Map::empty(),
            attempts: Map::empty(),
            catalogues: match tables.viewer {
                Some(viewer) => store::catalogues_of(tables.catalogues, viewer),
                None => Map::empty(),
            },
            label_jobs: Map::empty(),
            submitted_labels: Seq::empty(),
            completed_labels: Map::empty(),
            stopping: false,
            effects: Seq::empty(),
        }
    }
}

} // verus!
