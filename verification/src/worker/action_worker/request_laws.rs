//! What becomes of the user's requests, whatever is known and whatever is answered.

use crate::actions;
use crate::actions::{Kind, LabelView, MergeProgressView, Preferences, RequestView, Setting};
use crate::github::PrRefView;
use crate::model::{CheckState, PrLabelView, PullRequestView, SnapshotView, State};
use crate::worker;
use crate::worker::action_worker::effects::{ActionCommandView, ContextView, EffectView, LabelJobView};
use crate::worker::action_worker::CoordinatorView;
use vstd::prelude::*;

verus! {

broadcast use vstd::seq_lib::group_seq_properties;

// ---------------------------------------------------------------- what is allowed

/// Whether a rule is met by a state.
pub open spec fn is_met(condition: actions::Condition, state: State) -> bool {
    ||| condition == actions::Condition::Always
    ||| condition == actions::Condition::Reviewing && state == State::Reviewing
    ||| condition == actions::Condition::Comments && state == State::Comments
    ||| condition == actions::Condition::Approved && state == State::Approved
}

/// A merge is allowed exactly where the rule of merges is on and met by current evidence of an open
/// pull request that is neither a draft nor in conflict; a change of labels where their rule is on
/// and met by current evidence of an open one.
pub proof fn actions_need_their_rule(p: Preferences, pr: PullRequestView)
    ensures
        p.allowed(Kind::Merge, pr) <==> {
            &&& p.merge.enabled
            &&& is_met(p.merge.condition, pr.state)
            &&& !pr.stale
            &&& pr.snapshot.open
            &&& !pr.snapshot.draft
            &&& pr.snapshot.check_state != Some(CheckState::Conflicts)
        },
        p.allowed(Kind::Label, pr) <==> {
            &&& p.label.enabled
            &&& is_met(p.label.condition, pr.state)
            &&& !pr.stale
            &&& pr.snapshot.open
        },
{
}

/// A setting that is changed has its new value, and only it.
pub proof fn settings_take_their_values(p: Preferences, value: bool, condition: actions::Condition, method: actions::MergeMethod)
    ensures
        ({
            let r = p.changed(Setting::Enabled(Kind::Merge, value));
            r.merge.enabled == value && r.merge.condition == p.merge.condition && r.label == p.label && r.merge_method
                == p.merge_method
        }),
        ({
            let r = p.changed(Setting::Enabled(Kind::Label, value));
            r.label.enabled == value && r.label.condition == p.label.condition && r.merge == p.merge && r.merge_method
                == p.merge_method
        }),
        ({
            let r = p.changed(Setting::Condition(Kind::Merge, condition));
            r.merge.condition == condition && r.merge.enabled == p.merge.enabled && r.label == p.label && r.merge_method
                == p.merge_method
        }),
        ({
            let r = p.changed(Setting::Condition(Kind::Label, condition));
            r.label.condition == condition && r.label.enabled == p.label.enabled && r.merge == p.merge && r.merge_method
                == p.merge_method
        }),
        ({
            let r = p.changed(Setting::MergeMethod(method));
            r.merge_method == method && r.merge == p.merge && r.label == p.label
        }),
{
}

// ---------------------------------------------------------------- merges

/// Whether the user may merge a pull request as it is shown: it is known, the rules allow it, the
/// account is known, no merge of it is pending, and what is shown is what is known.
pub open spec fn may_merge(s: CoordinatorView, pr: Seq<char>, head: Seq<char>, update: Seq<char>, c: ContextView) -> bool {
    &&& !s.stopping
    &&& !s.merges.contains_key(pr)
    &&& c.prs.contains_key(pr)
    &&& s.state.preferences_of(c.prs[pr].snapshot.repo).allowed(Kind::Merge, c.prs[pr])
    &&& c.viewer is Some
    &&& head.len() > 0
    &&& head == c.prs[pr].snapshot.head
    &&& update == c.prs[pr].update_id
}

/// Such a merge is counted down from five, under a token of its own, with all that it rests on.
pub proof fn allowed_merges_count_down(
    s: CoordinatorView,
    pr: Seq<char>,
    head: Seq<char>,
    update: Seq<char>,
    c: ContextView,
)
    requires
        may_merge(s, pr, head, update, c),
    ensures
        ({
            let next = s.told(ActionCommandView::Request(RequestView::Merge { pr, head, update }), c);
            &&& next.merges.contains_key(pr)
            &&& next.merges[pr].pr == c.prs[pr]
            &&& next.merges[pr].viewer == c.viewer->0
            &&& next.merges[pr].preferences == s.state.preferences_of(c.prs[pr].snapshot.repo)
            &&& next.merges[pr].token != s.sequence
            &&& next.sequence == next.merges[pr].token
            &&& next.state.merges.contains_key(pr)
            &&& next.state.merges[pr] == MergeProgressView::Countdown(5)
            &&& next.state.error is None
            &&& next.effects == s.effects.push(EffectView::Countdown { pr, token: next.merges[pr].token })
        }),
{
}

/// Any other merge is refused, with a reason, and begins nothing.
pub proof fn other_merges_are_refused(
    s: CoordinatorView,
    pr: Seq<char>,
    head: Seq<char>,
    update: Seq<char>,
    c: ContextView,
)
    requires
        !may_merge(s, pr, head, update, c),
    ensures
        ({
            let next = s.told(ActionCommandView::Request(RequestView::Merge { pr, head, update }), c);
            &&& next.merges == s.merges
            &&& next.state.merges == s.state.merges
            &&& next.effects == s.effects
            &&& next.state.error is Some
        }),
{
}

/// Each second of a countdown is shown. When none is left, the merge is checked: for the pull
/// request and the account that it was asked for.
pub proof fn countdowns_end_in_a_check(s: CoordinatorView, pr: Seq<char>, remaining: u8, c: ContextView)
    requires
        s.merges.contains_key(pr),
    ensures
        ({
            let token = s.merges[pr].token;
            let next = s.told(ActionCommandView::Tick { pr, token, remaining }, c);
            &&& next.merges == s.merges
            &&& next.state.merges.contains_key(pr)
            &&& remaining > 0 ==> next.state.merges[pr] == MergeProgressView::Countdown(remaining) && next.effects == s.effects
            &&& remaining == 0 ==> next.state.merges[pr] == MergeProgressView::Checking && next.effects == s.effects.push(
                EffectView::CheckMerge {
                    pr,
                    token,
                    reference: PrRefView {
                        id: s.merges[pr].pr.snapshot.id,
                        repo: s.merges[pr].pr.snapshot.repo,
                        number: s.merges[pr].pr.snapshot.number,
                    },
                    viewer: s.merges[pr].viewer,
                },
            )
        }),
{
}

/// Whether everything that a merge rests on still holds: the account, the rules, the method, the
/// commit and the review, by what is known and by a snapshot that was just taken.
pub open spec fn still_holds(s: CoordinatorView, pr: Seq<char>, snapshot: SnapshotView, c: ContextView) -> bool {
    let intent = s.merges[pr];
    let id = intent.pr.snapshot.id;
    let known = c.prs[id];
    let rules = s.state.preferences_of(known.snapshot.repo);
    let fresh = worker::next_state(
        snapshot,
        Some(intent.pr),
        c.config.expected_in(snapshot.repo),
        c.now,
        c.config.settle_seconds,
    );
    &&& c.viewer == Some(intent.viewer)
    &&& c.prs.contains_key(id)
    &&& rules.merge == intent.preferences.merge
    &&& rules.merge_method == intent.preferences.merge_method
    &&& rules.allowed(Kind::Merge, known)
    &&& known.snapshot.head == intent.pr.snapshot.head
    &&& known.update_id == intent.pr.update_id
    &&& intent.preferences.allowed(Kind::Merge, fresh)
    &&& fresh.snapshot.head == intent.pr.snapshot.head
    &&& fresh.update_id == intent.pr.update_id
}

/// A merge whose check has come is sent exactly where all that still holds, for the commit that
/// the user saw and by the method of the rules. Otherwise it has failed and is pending no longer.
pub proof fn checked_merges_are_sent_or_fail(
    s: CoordinatorView,
    pr: Seq<char>,
    checked: Result<SnapshotView, Seq<char>>,
    c: ContextView,
)
    requires
        s.merges.contains_key(pr),
    ensures
        ({
            let intent = s.merges[pr];
            let next = s.told(ActionCommandView::MergeChecked { pr, token: intent.token, checked }, c);
            let holds = checked is Ok && still_holds(s, pr, checked->Ok_0, c);
            &&& next.state.merges.contains_key(pr)
            &&& holds ==> {
                &&& next.state.merges[pr] == MergeProgressView::Merging
                &&& next.merges == s.merges
                &&& next.submitted_merges == s.submitted_merges.push(intent.token)
                &&& next.effects == s.effects.push(
                    EffectView::SubmitMerge {
                        pr,
                        token: intent.token,
                        reference: PrRefView {
                            id: intent.pr.snapshot.id,
                            repo: intent.pr.snapshot.repo,
                            number: intent.pr.snapshot.number,
                        },
                        head: intent.pr.snapshot.head,
                        method: intent.preferences.merge_method,
                    },
                )
            }
            &&& !holds ==> {
                &&& next.state.merges[pr] is Failed
                &&& checked is Err ==> next.state.merges[pr] == MergeProgressView::Failed(checked->Err_0)
                &&& !next.merges.contains_key(pr)
                &&& next.submitted_merges == s.submitted_merges
                &&& next.effects == s.effects
            }
        }),
{
}

/// A merge that was answered is over: it is complete, and a new discovery is asked for, or it has
/// failed for the reason that was given. It is waited for no longer.
pub proof fn answered_merges_are_over(s: CoordinatorView, pr: Seq<char>, answer: Result<(), Seq<char>>, c: ContextView)
    requires
        s.merges.contains_key(pr),
    ensures
        ({
            let token = s.merges[pr].token;
            let next = s.told(ActionCommandView::Merged { pr, token, merged: answer }, c);
            &&& !next.merges.contains_key(pr)
            &&& next.state.merges.contains_key(pr)
            &&& answer is Ok ==> next.state.merges[pr] == MergeProgressView::Complete && next.effects == s.effects.push(
                EffectView::Refresh,
            )
            &&& answer is Err ==> next.state.merges[pr] == MergeProgressView::Failed(answer->Err_0) && next.effects == s.effects
            &&& !next.submitted_merges.contains(token)
        }),
{
    tokens_are_taken_out(s.submitted_merges, s.merges[pr].token);
}

/// Without a token there is none.
proof fn tokens_are_taken_out(tokens: Seq<u64>, token: u64)
    ensures
        !super::without_token(tokens, token).contains(token),
    decreases tokens.len(),
{
    if tokens.len() > 0 {
        tokens_are_taken_out(tokens.drop_last(), token);
        let before = super::without_token(tokens.drop_last(), token);
        let kept = super::without_token(tokens, token);
        if kept.contains(token) {
            let k = choose|k: int| 0 <= k < kept.len() && kept[k] == token;
            if k < before.len() {
                assert(before[k] == token);
            }
        }
    }
}

/// The user can withdraw a merge until it is sent: then nothing is shown of it and nothing that
/// comes for it has any effect. One that was sent goes on.
pub proof fn merges_can_be_withdrawn(s: CoordinatorView, pr: Seq<char>, c: ContextView)
    requires
        !s.stopping,
    ensures
        ({
            let next = s.told(ActionCommandView::Request(RequestView::CancelMerge(pr)), c);
            let sent = s.state.merges.contains_key(pr) && s.state.merges[pr] is Merging;
            &&& !sent ==> !next.merges.contains_key(pr) && !next.state.merges.contains_key(pr)
            &&& sent ==> next.merges == s.merges && next.state.merges == s.state.merges
            &&& next.effects == s.effects
        }),
{
}

/// When what is known no longer allows a merge, it is cancelled with a reason, unless it was sent.
pub proof fn merges_that_no_longer_hold_are_cancelled(s: CoordinatorView, id: Seq<char>, c: ContextView)
    requires
        s.viewer == c.viewer,
        s.merges.contains_key(id),
        !(s.state.merges.contains_key(id) && s.state.merges[id] is Merging),
        ({
            let intent = s.merges[id];
            let own = intent.pr.snapshot.id;
            ||| c.viewer != Some(intent.viewer)
            ||| !c.prs.contains_key(own)
            ||| c.prs[own].snapshot.head != intent.pr.snapshot.head
            ||| c.prs[own].update_id != intent.pr.update_id
            ||| c.prs[own].stale
            ||| !s.state.preferences_of(c.prs[own].snapshot.repo).merge.enabled
        }),
    ensures
        !s.reconciled(c).merges.contains_key(id),
        s.reconciled(c).state.merges.contains_key(id),
        s.reconciled(c).state.merges[id] is Failed,
{
    assert(s.is_cancelled(id, c));
}

// ---------------------------------------------------------------- preferences

/// A change of preferences is written down first: the preferences of that repository, with that
/// change. They hold once they were written, and an error is shown where they could not be.
pub proof fn preferences_hold_once_written(
    s: CoordinatorView,
    repo: Seq<char>,
    change: Setting,
    preferences: Preferences,
    message: Seq<char>,
    c: ContextView,
)
    ensures
        !s.stopping ==> s.handled(ActionCommandView::Request(RequestView::Configure { repo, change }), c).effects
            == s.effects.push(
            EffectView::SavePreferences { repo, preferences: s.state.preferences_of(repo).changed(change) },
        ),
        !s.stopping ==> s.handled(ActionCommandView::Request(RequestView::Configure { repo, change }), c).state == s.state,
        s.told(ActionCommandView::Configured { repo, preferences, saved: Ok(()) }, c).state.preferences_of(repo) == preferences,
        s.told(ActionCommandView::Configured { repo, preferences, saved: Ok(()) }, c).state.error is None,
        s.told(ActionCommandView::Configured { repo, preferences, saved: Err(message) }, c).state.error == Some(message),
        s.told(ActionCommandView::Configured { repo, preferences, saved: Err(message) }, c).state.preferences
            == s.state.preferences,
{
}

// ---------------------------------------------------------------- labels

/// Whether a place has the only label of a name.
pub open spec fn is_only_label(items: Seq<LabelView>, i: int) -> bool {
    &&& 0 <= i < items.len()
    &&& forall|j: int| 0 <= j < items.len() && j != i ==> (#[trigger] items[j]).name != items[i].name
}

/// The only label of a name is found.
proof fn labels_are_found(items: Seq<LabelView>, i: int)
    requires
        is_only_label(items, i),
    ensures
        super::label_place(items, items[i].name) == Some(i),
    decreases items.len(),
{
    let rest = items.drop_last();
    if i < rest.len() {
        assert forall|j: int| 0 <= j < rest.len() && j != i implies (#[trigger] rest[j]).name != rest[i].name by {
            assert(rest[j] == items[j]);
        }
        assert(rest[i] == items[i]);
        labels_are_found(rest, i);
    } else {
        no_label_is_found(rest, items[i].name);
    }
}

/// Where no label has a name, none is found.
proof fn no_label_is_found(items: Seq<LabelView>, name: Seq<char>)
    ensures
        (forall|j: int| 0 <= j < items.len() ==> (#[trigger] items[j]).name != name) ==> super::label_place(items, name)
            is None,
    decreases items.len(),
{
    if items.len() > 0 {
        let rest = items.drop_last();
        no_label_is_found(rest, name);
        if forall|j: int| 0 <= j < items.len() ==> (#[trigger] items[j]).name != name {
            assert forall|j: int| 0 <= j < rest.len() implies (#[trigger] rest[j]).name != name by {
                assert(rest[j] == items[j]);
            }
            assert(items[items.len() - 1].name != name);
        }
    }
}

/// A change of a label that the rules allow is shown at once, as pending, and waits for its turn;
/// the first one is checked for the account.
pub proof fn allowed_label_changes_wait(s: CoordinatorView, pr: Seq<char>, i: int, selected: bool, c: ContextView)
    requires
        !s.stopping,
        c.prs.contains_key(pr),
        s.state.preferences_of(c.prs[pr].snapshot.repo).allowed(Kind::Label, c.prs[pr]),
        c.viewer is Some,
        s.state.labels.contains_key(pr),
        is_only_label(s.state.labels[pr].items, i),
        !s.state.labels[pr].loading,
        !s.state.labels[pr].pending.contains(s.state.labels[pr].items[i].name),
        s.state.labels[pr].items[i].selected != selected,
    ensures
        ({
            let label = s.state.labels[pr].items[i];
            let next = s.told(ActionCommandView::Request(RequestView::Label { pr, name: label.name, selected }), c);
            let shown = next.state.labels[pr];
            let jobs = next.label_jobs[pr];
            &&& next.state.labels.contains_key(pr)
            &&& shown.items.len() == s.state.labels[pr].items.len()
            &&& shown.items[i].name == label.name
            &&& shown.items[i].selected == selected
            &&& forall|j: int|
                0 <= j < shown.items.len() && j != i ==> #[trigger] shown.items[j] == s.state.labels[pr].items[j]
            &&& shown.pending.contains(label.name)
            &&& next.label_jobs.contains_key(pr)
            &&& jobs.len() == s.jobs_of(pr).len() + 1
            &&& jobs.last().name == label.name
            &&& jobs.last().selected == selected
            &&& jobs.last().previous == label.selected
            &&& jobs.last().intent.viewer == c.viewer->0
            &&& jobs.last().intent.pr == c.prs[pr]
            &&& s.jobs_of(pr).len() > 0 ==> next.effects == s.effects
            &&& s.jobs_of(pr).len() == 0 && c.prs[pr].snapshot.id == pr ==> next.effects == s.effects.push(
                EffectView::CheckLabel { pr, token: jobs.last().intent.token, viewer: c.viewer->0 },
            )
        }),
{
    labels_are_found(s.state.labels[pr].items, i);
}

/// The account of a change of a label was verified: where all that it rests on still holds, it is
/// sent, just as the user chose. Where not, or where the account is another one, what was chosen
/// before is shown again, with the reason.
pub proof fn verified_label_changes_are_sent(
    s: CoordinatorView,
    pr: Seq<char>,
    verified: Result<(), Seq<char>>,
    c: ContextView,
)
    requires
        s.label_jobs.contains_key(pr),
        s.label_jobs[pr].len() > 0,
    ensures
        ({
            let job = s.label_jobs[pr][0];
            let id = job.intent.pr.snapshot.id;
            let rules = s.state.preferences_of(c.prs[id].snapshot.repo);
            let holds = verified is Ok && c.viewer == Some(job.intent.viewer) && c.prs.contains_key(id) && rules.label
                == job.intent.preferences.label && rules.allowed(Kind::Label, c.prs[id]);
            let next = s.told(ActionCommandView::LabelChecked { pr, token: job.intent.token, verified }, c);
            &&& holds ==> {
                &&& next.label_jobs == s.label_jobs
                &&& next.submitted_labels == s.submitted_labels.push(job)
                &&& next.effects == s.effects.push(
                    EffectView::SubmitLabel {
                        pr,
                        token: job.intent.token,
                        reference: PrRefView {
                            id,
                            repo: job.intent.pr.snapshot.repo,
                            number: job.intent.pr.snapshot.number,
                        },
                        name: job.name,
                        selected: job.selected,
                    },
                )
            }
            &&& !holds ==> {
                &&& next.submitted_labels == s.submitted_labels
                &&& next.label_jobs[pr] == s.label_jobs[pr].drop_first()
                &&& s.state.labels.contains_key(pr) ==> {
                    &&& !next.state.labels[pr].pending.contains(job.name)
                    &&& next.state.labels[pr].error is Some
                    &&& verified is Err ==> next.state.labels[pr].error == Some(verified->Err_0)
                }
            }
        }),
{
}

/// A label that could not be changed is shown as it was before.
pub proof fn failed_label_changes_are_undone(s: CoordinatorView, pr: Seq<char>, message: Seq<char>, i: int, c: ContextView)
    requires
        s.label_jobs.contains_key(pr),
        s.label_jobs[pr].len() > 0,
        s.state.labels.contains_key(pr),
        is_only_label(s.state.labels[pr].items, i),
        s.state.labels[pr].items[i].name == s.label_jobs[pr][0].name,
    ensures
        ({
            let job = s.label_jobs[pr][0];
            let next = s.told(
                ActionCommandView::LabelChecked { pr, token: job.intent.token, verified: Err(message) },
                c,
            );
            next.state.labels[pr].items[i].selected == job.previous
        }),
{
    labels_are_found(s.state.labels[pr].items, i);
}

/// Whether a change of a label is the only one that was sent under its token.
pub open spec fn is_only_job(jobs: Seq<LabelJobView>, k: int) -> bool {
    &&& 0 <= k < jobs.len()
    &&& forall|j: int| 0 <= j < jobs.len() && j != k ==> (#[trigger] jobs[j]).intent.token != jobs[k].intent.token
}

/// The only change under a token is found.
proof fn jobs_are_found(jobs: Seq<LabelJobView>, k: int)
    requires
        is_only_job(jobs, k),
    ensures
        super::job_place(jobs, jobs[k].intent.token) == Some(k),
    decreases jobs.len(),
{
    let rest = jobs.drop_last();
    if k < rest.len() {
        assert forall|j: int| 0 <= j < rest.len() && j != k implies (#[trigger] rest[j]).intent.token
            != rest[k].intent.token by {
            assert(rest[j] == jobs[j]);
        }
        assert(rest[k] == jobs[k]);
        jobs_are_found(rest, k);
    } else {
        no_job_is_found(rest, jobs[k].intent.token);
    }
}

/// Where no change has a token, none is found.
proof fn no_job_is_found(jobs: Seq<LabelJobView>, token: u64)
    ensures
        (forall|j: int| 0 <= j < jobs.len() ==> (#[trigger] jobs[j]).intent.token != token) ==> super::job_place(
            jobs,
            token,
        ) is None,
    decreases jobs.len(),
{
    if jobs.len() > 0 {
        let rest = jobs.drop_last();
        no_job_is_found(rest, token);
        if forall|j: int| 0 <= j < jobs.len() ==> (#[trigger] jobs[j]).intent.token != token {
            assert forall|j: int| 0 <= j < rest.len() implies (#[trigger] rest[j]).intent.token != token by {
                assert(rest[j] == jobs[j]);
            }
            assert(jobs[jobs.len() - 1].intent.token != token);
        }
    }
}

/// A change of a label that was made is reported for its account, as it was chosen, and is
/// remembered until a snapshot shows it; it is waited for no longer.
pub proof fn made_label_changes_are_reported(s: CoordinatorView, pr: Seq<char>, k: int, c: ContextView)
    requires
        is_only_job(s.submitted_labels, k),
        s.label_jobs.contains_key(pr),
        s.label_jobs[pr].len() > 0,
        s.label_jobs[pr][0].intent.token == s.submitted_labels[k].intent.token,
    ensures
        ({
            let job = s.submitted_labels[k];
            let next = s.told(ActionCommandView::LabelDone { pr, token: job.intent.token, done: Ok(()) }, c);
            &&& next.submitted_labels == s.submitted_labels.remove(k)
            &&& next.label_jobs[pr] == s.label_jobs[pr].drop_first()
            &&& next.completed_labels.contains_key(pr)
            &&& next.completed_labels[pr].contains_key(job.name)
            &&& next.completed_labels[pr][job.name] == job.selected
            &&& next.effects.len() > s.effects.len()
            &&& next.effects[s.effects.len() as int] == EffectView::LabelSaved {
                pr,
                viewer: job.intent.viewer,
                label: PrLabelView { name: job.name, color: job.color },
                selected: job.selected,
            }
            &&& s.state.labels.contains_key(pr) ==> !next.state.labels[pr].pending.contains(job.name)
        }),
{
    jobs_are_found(s.submitted_labels, k);
}

/// The labels of a repository that have come are its catalogue, of that moment, and are kept for
/// the account. Where they could not be fetched, the reason is known and the catalogue stays.
pub proof fn fetched_labels_are_the_catalogue(
    s: CoordinatorView,
    repo: Seq<char>,
    labels: Seq<PrLabelView>,
    message: Seq<char>,
    c: ContextView,
)
    requires
        s.loads.contains_key(repo),
        s.viewer is Some,
    ensures
        ({
            let token = s.loads[repo];
            let next = s.told(ActionCommandView::LabelsLoaded { repo, token, loaded: Ok(labels) }, c);
            &&& !next.loads.contains_key(repo)
            &&& next.catalogues.contains_key(repo)
            &&& next.catalogues[repo].labels == labels
            &&& next.catalogues[repo].fetched_at == c.now
            &&& !next.load_errors.contains_key(repo)
            &&& next.effects == s.effects.push(
                EffectView::SaveCatalogue { viewer: s.viewer->0, repo, catalogue: next.catalogues[repo] },
            )
        }),
        ({
            let token = s.loads[repo];
            let next = s.told(ActionCommandView::LabelsLoaded { repo, token, loaded: Err(message) }, c);
            &&& !next.loads.contains_key(repo)
            &&& next.catalogues == s.catalogues
            &&& next.load_errors.contains_key(repo)
            &&& next.load_errors[repo] == message
            &&& next.effects == s.effects
        }),
{
}

/// A catalogue is fetched again by itself when it is a quarter of an hour old and was not asked
/// for within that time; not while it is being fetched, and at once where the user asks for it.
pub proof fn catalogues_are_due_after_a_quarter_of_an_hour(s: CoordinatorView, repo: Seq<char>, c: ContextView)
    requires
        s.catalogues.contains_key(repo) ==> i64::MIN <= c.now - s.catalogues[repo].fetched_at <= i64::MAX,
        s.attempts.contains_key(repo) ==> s.attempts[repo] <= c.clock,
    ensures
        ({
            let fresh = s.catalogues.contains_key(repo) && 0 <= c.now - s.catalogues[repo].fetched_at < 900;
            let tried = s.attempts.contains_key(repo) && c.clock - s.attempts[repo] < 900_000;
            s.is_due(repo, None, c) <==> !s.loads.contains_key(repo) && !fresh && !tried
        }),
        s.is_due(repo, Some(repo), c) <==> !s.loads.contains_key(repo),
{
}

} // verus!
