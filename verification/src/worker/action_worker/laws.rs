//! What holds of a coordinator, whatever it is told and in whatever order.

use crate::actions;
use crate::actions::{Kind, LabelView, LabelsView, MergeProgressView, RequestView};
use crate::model::{PrLabelView, SnapshotView};
use crate::store;
use crate::worker::action_worker::effects::{ActionCommandView, ContextView, EffectView, IntentView, LabelJobView};
use crate::worker::action_worker::CoordinatorView;
use vstd::prelude::*;

verus! {

broadcast use vstd::seq_lib::group_seq_properties;

/// Whether something is sent to GitHub to be changed there.
pub open spec fn is_submission(effect: EffectView) -> bool {
    effect is SubmitMerge || effect is SubmitLabel
}

/// Whether what is asked for only grew, and by nothing that is sent to be changed.
pub open spec fn submits_nothing(before: CoordinatorView, after: CoordinatorView) -> bool {
    &&& before.effects.len() <= after.effects.len()
    &&& forall|i: int| 0 <= i < before.effects.len() ==> #[trigger] after.effects[i] == before.effects[i]
    &&& forall|i: int| before.effects.len() <= i < after.effects.len() ==> !is_submission(#[trigger] after.effects[i])
}

/// To agree with what is known nothing is sent.
pub proof fn reconciling_submits_nothing(s: CoordinatorView, c: ContextView)
    ensures
        submits_nothing(s, s.reconciled(c)),
{
}

/// To ask for catalogues nothing is sent, and nothing else changes.
proof fn asking_submits_nothing(
    s: CoordinatorView,
    repos: Seq<Seq<char>>,
    wanted: Option<Seq<char>>,
    c: ContextView,
)
    ensures
        ({
            let next = s.asking_for(repos, wanted, c).0;
            next == (CoordinatorView {
                sequence: next.sequence,
                loads: next.loads,
                attempts: next.attempts,
                load_errors: next.load_errors,
                ..s
            })
        }),
    decreases repos.len(),
{
    if repos.len() > 0 {
        asking_submits_nothing(s, repos.drop_last(), wanted, c);
    }
}

/// A refresh of catalogues sends nothing, and keeps what is pending.
proof fn refreshing_submits_nothing(s: CoordinatorView, c: ContextView, repo: Option<Seq<char>>)
    ensures
        submits_nothing(s, s.refreshing(c, repo)),
        s.refreshing(c, repo).merges == s.merges,
        s.refreshing(c, repo).label_jobs == s.label_jobs,
        s.refreshing(c, repo).submitted_merges == s.submitted_merges,
        s.refreshing(c, repo).submitted_labels == s.submitted_labels,
        s.refreshing(c, repo).stopping == s.stopping,
{
    let wanted = match repo {
        Some(repo) => Some(actions::repo_key_of(repo)),
        None => None,
    };
    asking_submits_nothing(s, crate::text_map::sorted_keys(super::open_repos(c.prs)), wanted, c);
}

/// What is told about labels sends at most one change, and only where its account was just
/// verified and it may still be made.
proof fn told_about_labels(s: CoordinatorView, command: ActionCommandView, c: ContextView)
    requires
        command is LabelChecked || command is LabelDone || command is LabelsLoaded,
    ensures
        submits_nothing(s, s.told(command, c)) || ({
            &&& command is LabelChecked
            &&& command->verified is Ok
            &&& s.job_is(command->LabelChecked_pr, command->LabelChecked_token)
            &&& s.jobs_of(command->LabelChecked_pr)[0].intent.is_valid(c, s.state, Kind::Label)
            &&& s.told(command, c).effects == s.effects.push(
                EffectView::SubmitLabel {
                    pr: command->LabelChecked_pr,
                    token: command->LabelChecked_token,
                    reference: s.jobs_of(command->LabelChecked_pr)[0].intent.target(),
                    name: s.jobs_of(command->LabelChecked_pr)[0].name,
                    selected: s.jobs_of(command->LabelChecked_pr)[0].selected,
                },
            )
        }),
{
}

/// What is told about merges sends at most one merge, and only where everything that the
/// user saw was just confirmed.
proof fn told_about_merges(s: CoordinatorView, command: ActionCommandView, c: ContextView)
    requires
        command is Configured || command is Tick || command is MergeChecked || command is Merged,
    ensures
        submits_nothing(s, s.told(command, c)) || ({
            let pr = command->MergeChecked_pr;
            &&& command is MergeChecked
            &&& command->checked is Ok
            &&& s.merge_is(pr, command->MergeChecked_token)
            &&& s.merges[pr].is_valid(c, s.state, Kind::Merge)
            &&& s.merges[pr].is_confirmed(s.merges[pr].freshly(command->checked->Ok_0, c))
            &&& s.told(command, c).effects == s.effects.push(
                EffectView::SubmitMerge {
                    pr,
                    token: command->MergeChecked_token,
                    reference: s.merges[pr].target(),
                    head: s.merges[pr].pr.snapshot.head,
                    method: s.merges[pr].preferences.merge_method,
                },
            )
        }),
{
}

/// A request sends nothing.
proof fn requests_submit_nothing(s: CoordinatorView, request: RequestView, c: ContextView)
    ensures
        submits_nothing(s, s.told(ActionCommandView::Request(request), c)),
{
    match request {
        RequestView::LoadLabels(pr) => {
            let fresh = CoordinatorView { state: actions::ActionStateView { error: None, ..s.state }, ..s };
            let next = fresh.after_intent(pr, Kind::Label, c);
            match fresh.intent(pr, Kind::Label, c) {
                Ok(intent) => {
                    refreshing_submits_nothing(next, c, Some(intent.pr.snapshot.repo));
                },
                Err(_) => {},
            }
        },
        _ => {},
    }
}

/// A merge is sent only when its check has come back with the token of the pending merge,
/// when the account, the rules, the commit and the review are still those that the user
/// decided on, and when a snapshot taken after that decision shows the same commit and the
/// same review. It is sent for exactly that commit.
pub proof fn merges_are_confirmed(s: CoordinatorView, command: ActionCommandView, c: ContextView, i: int)
    requires
        s.effects.len() <= i < s.handled(command, c).effects.len(),
        s.handled(command, c).effects[i] is SubmitMerge,
    ensures
        command is MergeChecked,
        command->checked is Ok,
        s.merge_is(command->MergeChecked_pr, command->MergeChecked_token),
        ({
            let pr = command->MergeChecked_pr;
            let intent = s.merges[pr];
            &&& intent.is_valid(c, s.state, Kind::Merge)
            &&& intent.is_confirmed(intent.freshly(command->checked->Ok_0, c))
            &&& s.handled(command, c).effects[i] == EffectView::SubmitMerge {
                pr,
                token: command->MergeChecked_token,
                reference: intent.target(),
                head: intent.pr.snapshot.head,
                method: intent.preferences.merge_method,
            }
        }),
{
    submissions_come_from_answers(s, command, c, i);
    match command {
        ActionCommandView::Request(request) => {
            requests_submit_nothing(s, request, c);
        },
        ActionCommandView::LabelsLoaded { .. } | ActionCommandView::LabelChecked { .. }
        | ActionCommandView::LabelDone { .. } => {
            told_about_labels(s, command, c);
        },
        _ => {
            told_about_merges(s, command, c);
        },
    }
}

/// What is sent is sent by the answer itself, not by what follows it.
proof fn submissions_come_from_answers(s: CoordinatorView, command: ActionCommandView, c: ContextView, i: int)
    requires
        s.effects.len() <= i < s.handled(command, c).effects.len(),
        is_submission(s.handled(command, c).effects[i]),
    ensures
        i < s.told(command, c).effects.len(),
        s.told(command, c).effects[i] == s.handled(command, c).effects[i],
{
    reconciling_submits_nothing(s.told(command, c), c);
}

/// A change of a label is sent only when the account was just verified for it, and when the
/// account, the rules and the evidence still allow it.
pub proof fn label_changes_are_confirmed(s: CoordinatorView, command: ActionCommandView, c: ContextView, i: int)
    requires
        s.effects.len() <= i < s.handled(command, c).effects.len(),
        s.handled(command, c).effects[i] is SubmitLabel,
    ensures
        command is LabelChecked,
        command->verified is Ok,
        s.job_is(command->LabelChecked_pr, command->LabelChecked_token),
        s.jobs_of(command->LabelChecked_pr)[0].intent.is_valid(c, s.state, Kind::Label),
        s.handled(command, c).effects[i]->SubmitLabel_name == s.jobs_of(command->LabelChecked_pr)[0].name,
        s.handled(command, c).effects[i]->SubmitLabel_selected == s.jobs_of(command->LabelChecked_pr)[0].selected,
{
    submissions_come_from_answers(s, command, c, i);
    match command {
        ActionCommandView::Request(request) => {
            requests_submit_nothing(s, request, c);
        },
        ActionCommandView::LabelsLoaded { .. } | ActionCommandView::LabelChecked { .. }
        | ActionCommandView::LabelDone { .. } => {
            told_about_labels(s, command, c);
        },
        _ => {
            told_about_merges(s, command, c);
        },
    }
}

/// An answer with a token that is not that of the pending merge is ignored: a countdown or a
/// check that was cancelled cannot touch the one that was begun after it.
pub proof fn stale_answers_are_ignored(
    s: CoordinatorView,
    pr: Seq<char>,
    token: u64,
    remaining: u8,
    checked: Result<SnapshotView, Seq<char>>,
    c: ContextView,
)
    requires
        !s.merge_is(pr, token),
    ensures
        s.ticked(pr, token, remaining) == s,
        s.merge_checked(pr, token, checked, c) == s,
{
}

/// A merge that was withdrawn is no longer pending, whatever its token, unless it was sent.
pub proof fn withdrawn_merges_are_gone(s: CoordinatorView, pr: Seq<char>, token: u64)
    requires
        !(s.state.merges.contains_key(pr) && s.state.merges[pr] is Merging),
    ensures
        !s.merge_withdrawn(pr).merge_is(pr, token),
        !s.merge_withdrawn(pr).state.merges.contains_key(pr),
{
}

/// Once what is pending agrees with what is known, every pending merge that was not sent may
/// still be made.
pub proof fn pending_merges_are_valid(s: CoordinatorView, c: ContextView, id: Seq<char>)
    requires
        s.viewer == c.viewer,
        s.reconciled(c).merges.contains_key(id),
    ensures
        s.merges.contains_key(id) && s.reconciled(c).merges[id] == s.merges[id],
        (s.state.merges.contains_key(id) && s.state.merges[id] is Merging) || s.merges[id].is_valid(c, s.state, Kind::Merge),
{
    assert(!s.is_cancelled(id, c));
}

/// For another account nothing is pending, nothing is shown of what the first one asked for,
/// and only the catalogues of that account are known.
pub proof fn accounts_share_nothing(s: CoordinatorView, c: ContextView)
    requires
        s.viewer != c.viewer,
    ensures
        s.reconciled(c).merges == Map::<Seq<char>, IntentView>::empty(),
        s.reconciled(c).label_jobs == Map::<Seq<char>, Seq<LabelJobView>>::empty(),
        s.reconciled(c).loads == Map::<Seq<char>, u64>::empty(),
        s.reconciled(c).completed_labels == Map::<Seq<char>, Map<Seq<char>, bool>>::empty(),
        s.reconciled(c).state.merges == Map::<Seq<char>, MergeProgressView>::empty(),
        s.reconciled(c).state.labels == Map::<Seq<char>, LabelsView>::empty(),
        c.viewer is Some ==> s.reconciled(c).catalogues == store::catalogues_of(c.catalogues, c.viewer->0),
        s.reconciled(c).submitted_merges == s.submitted_merges,
        s.reconciled(c).submitted_labels == s.submitted_labels,
{
}

/// Whether nothing is pending and nothing new can be begun.
pub open spec fn is_quiet(s: CoordinatorView) -> bool {
    &&& s.stopping
    &&& forall|pr: Seq<char>| !(#[trigger] s.merges.contains_key(pr))
    &&& forall|pr: Seq<char>| #[trigger] s.jobs_of(pr).len() == 0
}

/// After the beginning of a shutdown nothing is pending, and that stays so whatever comes:
/// nothing more is sent.
pub proof fn shutdown_begins_nothing(s: CoordinatorView, command: ActionCommandView, c: ContextView)
    ensures
        is_quiet(s.shut_down()),
        is_quiet(s) ==> is_quiet(s.handled(command, c)) && submits_nothing(s, s.handled(command, c)),
        is_quiet(s) ==> is_quiet(s.reconciled(c)),
{
    assert forall|pr: Seq<char>| #[trigger] s.shut_down().jobs_of(pr).len() == 0 by {}
    if is_quiet(s) {
        quiet_stays(s, c);
        let told = s.told(command, c);
        match command {
            ActionCommandView::Request(_) => {},
            ActionCommandView::LabelsLoaded { repo, token, loaded } => {
                assert forall|pr: Seq<char>| #[trigger] told.jobs_of(pr).len() == 0 by {
                    assert(s.jobs_of(pr).len() == 0);
                }
            },
            ActionCommandView::LabelChecked { pr, token, verified } => {
                assert(s.jobs_of(pr).len() == 0);
            },
            ActionCommandView::LabelDone { pr, token, done } => {
                assert(s.jobs_of(pr).len() == 0);
                assert forall|other: Seq<char>| #[trigger] told.jobs_of(other).len() == 0 by {
                    assert(s.jobs_of(other).len() == 0);
                }
            },
            _ => {},
        }
        assert forall|pr: Seq<char>| #[trigger] told.jobs_of(pr).len() == 0 by {
            assert(s.jobs_of(pr).len() == 0);
        }
        assert(is_quiet(told));
        assert(submits_nothing(s, told));
        quiet_stays(told, c);
        reconciling_submits_nothing(told, c);
        let next = told.reconciled(c);
        assert forall|pr: Seq<char>| #[trigger] s.handled(command, c).jobs_of(pr).len() == 0 by {
            assert(next.jobs_of(pr).len() == 0);
        }
    }
}

/// To agree with what is known nothing is begun.
proof fn quiet_stays(s: CoordinatorView, c: ContextView)
    requires
        is_quiet(s),
    ensures
        is_quiet(s.reconciled(c)),
{
    assert forall|pr: Seq<char>| #[trigger] s.reconciled(c).jobs_of(pr).len() == 0 by {
        assert(s.jobs_of(pr).len() == 0);
    }
}

/// A merge that was sent is waited for until it is answered: neither the shutdown, nor
/// another account, nor anything else that is told makes the coordinator forget it.
pub proof fn sent_merges_are_awaited(s: CoordinatorView, command: ActionCommandView, c: ContextView, token: u64)
    requires
        s.submitted_merges.contains(token),
        !(command is Merged && command->Merged_token == token),
    ensures
        s.handled(command, c).submitted_merges.contains(token),
        s.handled(command, c).awaits_answers(),
        s.shut_down().submitted_merges.contains(token),
        s.reconciled(c).submitted_merges.contains(token),
{
    told_keeps_sent(s, command, c, token);
    reconciling_keeps_sent(s, c);
    reconciling_keeps_sent(s.told(command, c), c);
}

/// To agree with what is known nothing that was sent is forgotten.
proof fn reconciling_keeps_sent(s: CoordinatorView, c: ContextView)
    ensures
        s.reconciled(c).submitted_merges == s.submitted_merges,
        s.reconciled(c).submitted_labels == s.submitted_labels,
{
}

/// A request forgets nothing that was sent.
proof fn requests_keep_sent(s: CoordinatorView, request: RequestView, c: ContextView)
    ensures
        s.requested(request, c).submitted_merges == s.submitted_merges,
        s.requested(request, c).submitted_labels == s.submitted_labels,
{
    match request {
        RequestView::LoadLabels(pr) => {
            let fresh = CoordinatorView { state: actions::ActionStateView { error: None, ..s.state }, ..s };
            match fresh.intent(pr, Kind::Label, c) {
                Ok(intent) => {
                    refreshing_submits_nothing(
                        fresh.after_intent(pr, Kind::Label, c),
                        c,
                        Some(intent.pr.snapshot.repo),
                    );
                },
                Err(_) => {},
            }
        },
        _ => {},
    }
}

/// An answer makes no other merge that was sent forgotten.
proof fn told_keeps_sent(s: CoordinatorView, command: ActionCommandView, c: ContextView, token: u64)
    requires
        s.submitted_merges.contains(token),
        !(command is Merged && command->Merged_token == token),
    ensures
        s.told(command, c).submitted_merges.contains(token),
{
    match command {
        ActionCommandView::Request(request) => {
            requests_keep_sent(s, request, c);
        },
        ActionCommandView::Merged { pr, token: other, merged } => {
            other_tokens_stay(s.submitted_merges, other, token);
        },
        ActionCommandView::MergeChecked { pr, token: other, checked } => {
            let i = choose|i: int| 0 <= i < s.submitted_merges.len() && s.submitted_merges[i] == token;
            assert(s.submitted_merges.push(other)[i] == token);
        },
        _ => {},
    }
}

/// Without one token the others stay.
proof fn other_tokens_stay(tokens: Seq<u64>, gone: u64, token: u64)
    requires
        tokens.contains(token),
        gone != token,
    ensures
        super::without_token(tokens, gone).contains(token),
    decreases tokens.len(),
{
    let rest = tokens.drop_last();
    let i = choose|i: int| 0 <= i < tokens.len() && tokens[i] == token;
    if i < tokens.len() - 1 {
        assert(rest[i] == token);
        other_tokens_stay(rest, gone, token);
        let k = choose|k: int|
            0 <= k < super::without_token(rest, gone).len() && super::without_token(rest, gone)[k] == token;
        if tokens.last() != gone {
            assert(super::without_token(tokens, gone)[k] == token);
        }
    } else {
        let kept = super::without_token(tokens, gone);
        assert(kept.last() == token);
    }
}

/// That a change of a label was made is reported to the account that asked for it, with the
/// color that it had, also when the coordinator no longer waits for it. In that case nothing
/// that is shown changes.
pub proof fn late_label_results_are_reported(
    s: CoordinatorView,
    pr: Seq<char>,
    token: u64,
    c: ContextView,
)
    requires
        super::job_place(s.submitted_labels, token) is Some,
        !s.job_is(pr, token),
    ensures
        ({
            let job = s.submitted_labels[super::job_place(s.submitted_labels, token)->0];
            let next = s.label_done(pr, token, Ok(()), c);
            &&& next.state == s.state
            &&& next.completed_labels == s.completed_labels
            &&& next.effects == s.effects.push(
                EffectView::LabelSaved {
                    pr,
                    viewer: job.intent.viewer,
                    label: PrLabelView { name: job.name, color: job.color },
                    selected: job.selected,
                },
            )
        }),
{
}

/// A change of a label that is not made leaves the choice as it was.
pub proof fn failed_choices_are_undone(items: Seq<LabelView>, name: Seq<char>, selected: bool)
    requires
        super::label_place(items, name) is Some,
    ensures
        super::with_choice(
            super::with_choice(items, name, selected),
            name,
            items[super::label_place(items, name)->0].selected,
        ) == items,
{
    let i = super::label_place(items, name)->0;
    place_is_of(items, name);
    let changed = items.update(i, LabelView { selected, ..items[i] });
    choices_move_nothing(items, name, i, selected);
    assert(changed.update(i, LabelView { selected: items[i].selected, ..changed[i] }) =~= items);
}

/// A found place is one of the name.
proof fn place_is_of(items: Seq<LabelView>, name: Seq<char>)
    ensures
        super::label_place(items, name) is Some ==> 0 <= super::label_place(items, name)->0 < items.len(),
    decreases items.len(),
{
    if items.len() > 0 {
        place_is_of(items.drop_last(), name);
    }
}

/// A choice moves no label.
proof fn choices_move_nothing(items: Seq<LabelView>, name: Seq<char>, i: int, selected: bool)
    requires
        0 <= i < items.len(),
    ensures
        super::label_place(items.update(i, LabelView { selected, ..items[i] }), name) == super::label_place(items, name),
    decreases items.len(),
{
    let after = items.update(i, LabelView { selected, ..items[i] });
    if i < items.len() - 1 {
        choices_move_nothing(items.drop_last(), name, i, selected);
        assert(after.drop_last() =~= items.drop_last().update(i, LabelView { selected, ..items[i] }));
    } else {
        assert(after.drop_last() =~= items.drop_last());
    }
}

/// A request about a label is answered for, after the state that shows what became of it.
pub proof fn label_requests_are_answered_for(
    s: CoordinatorView,
    pr: Seq<char>,
    name: Seq<char>,
    selected: bool,
    c: ContextView,
)
    ensures
        ({
            let command = ActionCommandView::Request(RequestView::Label { pr, name, selected });
            let next = s.handled(command, c);
            &&& next.effects.len() >= s.effects.len() + 2
            &&& next.effects.last() == EffectView::LabelRequestHandled
            &&& next.effects[next.effects.len() - 2] == EffectView::Publish(next.state)
        }),
{
    let command = ActionCommandView::Request(RequestView::Label { pr, name, selected });
    requests_submit_nothing(s, RequestView::Label { pr, name, selected }, c);
    reconciling_submits_nothing(s.told(command, c), c);
}

} // verus!
