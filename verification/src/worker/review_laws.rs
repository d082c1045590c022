//! What holds of the state of a pull request from one snapshot to the next.

use crate::evidence;
use crate::model::{Agent, PullRequestView, SnapshotView, State};
use crate::reviewers;
use crate::text;
use crate::worker;
use vstd::prelude::*;

verus! {

broadcast use vstd::seq_lib::group_seq_properties;

/// What a snapshot amounts to by itself, before it has settled.
pub open spec fn said(s: SnapshotView, previous: Option<PullRequestView>, expected: Option<Seq<Agent>>) -> State {
    reviewers::aggregated(s, reviewers::evaluated(s, previous, expected))
}

/// A new snapshot is what is known from then on: it is current, without an error, and of that
/// moment, with what the agents say of it.
pub proof fn snapshots_are_current(
    s: SnapshotView,
    previous: Option<PullRequestView>,
    expected: Option<Seq<Agent>>,
    now: i64,
    settle: u64,
)
    ensures
        ({
            let r = worker::next_state(s, previous, expected, now, settle);
            &&& r.snapshot == s
            &&& r.agents == reviewers::evaluated(s, previous, expected)
            &&& !r.stale
            &&& r.error is None
            &&& r.fetched_at == now
            &&& previous is None ==> r.acknowledged is None
            &&& r.update_id == evidence::fingerprint_of(s, r.agents, r.state)
        }),
{
}

/// A state that does not ask for action is reported at once, and one that does is either
/// reported or held back as being under review.
pub proof fn only_actions_wait(
    s: SnapshotView,
    previous: Option<PullRequestView>,
    expected: Option<Seq<Agent>>,
    now: i64,
    settle: u64,
)
    ensures
        ({
            let r = worker::next_state(s, previous, expected, now, settle);
            let raw = said(s, previous, expected);
            &&& raw == State::Unknown || raw == State::Reviewing ==> r.state == raw
            &&& raw == State::Comments || raw == State::Approved ==> r.state == raw || r.state == State::Reviewing
            &&& settle == 0 && (previous is None || previous->0.candidate_since <= now) ==> r.state == raw
        }),
{
}

/// Once the evidence has been the same for the settling time, without interruption, the state
/// that it amounts to is reported.
pub proof fn settled_evidence_is_reported(
    s: SnapshotView,
    previous: PullRequestView,
    expected: Option<Seq<Agent>>,
    now: i64,
    settle: u64,
)
    requires
        !previous.stale,
        previous.candidate_id == evidence::fingerprint_of(
            s,
            reviewers::evaluated(s, Some(previous), expected),
            said(s, Some(previous), expected),
        ),
        settle <= i64::MAX,
        now - previous.candidate_since >= settle,
    ensures
        worker::next_state(s, Some(previous), expected, now, settle).state == said(s, Some(previous), expected),
        worker::next_state(s, Some(previous), expected, now, settle).candidate_since == previous.candidate_since,
        worker::next_state(s, Some(previous), expected, now, settle).candidate_id == previous.candidate_id,
{
}

/// Evidence that is new, or that was not seen without interruption, settles from now on.
pub proof fn new_evidence_settles_anew(
    s: SnapshotView,
    previous: Option<PullRequestView>,
    expected: Option<Seq<Agent>>,
    now: i64,
    settle: u64,
)
    requires
        previous is None || previous->0.stale || previous->0.candidate_id != worker::next_state(
            s,
            previous,
            expected,
            now,
            settle,
        ).candidate_id,
        0 < settle <= i64::MAX,
    ensures
        ({
            let r = worker::next_state(s, previous, expected, now, settle);
            &&& r.candidate_since == now
            &&& r.state == State::Unknown || r.state == State::Reviewing
        }),
{
}

/// What is waited for is the evidence itself: its identity is the one of the state that it amounts
/// to, not of the one that is shown meanwhile.
pub proof fn candidates_are_the_evidence(
    s: SnapshotView,
    previous: Option<PullRequestView>,
    expected: Option<Seq<Agent>>,
    now: i64,
    settle: u64,
)
    ensures
        worker::next_state(s, previous, expected, now, settle).candidate_id == evidence::fingerprint_of(
            s,
            reviewers::evaluated(s, previous, expected),
            said(s, previous, expected),
        ),
{
}

/// The time of a commit is when it was first seen.
pub proof fn commits_keep_their_time(
    s: SnapshotView,
    previous: PullRequestView,
    expected: Option<Seq<Agent>>,
    now: i64,
    settle: u64,
)
    ensures
        worker::next_state(s, None, expected, now, settle).head_since == now,
        ({
            let r = worker::next_state(s, Some(previous), expected, now, settle);
            &&& previous.snapshot.head == s.head ==> r.head_since == previous.head_since
            &&& previous.snapshot.head != s.head ==> r.head_since == now
        }),
{
}

/// A pull request that stays under review, on the same commit, has been so since it was before.
pub proof fn reviews_keep_their_start(
    s: SnapshotView,
    previous: PullRequestView,
    expected: Option<Seq<Agent>>,
    now: i64,
    settle: u64,
    start: i64,
)
    requires
        previous.state == State::Reviewing,
        previous.snapshot.head == s.head,
        previous.reviewing_since == Some(start),
        worker::next_state(s, Some(previous), expected, now, settle).state == State::Reviewing,
    ensures
        worker::next_state(s, Some(previous), expected, now, settle).reviewing_since == Some(start),
{
}

/// A review starts when a pull request comes under review, or when it gets another commit; and
/// there is no start while it is not under review.
pub proof fn reviews_start_anew(
    s: SnapshotView,
    previous: Option<PullRequestView>,
    expected: Option<Seq<Agent>>,
    now: i64,
    settle: u64,
)
    ensures
        ({
            let r = worker::next_state(s, previous, expected, now, settle);
            &&& r.state != State::Reviewing ==> r.reviewing_since is None
            &&& r.state == State::Reviewing && (previous is None || previous->0.state != State::Reviewing
                || previous->0.snapshot.head != s.head) ==> r.reviewing_since == Some(now)
            &&& r.state == State::Reviewing ==> r.reviewing_since is Some
        }),
{
}

/// What is known after snapshots that come one after the other, each with its moment.
pub open spec fn after_snapshots(
    first: PullRequestView,
    snapshots: Seq<(SnapshotView, i64)>,
    expected: Option<Seq<Agent>>,
    settle: u64,
) -> PullRequestView
    decreases snapshots.len(),
{
    if snapshots.len() == 0 {
        first
    } else {
        worker::next_state(
            snapshots.last().0,
            Some(after_snapshots(first, snapshots.drop_last(), expected, settle)),
            expected,
            snapshots.last().1,
            settle,
        )
    }
}

/// Over any number of snapshots of one commit, all of them under review, the review has lasted
/// since the first of them.
pub proof fn reviews_last_since_their_first_snapshot(
    s: SnapshotView,
    previous: Option<PullRequestView>,
    start: i64,
    snapshots: Seq<(SnapshotView, i64)>,
    expected: Option<Seq<Agent>>,
    settle: u64,
)
    requires
        previous is None || previous->0.state != State::Reviewing || previous->0.snapshot.head != s.head,
        worker::next_state(s, previous, expected, start, settle).state == State::Reviewing,
        forall|k: int| 0 <= k < snapshots.len() ==> (#[trigger] snapshots[k]).0.head == s.head,
        forall|k: int|
            0 <= k <= snapshots.len() ==> (#[trigger] after_snapshots(
                worker::next_state(s, previous, expected, start, settle),
                snapshots.take(k),
                expected,
                settle,
            )).state == State::Reviewing,
    ensures
        ({
            let r = after_snapshots(worker::next_state(s, previous, expected, start, settle), snapshots, expected, settle);
            &&& r.state == State::Reviewing
            &&& r.snapshot.head == s.head
            &&& r.reviewing_since == Some(start)
        }),
    decreases snapshots.len(),
{
    let first = worker::next_state(s, previous, expected, start, settle);
    assert(snapshots.take(snapshots.len() as int) =~= snapshots);
    if snapshots.len() > 0 {
        let rest = snapshots.drop_last();
        assert forall|k: int| 0 <= k < rest.len() implies (#[trigger] rest[k]).0.head == s.head by {
            assert(rest[k] == snapshots[k]);
        }
        assert forall|k: int| 0 <= k <= rest.len() implies (#[trigger] after_snapshots(
            first,
            rest.take(k),
            expected,
            settle,
        )).state == State::Reviewing by {
            assert(rest.take(k) =~= snapshots.take(k));
        }
        reviews_last_since_their_first_snapshot(s, previous, start, rest, expected, settle);
        assert(snapshots[snapshots.len() - 1].0.head == s.head);
    }
}

/// Over any number of snapshots the user's acknowledgement is the one that it was.
pub proof fn acknowledgements_outlast_snapshots(
    first: PullRequestView,
    snapshots: Seq<(SnapshotView, i64)>,
    expected: Option<Seq<Agent>>,
    settle: u64,
)
    ensures
        after_snapshots(first, snapshots, expected, settle).acknowledged == first.acknowledged,
    decreases snapshots.len(),
{
    if snapshots.len() > 0 {
        acknowledgements_outlast_snapshots(first, snapshots.drop_last(), expected, settle);
    }
}

// ---------------------------------------------------------------- what is shown

/// What asks for attention: current evidence of comments or of an approval, of an update that the
/// user has not acknowledged.
pub proof fn attention_is_for_unseen_conclusions(pr: PullRequestView)
    ensures
        pr.wants_attention() <==> {
            &&& !pr.stale
            &&& pr.state == State::Comments || pr.state == State::Approved
            &&& pr.acknowledged != Some(pr.update_id)
        },
{
}

/// The time under review is shown in whole minutes, and from an hour on in hours and minutes.
pub proof fn the_time_under_review_is_shown(pr: PullRequestView, now: i64, start: i64, hours: nat, minutes: nat, seconds: nat)
    requires
        !pr.stale,
        pr.state == State::Reviewing,
        pr.reviewing_since == Some(start),
        now - start == hours * 3600 + minutes * 60 + seconds,
        minutes < 60,
        seconds < 60,
        now - start <= i64::MAX,
    ensures
        hours == 0 ==> pr.status_text(now) == "Reviewing ("@ + text::decimal_of(minutes) + "m)"@,
        hours > 0 ==> pr.status_text(now) == "Reviewing ("@ + text::decimal_of(hours) + "h "@ + text::decimal_of(minutes)
            + "m)"@,
{
    let total = (hours * 60 + minutes) as int;
    assert(now - start == total * 60 + seconds);
    assert((total * 60 + seconds) / 60 == total) by (nonlinear_arith)
        requires
            0 <= seconds < 60,
            total >= 0,
    ;
    assert(pr.reviewing_minutes(now) == total);
    assert(total / 60 == hours && total % 60 == minutes) by (nonlinear_arith)
        requires
            total == hours * 60 + minutes,
            0 <= minutes < 60,
    ;
}

/// A clock that went back shows no time, and what is not current is shown as unknown.
pub proof fn other_states_are_shown_by_name(pr: PullRequestView, now: i64)
    ensures
        pr.stale ==> pr.status_text(now) == "Unknown"@,
        !pr.stale && pr.state == State::Unknown ==> pr.status_text(now) == "Unknown"@,
        !pr.stale && pr.state == State::Comments ==> pr.status_text(now) == "Comments"@,
        !pr.stale && pr.state == State::Approved ==> pr.status_text(now) == "Approved"@,
        !pr.stale && pr.state == State::Reviewing && pr.reviewing_since is None ==> pr.status_text(now) == "Reviewing"@,
        !pr.stale && pr.state == State::Reviewing && pr.reviewing_since is Some && now < pr.reviewing_since->0 + 60
            ==> pr.status_text(now) == "Reviewing ("@ + text::decimal_of(0) + "m)"@,
{
}

} // verus!
