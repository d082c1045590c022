//! What follows from new snapshots and from the user's requests.

pub mod action_worker;
pub mod events;
pub mod fetch;
pub mod fetch_laws;
pub mod laws;
pub mod monitor;
pub mod poll_laws;
pub mod review_laws;
pub mod steps;
pub mod told_laws;

use crate::evidence;
use crate::model::{Agent, AgentResultView, PullRequest, PullRequestView, Snapshot, SnapshotView, State};
use crate::reviewers;
use crate::text;
use vstd::prelude::*;

verus! {

/// The seconds from one moment to another, kept within 64 bits.
pub open spec fn elapsed(now: i64, since: i64) -> int {
    let seconds = now - since;
    if seconds > i64::MAX {
        i64::MAX as int
    } else if seconds < i64::MIN {
        i64::MIN as int
    } else {
        seconds
    }
}

/// A number of seconds read as a signed number of the same width.
pub open spec fn signed(seconds: u64) -> int {
    if seconds > i64::MAX {
        seconds - 0x1_0000_0000_0000_0000
    } else {
        seconds as int
    }
}

/// Since when the evidence has been what it is: since it was first seen, if it was seen
/// without interruption.
pub open spec fn candidate_since(previous: Option<PullRequestView>, candidate: Seq<char>, now: i64) -> i64 {
    match previous {
        Some(p) => if !p.stale && p.candidate_id == candidate {
            p.candidate_since
        } else {
            now
        },
        None => now,
    }
}

/// The state that is reported: a state that asks for action only once the evidence for
/// it has not changed for a while.
pub open spec fn settled_state(raw: State, now: i64, since: i64, settle_seconds: u64) -> State {
    if raw.is_actionable() && elapsed(now, since) < signed(settle_seconds) {
        State::Reviewing
    } else {
        raw
    }
}

/// Since when the pull request has had its commit.
pub open spec fn head_since(previous: Option<PullRequestView>, head: Seq<char>, now: i64) -> i64 {
    match previous {
        Some(p) => if p.snapshot.head == head {
            p.head_since
        } else {
            now
        },
        None => now,
    }
}

/// Since when the pull request has been under review without interruption.
pub open spec fn reviewing_since(previous: Option<PullRequestView>, state: State, head: Seq<char>, now: i64) -> Option<i64> {
    if state != State::Reviewing {
        None
    } else {
        match previous {
            Some(p) => if p.state == State::Reviewing && p.snapshot.head == head && p.reviewing_since is Some {
                p.reviewing_since
            } else {
                Some(now)
            },
            None => Some(now),
        }
    }
}

/// What is known of a pull request once a new snapshot of it has come.
pub open spec fn next_state(
    snapshot: SnapshotView,
    previous: Option<PullRequestView>,
    expected: Option<Seq<Agent>>,
    now: i64,
    settle_seconds: u64,
) -> PullRequestView {
    let agents = reviewers::evaluated(snapshot, previous, expected);
    let raw = reviewers::aggregated(snapshot, agents);
    let candidate = evidence::fingerprint_of(snapshot, agents, raw);
    let since = candidate_since(previous, candidate, now);
    let state = settled_state(raw, now, since, settle_seconds);
    PullRequestView {
        snapshot,
        agents,
        state,
        update_id: evidence::fingerprint_of(snapshot, agents, state),
        acknowledged: match previous {
            Some(p) => p.acknowledged,
            None => None,
        },
        fetched_at: now,
        stale: false,
        error: None,
        head_since: head_since(previous, snapshot.head, now),
        candidate_id: candidate,
        candidate_since: since,
        reviewing_since: reviewing_since(previous, state, snapshot.head, now),
    }
}

/// Whether evidence first seen at a moment has not yet settled.
fn unsettled(now: i64, since: i64, settle_seconds: u64) -> (r: bool)
    ensures
        r == (elapsed(now, since) < signed(settle_seconds)),
{
    let difference: i128 = now as i128 - since as i128;
    let bounded: i128 = if difference > i64::MAX as i128 {
        i64::MAX as i128
    } else if difference < i64::MIN as i128 {
        i64::MIN as i128
    } else {
        difference
    };
    let wait: i128 = if settle_seconds > i64::MAX as u64 {
        settle_seconds as i128 - 0x1_0000_0000_0000_0000i128
    } else {
        settle_seconds as i128
    };
    bounded < wait
}

/// What is known of a pull request once a new snapshot of it has come.
pub fn transition(
    snapshot: Snapshot,
    previous: Option<&PullRequest>,
    expected: Option<&[Agent]>,
    now: i64,
    settle_seconds: u64,
) -> (r: PullRequest)
    ensures
        r@ == next_state(
            snapshot@,
            reviewers::previous_view(previous),
            reviewers::expected_view(expected),
            now,
            settle_seconds,
        ),
{
    let agents = reviewers::evaluate(&snapshot, previous, expected);
    let raw = reviewers::aggregate(&snapshot, &agents);
    let candidate_id = evidence::fingerprint(&snapshot, &agents, raw);
    let since: i64 = match previous {
        Some(p) => if !p.stale && text::same(&p.candidate_id, &candidate_id) {
            p.candidate_since
        } else {
            now
        },
        None => now,
    };
    let state = if raw.actionable() && unsettled(now, since, settle_seconds) {
        State::Reviewing
    } else {
        raw
    };
    let update_id = evidence::fingerprint(&snapshot, &agents, state);
    let same_head = match previous {
        Some(p) => text::same(&p.snapshot.head, &snapshot.head),
        None => false,
    };
    let head_since: i64 = match previous {
        Some(p) => if same_head {
            p.head_since
        } else {
            now
        },
        None => now,
    };
    let reviewing_since: Option<i64> = if state == State::Reviewing {
        match previous {
            Some(p) => if p.state == State::Reviewing && same_head && p.reviewing_since.is_some() {
                p.reviewing_since
            } else {
                Some(now)
            },
            None => Some(now),
        }
    } else {
        None
    };
    let acknowledged = match previous {
        Some(p) => text::copy_option(&p.acknowledged),
        None => None,
    };
    PullRequest {
        snapshot,
        agents,
        state,
        update_id,
        acknowledged,
        fetched_at: now,
        stale: false,
        error: None,
        head_since,
        candidate_id,
        candidate_since: since,
        reviewing_since,
    }
}

/// A state that asks for action is reported only when the evidence for it has been the
/// same, without interruption, for at least the settling time.
pub proof fn reported_states_have_settled(
    snapshot: SnapshotView,
    previous: Option<PullRequestView>,
    expected: Option<Seq<Agent>>,
    now: i64,
    settle_seconds: u64,
)
    requires
        settle_seconds <= i64::MAX,
    ensures
        ({
            let r = next_state(snapshot, previous, expected, now, settle_seconds);
            r.state.is_actionable() ==> {
                &&& now - r.candidate_since >= settle_seconds
                &&& settle_seconds > 0 ==> {
                    &&& previous is Some
                    &&& !previous->0.stale
                    &&& previous->0.candidate_id == r.candidate_id
                    &&& previous->0.candidate_since == r.candidate_since
                }
            }
        }),
{
}

/// After a restart, when all that is known is stale, a state that asks for action is
/// confirmed anew.
pub proof fn restart_reconfirms(
    snapshot: SnapshotView,
    previous: PullRequestView,
    expected: Option<Seq<Agent>>,
    now: i64,
    settle_seconds: u64,
)
    requires
        previous.stale,
        0 < settle_seconds <= i64::MAX,
    ensures
        !next_state(snapshot, Some(previous), expected, now, settle_seconds).state.is_actionable(),
{
}

/// A change that is no evidence, such as a new title, keeps the identity of the update:
/// what was acknowledged stays acknowledged as long as the state is the same.
pub proof fn acknowledgement_outlives_unrelated_changes(
    snapshot: SnapshotView,
    previous: PullRequestView,
    expected: Option<Seq<Agent>>,
    now: i64,
    settle_seconds: u64,
)
    requires
        previous.acknowledged == Some(previous.update_id),
        previous.update_id == evidence::fingerprint_of(previous.snapshot, previous.agents, previous.state),
        snapshot.head == previous.snapshot.head,
        evidence::open_threads(snapshot.threads).to_multiset() == evidence::open_threads(
            previous.snapshot.threads,
        ).to_multiset(),
        reviewers::evaluated(snapshot, Some(previous), expected).map_values(|a: AgentResultView| evidence::run_key(a))
            == previous.agents.map_values(|a: AgentResultView| evidence::run_key(a)),
        next_state(snapshot, Some(previous), expected, now, settle_seconds).state == previous.state,
    ensures
        next_state(snapshot, Some(previous), expected, now, settle_seconds).update_id == previous.update_id,
        !next_state(snapshot, Some(previous), expected, now, settle_seconds).wants_attention(),
{
    evidence::fingerprint_rests_on_evidence(
        snapshot,
        previous.snapshot,
        reviewers::evaluated(snapshot, Some(previous), expected),
        previous.agents,
        previous.state,
    );
}

/// A new snapshot neither acknowledges nor forgets: the acknowledged update stays the
/// one that the user acknowledged.
pub proof fn snapshots_keep_acknowledgement(
    snapshot: SnapshotView,
    previous: PullRequestView,
    expected: Option<Seq<Agent>>,
    now: i64,
    settle_seconds: u64,
)
    ensures
        next_state(snapshot, Some(previous), expected, now, settle_seconds).acknowledged == previous.acknowledged,
{
}

} // verus!
