//! Verdicts of CodeRabbit.

use crate::model::{Agent, AgentResult, AgentResultView, Snapshot, SnapshotView, Verdict};
use crate::reviewers;
use crate::text;
use vstd::prelude::*;

verus! {

/// The verdict of a review, from its state, its body in lower case and the count that
/// the body gives.
pub open spec fn conclusion(state: Seq<char>, lower: Seq<char>, count: Option<Seq<char>>) -> Option<Verdict> {
    if state == "APPROVED"@ || text::occurs(lower, "no actionable comments were generated"@) {
        Some(Verdict::Clean)
    } else if count is Some {
        Some(
            if count->0 == "0"@ {
                Verdict::Clean
            } else {
                Verdict::Findings
            },
        )
    } else if state == "CHANGES_REQUESTED"@ {
        Some(Verdict::Findings)
    } else {
        None
    }
}

/// The verdict of a review, from its state, its body in lower case and the count that
/// the body gives.
pub fn conclude(state: &str, lower: &str, count: &Option<String>) -> (r: Option<Verdict>)
    ensures
        r == conclusion(state@, lower@, count.deep_view()),
{
    if text::same(state, "APPROVED") || text::contains(lower, "no actionable comments were generated") {
        return Some(Verdict::Clean);
    }
    match count {
        Some(n) => Some(
            if text::same(n, "0") {
                Verdict::Clean
            } else {
                Verdict::Findings
            },
        ),
        None => if text::same(state, "CHANGES_REQUESTED") {
            Some(Verdict::Findings)
        } else {
            None
        },
    }
}

/// The verdict of a review.
pub open spec fn verdict_of(state: Seq<char>, body: Seq<char>) -> Option<Verdict> {
    conclusion(state, text::unicode_lowercase(body), reviewers::first_group(reviewers::CODERABBIT_COUNT@, body))
}

/// What CodeRabbit concluded about a pull request. A successful check can mean a skipped
/// or limited review, so success is no approval.
pub open spec fn detected(s: SnapshotView) -> AgentResultView {
    let agent = Agent::CodeRabbit;
    let gate = reviewers::gate(reviewers::latest_checks_of(s.checks, agent), agent);
    let review = reviewers::review_after(s, agent);
    if gate is Some {
        gate->0
    } else if review is Some && verdict_of(review->0.state, review->0.body) is Some {
        reviewers::result_of(
            agent,
            verdict_of(review->0.state, review->0.body)->0,
            review->0.id,
            "Current-commit CodeRabbit review verdict"@,
        )
    } else {
        reviewers::result_of(
            agent,
            Verdict::Unknown,
            Seq::empty(),
            "No explicit CodeRabbit verdict for the current commit"@,
        )
    }
}

/// What CodeRabbit concluded about a pull request.
pub fn detect(s: &Snapshot) -> (r: AgentResult)
    ensures
        r@ == detected(s@),
{
    let agent = Agent::CodeRabbit;
    if let Some(gate) = reviewers::check_gate(s, agent) {
        return gate;
    }
    if let Some(review) = reviewers::review_after_checks(s, agent) {
        let lower = text::lowercase(&review.body);
        let count = reviewers::capture(reviewers::CODERABBIT_COUNT, &review.body);
        if let Some(v) = conclude(&review.state, &lower, &count) {
            return reviewers::result(agent, v, review.id.clone(), "Current-commit CodeRabbit review verdict");
        }
    }
    reviewers::result(agent, Verdict::Unknown, String::new(), "No explicit CodeRabbit verdict for the current commit")
}

} // verus!
