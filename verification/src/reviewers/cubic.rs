//! Verdicts of Cubic.

use crate::model::{Agent, AgentResult, AgentResultView, Check, CheckView, Snapshot, SnapshotView, Verdict};
use crate::reviewers;
use crate::text;
use vstd::prelude::*;

verus! {

broadcast use vstd::seq_lib::group_seq_properties;

/// How a summary starts, in lower case, when a push rewrote the branch.
pub const REWRITTEN: &'static str = "this push rewrote the branch history, so cubic did not start an automatic review.";

/// The mark that starts a summary in a review.
pub const SUMMARY_START: &'static str = "cubic:review-summary:start -->";

/// The mark that ends a summary in a review.
pub const SUMMARY_END: &'static str = "<!-- cubic:review-summary:end";

/// Whether a summary says that a push rewrote the branch.
pub open spec fn rewrote_branch(summary: Seq<char>) -> bool {
    REWRITTEN@.is_prefix_of(text::unicode_lowercase(text::trimmed(summary)))
}

/// Whether a summary in lower case, without white space around it, says that a push
/// rewrote the branch.
pub fn says_rewritten(lower: &str) -> (r: bool)
    ensures
        r == REWRITTEN@.is_prefix_of(lower@),
{
    text::starts_with(lower, REWRITTEN)
}

/// Whether a summary says that a push rewrote the branch.
pub fn branch_rewrite_skip(summary: &str) -> (r: bool)
    ensures
        r == rewrote_branch(summary@),
{
    says_rewritten(&text::lowercase(&text::trim(summary)))
}

/// The part of a text before a mark, or the whole text where it has no such mark.
pub open spec fn before_mark(text: Seq<char>, mark: Seq<char>) -> Seq<char> {
    match text::split_once_at(text, mark) {
        Some(parts) => parts.0,
        None => text,
    }
}

/// The summary in a text: what stands between the marks, without quoted discussion.
pub open spec fn summary_part(text: Seq<char>) -> Seq<char> {
    let started = match text::split_once_at(text, SUMMARY_START@) {
        Some(parts) => before_mark(parts.1, SUMMARY_START@),
        None => text,
    };
    before_mark(started, SUMMARY_END@)
}

/// The part of a text before a mark.
fn cut_before(text: String, mark: &str) -> (r: String)
    ensures
        r@ == before_mark(text@, mark@),
{
    match text::split_once(&text, mark) {
        Some((before, _)) => before,
        None => text,
    }
}

/// The summary in a text.
pub fn summary(text: &str) -> (r: String)
    ensures
        r@ == summary_part(text@),
{
    let started = match text::split_once(text, SUMMARY_START) {
        Some((_, after)) => cut_before(after, SUMMARY_START),
        None => text.to_owned(),
    };
    cut_before(started, SUMMARY_END)
}

/// The verdict of a summary, from its lower case and the count that it gives.
pub open spec fn conclusion(lower: Seq<char>, count: Option<Seq<char>>) -> Option<Verdict> {
    if text::occurs(lower, "no issues found"@) || text::occurs(lower, "all reported issues were addressed"@) {
        Some(Verdict::Clean)
    } else {
        match count {
            Some(n) => Some(
                if n == "0"@ {
                    Verdict::Clean
                } else {
                    Verdict::Findings
                },
            ),
            None => None,
        }
    }
}

/// The verdict of a summary, from its lower case and the count that it gives.
pub fn conclude(lower: &str, count: &Option<String>) -> (r: Option<Verdict>)
    ensures
        r == conclusion(lower@, count.deep_view()),
{
    if text::contains(lower, "no issues found") || text::contains(lower, "all reported issues were addressed") {
        return Some(Verdict::Clean);
    }
    match count {
        Some(n) => Some(
            if text::same(n, "0") {
                Verdict::Clean
            } else {
                Verdict::Findings
            },
        ),
        None => None,
    }
}

/// The verdict that a text gives, if it gives one.
pub open spec fn verdict_of(text: Seq<char>) -> Option<Verdict> {
    let part = summary_part(text);
    conclusion(text::unicode_lowercase(part), reviewers::first_group(reviewers::CUBIC_COUNT@, part))
}

/// The verdict that a text gives, if it gives one.
pub fn verdict(text: &str) -> (r: Option<Verdict>)
    ensures
        r == verdict_of(text@),
{
    let part = summary(text);
    conclude(&text::lowercase(&part), &reviewers::capture(reviewers::CUBIC_COUNT, &part))
}

/// Whether every check's summary gives a verdict.
pub open spec fn all_conclude(checks: Seq<CheckView>) -> bool {
    forall|i: int| 0 <= i < checks.len() ==> verdict_of((#[trigger] checks[i]).summary) is Some
}

/// Whether some check's summary reports findings.
pub open spec fn some_findings(checks: Seq<CheckView>) -> bool {
    exists|i: int| 0 <= i < checks.len() && verdict_of((#[trigger] checks[i]).summary) == Some(Verdict::Findings)
}

/// The verdict of the current review, if it gives one.
pub open spec fn review_verdict(body: Seq<char>, state: Seq<char>) -> Option<Verdict> {
    match verdict_of(body) {
        Some(v) => Some(v),
        None => if state == "APPROVED"@ {
            Some(Verdict::Clean)
        } else {
            None
        },
    }
}

/// What Cubic concluded about a pull request.
pub open spec fn detected(s: SnapshotView) -> AgentResultView {
    let agent = Agent::Cubic;
    let checks = reviewers::latest_checks_of(s.checks, agent);
    let review = reviewers::review_after(s, agent);
    if reviewers::gate(checks, agent) is Some {
        reviewers::gate(checks, agent)->0
    } else if review is Some && review_verdict(review->0.body, review->0.state) is Some {
        reviewers::result_of(
            agent,
            review_verdict(review->0.body, review->0.state)->0,
            review->0.id,
            "Current-commit Cubic review summary"@,
        )
    } else if checks.len() > 0 && all_conclude(checks) {
        reviewers::result_of(
            agent,
            if some_findings(checks) {
                Verdict::Findings
            } else {
                Verdict::Clean
            },
            reviewers::check_ids(checks),
            "Current-commit Cubic check summary"@,
        )
    } else {
        reviewers::result_of(agent, Verdict::Unknown, Seq::empty(), "No conclusive Cubic result for the current commit"@)
    }
}

/// The verdict that the summaries of checks give together, if each gives one.
fn conclude_checks(checks: &Vec<Check>) -> (r: Option<Verdict>)
    ensures
        match r {
            Some(v) => all_conclude(checks.deep_view()) && v == (if some_findings(checks.deep_view()) {
                Verdict::Findings
            } else {
                Verdict::Clean
            }),
            None => !all_conclude(checks.deep_view()),
        },
{
    let ghost v = checks.deep_view();
    let mut findings = false;
    let mut i: usize = 0;
    while i < checks.len()
        invariant
            v == checks.deep_view(),
            i <= checks@.len(),
            forall|k: int| 0 <= k < i ==> verdict_of((#[trigger] v[k]).summary) is Some,
            findings == exists|k: int| 0 <= k < i && verdict_of((#[trigger] v[k]).summary) == Some(Verdict::Findings),
        decreases checks.len() - i,
    {
        assert(v[i as int] == checks@[i as int]@);
        match verdict(&checks[i].summary) {
            None => {
                return None;
            },
            Some(found) => {
                findings = findings || found == Verdict::Findings;
            },
        }
        i += 1;
    }
    Some(
        if findings {
            Verdict::Findings
        } else {
            Verdict::Clean
        },
    )
}

/// What Cubic concluded about a pull request.
pub fn detect(s: &Snapshot) -> (r: AgentResult)
    ensures
        r@ == detected(s@),
{
    let agent = Agent::Cubic;
    if let Some(gate) = reviewers::check_gate(s, agent) {
        return gate;
    }
    if let Some(review) = reviewers::review_after_checks(s, agent) {
        let found = match verdict(&review.body) {
            Some(v) => Some(v),
            None => if text::same(&review.state, "APPROVED") {
                Some(Verdict::Clean)
            } else {
                None
            },
        };
        if let Some(v) = found {
            return reviewers::result(agent, v, review.id.clone(), "Current-commit Cubic review summary");
        }
    }
    let checks = reviewers::latest_checks(s, agent);
    if checks.len() > 0 {
        if let Some(v) = conclude_checks(&checks) {
            return reviewers::result(agent, v, reviewers::ids(&checks), "Current-commit Cubic check summary");
        }
    }
    reviewers::result(agent, Verdict::Unknown, String::new(), "No conclusive Cubic result for the current commit")
}

} // verus!
