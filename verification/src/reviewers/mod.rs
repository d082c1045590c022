//! What each agent concluded about a pull request, and what follows for the whole.

pub mod coderabbit;
pub mod codex;
pub mod cubic;
pub mod laws;

use crate::model::{
    Agent, AgentResult, AgentResultView, Check, CheckView, PullRequest, PullRequestView, Review, ReviewView, Snapshot,
    SnapshotView, State, ThreadView, Verdict,
};
use crate::text;
use crate::text_map::{self, TextMap};
use vstd::prelude::*;

verus! {

broadcast use vstd::seq_lib::group_seq_properties;

/// The pattern of the count in a summary of Cubic.
pub const CUBIC_COUNT: &'static str = r"(?i)\b(\d+) issues? found\b";

/// The pattern of the count in a summary of CodeRabbit.
pub const CODERABBIT_COUNT: &'static str = r"(?i)actionable comments posted:\s*\**\s*(\d+)\b";

/// What `Regex::captures` finds: the text of the first group in the first match.
pub uninterp spec fn first_group(pattern: Seq<char>, text: Seq<char>) -> Option<Seq<char>>;

/// Whether a pattern is one of those that stand here: they compile, and each has a first
/// group that takes part in every match.
pub open spec fn known_pattern(pattern: Seq<char>) -> bool {
    pattern == CUBIC_COUNT@ || pattern == CODERABBIT_COUNT@ || pattern == crate::github::failure::HTTP_STATUS@
}

/// Trusted: `regex::Regex::new` and `Regex::captures`. The text of the first group of the
/// first match is a function of the pattern and the text alone.
#[verifier::external_body]
pub(crate) fn capture(pattern: &str, text: &str) -> (r: Option<String>)
    requires
        known_pattern(pattern@),
    ensures
        r.deep_view() == first_group(pattern@, text@),
{
    regex::Regex::new(pattern).unwrap().captures(text).map(|c| c[1].to_owned())
}

/// A result of an agent.
pub open spec fn result_of(agent: Agent, verdict: Verdict, run: Seq<char>, reason: Seq<char>) -> AgentResultView {
    AgentResultView { agent, verdict, run_id: run, reason }
}

/// A result of an agent.
pub fn result(agent: Agent, verdict: Verdict, run: String, reason: &str) -> (r: AgentResult)
    ensures
        r@ == result_of(agent, verdict, run@, reason@),
{
    AgentResult { agent, verdict, run_id: run, reason: reason.to_owned() }
}

// ---------------------------------------------------------------- participation

/// Whether an agent left a trace on a pull request.
pub open spec fn observed(s: SnapshotView, agent: Agent) -> bool {
    ||| exists|i: int| 0 <= i < s.reviews.len() && crate::model::agent_of_login((#[trigger] s.reviews[i]).author) == Some(agent)
    ||| exists|i: int| 0 <= i < s.comments.len() && crate::model::agent_of_login((#[trigger] s.comments[i]).author) == Some(agent)
    ||| exists|i: int|
        0 <= i < s.reactions.len() && crate::model::agent_of_login((#[trigger] s.reactions[i]).author) == Some(agent)
    ||| exists|i: int| 0 <= i < s.checks.len() && crate::model::agent_of_app((#[trigger] s.checks[i]).app) == Some(agent)
}

/// Whether an agent took part when the pull request was last seen. An explicit skip is
/// no participation: a skip that disappears must not create an unfinished review.
pub open spec fn took_part(previous: Option<PullRequestView>, agent: Agent) -> bool {
    match previous {
        Some(p) => exists|i: int|
            0 <= i < p.agents.len() && (#[trigger] p.agents[i]).agent == agent && p.agents[i].verdict != Verdict::Skipped,
        None => false,
    }
}

/// Whether an agent's result counts: where the configuration names agents, those; else
/// those that left a trace or took part before.
pub open spec fn participates(
    s: SnapshotView,
    previous: Option<PullRequestView>,
    expected: Option<Seq<Agent>>,
    agent: Agent,
) -> bool {
    match expected {
        Some(agents) => agents.contains(agent),
        None => observed(s, agent) || took_part(previous, agent),
    }
}

/// What an agent's traces on a pull request say.
pub open spec fn detected(s: SnapshotView, previous: Option<PullRequestView>, agent: Agent) -> AgentResultView {
    match agent {
        Agent::Codex => codex::detected(s, previous),
        Agent::Cubic => cubic::detected(s),
        Agent::CodeRabbit => coderabbit::detected(s),
    }
}

/// A result in the light of who is expected and who left a trace. An agent that the
/// configuration names may not skip.
pub open spec fn adjusted(result: AgentResultView, expected: bool, observed: bool) -> AgentResultView {
    if !expected && !observed && result.verdict == Verdict::Unknown {
        AgentResultView {
            reason: "Previously participating agent has no current activity: "@ + result.reason,
            ..result
        }
    } else if expected && result.verdict == Verdict::Skipped {
        AgentResultView {
            verdict: Verdict::Unknown,
            reason: "Required agent did not run: "@ + result.reason,
            ..result
        }
    } else {
        result
    }
}

/// The results of the first `count` agents that count.
pub open spec fn evaluated_up_to(
    s: SnapshotView,
    previous: Option<PullRequestView>,
    expected: Option<Seq<Agent>>,
    count: nat,
) -> Seq<AgentResultView>
    decreases count,
{
    if count == 0 || count > 3 {
        Seq::empty()
    } else {
        let agent = crate::model::all_agents()[count - 1];
        let before = evaluated_up_to(s, previous, expected, (count - 1) as nat);
        if participates(s, previous, expected, agent) {
            before.push(adjusted(detected(s, previous, agent), expected is Some, observed(s, agent)))
        } else {
            before
        }
    }
}

/// The results of the agents that count, in the order of the agents.
pub open spec fn evaluated(
    s: SnapshotView,
    previous: Option<PullRequestView>,
    expected: Option<Seq<Agent>>,
) -> Seq<AgentResultView> {
    evaluated_up_to(s, previous, expected, 3)
}

/// Whether an agent left a trace on a pull request.
fn is_observed(s: &Snapshot, agent: Agent) -> (r: bool)
    ensures
        r == observed(s@, agent),
{
    let ghost v = s@;
    let mut i: usize = 0;
    while i < s.reviews.len()
        invariant
            v == s@,
            i <= s.reviews@.len(),
            forall|k: int| 0 <= k < i ==> crate::model::agent_of_login((#[trigger] v.reviews[k]).author) != Some(agent),
        decreases s.reviews.len() - i,
    {
        assert(v.reviews[i as int] == s.reviews@[i as int]@);
        if Agent::from_login(&s.reviews[i].author) == Some(agent) {
            return true;
        }
        i += 1;
    }
    i = 0;
    while i < s.comments.len()
        invariant
            v == s@,
            i <= s.comments@.len(),
            forall|k: int| 0 <= k < i ==> crate::model::agent_of_login((#[trigger] v.comments[k]).author) != Some(agent),
        decreases s.comments.len() - i,
    {
        assert(v.comments[i as int] == s.comments@[i as int]@);
        if Agent::from_login(&s.comments[i].author) == Some(agent) {
            return true;
        }
        i += 1;
    }
    i = 0;
    while i < s.reactions.len()
        invariant
            v == s@,
            i <= s.reactions@.len(),
            forall|k: int| 0 <= k < i ==> crate::model::agent_of_login((#[trigger] v.reactions[k]).author) != Some(agent),
        decreases s.reactions.len() - i,
    {
        assert(v.reactions[i as int] == s.reactions@[i as int]@);
        if Agent::from_login(&s.reactions[i].author) == Some(agent) {
            return true;
        }
        i += 1;
    }
    i = 0;
    while i < s.checks.len()
        invariant
            v == s@,
            i <= s.checks@.len(),
            forall|k: int| 0 <= k < i ==> crate::model::agent_of_app((#[trigger] v.checks[k]).app) != Some(agent),
        decreases s.checks.len() - i,
    {
        assert(v.checks[i as int] == s.checks@[i as int]@);
        if Agent::from_app(&s.checks[i].app) == Some(agent) {
            return true;
        }
        i += 1;
    }
    false
}

/// The contents of the pull request that was last seen.
pub open spec fn previous_view(previous: Option<&PullRequest>) -> Option<PullRequestView> {
    match previous {
        Some(p) => Some(p@),
        None => None,
    }
}

/// The contents of the list of expected agents.
pub open spec fn expected_view(expected: Option<&[Agent]>) -> Option<Seq<Agent>> {
    match expected {
        Some(agents) => Some(agents@),
        None => None,
    }
}

/// Whether an agent took part when the pull request was last seen.
fn did_take_part(previous: Option<&PullRequest>, agent: Agent) -> (r: bool)
    ensures
        r == took_part(previous_view(previous), agent),
{
    match previous {
        None => false,
        Some(p) => {
            let ghost v = p@;
            let mut i: usize = 0;
            while i < p.agents.len()
                invariant
                    v == p@,
                    previous_view(previous) == Some(v),
                    i <= p.agents@.len(),
                    forall|k: int| 0 <= k < i ==> (#[trigger] v.agents[k]).agent != agent || v.agents[k].verdict == Verdict::Skipped,
                decreases p.agents.len() - i,
            {
                assert(v.agents[i as int] == p.agents@[i as int]@);
                if p.agents[i].agent == agent && p.agents[i].verdict != Verdict::Skipped {
                    return true;
                }
                i += 1;
            }
            false
        },
    }
}

/// Whether a list names an agent.
fn names(agents: &[Agent], agent: Agent) -> (r: bool)
    ensures
        r == agents@.contains(agent),
{
    let mut i: usize = 0;
    while i < agents.len()
        invariant
            i <= agents@.len(),
            forall|k: int| 0 <= k < i ==> agents@[k] != agent,
        decreases agents.len() - i,
    {
        if agents[i] == agent {
            return true;
        }
        i += 1;
    }
    false
}

/// What each agent that counts concluded.
pub fn evaluate(snapshot: &Snapshot, previous: Option<&PullRequest>, expected: Option<&[Agent]>) -> (r: Vec<AgentResult>)
    ensures
        r.deep_view() == evaluated(snapshot@, previous_view(previous), expected_view(expected)),
{
    let mut r: Vec<AgentResult> = Vec::new();
    let ghost p = previous_view(previous);
    let ghost e = expected_view(expected);
    let all = Agent::ALL;
    let mut i: usize = 0;
    assert(r.deep_view() =~= Seq::empty());
    while i < 3
        invariant
            i <= 3,
            p == previous_view(previous),
            e == expected_view(expected),
            all@ == crate::model::all_agents(),
            r.deep_view() == evaluated_up_to(snapshot@, p, e, i as nat),
        decreases 3 - i,
    {
        let agent = all[i];
        let seen = is_observed(snapshot, agent);
        let counts = match expected {
            Some(agents) => names(agents, agent),
            None => seen || did_take_part(previous, agent),
        };
        if counts {
            let mut found = match agent {
                Agent::Codex => codex::detect(snapshot, previous),
                Agent::Cubic => cubic::detect(snapshot),
                Agent::CodeRabbit => coderabbit::detect(snapshot),
            };
            let ghost raw = found@;
            if expected.is_none() && !seen && found.verdict == Verdict::Unknown {
                found.reason = text::concat("Previously participating agent has no current activity: ", &found.reason);
            } else if expected.is_some() && found.verdict == Verdict::Skipped {
                found.verdict = Verdict::Unknown;
                found.reason = text::concat("Required agent did not run: ", &found.reason);
            }
            let ghost done = r.deep_view();
            let ghost new = found@;
            r.push(found);
            assert(r.deep_view() =~= done.push(new));
        }
        i += 1;
    }
    r
}

// ---------------------------------------------------------------- aggregation

/// Whether some result has a verdict.
pub open spec fn some_verdict(agents: Seq<AgentResultView>, verdict: Verdict) -> bool {
    exists|i: int| 0 <= i < agents.len() && (#[trigger] agents[i]).verdict == verdict
}

/// Whether every result has the verdict or was skipped.
pub open spec fn all_verdict(agents: Seq<AgentResultView>, verdict: Verdict) -> bool {
    forall|i: int|
        0 <= i < agents.len() ==> (#[trigger] agents[i]).verdict == verdict || agents[i].verdict == Verdict::Skipped
}

/// Whether some thread is not resolved.
pub open spec fn some_open_thread(threads: Seq<ThreadView>) -> bool {
    exists|i: int| 0 <= i < threads.len() && !(#[trigger] threads[i]).resolved
}

/// The state that results and threads amount to.
pub open spec fn aggregated(s: SnapshotView, agents: Seq<AgentResultView>) -> State {
    if some_verdict(agents, Verdict::Running) {
        State::Reviewing
    } else if all_verdict(agents, Verdict::Skipped) || some_verdict(agents, Verdict::Unknown) {
        State::Unknown
    } else if some_open_thread(s.threads) {
        State::Comments
    } else if all_verdict(agents, Verdict::Clean) {
        State::Approved
    } else {
        State::Unknown
    }
}

/// Whether some result has a verdict.
fn has_verdict(agents: &Vec<AgentResult>, verdict: Verdict) -> (r: bool)
    ensures
        r == some_verdict(agents.deep_view(), verdict),
{
    let ghost v = agents.deep_view();
    let mut i: usize = 0;
    while i < agents.len()
        invariant
            v == agents.deep_view(),
            i <= agents@.len(),
            forall|k: int| 0 <= k < i ==> (#[trigger] v[k]).verdict != verdict,
        decreases agents.len() - i,
    {
        assert(v[i as int] == agents@[i as int]@);
        if agents[i].verdict == verdict {
            return true;
        }
        i += 1;
    }
    false
}

/// Whether every result has the verdict or was skipped.
fn have_verdict(agents: &Vec<AgentResult>, verdict: Verdict) -> (r: bool)
    ensures
        r == all_verdict(agents.deep_view(), verdict),
{
    let ghost v = agents.deep_view();
    let mut i: usize = 0;
    while i < agents.len()
        invariant
            v == agents.deep_view(),
            i <= agents@.len(),
            forall|k: int| 0 <= k < i ==> (#[trigger] v[k]).verdict == verdict || v[k].verdict == Verdict::Skipped,
        decreases agents.len() - i,
    {
        assert(v[i as int] == agents@[i as int]@);
        if agents[i].verdict != verdict && agents[i].verdict != Verdict::Skipped {
            return false;
        }
        i += 1;
    }
    true
}

/// The state that results and threads amount to.
pub fn aggregate(snapshot: &Snapshot, agents: &Vec<AgentResult>) -> (r: State)
    ensures
        r == aggregated(snapshot@, agents.deep_view()),
{
    if has_verdict(agents, Verdict::Running) {
        return State::Reviewing;
    }
    if have_verdict(agents, Verdict::Skipped) || has_verdict(agents, Verdict::Unknown) {
        return State::Unknown;
    }
    let ghost v = snapshot@.threads;
    let mut i: usize = 0;
    while i < snapshot.threads.len()
        invariant
            v == snapshot@.threads,
            i <= snapshot.threads@.len(),
            forall|k: int| 0 <= k < i ==> (#[trigger] v[k]).resolved,
            !some_verdict(agents.deep_view(), Verdict::Running),
            !all_verdict(agents.deep_view(), Verdict::Skipped),
            !some_verdict(agents.deep_view(), Verdict::Unknown),
        decreases snapshot.threads.len() - i,
    {
        assert(v[i as int] == snapshot.threads@[i as int]@);
        if !snapshot.threads[i].resolved {
            return State::Comments;
        }
        i += 1;
    }
    if have_verdict(agents, Verdict::Clean) {
        State::Approved
    } else {
        State::Unknown
    }
}

// ---------------------------------------------------------------- reviews and checks

/// Whether a review is a submitted one of an agent for a commit.
pub open spec fn is_current(review: ReviewView, head: Seq<char>, agent: Agent) -> bool {
    crate::model::agent_of_login(review.author) == Some(agent) && review.commit == head && review.state != "PENDING"@
}

/// Whether a review was submitted before another, or has the smaller id where the times
/// are the same.
pub open spec fn review_before(a: ReviewView, b: ReviewView) -> bool {
    text::text_lt(a.submitted_at, b.submitted_at) || (a.submitted_at == b.submitted_at && text::text_lt(a.id, b.id))
}

/// The last submitted review of an agent for a commit.
pub open spec fn latest_review(reviews: Seq<ReviewView>, head: Seq<char>, agent: Agent) -> Option<ReviewView>
    decreases reviews.len(),
{
    if reviews.len() == 0 {
        None
    } else {
        let before = latest_review(reviews.drop_last(), head, agent);
        let review = reviews.last();
        if is_current(review, head, agent) && (before is None || !review_before(review, before->0)) {
            Some(review)
        } else {
            before
        }
    }
}

/// The contents of an optional review.
pub open spec fn review_view(review: Option<&Review>) -> Option<ReviewView> {
    match review {
        Some(r) => Some(r@),
        None => None,
    }
}

/// The last submitted review of an agent for the current commit.
pub fn current_review(s: &Snapshot, agent: Agent) -> (r: Option<&Review>)
    ensures
        review_view(r) == latest_review(s@.reviews, s@.head, agent),
{
    let mut found: Option<&Review> = None;
    let ghost v = s@.reviews;
    let mut i: usize = 0;
    while i < s.reviews.len()
        invariant
            v == s@.reviews,
            i <= s.reviews@.len(),
            review_view(found) == latest_review(v.take(i as int), s@.head, agent),
        decreases s.reviews.len() - i,
    {
        let review = &s.reviews[i];
        assert(v.take(i + 1).drop_last() =~= v.take(i as int));
        assert(v.take(i + 1).last() == review@);
        let current = Agent::from_login(&review.author) == Some(agent) && text::same(&review.commit, &s.head) && !text::same(
            &review.state,
            "PENDING",
        );
        if current {
            let keep = match found {
                Some(before) => text::less(&review.submitted_at, &before.submitted_at) || (text::same(
                    &review.submitted_at,
                    &before.submitted_at,
                ) && text::less(&review.id, &before.id)),
                None => false,
            };
            if !keep {
                found = Some(review);
            }
        }
        i += 1;
    }
    assert(v.take(i as int) =~= v);
    found
}

/// The number that a check's id writes, or zero.
pub open spec fn check_number(check: CheckView) -> u64 {
    match text::number_of(check.id) {
        Some(n) => n,
        None => 0,
    }
}

/// Whether a check started after another, or has the greater number where the times are
/// the same.
pub open spec fn check_after(a: CheckView, b: CheckView) -> bool {
    text::text_lt(b.started_at, a.started_at) || (a.started_at == b.started_at && check_number(a) > check_number(b))
}

/// The last run of each check of an agent, by the check's name.
pub open spec fn latest_runs(checks: Seq<CheckView>, agent: Agent) -> Map<Seq<char>, CheckView>
    decreases checks.len(),
{
    if checks.len() == 0 {
        Map::empty()
    } else {
        let before = latest_runs(checks.drop_last(), agent);
        let check = checks.last();
        if crate::model::agent_of_app(check.app) == Some(agent) && (!before.contains_key(check.name) || check_after(
            check,
            before[check.name],
        )) {
            before.insert(check.name, check)
        } else {
            before
        }
    }
}

/// The last run of each check of an agent, in the order of the checks' names.
pub open spec fn latest_checks_of(checks: Seq<CheckView>, agent: Agent) -> Seq<CheckView> {
    text_map::values_in_order(latest_runs(checks, agent))
}

/// The number that a check's id writes, or zero.
fn number(check: &Check) -> (r: u64)
    ensures
        r == check_number(check@),
{
    match text::parse_u64(&check.id) {
        Some(n) => n,
        None => 0,
    }
}

/// The last run of each check of an agent, in the order of the checks' names.
pub fn latest_checks(s: &Snapshot, agent: Agent) -> (r: Vec<Check>)
    ensures
        r.deep_view() == latest_checks_of(s@.checks, agent),
{
    let mut latest: TextMap<Check> = TextMap::new();
    let ghost v = s@.checks;
    let mut i: usize = 0;
    while i < s.checks.len()
        invariant
            v == s@.checks,
            i <= s.checks@.len(),
            latest@ == latest_runs(v.take(i as int), agent),
        decreases s.checks.len() - i,
    {
        let check = &s.checks[i];
        assert(v.take(i + 1).drop_last() =~= v.take(i as int));
        assert(v.take(i + 1).last() == check@);
        if Agent::from_app(&check.app) == Some(agent) {
            let replace = match latest.get(&check.name) {
                None => true,
                Some(entry) => text::less(&entry.started_at, &check.started_at) || (text::same(
                    &check.started_at,
                    &entry.started_at,
                ) && number(check) > number(entry)),
            };
            if replace {
                latest.insert(check.name.clone(), check.clone());
            }
        }
        i += 1;
    }
    assert(v.take(i as int) =~= v);
    let mut r: Vec<Check> = Vec::new();
    let ghost keys = text_map::sorted_keys(latest@.dom());
    let count: usize = latest.len();
    let mut k: usize = 0;
    while k < count
        invariant
            keys == text_map::sorted_keys(latest@.dom()),
            count == keys.len(),
            k <= count,
            r.deep_view() == keys.take(k as int).map_values(|key: Seq<char>| latest@[key]),
        decreases count - k,
    {
        let ghost done = r.deep_view();
        r.push(latest.value_at(k).clone());
        assert(r.deep_view() =~= done.push(latest@[keys[k as int]]));
        assert(r.deep_view() =~= keys.take(k + 1).map_values(|key: Seq<char>| latest@[key]));
        k += 1;
    }
    assert(keys.take(k as int) =~= keys);
    assert(r.deep_view() =~= text_map::values_in_order(latest@));
    r
}

/// Whether a summary in lower case says that no review was made.
pub open spec fn skip_text(lower: Seq<char>) -> bool {
    ||| text::occurs(lower, "you've reached your plan's monthly review limit"@)
    ||| text::occurs(lower, "review skipped"@)
    ||| text::occurs(lower, "review is skipped"@)
    ||| text::occurs(lower, "reviews are paused"@)
}

/// Whether a check's summary says that no review was made.
pub open spec fn skipped_explicitly(summary: Seq<char>) -> bool {
    skip_text(text::unicode_lowercase(summary))
}

/// Whether a summary in lower case says that no review was made.
pub fn says_skipped(lower: &str) -> (r: bool)
    ensures
        r == skip_text(lower@),
{
    text::contains(lower, "you've reached your plan's monthly review limit") || text::contains(lower, "review skipped")
        || text::contains(lower, "review is skipped") || text::contains(lower, "reviews are paused")
}

/// Whether a check's summary says that no review was made.
pub fn explicitly_skipped(summary: &str) -> (r: bool)
    ensures
        r == skipped_explicitly(summary@),
{
    says_skipped(&text::lowercase(summary))
}

/// Whether Cubic made no review because a push rewrote the branch.
pub open spec fn rewrite_skip(check: CheckView, agent: Agent) -> bool {
    agent == Agent::Cubic && cubic::rewrote_branch(check.summary)
}

/// Whether a check says that no review was made.
pub open spec fn check_skipped(check: CheckView, agent: Agent) -> bool {
    skipped_explicitly(check.summary) || rewrite_skip(check, agent)
}

/// Whether a check ended well.
pub open spec fn check_passed(check: CheckView) -> bool {
    check.conclusion == "success"@ || check.conclusion == "neutral"@
}

/// The first check that has not ended.
pub open spec fn first_running(checks: Seq<CheckView>) -> Option<CheckView>
    decreases checks.len(),
{
    if checks.len() == 0 {
        None
    } else if checks[0].status != "completed"@ {
        Some(checks[0])
    } else {
        first_running(checks.drop_first())
    }
}

/// The first check that did not end well.
pub open spec fn first_failed(checks: Seq<CheckView>) -> Option<CheckView>
    decreases checks.len(),
{
    if checks.len() == 0 {
        None
    } else if !check_passed(checks[0]) {
        Some(checks[0])
    } else {
        first_failed(checks.drop_first())
    }
}

/// The ids of checks, with commas between them.
pub open spec fn check_ids(checks: Seq<CheckView>) -> Seq<char> {
    text::joined(checks.map_values(|c: CheckView| c.id), ","@)
}

/// What an agent's checks say by themselves: that it is at work, that it did not end
/// well, or that it made no review. Nothing where they leave the verdict to its reviews.
pub open spec fn gate(checks: Seq<CheckView>, agent: Agent) -> Option<AgentResultView> {
    if first_running(checks) is Some {
        let c = first_running(checks)->0;
        Some(
            result_of(
                agent,
                Verdict::Running,
                "check:"@ + c.id + ":"@ + c.started_at,
                "Agent check is queued or running"@,
            ),
        )
    } else if first_failed(checks) is Some {
        Some(
            result_of(
                agent,
                Verdict::Unknown,
                first_failed(checks)->0.id,
                "Agent check failed, was skipped, or was cancelled"@,
            ),
        )
    } else if checks.len() > 0 && forall|i: int| 0 <= i < checks.len() ==> check_skipped(#[trigger] checks[i], agent) {
        Some(
            result_of(
                agent,
                Verdict::Skipped,
                check_ids(checks),
                if exists|i: int| 0 <= i < checks.len() && rewrite_skip(#[trigger] checks[i], agent) {
                    "Review skipped — branch history rewritten; Cubic requires a manual review"@
                } else {
                    "Review skipped — subscription limit or agent paused"@
                },
            ),
        )
    } else {
        None
    }
}

/// The ids of checks, with commas between them.
pub fn ids(checks: &Vec<Check>) -> (r: String)
    ensures
        r@ == check_ids(checks.deep_view()),
{
    let mut list: Vec<String> = Vec::new();
    let ghost v = checks.deep_view();
    let mut i: usize = 0;
    while i < checks.len()
        invariant
            v == checks.deep_view(),
            i <= checks@.len(),
            list.deep_view() == v.take(i as int).map_values(|c: CheckView| c.id),
        decreases checks.len() - i,
    {
        let ghost done = list.deep_view();
        list.push(checks[i].id.clone());
        assert(v[i as int] == checks@[i as int]@);
        assert(list.deep_view() =~= done.push(v[i as int].id));
        assert(list.deep_view() =~= v.take(i + 1).map_values(|c: CheckView| c.id));
        i += 1;
    }
    assert(v.take(i as int) =~= v);
    text::join(&list, ",")
}

/// The contents of an optional result.
pub open spec fn result_view(result: Option<AgentResult>) -> Option<AgentResultView> {
    match result {
        Some(r) => Some(r@),
        None => None,
    }
}

/// What an agent's checks say by themselves.
pub fn gate_checks(checks: &Vec<Check>, agent: Agent) -> (r: Option<AgentResult>)
    ensures
        result_view(r) == gate(checks.deep_view(), agent),
{
    let ghost v = checks.deep_view();
    let mut i: usize = 0;
    assert(v.skip(0) =~= v);
    while i < checks.len()
        invariant
            v == checks.deep_view(),
            i <= checks@.len(),
            first_running(v) == first_running(v.skip(i as int)),
        decreases checks.len() - i,
    {
        let c = &checks[i];
        assert(v.skip(i as int)[0] == c@);
        assert(v.skip(i as int).drop_first() =~= v.skip(i + 1));
        if !text::same(&c.status, "completed") {
            let run = text::concat3(&text::concat("check:", &c.id), ":", &c.started_at);
            return Some(result(agent, Verdict::Running, run, "Agent check is queued or running"));
        }
        i += 1;
    }
    assert(first_running(v) is None);
    i = 0;
    while i < checks.len()
        invariant
            v == checks.deep_view(),
            i <= checks@.len(),
            first_running(v) is None,
            first_failed(v) == first_failed(v.skip(i as int)),
        decreases checks.len() - i,
    {
        let c = &checks[i];
        assert(v.skip(i as int)[0] == c@);
        assert(v.skip(i as int).drop_first() =~= v.skip(i + 1));
        if !text::same(&c.conclusion, "success") && !text::same(&c.conclusion, "neutral") {
            return Some(
                result(agent, Verdict::Unknown, c.id.clone(), "Agent check failed, was skipped, or was cancelled"),
            );
        }
        i += 1;
    }
    assert(first_failed(v) is None);
    let mut rewritten = false;
    i = 0;
    while i < checks.len()
        invariant
            v == checks.deep_view(),
            i <= checks@.len(),
            first_running(v) is None,
            first_failed(v) is None,
            forall|k: int| 0 <= k < i ==> check_skipped(#[trigger] v[k], agent),
            rewritten == exists|k: int| 0 <= k < i && rewrite_skip(#[trigger] v[k], agent),
        decreases checks.len() - i,
    {
        let c = &checks[i];
        assert(v[i as int] == c@);
        let rewrite = agent == Agent::Cubic && cubic::branch_rewrite_skip(&c.summary);
        if !rewrite && !explicitly_skipped(&c.summary) {
            assert(!check_skipped(v[i as int], agent));
            return None;
        }
        rewritten = rewritten || rewrite;
        i += 1;
    }
    if checks.len() == 0 {
        return None;
    }
    Some(
        result(
            agent,
            Verdict::Skipped,
            ids(checks),
            if rewritten {
                "Review skipped — branch history rewritten; Cubic requires a manual review"
            } else {
                "Review skipped — subscription limit or agent paused"
            },
        ),
    )
}

/// What the checks of an agent on a pull request say by themselves.
pub fn check_gate(s: &Snapshot, agent: Agent) -> (r: Option<AgentResult>)
    ensures
        result_view(r) == gate(latest_checks_of(s@.checks, agent), agent),
{
    gate_checks(&latest_checks(s, agent), agent)
}

/// Whether a check started after a review was submitted.
pub open spec fn superseded(review: ReviewView, checks: Seq<CheckView>) -> bool {
    exists|i: int|
        0 <= i < checks.len() && (#[trigger] checks[i]).started_at.len() > 0 && text::text_lt(
            review.submitted_at,
            checks[i].started_at,
        )
}

/// The last submitted review of an agent for the current commit, unless one of its checks
/// started after it: an older clean review must not finish a newer run on the same commit.
pub open spec fn review_after(s: SnapshotView, agent: Agent) -> Option<ReviewView> {
    match latest_review(s.reviews, s.head, agent) {
        Some(review) => if superseded(review, latest_checks_of(s.checks, agent)) {
            None
        } else {
            Some(review)
        },
        None => None,
    }
}

/// The last submitted review of an agent that no later check supersedes.
pub fn review_after_checks(s: &Snapshot, agent: Agent) -> (r: Option<&Review>)
    ensures
        review_view(r) == review_after(s@, agent),
{
    match current_review(s, agent) {
        None => None,
        Some(review) => {
            let checks = latest_checks(s, agent);
            let ghost v = checks.deep_view();
            let mut i: usize = 0;
            while i < checks.len()
                invariant
                    v == checks.deep_view(),
                    v == latest_checks_of(s@.checks, agent),
                    Some(review@) == latest_review(s@.reviews, s@.head, agent),
                    i <= checks@.len(),
                    forall|k: int|
                        0 <= k < i ==> (#[trigger] v[k]).started_at.len() == 0 || !text::text_lt(
                            review@.submitted_at,
                            v[k].started_at,
                        ),
                decreases checks.len() - i,
            {
                assert(v[i as int] == checks@[i as int]@);
                if !checks[i].started_at.as_str().is_empty() && text::less(&review.submitted_at, &checks[i].started_at) {
                    return None;
                }
                i += 1;
            }
            Some(review)
        },
    }
}

/// Whether an agent has a thread that is not resolved.
pub open spec fn open_thread_of(s: SnapshotView, agent: Agent) -> bool {
    exists|i: int|
        0 <= i < s.threads.len() && !(#[trigger] s.threads[i]).resolved && crate::model::agent_of_login(s.threads[i].author)
            == Some(agent)
}

/// Whether an agent has a thread that is not resolved.
pub fn has_threads(s: &Snapshot, agent: Agent) -> (r: bool)
    ensures
        r == open_thread_of(s@, agent),
{
    let ghost v = s@;
    let mut i: usize = 0;
    while i < s.threads.len()
        invariant
            v == s@,
            i <= s.threads@.len(),
            forall|k: int|
                0 <= k < i ==> (#[trigger] v.threads[k]).resolved || crate::model::agent_of_login(v.threads[k].author) != Some(
                    agent,
                ),
        decreases s.threads.len() - i,
    {
        assert(v.threads[i as int] == s.threads@[i as int]@);
        if !s.threads[i].resolved && Agent::from_login(&s.threads[i].author) == Some(agent) {
            return true;
        }
        i += 1;
    }
    false
}

/// Whether the characters from `i` up to `j` are a longest run of hexadecimal digits.
pub open spec fn hex_run(text: Seq<char>, i: int, j: int) -> bool {
    &&& 0 <= i <= j <= text.len()
    &&& forall|k: int| i <= k < j ==> text::hex_digit(#[trigger] text[k])
    &&& i > 0 ==> !text::hex_digit(text[i - 1])
    &&& j < text.len() ==> !text::hex_digit(text[j])
}

/// Whether a text names a commit by the start of its hash, at least seven digits of it.
pub open spec fn names_commit(text: Seq<char>, head: Seq<char>) -> bool {
    exists|i: int, j: int|
        #[trigger] hex_run(text, i, j) && 7 <= j - i <= 40 && text.subrange(i, j).is_prefix_of(head)
}

/// Whether a text names a commit by the start of its hash.
pub fn matches_commit(text: &str, head: &str) -> (r: bool)
    ensures
        r == names_commit(text@, head@),
{
    let letters = text::chars(text);
    let mut start: usize = 0;
    let mut i: usize = 0;
    let ghost v = text@;
    loop
        invariant
            v == text@,
            letters@ == v,
            start <= i <= v.len(),
            forall|k: int| start <= k < i ==> text::hex_digit(#[trigger] v[k]),
            start > 0 ==> !text::hex_digit(v[start - 1]),
            forall|a: int, b: int| #[trigger] hex_run(v, a, b) && a < start ==> !(7 <= b - a <= 40 && v.subrange(
                a,
                b,
            ).is_prefix_of(head@)),
        decreases v.len() - i,
    {
        if i < letters.len() && text::is_hex_digit(letters[i]) {
            i += 1;
            continue ;
        }
        assert(hex_run(v, start as int, i as int));
        let part = text::slice(&letters, start, i);
        let length: usize = i - start;
        if length >= 7 && length <= 40 && text::starts_with(head, &part) {
            return true;
        }
        assert forall|a: int, b: int| #[trigger] hex_run(v, a, b) && a < i + 1 implies !(7 <= b - a <= 40 && v.subrange(
            a,
            b,
        ).is_prefix_of(head@)) by {
            if a >= start {
                if a > start {
                    if a <= i {
                        assert(text::hex_digit(v[a - 1]));
                    }
                } else {
                    if b < i {
                        assert(text::hex_digit(v[b]));
                    }
                    if b > i {
                        assert(text::hex_digit(v[i as int]));
                    }
                }
            }
        }
        if i >= letters.len() {
            assert forall|a: int, b: int| #[trigger] hex_run(v, a, b) implies !(7 <= b - a <= 40 && v.subrange(
                a,
                b,
            ).is_prefix_of(head@)) by {
                assert(a < i + 1);
            }
            return false;
        }
        i += 1;
        start = i;
    }
}

// ---------------------------------------------------------------- laws

/// While an agent is at work, no comments and no approval are reported.
pub proof fn running_blocks_conclusion(s: SnapshotView, agents: Seq<AgentResultView>)
    requires
        some_verdict(agents, Verdict::Running),
    ensures
        aggregated(s, agents) == State::Reviewing,
        !aggregated(s, agents).is_actionable(),
{
}

/// An agent whose verdict is unknown blocks comments and approval.
pub proof fn unknown_blocks_conclusion(s: SnapshotView, agents: Seq<AgentResultView>)
    requires
        some_verdict(agents, Verdict::Unknown),
    ensures
        !aggregated(s, agents).is_actionable(),
{
}

/// An approval needs a clean verdict, no other verdict but skips, and no open thread.
pub proof fn approval_needs_clean_verdicts(s: SnapshotView, agents: Seq<AgentResultView>)
    requires
        aggregated(s, agents) == State::Approved,
    ensures
        some_verdict(agents, Verdict::Clean),
        all_verdict(agents, Verdict::Clean),
        !some_open_thread(s.threads),
{
    let i = choose|i: int| 0 <= i < agents.len() && (#[trigger] agents[i]).verdict != Verdict::Skipped;
    assert(agents[i].verdict == Verdict::Clean);
}

/// An open thread overrides clean verdicts.
pub proof fn open_thread_blocks_approval(s: SnapshotView, agents: Seq<AgentResultView>)
    requires
        some_open_thread(s.threads),
    ensures
        aggregated(s, agents) != State::Approved,
{
}

/// A pull request whose reviews were all skipped is neither approved nor commented on.
pub proof fn skips_do_not_approve(s: SnapshotView, agents: Seq<AgentResultView>)
    requires
        all_verdict(agents, Verdict::Skipped),
    ensures
        aggregated(s, agents) == State::Unknown,
{
}

/// Where the configuration names the agents, none of them counts as skipped, and no
/// other agent counts.
pub proof fn expected_agents_may_not_skip(
    s: SnapshotView,
    previous: Option<PullRequestView>,
    expected: Seq<Agent>,
    i: int,
)
    requires
        0 <= i < evaluated(s, previous, Some(expected)).len(),
    ensures
        evaluated(s, previous, Some(expected))[i].verdict != Verdict::Skipped,
        expected.contains(evaluated(s, previous, Some(expected))[i].agent),
{
    detected_names_agent(s, previous, Agent::Codex);
    detected_names_agent(s, previous, Agent::Cubic);
    detected_names_agent(s, previous, Agent::CodeRabbit);
    reveal_with_fuel(evaluated_up_to, 4);
}

/// A result names the agent that it is about.
pub proof fn detected_names_agent(s: SnapshotView, previous: Option<PullRequestView>, agent: Agent)
    ensures
        detected(s, previous, agent).agent == agent,
{
}

/// A review of another commit, or one that is pending, is never the current one.
pub proof fn current_review_is_of_head(reviews: Seq<ReviewView>, head: Seq<char>, agent: Agent)
    requires
        latest_review(reviews, head, agent) is Some,
    ensures
        is_current(latest_review(reviews, head, agent)->0, head, agent),
        reviews.contains(latest_review(reviews, head, agent)->0),
    decreases reviews.len(),
{
    let rest = reviews.drop_last();
    if latest_review(rest, head, agent) is Some {
        current_review_is_of_head(rest, head, agent);
        let kept = latest_review(rest, head, agent)->0;
        let i = choose|i: int| 0 <= i < rest.len() && rest[i] == kept;
        assert(reviews[i] == kept);
    }
    assert(reviews.contains(reviews.last()));
}

} // verus!
