//! What holds of the agents' conclusions, whatever stands on a pull request.

use crate::model::{
    agent_of_app, agent_of_login, Agent, AgentResultView, CheckView, CommentView, PullRequestView, ReviewView, SnapshotView,
    State, ThreadView, Verdict,
};
use crate::reviewers;
use crate::reviewers::{codex, cubic};
use crate::text;
use crate::text_map;
use vstd::prelude::*;

verus! {

broadcast use vstd::seq_lib::group_seq_properties;

// ---------------------------------------------------------------- accounts

/// An app is an agent exactly where it has the agent's own name.
pub proof fn apps_are_told_by_their_names(slug: Seq<char>)
    ensures
        agent_of_app(slug) == Some(Agent::Codex) <==> slug == "chatgpt-codex-connector"@,
        agent_of_app(slug) == Some(Agent::Cubic) <==> slug == "cubic-dev-ai"@,
        agent_of_app(slug) == Some(Agent::CodeRabbit) <==> slug == "coderabbitai"@,
{
    reveal_strlit("chatgpt-codex-connector");
    reveal_strlit("cubic-dev-ai");
    reveal_strlit("coderabbitai");
    assert("chatgpt-codex-connector"@[1] == 'h');
    assert("cubic-dev-ai"@[1] == 'u');
    assert("coderabbitai"@[1] == 'o');
}

/// An account is the same agent with and without the suffix of a bot, and one without that
/// suffix is the agent whose name it is.
pub proof fn bots_are_their_agents(login: Seq<char>)
    ensures
        agent_of_login(login + "[bot]"@) == agent_of_login(login),
        !"[bot]"@.is_suffix_of(login) ==> agent_of_login(login) == agent_of_app(login),
        agent_of_login("chatgpt-codex-connector"@) == Some(Agent::Codex),
        agent_of_login("cubic-dev-ai"@) == Some(Agent::Cubic),
        agent_of_login("coderabbitai"@) == Some(Agent::CodeRabbit),
{
    reveal_strlit("[bot]");
    reveal_strlit("chatgpt-codex-connector");
    reveal_strlit("cubic-dev-ai");
    reveal_strlit("coderabbitai");
    let suffix = "[bot]"@;
    assert((login + suffix).take(login.len() as int) =~= login);
    assert((login + suffix).subrange(login.len() as int, (login + suffix).len() as int) =~= suffix);
    assert("chatgpt-codex-connector"@.last() == 'r');
    assert("cubic-dev-ai"@.last() == 'i');
    assert("coderabbitai"@.last() == 'i');
    apps_are_told_by_their_names("cubic-dev-ai"@);
    apps_are_told_by_their_names("coderabbitai"@);
    assert forall|t: Seq<char>| #[trigger] suffix.is_suffix_of(t) implies t.last() == ']' by {
        assert(t.subrange(t.len() - 5, t.len() as int).last() == ']');
    }
}

// ---------------------------------------------------------------- reviews

/// Whether a review is a submitted one of an agent for a commit.
pub open spec fn counts(review: ReviewView, head: Seq<char>, agent: Agent) -> bool {
    &&& agent_of_login(review.author) == Some(agent)
    &&& review.commit == head
    &&& review.state != "PENDING"@
}

/// Of the submitted reviews of an agent for a commit the newest counts: none was submitted after
/// it, and of those submitted at the same time none has a greater id.
pub proof fn the_newest_review_counts(reviews: Seq<ReviewView>, head: Seq<char>, agent: Agent, i: int)
    requires
        0 <= i < reviews.len(),
        counts(reviews[i], head, agent),
    ensures
        reviewers::latest_review(reviews, head, agent) is Some,
        ({
            let latest = reviewers::latest_review(reviews, head, agent)->0;
            &&& reviews.contains(latest)
            &&& counts(latest, head, agent)
            &&& !text::text_lt(latest.submitted_at, reviews[i].submitted_at)
            &&& latest.submitted_at == reviews[i].submitted_at ==> !text::text_lt(latest.id, reviews[i].id)
        }),
    decreases reviews.len(),
{
    let rest = reviews.drop_last();
    let last = reviews.last();
    let before = reviewers::latest_review(rest, head, agent);
    if i < rest.len() {
        the_newest_review_counts(rest, head, agent, i);
        let b = before->0;
        let k = choose|k: int| 0 <= k < rest.len() && rest[k] == b;
        assert(reviews[k] == b);
        if counts(last, head, agent) {
            order_is_total(last.submitted_at, b.submitted_at);
            order_is_total(b.submitted_at, reviews[i].submitted_at);
            order_is_total(last.submitted_at, reviews[i].submitted_at);
            order_is_total(last.id, b.id);
            order_is_total(b.id, reviews[i].id);
            order_is_total(last.id, reviews[i].id);
            order_goes_on(b.submitted_at, last.submitted_at, reviews[i].submitted_at);
            order_goes_on(last.submitted_at, reviews[i].submitted_at, b.submitted_at);
            order_goes_on(last.id, reviews[i].id, b.id);
        }
    } else {
        text::text_lt_irreflexive(last.submitted_at);
        text::text_lt_irreflexive(last.id);
        if before is Some {
            reviewers::current_review_is_of_head(rest, head, agent);
            let b = before->0;
            let k = choose|k: int| 0 <= k < rest.len() && rest[k] == b;
            assert(reviews[k] == b);
            order_is_total(last.submitted_at, b.submitted_at);
            order_is_total(last.id, b.id);
        }
    }
    assert(reviews[reviews.len() - 1] == last);
}

/// Of two texts at most one stands before the other, and one does unless they are the same.
proof fn order_is_total(a: Seq<char>, b: Seq<char>)
    ensures
        !(text::text_lt(a, b) && text::text_lt(b, a)),
        a == b || text::text_lt(a, b) || text::text_lt(b, a),
        a == b ==> !text::text_lt(a, b),
{
    text::text_lt_total(a, b);
    text::text_lt_irreflexive(a);
    if text::text_lt(a, b) && text::text_lt(b, a) {
        text::text_lt_transitive(a, b, a);
    }
}

/// What stands before a text stands before all behind it.
proof fn order_goes_on(a: Seq<char>, b: Seq<char>, c: Seq<char>)
    ensures
        text::text_lt(a, b) && text::text_lt(b, c) ==> text::text_lt(a, c),
{
    if text::text_lt(a, b) && text::text_lt(b, c) {
        text::text_lt_transitive(a, b, c);
    }
}

/// Without a submitted review of an agent for a commit there is none that counts.
pub proof fn without_reviews_none_counts(reviews: Seq<ReviewView>, head: Seq<char>, agent: Agent)
    ensures
        (forall|i: int| 0 <= i < reviews.len() ==> !counts(#[trigger] reviews[i], head, agent)) ==> reviewers::latest_review(
            reviews,
            head,
            agent,
        ) is None,
{
    if reviewers::latest_review(reviews, head, agent) is Some {
        reviewers::current_review_is_of_head(reviews, head, agent);
        let latest = reviewers::latest_review(reviews, head, agent)->0;
        let k = choose|k: int| 0 <= k < reviews.len() && reviews[k] == latest;
        assert(counts(reviews[k], head, agent));
    }
}

/// Whether a review is the newest of its agent on a pull request.
pub open spec fn is_newest(s: SnapshotView, agent: Agent, i: int) -> bool {
    &&& 0 <= i < s.reviews.len()
    &&& counts(s.reviews[i], s.head, agent)
    &&& forall|j: int|
        0 <= j < s.reviews.len() && j != i && counts(#[trigger] s.reviews[j], s.head, agent) ==> text::text_lt(
            s.reviews[j].submitted_at,
            s.reviews[i].submitted_at,
        )
}

/// The newest review is the one that counts.
proof fn newest_is_found(s: SnapshotView, agent: Agent, i: int)
    requires
        is_newest(s, agent, i),
    ensures
        reviewers::latest_review(s.reviews, s.head, agent) == Some(s.reviews[i]),
{
    the_newest_review_counts(s.reviews, s.head, agent, i);
    let latest = reviewers::latest_review(s.reviews, s.head, agent)->0;
    let k = choose|k: int| 0 <= k < s.reviews.len() && s.reviews[k] == latest;
    assert(counts(s.reviews[k], s.head, agent));
}

// ---------------------------------------------------------------- checks

/// The number that an id writes, or zero.
pub open spec fn id_number(id: Seq<char>) -> u64 {
    match text::number_of(id) {
        Some(n) => n,
        None => 0,
    }
}

/// Whether a check is the last run of an agent's check of its name: all others started before
/// it, or at the same time with a smaller number.
pub open spec fn is_last_run(checks: Seq<CheckView>, agent: Agent, i: int) -> bool {
    &&& 0 <= i < checks.len()
    &&& agent_of_app(checks[i].app) == Some(agent)
    &&& forall|j: int|
        0 <= j < checks.len() && j != i && agent_of_app((#[trigger] checks[j]).app) == Some(agent) && checks[j].name
            == checks[i].name ==> text::text_lt(checks[j].started_at, checks[i].started_at) || (checks[j].started_at
            == checks[i].started_at && id_number(checks[j].id) < id_number(checks[i].id))
}

/// Of each check of an agent one run is kept: one of that agent and name, and none of them
/// started after it, or at the same time with a greater number.
pub proof fn the_last_run_of_each_check_counts(checks: Seq<CheckView>, agent: Agent, i: int)
    requires
        0 <= i < checks.len(),
        agent_of_app(checks[i].app) == Some(agent),
    ensures
        reviewers::latest_runs(checks, agent).contains_key(checks[i].name),
        ({
            let last = reviewers::latest_runs(checks, agent)[checks[i].name];
            &&& !text::text_lt(last.started_at, checks[i].started_at)
            &&& last.started_at == checks[i].started_at ==> id_number(last.id) >= id_number(checks[i].id)
        }),
    decreases checks.len(),
{
    let rest = checks.drop_last();
    let last = checks.last();
    let runs = reviewers::latest_runs(rest, agent);
    runs_are_of_the_agent(rest, agent);
    if i < rest.len() {
        the_last_run_of_each_check_counts(rest, agent, i);
        if last.name == checks[i].name {
            let b = runs[last.name];
            order_is_total(last.started_at, b.started_at);
            order_is_total(b.started_at, checks[i].started_at);
            order_is_total(last.started_at, checks[i].started_at);
            order_goes_on(b.started_at, last.started_at, checks[i].started_at);
            order_goes_on(last.started_at, checks[i].started_at, b.started_at);
        }
    } else {
        text::text_lt_irreflexive(last.started_at);
        if runs.contains_key(last.name) {
            order_is_total(last.started_at, runs[last.name].started_at);
        }
    }
}

/// What is kept of the checks of an agent are its own, under their names.
pub proof fn runs_are_of_the_agent(checks: Seq<CheckView>, agent: Agent)
    ensures
        reviewers::latest_runs(checks, agent).dom().finite(),
        forall|name: Seq<char>| #[trigger]
            reviewers::latest_runs(checks, agent).contains_key(name) ==> {
                let run = reviewers::latest_runs(checks, agent)[name];
                &&& run.name == name
                &&& agent_of_app(run.app) == Some(agent)
                &&& checks.contains(run)
            },
    decreases checks.len(),
{
    if checks.len() > 0 {
        let rest = checks.drop_last();
        runs_are_of_the_agent(rest, agent);
        assert forall|name: Seq<char>| #[trigger] reviewers::latest_runs(checks, agent).contains_key(name) implies ({
            let run = reviewers::latest_runs(checks, agent)[name];
            &&& run.name == name
            &&& agent_of_app(run.app) == Some(agent)
            &&& checks.contains(run)
        }) by {
            let run = reviewers::latest_runs(checks, agent)[name];
            if reviewers::latest_runs(rest, agent).contains_key(name) && reviewers::latest_runs(rest, agent)[name] == run {
                let k = choose|k: int| 0 <= k < rest.len() && rest[k] == run;
                assert(checks[k] == run);
            } else {
                assert(checks[checks.len() - 1] == run);
            }
        }
    }
}

/// The runs that are kept, each once.
pub proof fn kept_runs(checks: Seq<CheckView>, agent: Agent)
    ensures
        forall|k: int|
            0 <= k < reviewers::latest_checks_of(checks, agent).len() ==> {
                let run = #[trigger] reviewers::latest_checks_of(checks, agent)[k];
                &&& agent_of_app(run.app) == Some(agent)
                &&& checks.contains(run)
                &&& reviewers::latest_runs(checks, agent).contains_key(run.name)
                &&& reviewers::latest_runs(checks, agent)[run.name] == run
            },
        forall|name: Seq<char>| #[trigger]
            reviewers::latest_runs(checks, agent).contains_key(name) ==> reviewers::latest_checks_of(
                checks,
                agent,
            ).contains(reviewers::latest_runs(checks, agent)[name]),
{
    runs_are_of_the_agent(checks, agent);
    let runs = reviewers::latest_runs(checks, agent);
    let keys = text_map::sorted_keys(runs.dom());
    text_map::sorted_keys_exist(runs.dom());
    let list = reviewers::latest_checks_of(checks, agent);
    assert forall|k: int| 0 <= k < list.len() implies ({
        let run = #[trigger] list[k];
        &&& agent_of_app(run.app) == Some(agent)
        &&& checks.contains(run)
        &&& runs.contains_key(run.name)
        &&& runs[run.name] == run
    }) by {
        assert(keys.to_set().contains(keys[k]));
        assert(runs.contains_key(keys[k]));
        assert(list[k] == runs[keys[k]]);
    }
    assert forall|name: Seq<char>| #[trigger] runs.contains_key(name) implies list.contains(runs[name]) by {
        assert(keys.to_set().contains(name));
        let k = choose|k: int| 0 <= k < keys.len() && keys[k] == name;
        assert(list[k] == runs[name]);
    }
}

/// The last run of a check is among those that are kept, and takes the place of all others of
/// its name.
pub proof fn last_runs_are_kept(checks: Seq<CheckView>, agent: Agent, i: int)
    requires
        is_last_run(checks, agent, i),
    ensures
        reviewers::latest_checks_of(checks, agent).contains(checks[i]),
        reviewers::latest_runs(checks, agent)[checks[i].name] == checks[i],
{
    the_last_run_of_each_check_counts(checks, agent, i);
    runs_are_of_the_agent(checks, agent);
    kept_runs(checks, agent);
    let run = reviewers::latest_runs(checks, agent)[checks[i].name];
    let k = choose|k: int| 0 <= k < checks.len() && checks[k] == run;
    if k != i {
        assert(agent_of_app(checks[k].app) == Some(agent));
    }
}

/// A run that has not ended is found.
proof fn running_is_found(checks: Seq<CheckView>, k: int)
    requires
        0 <= k < checks.len(),
        checks[k].status != "completed"@,
    ensures
        reviewers::first_running(checks) is Some,
    decreases checks.len(),
{
    if checks[0].status == "completed"@ {
        assert(checks.drop_first()[k - 1] == checks[k]);
        running_is_found(checks.drop_first(), k - 1);
    }
}

/// What is found to be running has not ended.
proof fn found_is_running(checks: Seq<CheckView>)
    ensures
        (forall|k: int| 0 <= k < checks.len() ==> (#[trigger] checks[k]).status == "completed"@)
            ==> reviewers::first_running(checks) is None,
    decreases checks.len(),
{
    if checks.len() > 0 {
        let rest = checks.drop_first();
        found_is_running(rest);
        if forall|k: int| 0 <= k < checks.len() ==> (#[trigger] checks[k]).status == "completed"@ {
            assert forall|k: int| 0 <= k < rest.len() implies (#[trigger] rest[k]).status == "completed"@ by {
                assert(rest[k] == checks[k + 1]);
            }
        }
    }
}

/// A run that did not end well is found.
proof fn failed_is_found(checks: Seq<CheckView>, k: int)
    requires
        0 <= k < checks.len(),
        checks[k].conclusion != "success"@,
        checks[k].conclusion != "neutral"@,
    ensures
        reviewers::first_failed(checks) is Some,
    decreases checks.len(),
{
    if checks[0].conclusion == "success"@ || checks[0].conclusion == "neutral"@ {
        assert(checks.drop_first()[k - 1] == checks[k]);
        failed_is_found(checks.drop_first(), k - 1);
    }
}

/// What is found to have failed did not end well.
proof fn found_has_failed(checks: Seq<CheckView>)
    ensures
        (forall|k: int|
            0 <= k < checks.len() ==> (#[trigger] checks[k]).conclusion == "success"@ || checks[k].conclusion == "neutral"@)
            ==> reviewers::first_failed(checks) is None,
    decreases checks.len(),
{
    if checks.len() > 0 {
        let rest = checks.drop_first();
        found_has_failed(rest);
        if forall|k: int|
            0 <= k < checks.len() ==> (#[trigger] checks[k]).conclusion == "success"@ || checks[k].conclusion == "neutral"@ {
            assert forall|k: int| 0 <= k < rest.len() implies (#[trigger] rest[k]).conclusion == "success"@
                || rest[k].conclusion == "neutral"@ by {
                assert(rest[k] == checks[k + 1]);
            }
        }
    }
}

/// Whether an agent says what it has to say in checks and reviews.
pub open spec fn uses_checks(agent: Agent) -> bool {
    agent == Agent::Cubic || agent == Agent::CodeRabbit
}

/// As long as the last run of one of its checks has not ended, an agent is at work, whatever its
/// reviews say.
pub proof fn unfinished_checks_mean_work(s: SnapshotView, previous: Option<PullRequestView>, agent: Agent, i: int)
    requires
        uses_checks(agent),
        is_last_run(s.checks, agent, i),
        s.checks[i].status != "completed"@,
    ensures
        reviewers::detected(s, previous, agent).verdict == Verdict::Running,
{
    let list = reviewers::latest_checks_of(s.checks, agent);
    last_runs_are_kept(s.checks, agent, i);
    let k = choose|k: int| 0 <= k < list.len() && list[k] == s.checks[i];
    running_is_found(list, k);
}

/// An agent that says it is at work in its checks has one whose last run has not ended.
pub proof fn finished_checks_mean_no_work(s: SnapshotView, previous: Option<PullRequestView>, agent: Agent)
    requires
        uses_checks(agent),
        forall|i: int|
            0 <= i < s.checks.len() && agent_of_app((#[trigger] s.checks[i]).app) == Some(agent) ==> s.checks[i].status
                == "completed"@,
    ensures
        reviewers::detected(s, previous, agent).verdict != Verdict::Running,
{
    let list = reviewers::latest_checks_of(s.checks, agent);
    kept_runs(s.checks, agent);
    assert forall|k: int| 0 <= k < list.len() implies (#[trigger] list[k]).status == "completed"@ by {
        let j = choose|j: int| 0 <= j < s.checks.len() && s.checks[j] == list[k];
        assert(agent_of_app(s.checks[j].app) == Some(agent));
    }
    found_is_running(list);
}

/// As long as the last run of one of its checks did not end well, an agent has no verdict,
/// whatever its reviews say.
pub proof fn failed_checks_give_no_verdict(s: SnapshotView, previous: Option<PullRequestView>, agent: Agent, i: int)
    requires
        uses_checks(agent),
        is_last_run(s.checks, agent, i),
        s.checks[i].conclusion != "success"@,
        s.checks[i].conclusion != "neutral"@,
    ensures
        ({
            let verdict = reviewers::detected(s, previous, agent).verdict;
            verdict == Verdict::Unknown || verdict == Verdict::Running
        }),
{
    let list = reviewers::latest_checks_of(s.checks, agent);
    last_runs_are_kept(s.checks, agent, i);
    let k = choose|k: int| 0 <= k < list.len() && list[k] == s.checks[i];
    failed_is_found(list, k);
}

/// Whether a check of CodeRabbit, or of Cubic, says that no review was made.
pub open spec fn says_no_review(check: CheckView, agent: Agent) -> bool {
    let lower = text::unicode_lowercase(check.summary);
    ||| text::occurs(lower, "you've reached your plan's monthly review limit"@)
    ||| text::occurs(lower, "review skipped"@)
    ||| text::occurs(lower, "review is skipped"@)
    ||| text::occurs(lower, "reviews are paused"@)
    ||| agent == Agent::Cubic
        && "this push rewrote the branch history, so cubic did not start an automatic review."@.is_prefix_of(
        text::unicode_lowercase(text::trimmed(check.summary)),
    )
}

/// Checks that ended well and say that no review was made are a skip, whatever reviews there
/// are.
pub proof fn skipped_checks_are_skips(s: SnapshotView, previous: Option<PullRequestView>, agent: Agent, first: int)
    requires
        uses_checks(agent),
        0 <= first < s.checks.len(),
        agent_of_app(s.checks[first].app) == Some(agent),
        forall|i: int|
            0 <= i < s.checks.len() && agent_of_app((#[trigger] s.checks[i]).app) == Some(agent) ==> s.checks[i].status
                == "completed"@ && (s.checks[i].conclusion == "success"@ || s.checks[i].conclusion == "neutral"@)
                && says_no_review(s.checks[i], agent),
    ensures
        reviewers::detected(s, previous, agent).verdict == Verdict::Skipped,
{
    let list = reviewers::latest_checks_of(s.checks, agent);
    kept_runs(s.checks, agent);
    the_last_run_of_each_check_counts(s.checks, agent, first);
    assert(list.contains(reviewers::latest_runs(s.checks, agent)[s.checks[first].name]));
    assert forall|k: int| 0 <= k < list.len() implies (#[trigger] list[k]).status == "completed"@ && (list[k].conclusion
        == "success"@ || list[k].conclusion == "neutral"@) && says_no_review(list[k], agent) by {
        let j = choose|j: int| 0 <= j < s.checks.len() && s.checks[j] == list[k];
        assert(agent_of_app(s.checks[j].app) == Some(agent));
    }
    found_is_running(list);
    found_has_failed(list);
    assert forall|k: int| 0 <= k < list.len() implies reviewers::check_skipped(#[trigger] list[k], agent) by {
        assert(says_no_review(list[k], agent));
    }
}

/// An agent has skipped only where it has checks, and the last run of each of them ended well
/// and says that no review was made.
pub proof fn skips_are_said(s: SnapshotView, previous: Option<PullRequestView>, agent: Agent, i: int)
    requires
        reviewers::detected(s, previous, agent).verdict == Verdict::Skipped,
    ensures
        uses_checks(agent),
        exists|k: int| 0 <= k < s.checks.len() && agent_of_app((#[trigger] s.checks[k]).app) == Some(agent),
        is_last_run(s.checks, agent, i) ==> s.checks[i].status == "completed"@ && (s.checks[i].conclusion == "success"@
            || s.checks[i].conclusion == "neutral"@) && says_no_review(s.checks[i], agent),
{
    let list = reviewers::latest_checks_of(s.checks, agent);
    kept_runs(s.checks, agent);
    if agent == Agent::Cubic {
        cubic_reviews_never_skip(s);
    }
    assert(list.len() > 0);
    let j = choose|j: int| 0 <= j < s.checks.len() && s.checks[j] == list[0];
    assert(agent_of_app(s.checks[j].app) == Some(agent));
    if is_last_run(s.checks, agent, i) {
        last_runs_are_kept(s.checks, agent, i);
        let k = choose|k: int| 0 <= k < list.len() && list[k] == s.checks[i];
        assert(reviewers::check_skipped(list[k], agent));
        if s.checks[i].status != "completed"@ {
            running_is_found(list, k);
        }
        if s.checks[i].conclusion != "success"@ && s.checks[i].conclusion != "neutral"@ {
            failed_is_found(list, k);
        }
    }
}

/// No review of Cubic is a skip.
proof fn cubic_reviews_never_skip(s: SnapshotView)
    requires
        cubic::detected(s).verdict == Verdict::Skipped,
    ensures
        reviewers::gate(reviewers::latest_checks_of(s.checks, Agent::Cubic), Agent::Cubic) is Some,
{
}

/// A review that was submitted before the last run of a check started concludes nothing: what is
/// said does not rest on it.
pub proof fn later_checks_supersede_reviews(s: SnapshotView, previous: Option<PullRequestView>, agent: Agent, i: int, k: int)
    requires
        uses_checks(agent),
        is_newest(s, agent, i),
        is_last_run(s.checks, agent, k),
        s.checks[k].started_at.len() > 0,
        text::text_lt(s.reviews[i].submitted_at, s.checks[k].started_at),
    ensures
        reviewers::review_after(s, agent) is None,
        agent == Agent::CodeRabbit ==> {
            let verdict = reviewers::detected(s, previous, agent).verdict;
            verdict != Verdict::Clean && verdict != Verdict::Findings
        },
{
    newest_is_found(s, agent, i);
    last_runs_are_kept(s.checks, agent, k);
    let list = reviewers::latest_checks_of(s.checks, agent);
    let j = choose|j: int| 0 <= j < list.len() && list[j] == s.checks[k];
    assert(list[j].started_at.len() > 0);
}

// ---------------------------------------------------------------- Cubic and CodeRabbit

/// Whether an agent has no checks on a pull request.
pub open spec fn has_no_checks(s: SnapshotView, agent: Agent) -> bool {
    forall|k: int| 0 <= k < s.checks.len() ==> agent_of_app((#[trigger] s.checks[k]).app) != Some(agent)
}

/// Without checks nothing is kept of them.
proof fn no_checks_are_kept(s: SnapshotView, agent: Agent)
    requires
        has_no_checks(s, agent),
    ensures
        reviewers::latest_checks_of(s.checks, agent).len() == 0,
        reviewers::gate(reviewers::latest_checks_of(s.checks, agent), agent) is None,
{
    let list = reviewers::latest_checks_of(s.checks, agent);
    kept_runs(s.checks, agent);
    if list.len() > 0 {
        let j = choose|j: int| 0 <= j < s.checks.len() && s.checks[j] == list[0];
        assert(agent_of_app(s.checks[j].app) != Some(agent));
    }
}

/// What a text without marks of a summary says: that nothing was found, that some number of
/// issues was, or nothing.
pub open spec fn cubic_says(body: Seq<char>) -> Option<Verdict> {
    let lower = text::unicode_lowercase(body);
    let count = reviewers::first_group(r"(?i)\b(\d+) issues? found\b"@, body);
    if text::occurs(lower, "no issues found"@) || text::occurs(lower, "all reported issues were addressed"@) {
        Some(Verdict::Clean)
    } else if count is Some {
        if count->0 == "0"@ {
            Some(Verdict::Clean)
        } else {
            Some(Verdict::Findings)
        }
    } else {
        None
    }
}

/// The newest review of Cubic decides: it is clean where it says so, where it counts no issue,
/// or where it counts none at all and approves; it has findings where it counts some.
pub proof fn cubic_reviews_decide(s: SnapshotView, previous: Option<PullRequestView>, i: int)
    requires
        has_no_checks(s, Agent::Cubic),
        is_newest(s, Agent::Cubic, i),
        !text::occurs(s.reviews[i].body, "cubic:review-summary:start -->"@),
        !text::occurs(s.reviews[i].body, "<!-- cubic:review-summary:end"@),
    ensures
        ({
            let review = s.reviews[i];
            let found = reviewers::detected(s, previous, Agent::Cubic);
            &&& found.agent == Agent::Cubic
            &&& cubic_says(review.body) is Some ==> found.verdict == cubic_says(review.body)->0 && found.run_id == review.id
            &&& cubic_says(review.body) is None && review.state == "APPROVED"@ ==> found.verdict == Verdict::Clean
                && found.run_id == review.id
            &&& cubic_says(review.body) is None && review.state != "APPROVED"@ ==> found.verdict == Verdict::Unknown
        }),
{
    newest_is_found(s, Agent::Cubic, i);
    no_checks_are_kept(s, Agent::Cubic);
    let body = s.reviews[i].body;
    assert(cubic::summary_part(body) == body);
    assert(cubic::verdict_of(body) == cubic_says(body));
}

/// Between its marks stands what a summary of Cubic says: nothing before the first mark and
/// nothing behind the next one counts.
pub proof fn summaries_stand_between_their_marks(before: Seq<char>, part: Seq<char>, after: Seq<char>)
    requires
        text::first_at(
            before + "cubic:review-summary:start -->"@ + part + "<!-- cubic:review-summary:end"@ + after,
            "cubic:review-summary:start -->"@,
            before.len() as int,
        ),
        !text::occurs(part + "<!-- cubic:review-summary:end"@ + after, "cubic:review-summary:start -->"@),
        text::first_at(
            part + "<!-- cubic:review-summary:end"@ + after,
            "<!-- cubic:review-summary:end"@,
            part.len() as int,
        ),
    ensures
        cubic::summary_part(
            before + "cubic:review-summary:start -->"@ + part + "<!-- cubic:review-summary:end"@ + after,
        ) == part,
{
    let start = "cubic:review-summary:start -->"@;
    let end = "<!-- cubic:review-summary:end"@;
    let body = before + start + part + end + after;
    let rest = part + end + after;
    first_places_are_found(body, start, before.len() as int);
    first_places_are_found(rest, end, part.len() as int);
    assert(body.skip((before.len() + start.len()) as int) =~= rest);
    assert(rest.take(part.len() as int) =~= part);
}

/// There is only one first place.
proof fn first_places_are_found(body: Seq<char>, part: Seq<char>, i: int)
    requires
        text::first_at(body, part, i),
    ensures
        text::first_index(body, part) == Some(i),
{
    assert(text::occurs_at(body, part, i));
    let j = choose|j: int| text::first_at(body, part, j);
    assert(text::first_at(body, part, j));
    if j < i {
        assert(!text::occurs_at(body, part, j));
    }
    if i < j {
        assert(!text::occurs_at(body, part, i));
    }
}

/// Where no review concludes, the summaries of the last runs of Cubic's checks do: findings in
/// one of them are findings, and without any it is clean.
pub proof fn cubic_checks_decide(s: SnapshotView, previous: Option<PullRequestView>, i: int)
    requires
        is_last_run(s.checks, Agent::Cubic, i),
        reviewers::review_after(s, Agent::Cubic) is None,
        forall|k: int|
            0 <= k < s.checks.len() && agent_of_app((#[trigger] s.checks[k]).app) == Some(Agent::Cubic) ==> {
                &&& s.checks[k].status == "completed"@
                &&& s.checks[k].conclusion == "success"@ || s.checks[k].conclusion == "neutral"@
                &&& !says_no_review(s.checks[k], Agent::Cubic)
                &&& !text::occurs(s.checks[k].summary, "cubic:review-summary:start -->"@)
                &&& !text::occurs(s.checks[k].summary, "<!-- cubic:review-summary:end"@)
                &&& cubic_says(s.checks[k].summary) is Some
            },
    ensures
        ({
            let verdict = reviewers::detected(s, previous, Agent::Cubic).verdict;
            &&& verdict == Verdict::Clean || verdict == Verdict::Findings
            &&& cubic_says(s.checks[i].summary) == Some(Verdict::Findings) ==> verdict == Verdict::Findings
            &&& (forall|k: int|
                0 <= k < s.checks.len() && agent_of_app((#[trigger] s.checks[k]).app) == Some(Agent::Cubic) ==> cubic_says(
                    s.checks[k].summary,
                ) == Some(Verdict::Clean)) ==> verdict == Verdict::Clean
        }),
{
    let agent = Agent::Cubic;
    let list = reviewers::latest_checks_of(s.checks, agent);
    kept_runs(s.checks, agent);
    last_runs_are_kept(s.checks, agent, i);
    let at = choose|k: int| 0 <= k < list.len() && list[k] == s.checks[i];
    assert forall|k: int| 0 <= k < list.len() implies exists|j: int| 0 <= j < s.checks.len() && s.checks[j] == #[trigger] list[k]
        && agent_of_app(s.checks[j].app) == Some(agent) && cubic::verdict_of(list[k].summary) == cubic_says(list[k].summary)
        && !reviewers::check_skipped(list[k], agent) by {
        let j = choose|j: int| 0 <= j < s.checks.len() && s.checks[j] == list[k];
        assert(agent_of_app(s.checks[j].app) == Some(agent));
        assert(cubic::summary_part(list[k].summary) == list[k].summary);
        assert(!says_no_review(s.checks[j], agent));
    }
    assert(cubic::verdict_of(list[at].summary) == cubic_says(list[at].summary));
    found_is_running(list);
    found_has_failed(list);
    assert(!reviewers::check_skipped(list[at], agent));
    assert(reviewers::gate(list, agent) is None);
    assert(cubic::all_conclude(list));
}

/// The newest review of CodeRabbit decides: an approval or the words that nothing was found are
/// clean, a count of comments is findings unless it is zero, and a request for changes is
/// findings. Nothing else is a verdict, a successful check neither.
pub proof fn coderabbit_reviews_decide(s: SnapshotView, previous: Option<PullRequestView>, i: int)
    requires
        has_no_checks(s, Agent::CodeRabbit),
        is_newest(s, Agent::CodeRabbit, i),
    ensures
        ({
            let review = s.reviews[i];
            let found = reviewers::detected(s, previous, Agent::CodeRabbit);
            let count = reviewers::first_group(r"(?i)actionable comments posted:\s*\**\s*(\d+)\b"@, review.body);
            let clean = review.state == "APPROVED"@ || text::occurs(
                text::unicode_lowercase(review.body),
                "no actionable comments were generated"@,
            );
            &&& found.agent == Agent::CodeRabbit
            &&& clean ==> found.verdict == Verdict::Clean && found.run_id == review.id
            &&& !clean && count is Some ==> found.run_id == review.id && found.verdict == (if count->0 == "0"@ {
                Verdict::Clean
            } else {
                Verdict::Findings
            })
            &&& !clean && count is None && review.state == "CHANGES_REQUESTED"@ ==> found.verdict == Verdict::Findings
                && found.run_id == review.id
            &&& !clean && count is None && review.state != "CHANGES_REQUESTED"@ ==> found.verdict == Verdict::Unknown
        }),
{
    newest_is_found(s, Agent::CodeRabbit, i);
    no_checks_are_kept(s, Agent::CodeRabbit);
}

/// CodeRabbit is clean, or has findings, only by a submitted review for the commit.
pub proof fn coderabbit_needs_a_review(s: SnapshotView, previous: Option<PullRequestView>)
    requires
        forall|i: int| 0 <= i < s.reviews.len() ==> !counts(#[trigger] s.reviews[i], s.head, Agent::CodeRabbit),
    ensures
        ({
            let verdict = reviewers::detected(s, previous, Agent::CodeRabbit).verdict;
            verdict != Verdict::Clean && verdict != Verdict::Findings
        }),
{
    without_reviews_none_counts(s.reviews, s.head, Agent::CodeRabbit);
}

// ---------------------------------------------------------------- Codex

/// Whether a reaction is one of Codex.
pub open spec fn reacted(s: SnapshotView, content: Seq<char>, i: int) -> bool {
    &&& 0 <= i < s.reactions.len()
    &&& agent_of_login(s.reactions[i].author) == Some(Agent::Codex)
    &&& s.reactions[i].content == content
}

/// A reaction of Codex is found where there is one, and what is found is one.
proof fn reactions_are_found(s: SnapshotView, content: Seq<char>)
    ensures
        (exists|i: int| reacted(s, content, i)) <==> codex::first_reaction(s.reactions, content) is Some,
        codex::first_reaction(s.reactions, content) is Some ==> exists|i: int|
            reacted(s, content, i) && s.reactions[i] == codex::first_reaction(s.reactions, content)->0,
    decreases s.reactions.len(),
{
    if s.reactions.len() > 0 {
        let rest = SnapshotView { reactions: s.reactions.drop_first(), ..s };
        reactions_are_found(rest, content);
        if exists|i: int| reacted(s, content, i) {
            let i = choose|i: int| reacted(s, content, i);
            if i > 0 {
                assert(reacted(rest, content, i - 1));
            }
        }
        if codex::is_reaction(s.reactions[0], content) {
            assert(reacted(s, content, 0));
        } else if codex::first_reaction(rest.reactions, content) is Some {
            let i = choose|i: int|
                reacted(rest, content, i) && rest.reactions[i] == codex::first_reaction(rest.reactions, content)->0;
            assert(reacted(s, content, i + 1));
        }
    }
}

/// While Codex has its eyes on a pull request it is at work, whatever else it has said.
pub proof fn eyes_mean_work(s: SnapshotView, previous: Option<PullRequestView>, i: int)
    requires
        reacted(s, "EYES"@, i),
    ensures
        reviewers::detected(s, previous, Agent::Codex).verdict == Verdict::Running,
{
    reactions_are_found(s, "EYES"@);
}

/// Whether a comment is a summary of Codex.
pub open spec fn summarizes(comment: CommentView) -> bool {
    agent_of_login(comment.author) == Some(Agent::Codex) && text::occurs(
        comment.body,
        "<!-- codex-pull-request-review-summary -->"@,
    )
}

/// Of the summaries of Codex the one that was updated last counts.
pub proof fn the_newest_summary_counts(comments: Seq<CommentView>, i: int)
    requires
        0 <= i < comments.len(),
        summarizes(comments[i]),
    ensures
        codex::latest_summary(comments) is Some,
        ({
            let latest = codex::latest_summary(comments)->0;
            &&& comments.contains(latest)
            &&& summarizes(latest)
            &&& !text::text_lt(latest.updated_at, comments[i].updated_at)
        }),
    decreases comments.len(),
{
    let rest = comments.drop_last();
    let last = comments.last();
    found_summaries_are_some(rest);
    if i < rest.len() {
        the_newest_summary_counts(rest, i);
    } else {
        text::text_lt_irreflexive(last.updated_at);
    }
    if codex::latest_summary(rest) is Some {
        let b = codex::latest_summary(rest)->0;
        let k = choose|k: int| 0 <= k < rest.len() && rest[k] == b;
        assert(comments[k] == b);
        order_is_total(last.updated_at, b.updated_at);
        order_is_total(last.updated_at, comments[i].updated_at);
        order_is_total(b.updated_at, comments[i].updated_at);
        order_goes_on(b.updated_at, last.updated_at, comments[i].updated_at);
        order_goes_on(last.updated_at, comments[i].updated_at, b.updated_at);
    }
    assert(comments[comments.len() - 1] == last);
}

/// A summary that is found is one of the comments.
proof fn found_summaries_are_some(comments: Seq<CommentView>)
    ensures
        codex::latest_summary(comments) is Some ==> comments.contains(codex::latest_summary(comments)->0) && summarizes(
            codex::latest_summary(comments)->0,
        ),
    decreases comments.len(),
{
    if comments.len() > 0 {
        let rest = comments.drop_last();
        found_summaries_are_some(rest);
        if codex::latest_summary(rest) is Some {
            let b = codex::latest_summary(rest)->0;
            let k = choose|k: int| 0 <= k < rest.len() && rest[k] == b;
            assert(comments[k] == b);
        }
        assert(comments[comments.len() - 1] == comments.last());
    }
}

/// Whether a summary is the newest of Codex on a pull request.
pub open spec fn is_newest_summary(s: SnapshotView, i: int) -> bool {
    &&& 0 <= i < s.comments.len()
    &&& summarizes(s.comments[i])
    &&& forall|j: int|
        0 <= j < s.comments.len() && j != i && summarizes(#[trigger] s.comments[j]) ==> text::text_lt(
            s.comments[j].updated_at,
            s.comments[i].updated_at,
        )
}

/// Whether a line is a row of a table that names something by its code.
pub open spec fn row_at(lines: Seq<Seq<char>>, n: int) -> bool {
    &&& 0 <= n < lines.len()
    &&& lines[n].len() > 0
    &&& lines[n][0] == '|'
    &&& lines[n].contains('`')
}

/// Whether a line of a text is a row about a run.
pub open spec fn is_run(body: Seq<char>, n: int) -> bool {
    row_at(text::lines_of(body), n)
}

/// A cell of a line, empty where the line has fewer.
pub open spec fn cell_of(body: Seq<char>, n: int, cell: int) -> Seq<char> {
    let cells = text::split_on(text::lines_of(body)[n], '|');
    if cell < cells.len() {
        cells[cell]
    } else {
        Seq::empty()
    }
}

/// The status of a run in lower case.
pub open spec fn run_status(body: Seq<char>, n: int) -> Seq<char> {
    text::unicode_lowercase(cell_of(body, n, 2))
}

/// Whether a text is a line that is a row.
spec fn is_row_of(lines: Seq<Seq<char>>, row: Seq<char>) -> bool {
    exists|n: int| #[trigger] row_at(lines, n) && lines[n] == row
}

/// The rows of a table are its lines that are rows, and all of them.
proof fn rows_are_lines(lines: Seq<Seq<char>>)
    ensures
        forall|k: int|
            0 <= k < codex::rows_of(lines).len() ==> is_row_of(lines, #[trigger] codex::rows_of(lines)[k]),
        forall|n: int| #[trigger] row_at(lines, n) ==> codex::rows_of(lines).contains(lines[n]),
    decreases lines.len(),
{
    if lines.len() > 0 {
        let rest = lines.drop_last();
        rows_are_lines(rest);
        let rows = codex::rows_of(lines);
        let before = codex::rows_of(rest);
        assert forall|k: int| 0 <= k < rows.len() implies is_row_of(lines, #[trigger] rows[k]) by {
            if k < before.len() {
                assert(rows[k] == before[k]);
                assert(is_row_of(rest, before[k]));
                let n = choose|n: int| #[trigger] row_at(rest, n) && rest[n] == before[k];
                assert(lines[n] == rest[n]);
                assert(row_at(lines, n));
            } else {
                assert(rows[k] == lines[lines.len() - 1]);
                assert(row_at(lines, lines.len() - 1));
            }
        }
        assert forall|n: int| #[trigger] row_at(lines, n) implies rows.contains(lines[n]) by {
            if n < rest.len() {
                assert(rest[n] == lines[n]);
                assert(row_at(rest, n));
                let k = choose|k: int| 0 <= k < before.len() && before[k] == rest[n];
                assert(rows[k] == lines[n]);
            } else {
                assert(rows[rows.len() - 1] == lines[n]);
            }
        }
    }
}

/// What holds of some status holds of the status of some run, and what holds of each of those of
/// each of these.
proof fn statuses_are_of_runs(body: Seq<char>, holds: spec_fn(Seq<char>) -> bool)
    ensures
        ({
            let statuses = codex::statuses_of(codex::rows_of(text::lines_of(body)));
            &&& codex::some_status(statuses, holds) <==> exists|n: int| #[trigger] is_run(body, n) && holds(run_status(body, n))
            &&& codex::each_status(statuses, holds) <==> forall|n: int| #[trigger]
                is_run(body, n) ==> holds(run_status(body, n))
        }),
{
    let lines = text::lines_of(body);
    let rows = codex::rows_of(lines);
    let statuses = codex::statuses_of(rows);
    rows_are_lines(lines);
    assert forall|k: int|
        #![trigger statuses[k]]
        0 <= k < statuses.len() implies exists|n: int| is_run(body, n) && statuses[k] == run_status(body, n) by {
        assert(is_row_of(lines, rows[k]));
        let n = choose|n: int| #[trigger] row_at(lines, n) && lines[n] == rows[k];
        assert(is_run(body, n));
    }
    assert forall|n: int| #[trigger] is_run(body, n) implies statuses.contains(run_status(body, n)) by {
        assert(row_at(lines, n));
        let k = choose|k: int| 0 <= k < rows.len() && rows[k] == lines[n];
        assert(statuses[k] == run_status(body, n));
    }
    if codex::some_status(statuses, holds) {
        let k = choose|k: int| 0 <= k < statuses.len() && holds(#[trigger] statuses[k]);
        let n = choose|n: int| is_run(body, n) && statuses[k] == run_status(body, n);
        assert(is_run(body, n) && holds(run_status(body, n)));
    }
    if exists|n: int| #[trigger] is_run(body, n) && holds(run_status(body, n)) {
        let n = choose|n: int| #[trigger] is_run(body, n) && holds(run_status(body, n));
        let k = choose|k: int| 0 <= k < statuses.len() && statuses[k] == run_status(body, n);
        assert(holds(statuses[k]));
    }
    if codex::each_status(statuses, holds) {
        assert forall|n: int| #[trigger] is_run(body, n) implies holds(run_status(body, n)) by {
            let k = choose|k: int| 0 <= k < statuses.len() && statuses[k] == run_status(body, n);
            assert(holds(statuses[k]));
        }
    }
    if forall|n: int| #[trigger] is_run(body, n) ==> holds(run_status(body, n)) {
        assert forall|k: int| 0 <= k < statuses.len() implies holds(#[trigger] statuses[k]) by {
            let n = choose|n: int| is_run(body, n) && statuses[k] == run_status(body, n);
            assert(holds(run_status(body, n)));
        }
    }
}

/// The rows name a commit where there are runs, and each of them is one of that commit.
proof fn commits_are_of_runs(body: Seq<char>, head: Seq<char>)
    ensures
        codex::rows_name_commit(codex::rows_of(text::lines_of(body)), head) <==> {
            &&& exists|n: int| is_run(body, n)
            &&& forall|n: int| #[trigger] is_run(body, n) ==> reviewers::names_commit(cell_of(body, n, 3), head)
        },
{
    let lines = text::lines_of(body);
    let rows = codex::rows_of(lines);
    rows_are_lines(lines);
    if rows.len() > 0 {
        assert(is_row_of(lines, rows[0]));
        let n = choose|n: int| #[trigger] row_at(lines, n) && lines[n] == rows[0];
        assert(is_run(body, n));
    }
    if codex::rows_name_commit(rows, head) {
        assert forall|n: int| #[trigger] is_run(body, n) implies reviewers::names_commit(cell_of(body, n, 3), head) by {
            assert(row_at(lines, n));
            let k = choose|k: int| 0 <= k < rows.len() && rows[k] == lines[n];
            assert(reviewers::names_commit(codex::cell(rows[k], 3), head));
        }
    }
    if (exists|n: int| is_run(body, n)) && forall|n: int| #[trigger]
        is_run(body, n) ==> reviewers::names_commit(cell_of(body, n, 3), head) {
        let n = choose|n: int| is_run(body, n);
        assert(row_at(lines, n));
        assert forall|k: int| 0 <= k < rows.len() implies reviewers::names_commit(codex::cell(#[trigger] rows[k], 3), head) by {
            assert(is_row_of(lines, rows[k]));
            let m = choose|m: int| #[trigger] row_at(lines, m) && lines[m] == rows[k];
            assert(is_run(body, m));
        }
    }
}

/// The newest summary is the one that is read, unless Codex has its eyes on the pull request.
proof fn summary_is_read(s: SnapshotView, previous: Option<PullRequestView>, i: int)
    requires
        is_newest_summary(s, i),
        forall|k: int| !reacted(s, "EYES"@, k),
    ensures
        codex::latest_summary(s.comments) == Some(s.comments[i]),
        ({
            let rows = codex::rows_of(text::lines_of(s.comments[i].body));
            reviewers::detected(s, previous, Agent::Codex) == codex::summary_result(
                s.comments[i],
                codex::statuses_of(rows),
                codex::rows_name_commit(rows, s.head),
                reviewers::open_thread_of(s, Agent::Codex),
                codex::thumb_since(s.reactions, s.comments[i].updated_at),
            )
        }),
{
    reactions_are_found(s, "EYES"@);
    the_newest_summary_counts(s.comments, i);
    let latest = codex::latest_summary(s.comments)->0;
    let k = choose|k: int| 0 <= k < s.comments.len() && s.comments[k] == latest;
    assert(summarizes(s.comments[k]));
}

/// A run that the summary calls running or queued means that Codex is at work.
pub proof fn unfinished_runs_mean_work(s: SnapshotView, previous: Option<PullRequestView>, i: int, n: int)
    requires
        is_newest_summary(s, i),
        is_run(s.comments[i].body, n),
        text::occurs(run_status(s.comments[i].body, n), "running"@) || text::occurs(
            run_status(s.comments[i].body, n),
            "queued"@,
        ),
    ensures
        reviewers::detected(s, previous, Agent::Codex).verdict == Verdict::Running,
{
    if exists|k: int| reacted(s, "EYES"@, k) {
        let k = choose|k: int| reacted(s, "EYES"@, k);
        eyes_mean_work(s, previous, k);
    } else {
        summary_is_read(s, previous, i);
        statuses_are_of_runs(s.comments[i].body, |t: Seq<char>| codex::unfinished(t));
        assert(codex::unfinished(run_status(s.comments[i].body, n)));
    }
}

/// Whether a status says that a run ended.
pub open spec fn ended(status: Seq<char>) -> bool {
    ||| text::occurs(status, "completed"@)
    ||| text::occurs(status, "complete"@)
    ||| text::occurs(status, "finished"@)
    ||| text::occurs(status, "no findings"@)
    ||| text::occurs(status, "no issues"@)
    ||| text::occurs(status, "findings found"@)
}

/// A summary concludes only where each of its runs is one of the current commit, has ended, and
/// ended well.
pub proof fn summaries_conclude_when_all_runs_ended(
    s: SnapshotView,
    previous: Option<PullRequestView>,
    i: int,
    n: int,
)
    requires
        is_newest_summary(s, i),
        reviewers::detected(s, previous, Agent::Codex).verdict == Verdict::Clean || reviewers::detected(
            s,
            previous,
            Agent::Codex,
        ).verdict == Verdict::Findings,
    ensures
        exists|k: int| is_run(s.comments[i].body, k),
        is_run(s.comments[i].body, n) ==> {
            let status = run_status(s.comments[i].body, n);
            &&& reviewers::names_commit(cell_of(s.comments[i].body, n, 3), s.head)
            &&& ended(status)
            &&& !text::occurs(status, "running"@)
            &&& !text::occurs(status, "queued"@)
            &&& !text::occurs(status, "failed"@)
            &&& !text::occurs(status, "cancelled"@)
            &&& !text::occurs(status, "canceled"@)
            &&& !text::occurs(status, "skipped"@)
            &&& !text::occurs(status, "error"@)
        },
{
    if exists|k: int| reacted(s, "EYES"@, k) {
        let k = choose|k: int| reacted(s, "EYES"@, k);
        eyes_mean_work(s, previous, k);
    }
    summary_is_read(s, previous, i);
    let body = s.comments[i].body;
    commits_are_of_runs(body, s.head);
    statuses_are_of_runs(body, |t: Seq<char>| codex::unfinished(t));
    statuses_are_of_runs(body, |t: Seq<char>| codex::unsuccessful(t));
    statuses_are_of_runs(body, |t: Seq<char>| codex::finished(t));
    if is_run(body, n) {
        let status = run_status(body, n);
        assert(!codex::unfinished(status));
        assert(!codex::unsuccessful(status));
        assert(codex::finished(status));
    }
}

/// Whether Codex has a thread that is not resolved.
pub open spec fn has_open_thread(s: SnapshotView, agent: Agent) -> bool {
    exists|k: int|
        0 <= k < s.threads.len() && !(#[trigger] s.threads[k]).resolved && agent_of_login(s.threads[k].author) == Some(agent)
}

/// Whether a status reports findings.
pub open spec fn with_findings(status: Seq<char>) -> bool {
    &&& text::occurs(status, "findings"@)
    &&& !text::occurs(status, "no findings"@)
    &&& !text::occurs(status, "0 findings"@)
}

/// Whether a status reports that nothing was found.
pub open spec fn without_findings(status: Seq<char>) -> bool {
    ||| text::occurs(status, "no findings"@)
    ||| text::occurs(status, "0 findings"@)
    ||| text::occurs(status, "no issues"@)
}

/// A summary whose runs all ended well for the current commit concludes: findings where one of
/// them has some or a thread of Codex is open, and else clean where all of them report that
/// nothing was found, or where Codex approved since then.
pub proof fn summaries_of_ended_runs_conclude(s: SnapshotView, previous: Option<PullRequestView>, i: int, first: int)
    requires
        is_newest_summary(s, i),
        forall|k: int| !reacted(s, "EYES"@, k),
        is_run(s.comments[i].body, first),
        forall|n: int| #[trigger]
            is_run(s.comments[i].body, n) ==> {
                let status = run_status(s.comments[i].body, n);
                &&& reviewers::names_commit(cell_of(s.comments[i].body, n, 3), s.head)
                &&& ended(status)
                &&& !text::occurs(status, "running"@)
                &&& !text::occurs(status, "queued"@)
                &&& !text::occurs(status, "failed"@)
                &&& !text::occurs(status, "cancelled"@)
                &&& !text::occurs(status, "canceled"@)
                &&& !text::occurs(status, "skipped"@)
                &&& !text::occurs(status, "error"@)
            },
    ensures
        ({
            let found = reviewers::detected(s, previous, Agent::Codex);
            let body = s.comments[i].body;
            let findings = has_open_thread(s, Agent::Codex) || exists|n: int| #[trigger]
                is_run(body, n) && with_findings(run_status(body, n));
            let approved = exists|k: int|
                reacted(s, "THUMBS_UP"@, k) && !text::text_lt(s.reactions[k].created_at, s.comments[i].updated_at);
            let clean = forall|n: int| #[trigger] is_run(body, n) ==> without_findings(run_status(body, n));
            &&& found.run_id == s.comments[i].id + ":"@ + s.comments[i].updated_at
            &&& findings ==> found.verdict == Verdict::Findings
            &&& !findings && (approved || clean) ==> found.verdict == Verdict::Clean
            &&& !findings && !approved && !clean ==> found.verdict == Verdict::Unknown
        }),
{
    summary_is_read(s, previous, i);
    let body = s.comments[i].body;
    commits_are_of_runs(body, s.head);
    statuses_are_of_runs(body, |t: Seq<char>| codex::unfinished(t));
    statuses_are_of_runs(body, |t: Seq<char>| codex::unsuccessful(t));
    statuses_are_of_runs(body, |t: Seq<char>| codex::finished(t));
    statuses_are_of_runs(body, |t: Seq<char>| codex::reports_findings(t));
    statuses_are_of_runs(body, |t: Seq<char>| codex::reports_clean(t));
    approvals_are_reactions(s, s.comments[i].updated_at);
}

/// Codex approved since a time where it has such a reaction.
proof fn approvals_are_reactions(s: SnapshotView, time: Seq<char>)
    ensures
        codex::thumb_since(s.reactions, time) <==> exists|k: int|
            reacted(s, "THUMBS_UP"@, k) && !text::text_lt(s.reactions[k].created_at, time),
{
    if codex::thumb_since(s.reactions, time) {
        let k = choose|k: int|
            0 <= k < s.reactions.len() && codex::is_reaction(#[trigger] s.reactions[k], "THUMBS_UP"@) && !text::text_lt(
                s.reactions[k].created_at,
                time,
            );
        assert(reacted(s, "THUMBS_UP"@, k));
    }
    if exists|k: int| reacted(s, "THUMBS_UP"@, k) && !text::text_lt(s.reactions[k].created_at, time) {
        let k = choose|k: int| reacted(s, "THUMBS_UP"@, k) && !text::text_lt(s.reactions[k].created_at, time);
        assert(codex::is_reaction(s.reactions[k], "THUMBS_UP"@));
    }
}

/// Whether nothing on a pull request says by itself what Codex is at: neither its eyes nor a
/// summary.
pub open spec fn is_silent(s: SnapshotView) -> bool {
    &&& forall|k: int| !reacted(s, "EYES"@, k)
    &&& forall|k: int| 0 <= k < s.comments.len() ==> !summarizes(#[trigger] s.comments[k])
}

/// Whether a result is the only one of Codex that was last known.
pub open spec fn is_known_result(p: PullRequestView, k: int) -> bool {
    &&& 0 <= k < p.agents.len()
    &&& p.agents[k].agent == Agent::Codex
    &&& forall|j: int| 0 <= j < p.agents.len() && j != k ==> (#[trigger] p.agents[j]).agent != Agent::Codex
}

/// The only result of Codex is found.
proof fn known_results_are_found(agents: Seq<AgentResultView>, k: int)
    requires
        0 <= k < agents.len(),
        agents[k].agent == Agent::Codex,
        forall|j: int| 0 <= j < agents.len() && j != k ==> (#[trigger] agents[j]).agent != Agent::Codex,
    ensures
        codex::codex_result(agents) == Some(agents[k]),
    decreases agents.len(),
{
    if k > 0 {
        assert(agents[0].agent != Agent::Codex);
        let rest = agents.drop_first();
        assert forall|j: int| 0 <= j < rest.len() && j != k - 1 implies (#[trigger] rest[j]).agent != Agent::Codex by {
            assert(rest[j] == agents[j + 1]);
        }
        assert(rest[k - 1] == agents[k]);
        known_results_are_found(rest, k - 1);
    }
}

/// A silent pull request has neither.
proof fn silence_is_found(s: SnapshotView)
    requires
        is_silent(s),
    ensures
        codex::first_reaction(s.reactions, "EYES"@) is None,
        codex::latest_summary(s.comments) is None,
{
    reactions_are_found(s, "EYES"@);
    found_summaries_are_some(s.comments);
    if codex::latest_summary(s.comments) is Some {
        let c = codex::latest_summary(s.comments)->0;
        let k = choose|k: int| 0 <= k < s.comments.len() && s.comments[k] == c;
        assert(!summarizes(s.comments[k]));
    }
}

/// Whether a reaction of Codex is its only approval.
pub open spec fn is_only_approval(s: SnapshotView, j: int) -> bool {
    reacted(s, "THUMBS_UP"@, j) && forall|k: int| k != j ==> !reacted(s, "THUMBS_UP"@, k)
}

/// Codex was seen at work on this commit, and an approval appears that was not there before: it
/// is clean by that approval. Where what was known is not current, or the approval was there
/// already, the approval concludes nothing.
pub proof fn approvals_after_work_are_clean(s: SnapshotView, p: PullRequestView, k: int, j: int)
    requires
        is_silent(s),
        p.snapshot.head == s.head,
        is_known_result(p, k),
        p.agents[k].verdict == Verdict::Running || "awaiting:"@.is_prefix_of(p.agents[k].run_id),
        p.agents[k].verdict != Verdict::Clean,
        is_only_approval(s, j),
    ensures
        ({
            let found = reviewers::detected(s, Some(p), Agent::Codex);
            let known = exists|n: int|
                0 <= n < p.snapshot.reactions.len() && (#[trigger] p.snapshot.reactions[n]).id == s.reactions[j].id;
            &&& !known && !p.stale ==> found.verdict == Verdict::Clean && found.run_id == s.reactions[j].id
            &&& known || p.stale ==> found.verdict != Verdict::Clean
        }),
{
    silence_is_found(s);
    known_results_are_found(p.agents, k);
    reactions_are_found(s, "THUMBS_UP"@);
}

/// An approval that counted stays as long as it is there, however old what is known may be.
pub proof fn approvals_stay(s: SnapshotView, p: PullRequestView, k: int, j: int)
    requires
        is_silent(s),
        p.snapshot.head == s.head,
        is_known_result(p, k),
        p.agents[k].verdict == Verdict::Clean,
        is_only_approval(s, j),
        p.agents[k].run_id == s.reactions[j].id,
    ensures
        reviewers::detected(s, Some(p), Agent::Codex).verdict == Verdict::Clean,
        reviewers::detected(s, Some(p), Agent::Codex).run_id == s.reactions[j].id,
{
    silence_is_found(s);
    known_results_are_found(p.agents, k);
    reactions_are_found(s, "THUMBS_UP"@);
}

/// Codex was seen at work on this commit, and no approval is there: a review that was not there
/// before is findings. Without one the outcome is awaited, also by all later snapshots.
pub proof fn work_without_approval_awaits_a_review(s: SnapshotView, p: PullRequestView, k: int)
    requires
        is_silent(s),
        p.snapshot.head == s.head,
        is_known_result(p, k),
        p.agents[k].verdict == Verdict::Running || "awaiting:"@.is_prefix_of(p.agents[k].run_id),
        forall|j: int| !reacted(s, "THUMBS_UP"@, j),
    ensures
        ({
            let found = reviewers::detected(s, Some(p), Agent::Codex);
            let review = reviewers::latest_review(s.reviews, s.head, Agent::Codex);
            let new = review is Some && !exists|n: int|
                0 <= n < p.snapshot.reviews.len() && (#[trigger] p.snapshot.reviews[n]).id == review->0.id;
            &&& new ==> found.verdict == Verdict::Findings && found.run_id == review->0.id
            &&& !new ==> found.verdict == Verdict::Unknown && "awaiting:"@.is_prefix_of(found.run_id)
            &&& !new && "awaiting:"@.is_prefix_of(p.agents[k].run_id) ==> found.run_id == p.agents[k].run_id
            &&& !new && !"awaiting:"@.is_prefix_of(p.agents[k].run_id) ==> found.run_id == "awaiting:"@ + p.agents[k].run_id
        }),
{
    silence_is_found(s);
    known_results_are_found(p.agents, k);
    reactions_are_found(s, "THUMBS_UP"@);
    let mark = "awaiting:"@;
    assert((mark + p.agents[k].run_id).subrange(0, mark.len() as int) =~= mark);
}

/// Where Codex was not seen at work on this commit, its newest review decides by its state, and
/// without a review nothing is known. A reaction alone concludes nothing.
pub proof fn codex_reviews_decide(s: SnapshotView, previous: Option<PullRequestView>, i: int)
    requires
        is_silent(s),
        previous is None || previous->0.snapshot.head != s.head,
    ensures
        is_newest(s, Agent::Codex, i) ==> {
            let found = reviewers::detected(s, previous, Agent::Codex);
            let state = s.reviews[i].state;
            &&& found.run_id == s.reviews[i].id
            &&& state == "APPROVED"@ ==> found.verdict == Verdict::Clean
            &&& state == "COMMENTED"@ || state == "CHANGES_REQUESTED"@ ==> found.verdict == Verdict::Findings
            &&& state != "APPROVED"@ && state != "COMMENTED"@ && state != "CHANGES_REQUESTED"@ ==> found.verdict
                == Verdict::Unknown
        },
        (forall|k: int| 0 <= k < s.reviews.len() ==> !counts(#[trigger] s.reviews[k], s.head, Agent::Codex))
            ==> reviewers::detected(s, previous, Agent::Codex).verdict == Verdict::Unknown,
{
    silence_is_found(s);
    if is_newest(s, Agent::Codex, i) {
        newest_is_found(s, Agent::Codex, i);
    }
    without_reviews_none_counts(s.reviews, s.head, Agent::Codex);
    reveal_strlit("APPROVED");
    reveal_strlit("COMMENTED");
    reveal_strlit("CHANGES_REQUESTED");
    assert("APPROVED"@.len() == 8 && "COMMENTED"@.len() == 9 && "CHANGES_REQUESTED"@.len() == 17);
}

/// A text that names a commit has seven digits of its hash.
pub proof fn commits_are_named_by_seven_digits(t: Seq<char>, head: Seq<char>)
    ensures
        reviewers::names_commit(t, head) ==> head.len() >= 7 && text::occurs(t, head.take(7)),
{
    if reviewers::names_commit(t, head) {
        let (i, j) = choose|i: int, j: int| #[trigger]
            reviewers::hex_run(t, i, j) && 7 <= j - i <= 40 && t.subrange(i, j).is_prefix_of(head);
        assert(t.subrange(i, i + 7) =~= head.take(7)) by {
            assert forall|n: int| 0 <= n < 7 implies t.subrange(i, i + 7)[n] == head.take(7)[n] by {
                assert(t.subrange(i, j)[n] == head.subrange(0, j - i)[n]);
            }
        }
        assert(text::occurs_at(t, head.take(7), i));
    }
}

/// Seven digits of a hash or more, up to all of it, with other signs around them, name the
/// commit.
pub proof fn starts_of_hashes_name_commits(before: Seq<char>, head: Seq<char>, count: int, after: Seq<char>)
    requires
        7 <= count <= head.len(),
        count <= 40,
        forall|n: int| 0 <= n < count ==> text::hex_digit(#[trigger] head[n]),
        before.len() > 0 ==> !text::hex_digit(before.last()),
        after.len() > 0 ==> !text::hex_digit(after[0]),
    ensures
        reviewers::names_commit(before + head.take(count) + after, head),
{
    let t = before + head.take(count) + after;
    let i = before.len() as int;
    let j = i + count;
    assert(t.subrange(i, j) =~= head.take(count));
    assert forall|k: int| i <= k < j implies text::hex_digit(#[trigger] t[k]) by {
        assert(t[k] == head[k - i]);
    }
    assert(reviewers::hex_run(t, i, j));
    assert(head.subrange(0, count) =~= head.take(count));
}

// ---------------------------------------------------------------- taking part

/// Whether an agent left a trace: a review, a comment, a reaction or a check.
pub open spec fn left_a_trace(s: SnapshotView, agent: Agent) -> bool {
    ||| exists|i: int| 0 <= i < s.reviews.len() && agent_of_login((#[trigger] s.reviews[i]).author) == Some(agent)
    ||| exists|i: int| 0 <= i < s.comments.len() && agent_of_login((#[trigger] s.comments[i]).author) == Some(agent)
    ||| exists|i: int| 0 <= i < s.reactions.len() && agent_of_login((#[trigger] s.reactions[i]).author) == Some(agent)
    ||| exists|i: int| 0 <= i < s.checks.len() && agent_of_app((#[trigger] s.checks[i]).app) == Some(agent)
}

/// Whether a pull request that was seen before had an agent that did not skip.
pub open spec fn was_there(previous: Option<PullRequestView>, agent: Agent) -> bool {
    previous is Some && exists|i: int|
        0 <= i < previous->0.agents.len() && (#[trigger] previous->0.agents[i]).agent == agent
            && previous->0.agents[i].verdict != Verdict::Skipped
}

/// Whether results have one of an agent.
pub open spec fn has_result(results: Seq<AgentResultView>, agent: Agent) -> bool {
    exists|i: int| 0 <= i < results.len() && (#[trigger] results[i]).agent == agent
}

/// There is a result of each agent that is expected, or, where none are named, of each that left
/// a trace or took part before; and of no other.
pub proof fn results_are_of_those_who_take_part(
    s: SnapshotView,
    previous: Option<PullRequestView>,
    expected: Option<Seq<Agent>>,
    agent: Agent,
)
    ensures
        expected is Some ==> has_result(reviewers::evaluated(s, previous, expected), agent) == expected->0.contains(agent),
        expected is None ==> has_result(reviewers::evaluated(s, previous, expected), agent) == (left_a_trace(s, agent)
            || was_there(previous, agent)),
{
    results_stand_in_order(s, previous, expected);
    let list = reviewers::evaluated(s, previous, expected);
    let a = reviewers::participates(s, previous, expected, Agent::Codex);
    let b = reviewers::participates(s, previous, expected, Agent::Cubic);
    let c = reviewers::participates(s, previous, expected, Agent::CodeRabbit);
    if a {
        assert(list[0].agent == Agent::Codex);
    }
    if b {
        assert(list[if a { 1int } else { 0 }].agent == Agent::Cubic);
    }
    if c {
        assert(list[(if a { 1int } else { 0 }) + (if b { 1int } else { 0 })].agent == Agent::CodeRabbit);
    }
}

/// The results stand in the order of the agents.
proof fn results_stand_in_order(s: SnapshotView, previous: Option<PullRequestView>, expected: Option<Seq<Agent>>)
    ensures
        ({
            let list = reviewers::evaluated(s, previous, expected);
            let a = reviewers::participates(s, previous, expected, Agent::Codex);
            let b = reviewers::participates(s, previous, expected, Agent::Cubic);
            let c = reviewers::participates(s, previous, expected, Agent::CodeRabbit);
            let x = if a { 1int } else { 0 };
            let y = x + if b { 1int } else { 0 };
            let z = y + if c { 1int } else { 0 };
            &&& list.len() == z
            &&& a ==> list[0] == reviewers::adjusted(
                reviewers::detected(s, previous, Agent::Codex),
                expected is Some,
                reviewers::observed(s, Agent::Codex),
            ) && list[0].agent == Agent::Codex
            &&& b ==> list[x] == reviewers::adjusted(
                reviewers::detected(s, previous, Agent::Cubic),
                expected is Some,
                reviewers::observed(s, Agent::Cubic),
            ) && list[x].agent == Agent::Cubic
            &&& c ==> list[y] == reviewers::adjusted(
                reviewers::detected(s, previous, Agent::CodeRabbit),
                expected is Some,
                reviewers::observed(s, Agent::CodeRabbit),
            ) && list[y].agent == Agent::CodeRabbit
        }),
{
    reviewers::detected_names_agent(s, previous, Agent::Codex);
    reviewers::detected_names_agent(s, previous, Agent::Cubic);
    reviewers::detected_names_agent(s, previous, Agent::CodeRabbit);
    reveal_with_fuel(reviewers::evaluated_up_to, 4);
}

/// Each result is what its agent concluded, with its run; only a skip of an agent that is
/// expected counts as unknown, which is said, as it is where the agent left no trace. No agent has
/// two results.
pub proof fn results_are_what_agents_concluded(
    s: SnapshotView,
    previous: Option<PullRequestView>,
    expected: Option<Seq<Agent>>,
    i: int,
    j: int,
)
    requires
        0 <= i < reviewers::evaluated(s, previous, expected).len(),
        0 <= j < reviewers::evaluated(s, previous, expected).len(),
    ensures
        ({
            let result = reviewers::evaluated(s, previous, expected)[i];
            let found = reviewers::detected(s, previous, result.agent);
            &&& result.run_id == found.run_id
            &&& result.verdict == (if expected is Some && found.verdict == Verdict::Skipped {
                Verdict::Unknown
            } else {
                found.verdict
            })
            &&& expected is Some && found.verdict == Verdict::Skipped ==> result.reason == "Required agent did not run: "@
                + found.reason
            &&& expected is None && !left_a_trace(s, result.agent) && found.verdict == Verdict::Unknown ==> result.reason
                == "Previously participating agent has no current activity: "@ + found.reason
            &&& expected is Some && found.verdict != Verdict::Skipped ==> result.reason == found.reason
            &&& expected is None && (left_a_trace(s, result.agent) || found.verdict != Verdict::Unknown) ==> result.reason
                == found.reason
        }),
        i != j ==> reviewers::evaluated(s, previous, expected)[i].agent != reviewers::evaluated(s, previous, expected)[j].agent,
{
    results_stand_in_order(s, previous, expected);
    reviewers::detected_names_agent(s, previous, Agent::Codex);
    reviewers::detected_names_agent(s, previous, Agent::Cubic);
    reviewers::detected_names_agent(s, previous, Agent::CodeRabbit);
}

// ---------------------------------------------------------------- the whole

/// Whether some thread is not resolved.
pub open spec fn is_discussed(threads: Seq<ThreadView>) -> bool {
    exists|i: int| 0 <= i < threads.len() && !(#[trigger] threads[i]).resolved
}

/// Whether some result has a verdict.
pub open spec fn says(agents: Seq<AgentResultView>, verdict: Verdict) -> bool {
    exists|i: int| 0 <= i < agents.len() && (#[trigger] agents[i]).verdict == verdict
}

/// A pull request is under review exactly as long as some agent is at work.
pub proof fn reviewing_means_work(s: SnapshotView, agents: Seq<AgentResultView>)
    ensures
        reviewers::aggregated(s, agents) == State::Reviewing <==> says(agents, Verdict::Running),
{
}

/// There are comments exactly where all agents have ended with a verdict or a skip, not all of
/// them with a skip, and a thread is open, whoever began it.
pub proof fn comments_mean_open_threads(s: SnapshotView, agents: Seq<AgentResultView>)
    ensures
        reviewers::aggregated(s, agents) == State::Comments <==> {
            &&& !says(agents, Verdict::Running)
            &&& !says(agents, Verdict::Unknown)
            &&& says(agents, Verdict::Clean) || says(agents, Verdict::Findings)
            &&& is_discussed(s.threads)
        },
{
    concluded_is_said(agents);
}

/// A pull request is approved exactly where some agent is clean, all others are clean or have
/// skipped, and no thread is open.
pub proof fn approval_means_all_clean(s: SnapshotView, agents: Seq<AgentResultView>)
    ensures
        reviewers::aggregated(s, agents) == State::Approved <==> {
            &&& says(agents, Verdict::Clean)
            &&& !says(agents, Verdict::Running)
            &&& !says(agents, Verdict::Unknown)
            &&& !says(agents, Verdict::Findings)
            &&& !is_discussed(s.threads)
        },
{
    concluded_is_said(agents);
    if reviewers::all_verdict(agents, Verdict::Clean) && says(agents, Verdict::Findings) {
        let i = choose|i: int| 0 <= i < agents.len() && (#[trigger] agents[i]).verdict == Verdict::Findings;
        assert(agents[i].verdict == Verdict::Clean || agents[i].verdict == Verdict::Skipped);
    }
}

/// Where not all agents have skipped, and none is unknown or at work, one is clean or has
/// findings.
proof fn concluded_is_said(agents: Seq<AgentResultView>)
    ensures
        !says(agents, Verdict::Running) && !says(agents, Verdict::Unknown) ==> (reviewers::all_verdict(
            agents,
            Verdict::Skipped,
        ) <==> !says(agents, Verdict::Clean) && !says(agents, Verdict::Findings)),
        !says(agents, Verdict::Running) && !says(agents, Verdict::Unknown) && !says(agents, Verdict::Findings)
            ==> reviewers::all_verdict(agents, Verdict::Clean),
{
    if reviewers::all_verdict(agents, Verdict::Skipped) {
        if says(agents, Verdict::Clean) {
            let i = choose|i: int| 0 <= i < agents.len() && (#[trigger] agents[i]).verdict == Verdict::Clean;
            assert(agents[i].verdict == Verdict::Skipped);
        }
        if says(agents, Verdict::Findings) {
            let i = choose|i: int| 0 <= i < agents.len() && (#[trigger] agents[i]).verdict == Verdict::Findings;
            assert(agents[i].verdict == Verdict::Skipped);
        }
    }
}

/// A finding that is not discussed leaves a pull request neither approved nor commented on.
pub proof fn findings_without_threads_are_unknown(s: SnapshotView, agents: Seq<AgentResultView>)
    requires
        says(agents, Verdict::Findings),
        !says(agents, Verdict::Running),
        !is_discussed(s.threads),
    ensures
        reviewers::aggregated(s, agents) == State::Unknown,
{
    approval_means_all_clean(s, agents);
    comments_mean_open_threads(s, agents);
    reviewing_means_work(s, agents);
}

/// A clean review of the only agent on a pull request approves it, and findings in a newer one
/// withdraw that.
pub proof fn a_single_review_settles_a_pull_request(s: SnapshotView, previous: Option<PullRequestView>, i: int)
    requires
        has_no_checks(s, Agent::Cubic),
        is_newest(s, Agent::Cubic, i),
        !text::occurs(s.reviews[i].body, "cubic:review-summary:start -->"@),
        !text::occurs(s.reviews[i].body, "<!-- cubic:review-summary:end"@),
        cubic_says(s.reviews[i].body) is Some,
        forall|agent: Agent| agent != Agent::Cubic ==> !#[trigger] left_a_trace(s, agent) && !was_there(previous, agent),
        forall|k: int| 0 <= k < s.threads.len() ==> (#[trigger] s.threads[k]).resolved,
    ensures
        ({
            let results = reviewers::evaluated(s, previous, None);
            &&& results.len() == 1
            &&& results[0].agent == Agent::Cubic
            &&& results[0].run_id == s.reviews[i].id
            &&& results[0].verdict == cubic_says(s.reviews[i].body)->0
            &&& reviewers::aggregated(s, results) == (if cubic_says(s.reviews[i].body)->0 == Verdict::Clean {
                State::Approved
            } else {
                State::Unknown
            })
        }),
{
    let results = reviewers::evaluated(s, previous, None);
    cubic_reviews_decide(s, previous, i);
    results_stand_in_order(s, previous, None);
    assert(agent_of_login(s.reviews[i].author) == Some(Agent::Cubic));
    assert(reviewers::participates(s, previous, None, Agent::Cubic));
    assert(!left_a_trace(s, Agent::Codex) && !left_a_trace(s, Agent::CodeRabbit));
    assert(!reviewers::participates(s, previous, None, Agent::Codex));
    assert(!reviewers::participates(s, previous, None, Agent::CodeRabbit));
    results_are_what_agents_concluded(s, previous, None, 0, 0);
    assert(says(results, results[0].verdict));
    approval_means_all_clean(s, results);
    if results[0].verdict == Verdict::Findings {
        findings_without_threads_are_unknown(s, results);
    }
}

} // verus!
