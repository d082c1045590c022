//! Verdicts of Codex.

use crate::model::{
    Agent, AgentResult, AgentResultView, Comment, CommentView, PullRequest, PullRequestView, Reaction, ReactionView, ReviewView,
    Snapshot, SnapshotView, Verdict,
};
use crate::reviewers;
use crate::text;
use vstd::prelude::*;

verus! {

broadcast use vstd::seq_lib::group_seq_properties;

/// The mark of a comment that summarizes the runs of Codex.
pub const SUMMARY_MARK: &'static str = "<!-- codex-pull-request-review-summary -->";

/// Whether a reaction is one of Codex with the given content.
pub open spec fn is_reaction(r: ReactionView, content: Seq<char>) -> bool {
    crate::model::agent_of_login(r.author) == Some(Agent::Codex) && r.content == content
}

/// The first reaction of Codex with the given content.
pub open spec fn first_reaction(reactions: Seq<ReactionView>, content: Seq<char>) -> Option<ReactionView>
    decreases reactions.len(),
{
    if reactions.len() == 0 {
        None
    } else if is_reaction(reactions[0], content) {
        Some(reactions[0])
    } else {
        first_reaction(reactions.drop_first(), content)
    }
}

/// Whether Codex approved by a reaction at or after a time.
pub open spec fn thumb_since(reactions: Seq<ReactionView>, time: Seq<char>) -> bool {
    exists|i: int|
        0 <= i < reactions.len() && is_reaction(#[trigger] reactions[i], "THUMBS_UP"@) && !text::text_lt(
            reactions[i].created_at,
            time,
        )
}

/// Whether a comment is a summary of the runs of Codex.
pub open spec fn is_summary(c: CommentView) -> bool {
    crate::model::agent_of_login(c.author) == Some(Agent::Codex) && text::occurs(c.body, SUMMARY_MARK@)
}

/// The summary that was updated last.
pub open spec fn latest_summary(comments: Seq<CommentView>) -> Option<CommentView>
    decreases comments.len(),
{
    if comments.len() == 0 {
        None
    } else {
        let before = latest_summary(comments.drop_last());
        let comment = comments.last();
        if is_summary(comment) && (before is None || !text::text_lt(comment.updated_at, before->0.updated_at)) {
            Some(comment)
        } else {
            before
        }
    }
}

/// Whether a line of a summary is a row about a run.
pub open spec fn is_row(line: Seq<char>) -> bool {
    line.len() > 0 && line[0] == '|' && line.contains('`')
}

/// The rows among lines.
pub open spec fn rows_of(lines: Seq<Seq<char>>) -> Seq<Seq<char>>
    decreases lines.len(),
{
    if lines.len() == 0 {
        Seq::empty()
    } else if is_row(lines.last()) {
        rows_of(lines.drop_last()).push(lines.last())
    } else {
        rows_of(lines.drop_last())
    }
}

/// A cell of a row, empty where the row has fewer.
pub open spec fn cell(row: Seq<char>, n: int) -> Seq<char> {
    let cells = text::split_on(row, '|');
    if 0 <= n < cells.len() {
        cells[n]
    } else {
        Seq::empty()
    }
}

/// The statuses of rows in lower case.
pub open spec fn statuses_of(rows: Seq<Seq<char>>) -> Seq<Seq<char>> {
    rows.map_values(|row: Seq<char>| text::unicode_lowercase(cell(row, 2)))
}

/// Whether there are rows, and each of them names the commit.
pub open spec fn rows_name_commit(rows: Seq<Seq<char>>, head: Seq<char>) -> bool {
    rows.len() > 0 && forall|i: int| 0 <= i < rows.len() ==> reviewers::names_commit(cell(#[trigger] rows[i], 3), head)
}

/// Whether a status says that a run has not ended.
pub open spec fn unfinished(status: Seq<char>) -> bool {
    text::occurs(status, "running"@) || text::occurs(status, "queued"@)
}

/// Whether a status says that a run did not end well.
pub open spec fn unsuccessful(status: Seq<char>) -> bool {
    ||| text::occurs(status, "failed"@)
    ||| text::occurs(status, "cancelled"@)
    ||| text::occurs(status, "canceled"@)
    ||| text::occurs(status, "skipped"@)
    ||| text::occurs(status, "error"@)
}

/// Whether a status says that a run ended.
pub open spec fn finished(status: Seq<char>) -> bool {
    ||| text::occurs(status, "completed"@)
    ||| text::occurs(status, "complete"@)
    ||| text::occurs(status, "finished"@)
    ||| text::occurs(status, "no findings"@)
    ||| text::occurs(status, "no issues"@)
    ||| text::occurs(status, "findings found"@)
}

/// Whether a status reports findings.
pub open spec fn reports_findings(status: Seq<char>) -> bool {
    text::occurs(status, "findings"@) && !text::occurs(status, "no findings"@) && !text::occurs(status, "0 findings"@)
}

/// Whether a status reports that there is nothing to find.
pub open spec fn reports_clean(status: Seq<char>) -> bool {
    ||| text::occurs(status, "no findings"@)
    ||| text::occurs(status, "0 findings"@)
    ||| text::occurs(status, "no issues"@)
}

/// Whether some status has a property.
pub open spec fn some_status(statuses: Seq<Seq<char>>, holds: spec_fn(Seq<char>) -> bool) -> bool {
    exists|i: int| 0 <= i < statuses.len() && holds(#[trigger] statuses[i])
}

/// Whether every status has a property.
pub open spec fn each_status(statuses: Seq<Seq<char>>, holds: spec_fn(Seq<char>) -> bool) -> bool {
    forall|i: int| 0 <= i < statuses.len() ==> holds(#[trigger] statuses[i])
}

/// What a summary says, from the statuses of its rows in lower case, from whether they
/// name the current commit, and from the threads and reactions of Codex.
pub open spec fn summary_result(
    summary: CommentView,
    statuses: Seq<Seq<char>>,
    current: bool,
    threads: bool,
    thumb: bool,
) -> AgentResultView {
    let agent = Agent::Codex;
    let run = summary.id + ":"@ + summary.updated_at;
    if some_status(statuses, |s: Seq<char>| unfinished(s)) {
        reviewers::result_of(agent, Verdict::Running, run, "Codex summary contains a running review"@)
    } else if !current {
        reviewers::result_of(
            agent,
            Verdict::Unknown,
            summary.id,
            "Codex summary is missing current-commit evidence"@,
        )
    } else if some_status(statuses, |s: Seq<char>| unsuccessful(s)) {
        reviewers::result_of(agent, Verdict::Unknown, summary.id, "Codex review did not complete successfully"@)
    } else if each_status(statuses, |s: Seq<char>| finished(s)) {
        reviewers::result_of(
            agent,
            if threads || some_status(statuses, |s: Seq<char>| reports_findings(s)) {
                Verdict::Findings
            } else if thumb || each_status(statuses, |s: Seq<char>| reports_clean(s)) {
                Verdict::Clean
            } else {
                Verdict::Unknown
            },
            run,
            "Current-commit Codex summary; all listed runs finished"@,
        )
    } else {
        reviewers::result_of(agent, Verdict::Unknown, summary.id, "Unrecognized Codex summary status"@)
    }
}

/// The result of Codex among results.
pub open spec fn codex_result(agents: Seq<AgentResultView>) -> Option<AgentResultView>
    decreases agents.len(),
{
    if agents.len() == 0 {
        None
    } else if agents[0].agent == Agent::Codex {
        Some(agents[0])
    } else {
        codex_result(agents.drop_first())
    }
}

/// Whether an earlier result leaves a run of Codex without an outcome.
pub open spec fn is_awaiting(result: AgentResultView) -> bool {
    result.verdict == Verdict::Running || "awaiting:"@.is_prefix_of(result.run_id)
}

/// Whether a reaction was there already.
pub open spec fn had_reaction(p: PullRequestView, id: Seq<char>) -> bool {
    exists|i: int| 0 <= i < p.snapshot.reactions.len() && (#[trigger] p.snapshot.reactions[i]).id == id
}

/// Whether a review was there already.
pub open spec fn had_review(p: PullRequestView, id: Seq<char>) -> bool {
    exists|i: int| 0 <= i < p.snapshot.reviews.len() && (#[trigger] p.snapshot.reviews[i]).id == id
}

/// The identity of a run whose outcome is awaited.
pub open spec fn awaited_run(run: Seq<char>) -> Seq<char> {
    if "awaiting:"@.is_prefix_of(run) {
        run
    } else {
        "awaiting:"@ + run
    }
}

/// What follows from activity that was observed on the same commit. Without a summary, a
/// reaction that newly appears is safe only after such activity, and an older review
/// cannot complete a run that was observed after it.
pub open spec fn carried(s: SnapshotView, p: PullRequestView) -> Option<AgentResultView> {
    let agent = Agent::Codex;
    let earlier = codex_result(p.agents);
    let thumb = first_reaction(s.reactions, "THUMBS_UP"@);
    let review = reviewers::latest_review(s.reviews, s.head, agent);
    if earlier is None {
        None
    } else if thumb is Some && ((is_awaiting(earlier->0) && !had_reaction(p, thumb->0.id) && !p.stale) || (earlier->0.verdict
        == Verdict::Clean && earlier->0.run_id == thumb->0.id)) {
        Some(
            reviewers::result_of(
                agent,
                Verdict::Clean,
                thumb->0.id,
                "Codex approval observed after review on this commit"@,
            ),
        )
    } else if !is_awaiting(earlier->0) {
        None
    } else if review is Some && !had_review(p, review->0.id) {
        Some(
            reviewers::result_of(
                agent,
                Verdict::Findings,
                review->0.id,
                "Codex posted a new review after observed activity"@,
            ),
        )
    } else {
        Some(
            reviewers::result_of(
                agent,
                Verdict::Unknown,
                awaited_run(earlier->0.run_id),
                "Codex activity ended without a new result"@,
            ),
        )
    }
}

/// The verdict of a submitted review by its state.
pub open spec fn state_verdict(state: Seq<char>) -> Verdict {
    if state == "APPROVED"@ {
        Verdict::Clean
    } else if state == "COMMENTED"@ || state == "CHANGES_REQUESTED"@ {
        Verdict::Findings
    } else {
        Verdict::Unknown
    }
}

/// What follows from a submitted review alone.
pub open spec fn by_review(review: Option<ReviewView>) -> AgentResultView {
    match review {
        Some(r) => reviewers::result_of(
            Agent::Codex,
            state_verdict(r.state),
            r.id,
            "Codex submitted a review for the current commit"@,
        ),
        None => reviewers::result_of(
            Agent::Codex,
            Verdict::Unknown,
            Seq::empty(),
            "Codex reaction cannot be tied to the current commit"@,
        ),
    }
}

/// What Codex concluded about a pull request.
pub open spec fn detected(s: SnapshotView, previous: Option<PullRequestView>) -> AgentResultView {
    let eyes = first_reaction(s.reactions, "EYES"@);
    let summary = latest_summary(s.comments);
    if eyes is Some {
        reviewers::result_of(Agent::Codex, Verdict::Running, eyes->0.id, "Codex eyes reaction is present"@)
    } else if summary is Some {
        let rows = rows_of(text::lines_of(summary->0.body));
        summary_result(
            summary->0,
            statuses_of(rows),
            rows_name_commit(rows, s.head),
            reviewers::open_thread_of(s, Agent::Codex),
            thumb_since(s.reactions, summary->0.updated_at),
        )
    } else if previous is Some && previous->0.snapshot.head == s.head && carried(s, previous->0) is Some {
        carried(s, previous->0)->0
    } else {
        by_review(reviewers::latest_review(s.reviews, s.head, Agent::Codex))
    }
}

// ---------------------------------------------------------------- computing it

/// The contents of an optional reaction.
pub open spec fn reaction_view(reaction: Option<&Reaction>) -> Option<ReactionView> {
    match reaction {
        Some(r) => Some(r@),
        None => None,
    }
}

/// The first reaction of Codex with the given content.
fn find_reaction<'a>(reactions: &'a Vec<Reaction>, content: &str) -> (r: Option<&'a Reaction>)
    ensures
        reaction_view(r) == first_reaction(reactions.deep_view(), content@),
{
    let ghost v = reactions.deep_view();
    let mut i: usize = 0;
    assert(v.skip(0) =~= v);
    while i < reactions.len()
        invariant
            v == reactions.deep_view(),
            i <= reactions@.len(),
            first_reaction(v, content@) == first_reaction(v.skip(i as int), content@),
        decreases reactions.len() - i,
    {
        let reaction = &reactions[i];
        assert(v.skip(i as int)[0] == reaction@);
        assert(v.skip(i as int).drop_first() =~= v.skip(i + 1));
        if Agent::from_login(&reaction.author) == Some(Agent::Codex) && text::same(&reaction.content, content) {
            return Some(reaction);
        }
        i += 1;
    }
    None
}

/// Whether Codex approved by a reaction at or after a time.
fn has_thumb_since(reactions: &Vec<Reaction>, time: &str) -> (r: bool)
    ensures
        r == thumb_since(reactions.deep_view(), time@),
{
    let ghost v = reactions.deep_view();
    let mut i: usize = 0;
    while i < reactions.len()
        invariant
            v == reactions.deep_view(),
            i <= reactions@.len(),
            forall|k: int|
                0 <= k < i ==> !is_reaction(#[trigger] v[k], "THUMBS_UP"@) || text::text_lt(v[k].created_at, time@),
        decreases reactions.len() - i,
    {
        let reaction = &reactions[i];
        assert(v[i as int] == reaction@);
        if Agent::from_login(&reaction.author) == Some(Agent::Codex) && text::same(&reaction.content, "THUMBS_UP")
            && !text::less(&reaction.created_at, time) {
            return true;
        }
        i += 1;
    }
    false
}

/// The contents of an optional comment.
pub open spec fn comment_view(comment: Option<&Comment>) -> Option<CommentView> {
    match comment {
        Some(c) => Some(c@),
        None => None,
    }
}

/// The summary that was updated last.
fn find_summary(comments: &Vec<Comment>) -> (r: Option<&Comment>)
    ensures
        comment_view(r) == latest_summary(comments.deep_view()),
{
    let ghost v = comments.deep_view();
    let mut found: Option<&Comment> = None;
    let mut i: usize = 0;
    while i < comments.len()
        invariant
            v == comments.deep_view(),
            i <= comments@.len(),
            comment_view(found) == latest_summary(v.take(i as int)),
        decreases comments.len() - i,
    {
        let comment = &comments[i];
        assert(v.take(i + 1).drop_last() =~= v.take(i as int));
        assert(v.take(i + 1).last() == comment@);
        if Agent::from_login(&comment.author) == Some(Agent::Codex) && text::contains(&comment.body, SUMMARY_MARK) {
            let keep = match found {
                Some(before) => text::less(&comment.updated_at, &before.updated_at),
                None => false,
            };
            if !keep {
                found = Some(comment);
            }
        }
        i += 1;
    }
    assert(v.take(i as int) =~= v);
    found
}

/// Whether a line of a summary is a row about a run.
fn row_line(line: &str) -> (r: bool)
    ensures
        r == is_row(line@),
{
    let letters = text::chars(line);
    if letters.len() == 0 || letters[0] != '|' {
        return false;
    }
    let mut i: usize = 0;
    while i < letters.len()
        invariant
            letters@ == line@,
            i <= letters@.len(),
            letters@.len() > 0,
            letters@[0] == '|',
            forall|k: int| 0 <= k < i ==> letters@[k] != '`',
        decreases letters.len() - i,
    {
        if letters[i] == '`' {
            return true;
        }
        i += 1;
    }
    false
}

/// The rows of a summary.
pub fn summary_rows(body: &str) -> (r: Vec<String>)
    ensures
        r.deep_view() == rows_of(text::lines_of(body@)),
{
    let lines = text::lines(body);
    let ghost v = text::lines_of(body@);
    let mut r: Vec<String> = Vec::new();
    let mut i: usize = 0;
    assert(r.deep_view() =~= Seq::empty());
    while i < lines.len()
        invariant
            v == text::lines_of(body@),
            lines.deep_view() == v,
            i <= lines@.len(),
            r.deep_view() == rows_of(v.take(i as int)),
        decreases lines.len() - i,
    {
        assert(v.take(i + 1).drop_last() =~= v.take(i as int));
        assert(v.take(i + 1).last() == lines@[i as int]@);
        if row_line(&lines[i]) {
            let ghost done = r.deep_view();
            r.push(lines[i].clone());
            assert(r.deep_view() =~= done.push(v[i as int]));
        }
        i += 1;
    }
    assert(v.take(i as int) =~= v);
    r
}

/// A cell of a row, empty where the row has fewer.
pub fn row_cell(row: &str, n: usize) -> (r: String)
    ensures
        r@ == cell(row@, n as int),
{
    let cells = text::split(row, '|');
    let ghost v = cells.deep_view();
    if n < cells.len() {
        assert(v[n as int] == cells@[n as int]@);
        cells[n].clone()
    } else {
        let r = String::new();
        assert(r@ =~= cell(row@, n as int));
        r
    }
}

/// Whether there are rows, and each of them names the commit.
fn all_name_commit(rows: &Vec<String>, head: &str) -> (r: bool)
    ensures
        r == rows_name_commit(rows.deep_view(), head@),
{
    let ghost v = rows.deep_view();
    let mut i: usize = 0;
    while i < rows.len()
        invariant
            v == rows.deep_view(),
            i <= rows@.len(),
            forall|k: int| 0 <= k < i ==> reviewers::names_commit(cell(#[trigger] v[k], 3), head@),
        decreases rows.len() - i,
    {
        assert(v[i as int] == rows@[i as int]@);
        if !reviewers::matches_commit(&row_cell(&rows[i], 3), head) {
            return false;
        }
        i += 1;
    }
    rows.len() > 0
}

/// What the statuses of a summary say together.
struct Statuses {
    unfinished: bool,
    unsuccessful: bool,
    finished: bool,
    findings: bool,
    clean: bool,
}

/// What the statuses of a summary say together.
fn read_statuses(statuses: &Vec<String>) -> (r: Statuses)
    ensures
        r.unfinished == some_status(statuses.deep_view(), |s: Seq<char>| unfinished(s)),
        r.unsuccessful == some_status(statuses.deep_view(), |s: Seq<char>| unsuccessful(s)),
        r.finished == each_status(statuses.deep_view(), |s: Seq<char>| finished(s)),
        r.findings == some_status(statuses.deep_view(), |s: Seq<char>| reports_findings(s)),
        r.clean == each_status(statuses.deep_view(), |s: Seq<char>| reports_clean(s)),
{
    let ghost v = statuses.deep_view();
    let mut r = Statuses { unfinished: false, unsuccessful: false, finished: true, findings: false, clean: true };
    let mut i: usize = 0;
    while i < statuses.len()
        invariant
            v == statuses.deep_view(),
            i <= statuses@.len(),
            r.unfinished == exists|k: int| 0 <= k < i && unfinished(#[trigger] v[k]),
            r.unsuccessful == exists|k: int| 0 <= k < i && unsuccessful(#[trigger] v[k]),
            r.finished == forall|k: int| 0 <= k < i ==> finished(#[trigger] v[k]),
            r.findings == exists|k: int| 0 <= k < i && reports_findings(#[trigger] v[k]),
            r.clean == forall|k: int| 0 <= k < i ==> reports_clean(#[trigger] v[k]),
        decreases statuses.len() - i,
    {
        let s = statuses[i].as_str();
        assert(v[i as int] == s@);
        let no_findings = text::contains(s, "no findings");
        let zero_findings = text::contains(s, "0 findings");
        let no_issues = text::contains(s, "no issues");
        r.unfinished = r.unfinished || text::contains(s, "running") || text::contains(s, "queued");
        r.unsuccessful = r.unsuccessful || text::contains(s, "failed") || text::contains(s, "cancelled") || text::contains(
            s,
            "canceled",
        ) || text::contains(s, "skipped") || text::contains(s, "error");
        r.finished = r.finished && (text::contains(s, "completed") || text::contains(s, "complete") || text::contains(
            s,
            "finished",
        ) || no_findings || no_issues || text::contains(s, "findings found"));
        r.findings = r.findings || (text::contains(s, "findings") && !no_findings && !zero_findings);
        r.clean = r.clean && (no_findings || zero_findings || no_issues);
        i += 1;
    }
    r
}

/// What a summary says, from the statuses of its rows in lower case, from whether they
/// name the current commit, and from the threads and reactions of Codex.
pub fn conclude_summary(summary: &Comment, statuses: &Vec<String>, current: bool, threads: bool, thumb: bool) -> (r: AgentResult)
    ensures
        r@ == summary_result(summary@, statuses.deep_view(), current, threads, thumb),
{
    let agent = Agent::Codex;
    let said = read_statuses(statuses);
    let run = text::concat3(&summary.id, ":", &summary.updated_at);
    if said.unfinished {
        return reviewers::result(agent, Verdict::Running, run, "Codex summary contains a running review");
    }
    if !current {
        return reviewers::result(
            agent,
            Verdict::Unknown,
            summary.id.clone(),
            "Codex summary is missing current-commit evidence",
        );
    }
    if said.unsuccessful {
        return reviewers::result(
            agent,
            Verdict::Unknown,
            summary.id.clone(),
            "Codex review did not complete successfully",
        );
    }
    if said.finished {
        let v = if threads || said.findings {
            Verdict::Findings
        } else if thumb || said.clean {
            Verdict::Clean
        } else {
            Verdict::Unknown
        };
        return reviewers::result(agent, v, run, "Current-commit Codex summary; all listed runs finished");
    }
    reviewers::result(agent, Verdict::Unknown, summary.id.clone(), "Unrecognized Codex summary status")
}

/// What a summary on a pull request says.
fn detect_summary(s: &Snapshot, summary: &Comment) -> (r: AgentResult)
    ensures
        ({
            let rows = rows_of(text::lines_of(summary@.body));
            r@ == summary_result(
                summary@,
                statuses_of(rows),
                rows_name_commit(rows, s@.head),
                reviewers::open_thread_of(s@, Agent::Codex),
                thumb_since(s@.reactions, summary@.updated_at),
            )
        }),
{
    let rows = summary_rows(&summary.body);
    let ghost v = rows.deep_view();
    let mut statuses: Vec<String> = Vec::new();
    let mut i: usize = 0;
    while i < rows.len()
        invariant
            v == rows.deep_view(),
            i <= rows@.len(),
            statuses.deep_view() == statuses_of(v.take(i as int)),
        decreases rows.len() - i,
    {
        let ghost done = statuses.deep_view();
        let status = text::lowercase(&row_cell(&rows[i], 2));
        let ghost new = status@;
        statuses.push(status);
        assert(v[i as int] == rows@[i as int]@);
        assert(statuses.deep_view() =~= done.push(new));
        assert(statuses.deep_view() =~= statuses_of(v.take(i + 1)));
        i += 1;
    }
    assert(v.take(i as int) =~= v);
    conclude_summary(
        summary,
        &statuses,
        all_name_commit(&rows, &s.head),
        reviewers::has_threads(s, Agent::Codex),
        has_thumb_since(&s.reactions, &summary.updated_at),
    )
}

/// The contents of an optional result.
pub open spec fn result_ref_view(result: Option<&AgentResult>) -> Option<AgentResultView> {
    match result {
        Some(r) => Some(r@),
        None => None,
    }
}

/// The result of Codex among results.
fn find_result(agents: &Vec<AgentResult>) -> (r: Option<&AgentResult>)
    ensures
        result_ref_view(r) == codex_result(agents.deep_view()),
{
    let ghost v = agents.deep_view();
    let mut i: usize = 0;
    assert(v.skip(0) =~= v);
    while i < agents.len()
        invariant
            v == agents.deep_view(),
            i <= agents@.len(),
            codex_result(v) == codex_result(v.skip(i as int)),
        decreases agents.len() - i,
    {
        assert(v.skip(i as int)[0] == agents@[i as int]@);
        assert(v.skip(i as int).drop_first() =~= v.skip(i + 1));
        if agents[i].agent == Agent::Codex {
            return Some(&agents[i]);
        }
        i += 1;
    }
    None
}

/// Whether a reaction was there already.
fn knew_reaction(p: &PullRequest, id: &str) -> (r: bool)
    ensures
        r == had_reaction(p@, id@),
{
    let ghost v = p@.snapshot.reactions;
    let mut i: usize = 0;
    while i < p.snapshot.reactions.len()
        invariant
            v == p@.snapshot.reactions,
            i <= p.snapshot.reactions@.len(),
            forall|k: int| 0 <= k < i ==> (#[trigger] v[k]).id != id@,
        decreases p.snapshot.reactions.len() - i,
    {
        assert(v[i as int] == p.snapshot.reactions@[i as int]@);
        if text::same(&p.snapshot.reactions[i].id, id) {
            return true;
        }
        i += 1;
    }
    false
}

/// Whether a review was there already.
fn knew_review(p: &PullRequest, id: &str) -> (r: bool)
    ensures
        r == had_review(p@, id@),
{
    let ghost v = p@.snapshot.reviews;
    let mut i: usize = 0;
    while i < p.snapshot.reviews.len()
        invariant
            v == p@.snapshot.reviews,
            i <= p.snapshot.reviews@.len(),
            forall|k: int| 0 <= k < i ==> (#[trigger] v[k]).id != id@,
        decreases p.snapshot.reviews.len() - i,
    {
        assert(v[i as int] == p.snapshot.reviews@[i as int]@);
        if text::same(&p.snapshot.reviews[i].id, id) {
            return true;
        }
        i += 1;
    }
    false
}

/// What follows from activity that was observed on the same commit.
fn carry(s: &Snapshot, p: &PullRequest) -> (r: Option<AgentResult>)
    ensures
        reviewers::result_view(r) == carried(s@, p@),
{
    let agent = Agent::Codex;
    let earlier = match find_result(&p.agents) {
        Some(earlier) => earlier,
        None => {
            return None;
        },
    };
    let awaited = text::starts_with(&earlier.run_id, "awaiting:");
    let awaiting = earlier.verdict == Verdict::Running || awaited;
    if let Some(thumb) = find_reaction(&s.reactions, "THUMBS_UP") {
        if (awaiting && !knew_reaction(p, &thumb.id) && !p.stale) || (earlier.verdict == Verdict::Clean && text::same(
            &earlier.run_id,
            &thumb.id,
        )) {
            return Some(
                reviewers::result(
                    agent,
                    Verdict::Clean,
                    thumb.id.clone(),
                    "Codex approval observed after review on this commit",
                ),
            );
        }
    }
    if !awaiting {
        return None;
    }
    if let Some(review) = reviewers::current_review(s, agent) {
        if !knew_review(p, &review.id) {
            return Some(
                reviewers::result(
                    agent,
                    Verdict::Findings,
                    review.id.clone(),
                    "Codex posted a new review after observed activity",
                ),
            );
        }
    }
    let run = if awaited {
        earlier.run_id.clone()
    } else {
        text::concat("awaiting:", &earlier.run_id)
    };
    Some(reviewers::result(agent, Verdict::Unknown, run, "Codex activity ended without a new result"))
}

/// What Codex concluded about a pull request.
pub fn detect(s: &Snapshot, previous: Option<&PullRequest>) -> (r: AgentResult)
    ensures
        r@ == detected(s@, reviewers::previous_view(previous)),
{
    let agent = Agent::Codex;
    if let Some(eyes) = find_reaction(&s.reactions, "EYES") {
        return reviewers::result(agent, Verdict::Running, eyes.id.clone(), "Codex eyes reaction is present");
    }
    if let Some(summary) = find_summary(&s.comments) {
        return detect_summary(s, summary);
    }
    if let Some(p) = previous {
        if text::same(&p.snapshot.head, &s.head) {
            if let Some(found) = carry(s, p) {
                return found;
            }
        }
    }
    if let Some(review) = reviewers::current_review(s, agent) {
        let v = if text::same(&review.state, "APPROVED") {
            Verdict::Clean
        } else if text::same(&review.state, "COMMENTED") || text::same(&review.state, "CHANGES_REQUESTED") {
            Verdict::Findings
        } else {
            Verdict::Unknown
        };
        return reviewers::result(agent, v, review.id.clone(), "Codex submitted a review for the current commit");
    }
    reviewers::result(agent, Verdict::Unknown, String::new(), "Codex reaction cannot be tied to the current commit")
}

} // verus!
