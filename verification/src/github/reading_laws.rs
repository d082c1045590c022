//! What holds of what is asked of GitHub and read from its answers.

use crate::config::ConfigView;
use crate::github;
use crate::github::changes;
use crate::github::check_status;
use crate::github::check_status::WorkflowRun;
use crate::github::details;
use crate::github::discovery;
use crate::github::exchange;
use crate::github::exchange::{ApiRequestView, ResponsePolicy};
use crate::json::JsonView;
use crate::model::PrLabelView;
use crate::order;
use crate::text;
use crate::worker::fetch;
use vstd::prelude::*;

verus! {

broadcast use vstd::seq_lib::group_seq_properties;

// ---------------------------------------------------------------- labels

/// Whether an entry describes a label: it has its name, and its color or, where it says none,
/// grey.
pub open spec fn is_label_of(label: PrLabelView, entry: JsonView) -> bool {
    &&& entry.at("name"@).str() == Some(label.name)
    &&& entry.at("color"@).str() is Some ==> entry.at("color"@).str() == Some(label.color)
    &&& entry.at("color"@).str() is None ==> label.color == "808080"@
}

/// Every entry is read, in its order, exactly where each has a name.
proof fn entries_are_read(entries: Seq<JsonView>)
    ensures
        changes::entry_labels(entries) is Ok <==> forall|i: int| 0 <= i < entries.len() ==> (#[trigger] entries[i]).at("name"@).str() is Some,
        changes::entry_labels(entries) matches Ok(labels) ==> labels.len() == entries.len() && forall|i: int|
            0 <= i < entries.len() ==> is_label_of(#[trigger] labels[i], entries[i]),
        changes::entry_labels(entries) matches Err(message) ==> message == "Missing label name"@,
    decreases entries.len(),
{
    if entries.len() > 0 {
        let rest = entries.drop_last();
        entries_are_read(rest);
        assert(entries.last() == entries[entries.len() - 1]);
        if changes::entry_labels(rest) is Err {
            let i = choose|i: int| 0 <= i < rest.len() && !((#[trigger] rest[i]).at("name"@).str() is Some);
            assert(!(entries[i].at("name"@).str() is Some));
        } else {
            assert forall|i: int| 0 <= i < rest.len() implies (#[trigger] entries[i]).at("name"@).str() is Some by {
                assert(rest[i] == entries[i]);
            }
            if let Ok(labels) = changes::entry_labels(entries) {
                let before = changes::entry_labels(rest)->Ok_0;
                assert forall|i: int| 0 <= i < entries.len() implies is_label_of(#[trigger] labels[i], entries[i]) by {
                    if i < rest.len() {
                        assert(is_label_of(before[i], rest[i]));
                    }
                }
            }
        }
    }
}

/// The labels of a repository are read where each entry has a name; each of them is offered, with
/// its color, as often as it is listed.
pub proof fn every_label_is_offered(entries: Seq<JsonView>, i: int)
    requires
        0 <= i < entries.len(),
    ensures
        changes::catalogue_of(entries) is Ok <==> forall|k: int|
            0 <= k < entries.len() ==> (#[trigger] entries[k]).at("name"@).str() is Some,
        changes::catalogue_of(entries) matches Ok(offered) ==> offered.len() == entries.len() && exists|k: int|
            0 <= k < offered.len() && is_label_of(#[trigger] offered[k], entries[i]),
        changes::catalogue_of(entries) matches Err(message) ==> message == "Missing label name"@,
{
    entries_are_read(entries);
    if let Ok(labels) = changes::entry_labels(entries) {
        let offered = order::ordered(labels, changes::label_keys(labels), order::text_order());
        order::ordering_rearranges(labels, changes::label_keys(labels), order::text_order());
        offered.to_multiset_ensures();
        labels.to_multiset_ensures();
        assert(is_label_of(labels[i], entries[i]));
        assert(labels.contains(labels[i]));
        assert(offered.to_multiset().contains(labels[i]));
        let k = choose|k: int| 0 <= k < offered.len() && offered[k] == labels[i];
        assert(is_label_of(offered[k], entries[i]));
    }
}

/// Labels are offered by the alphabet, without regard to capitals.
pub proof fn labels_are_offered_in_order(entries: Seq<JsonView>, i: int, j: int)
    requires
        changes::catalogue_of(entries) is Ok,
        0 <= i < j < changes::catalogue_of(entries)->Ok_0.len(),
    ensures
        ({
            let offered = changes::catalogue_of(entries)->Ok_0;
            !text::text_lt(text::unicode_lowercase(offered[j].name), text::unicode_lowercase(offered[i].name))
        }),
{
    let labels = changes::entry_labels(entries)->Ok_0;
    let key = |l: PrLabelView| text::unicode_lowercase(l.name);
    assert(changes::label_keys(labels) =~= labels.map_values(key));
    order::texts_are_ordered();
    order::ordering_rearranges(labels, changes::label_keys(labels), order::text_order());
    order::keyed_items_are_ordered(labels, changes::label_keys(labels), order::text_order(), i, j);
    order::items_keep_their_keys(labels, key, order::text_order(), i);
    order::items_keep_their_keys(labels, key, order::text_order(), j);
}

// ---------------------------------------------------------------- workflows

/// Workflows are looked up exactly where a name of a job of GitHub Actions occurs in two suites.
pub proof fn jobs_of_two_suites_are_ambiguous(checks: Seq<JsonView>, i: int, j: int)
    requires
        0 <= i < checks.len(),
        0 <= j < checks.len(),
        checks[i].at("app"@).at("slug"@).str() == Some("github-actions"@),
        checks[j].at("app"@).at("slug"@).str() == Some("github-actions"@),
        checks[i].at("name"@).str() is Some,
        checks[i].at("name"@).str() == checks[j].at("name"@).str(),
        checks[i].at("check_suite"@).at("id"@).whole() is Some,
        checks[j].at("check_suite"@).at("id"@).whole() is Some,
        checks[i].at("check_suite"@).at("id"@).whole() != checks[j].at("check_suite"@).at("id"@).whole(),
    ensures
        check_status::ambiguous(checks),
{
    if i < j {
        assert(check_status::ambiguous_pair(checks[i], checks[j]));
    } else {
        assert(check_status::ambiguous_pair(checks[j], checks[i]));
    }
}

/// Checks of other applications, or of one suite, need no workflows.
pub proof fn other_checks_are_not_ambiguous(checks: Seq<JsonView>, suite: u64)
    requires
        forall|i: int|
            0 <= i < checks.len() ==> (#[trigger] checks[i]).at("app"@).at("slug"@).str() != Some("github-actions"@)
                || checks[i].at("check_suite"@).at("id"@).whole() == Some(suite),
    ensures
        !check_status::ambiguous(checks),
{
}

/// What is known of a suite is what the last run of the commit that is listed with it says; what
/// is listed of another commit says nothing.
pub proof fn the_last_listed_run_counts(
    before: Map<u64, WorkflowRun>,
    after: Map<u64, WorkflowRun>,
    runs: Seq<JsonView>,
    head: Seq<char>,
    suite: u64,
    i: int,
)
    requires
        check_status::runs_added(before, after, runs, head, runs.len() as int),
        0 <= i < runs.len(),
        runs[i].at("head_sha"@).str() == Some(head),
        runs[i].at("check_suite_id"@).whole() == Some(suite),
        runs[i].at("workflow_id"@).whole() is Some,
        runs[i].at("id"@).whole() is Some,
        runs[i].at("event"@).str() is Some,
        runs[i].at("head_branch"@).str() is Some,
        forall|j: int|
            i < j < runs.len() ==> (#[trigger] runs[j]).at("head_sha"@).str() != Some(head) || runs[j].at(
                "check_suite_id"@,
            ).whole() != Some(suite),
    ensures
        after.contains_key(suite),
        after[suite].workflow == runs[i].at("workflow_id"@).whole()->0,
        after[suite].run == runs[i].at("id"@).whole()->0,
        after[suite].event@ == runs[i].at("event"@).str()->0,
        after[suite].branch@ == runs[i].at("head_branch"@).str()->0,
{
    last_listed_is_last(runs, head, suite, i, runs.len() as int);
    let listed = check_status::last_listed(runs, head, suite, runs.len() as int);
    assert(listed == check_status::listed_run(runs[i], head));
    assert(after.contains_key(suite) && check_status::describes(after[suite], listed->0));
}

/// What is listed after a run and is not of its suite does not count for it.
proof fn last_listed_is_last(runs: Seq<JsonView>, head: Seq<char>, suite: u64, i: int, count: int)
    requires
        0 <= i < count <= runs.len(),
        check_status::listed_run(runs[i], head) is Some,
        check_status::listed_run(runs[i], head)->0.suite == suite,
        forall|j: int|
            i < j < count ==> (#[trigger] runs[j]).at("head_sha"@).str() != Some(head) || runs[j].at("check_suite_id"@).whole()
                != Some(suite),
    ensures
        check_status::last_listed(runs, head, suite, count) == check_status::listed_run(runs[i], head),
    decreases count,
{
    if i < count - 1 {
        last_listed_is_last(runs, head, suite, i, count - 1);
        assert(runs[count - 1].at("head_sha"@).str() != Some(head) || runs[count - 1].at("check_suite_id"@).whole() != Some(suite));
    }
}

/// A suite that no listed run of the commit has stays as it was known.
pub proof fn unlisted_suites_stay(
    before: Map<u64, WorkflowRun>,
    after: Map<u64, WorkflowRun>,
    runs: Seq<JsonView>,
    head: Seq<char>,
    suite: u64,
)
    requires
        check_status::runs_added(before, after, runs, head, runs.len() as int),
        forall|j: int|
            0 <= j < runs.len() ==> (#[trigger] runs[j]).at("head_sha"@).str() != Some(head) || runs[j].at(
                "check_suite_id"@,
            ).whole() != Some(suite),
    ensures
        after.contains_key(suite) == before.contains_key(suite),
        before.contains_key(suite) ==> after[suite] == before[suite],
{
    unlisted_suites_are_not_found(runs, head, suite, runs.len() as int);
    let listed = check_status::last_listed(runs, head, suite, runs.len() as int);
    assert(listed is None);
    assert(after.contains_key(suite) == before.contains_key(suite));
}

/// A suite that is not listed is not found.
proof fn unlisted_suites_are_not_found(runs: Seq<JsonView>, head: Seq<char>, suite: u64, count: int)
    requires
        0 <= count <= runs.len(),
        forall|j: int|
            0 <= j < runs.len() ==> (#[trigger] runs[j]).at("head_sha"@).str() != Some(head) || runs[j].at(
                "check_suite_id"@,
            ).whole() != Some(suite),
    ensures
        check_status::last_listed(runs, head, suite, count) is None,
    decreases count,
{
    if count > 0 {
        unlisted_suites_are_not_found(runs, head, suite, count - 1);
        assert(runs[count - 1].at("head_sha"@).str() != Some(head) || runs[count - 1].at("check_suite_id"@).whole() != Some(suite));
    }
}

/// Whether a check says what it is: its application, its name, its number and its suite.
pub open spec fn is_identified(check: JsonView) -> bool {
    &&& check.at("app"@).at("id"@).whole() is Some || check.at("app"@).at("slug"@).str() is Some
    &&& check.at("name"@).str() is Some
    &&& check.at("id"@).whole() is Some
    &&& check.at("check_suite"@).at("id"@).whole() is Some
}

/// Whether two checks are of one application and one name.
pub open spec fn is_alike(a: JsonView, b: JsonView) -> bool {
    &&& is_identified(a)
    &&& is_identified(b)
    &&& a.at("app"@) == b.at("app"@)
    &&& a.at("name"@).str() == b.at("name"@).str()
}

/// The suite of a check.
pub open spec fn suite_in(check: JsonView) -> u64 {
    check.at("check_suite"@).at("id"@).whole()->0
}

/// Whether the run of a workflow that a check belongs to is known.
pub open spec fn has_run(check: JsonView, workflows: Map<u64, WorkflowRun>) -> bool {
    check.at("app"@).at("slug"@).str() == Some("github-actions"@) && workflows.contains_key(suite_in(check))
}

/// A check that is run again in its suite replaces the earlier one, which counts no more.
pub proof fn checks_run_again_replace_earlier_ones(
    checks: Seq<JsonView>,
    workflows: Map<u64, WorkflowRun>,
    j: int,
    i: int,
)
    requires
        0 <= i < checks.len(),
        0 <= j < checks.len(),
        is_alike(checks[j], checks[i]),
        suite_in(checks[j]) == suite_in(checks[i]),
        checks[j].at("id"@).whole()->0 > checks[i].at("id"@).whole()->0,
    ensures
        check_status::replaces(checks, workflows, j, i),
        !check_status::replaces(checks, workflows, i, j),
        !check_status::counts(checks, workflows, i),
{
    assert(check_status::replaces(checks, workflows, j, i));
}

/// A later run of a workflow that a push or a pull request starts replaces an earlier one for the
/// same event and branch, in whatever suite. Runs for another event or branch, or of another
/// workflow, do not; and no other events start runs that replace others.
pub proof fn automatic_runs_replace_earlier_ones(
    checks: Seq<JsonView>,
    workflows: Map<u64, WorkflowRun>,
    j: int,
    i: int,
)
    requires
        0 <= i < checks.len(),
        0 <= j < checks.len(),
        is_alike(checks[j], checks[i]),
        has_run(checks[j], workflows),
        has_run(checks[i], workflows),
        workflows[suite_in(checks[j])].run > workflows[suite_in(checks[i])].run,
    ensures
        ({
            let a = workflows[suite_in(checks[j])];
            let b = workflows[suite_in(checks[i])];
            let automatic = b.event@ == "push"@ || b.event@ == "pull_request"@ || b.event@ == "pull_request_target"@;
            &&& check_status::replaces(checks, workflows, j, i) <==> a.workflow == b.workflow && a.event@ == b.event@
                && a.branch@ == b.branch@ && automatic
            &&& !check_status::replaces(checks, workflows, i, j)
        }),
{
}

/// Checks with other names do not replace each other, whatever else they have in common; nor do
/// checks of applications with other numbers.
pub proof fn other_checks_are_not_replaced(
    checks: Seq<JsonView>,
    workflows: Map<u64, WorkflowRun>,
    j: int,
    i: int,
    a: u64,
    b: u64,
)
    requires
        0 <= i < checks.len(),
        0 <= j < checks.len(),
    ensures
        checks[j].at("name"@).str() != checks[i].at("name"@).str() ==> !check_status::replaces(checks, workflows, j, i),
        checks[j].at("app"@).at("id"@).whole() == Some(a) && checks[i].at("app"@).at("id"@).whole() == Some(b) && a != b
            ==> !check_status::replaces(checks, workflows, j, i),
{
    if a != b {
        crate::laws::digits_write_their_number(a);
        crate::laws::digits_write_their_number(b);
        let x = text::decimal_of(a as nat);
        let y = text::decimal_of(b as nat);
        let m = "id:"@;
        assert(x != y);
        if m + x == m + y {
            assert((m + x).skip(m.len() as int) =~= x);
            assert((m + y).skip(m.len() as int) =~= y);
        }
    }
}

// ---------------------------------------------------------------- questions

/// Whether a request asks GitHub a query with values, of which none may be missing in the answer.
pub open spec fn asks_query(request: ApiRequestView, query: Seq<char>, values: Seq<(Seq<char>, JsonView)>) -> bool {
    &&& request.args == seq!["api"@, "graphql"@, "--hostname"@, "github.com"@, "--input"@, "-"@]
    &&& request.payload == Some(
        JsonView::Object(seq![("query"@, JsonView::Text(query)), ("variables"@, JsonView::Object(values))]),
    )
    &&& request.policy == ResponsePolicy::Strict
}

/// Whether a request reads an address of GitHub.
pub open spec fn reads(request: ApiRequestView, endpoint: Seq<char>) -> bool {
    &&& request.args == seq!["api"@, "--hostname"@, "github.com"@, endpoint]
    &&& request.payload is None
    &&& request.policy == ResponsePolicy::Strict
}

/// The account is asked for by its name, plainly or by a query, and is what the answer names.
pub proof fn accounts_are_asked_for(answer: JsonView, login: Seq<char>)
    ensures
        reads(discovery::viewer_question(true), "user"@),
        asks_query(discovery::viewer_question(false), "query { viewer { login } }"@, Seq::empty()),
        discovery::viewer_of(answer, true) == Ok::<Seq<char>, Seq<char>>(login) <==> answer.at("login"@).str() == Some(login),
        discovery::viewer_of(answer, false) == Ok::<Seq<char>, Seq<char>>(login) <==> {
            &&& answer.find("errors"@) is None
            &&& answer.find("data"@) is Some
            &&& answer.find("data"@)->0.at("viewer"@).at("login"@).str() == Some(login)
        },
{
}

/// A pull request is looked up by its owner, its repository and its number.
pub proof fn prs_are_looked_up_by_number(owner: Seq<char>, name: Seq<char>, number: u64)
    requires
        !owner.contains('/'),
    ensures
        discovery::resolve_question(owner + "/"@ + name, number) matches Ok(request) && asks_query(
            request,
            "query($owner:String!,$name:String!,$number:Int!) { repository(owner:$owner,name:$name) { pullRequest(number:$number) { id } } }"@,
            seq![
                ("name"@, JsonView::Text(name)),
                ("number"@, JsonView::Number(Some(number), text::decimal_of(number as nat))),
                ("owner"@, JsonView::Text(owner)),
            ],
        ),
        discovery::resolve_question(owner, number) == Err::<ApiRequestView, Seq<char>>("Repository must be OWNER/REPO"@),
{
    reveal_strlit("/");
    let t = owner + "/"@ + name;
    let at = owner.len() as int;
    assert(t.subrange(at, at + 1) =~= "/"@);
    assert(text::occurs_at(t, "/"@, at));
    assert forall|i: int| 0 <= i < at implies !text::occurs_at(t, "/"@, i) by {
        if text::occurs_at(t, "/"@, i) {
            assert(t.subrange(i, i + 1)[0] == t[i]);
            assert(owner[i] == '/');
        }
    }
    assert(text::first_at(t, "/"@, at));
    let i = text::first_index(t, "/"@).unwrap();
    assert(text::first_at(t, "/"@, i));
    assert(i == at);
    assert(t.take(at) =~= owner);
    assert(t.skip(at + 1) =~= name);
    if text::occurs(owner, "/"@) {
        let k = choose|k: int| text::occurs_at(owner, "/"@, k);
        assert(owner.subrange(k, k + 1)[0] == owner[k]);
        assert(owner.contains('/'));
    }
}

/// A pull request still counts exactly where it has the commit that was read and is open.
pub proof fn unchanged_open_prs_count(answer: JsonView, id: Seq<char>, head: Seq<char>)
    ensures
        asks_query(
            details::head_question(id),
            "query($id:ID!){ node(id:$id){ ... on PullRequest { headRefOid state } } }"@,
            seq![("id"@, JsonView::Text(id))],
        ),
        details::head_verified(answer, head) is Ok <==> {
            &&& answer.find("errors"@) is None
            &&& answer.find("data"@) is Some
            &&& answer.find("data"@)->0.at("node"@).at("headRefOid"@).str() == Some(head)
            &&& answer.find("data"@)->0.at("node"@).at("state"@).str() == Some("OPEN"@)
        },
        answer.find("errors"@) is None && answer.find("data"@) is Some ==> details::head_verified(answer, head) is Ok
            || details::head_verified(answer, head) == Err::<(), Seq<char>>(
            "PR changed while fetching checks; retrying next poll"@,
        ),
{
}

/// The runs of workflows are read page by page, a hundred at a time, of one commit.
pub proof fn workflows_are_read_by_page(repo: Seq<char>, head: Seq<char>, page: u64)
    ensures
        reads(
            check_status::workflow_question(repo, head, page),
            "repos/"@ + repo + "/actions/runs?head_sha="@ + head + "&per_page=100&page="@ + text::decimal_of(page as nat),
        ),
{
}

/// The log names what a request without a query reads.
pub proof fn readings_are_named(args: Seq<Seq<char>>, i: int)
    requires
        0 <= i < args.len(),
    ensures
        text::occurs(args[i], "/check-runs?"@) ==> exchange::kind_of_request(args, None) == "check_runs"@,
        text::occurs(args[i], "/statuses?"@) ==> exchange::kind_of_request(args, None) == "commit_statuses"@
            || exchange::kind_of_request(args, None) == "check_runs"@,
        (forall|k: int|
            0 <= k < args.len() ==> !text::occurs(#[trigger] args[k], "/check-runs?"@) && !text::occurs(args[k], "/statuses?"@))
            ==> exchange::kind_of_request(args, None) == "rest"@,
{
}

/// The log names what a query asks for.
pub proof fn queries_are_named(args: Seq<Seq<char>>, payload: JsonView, query: Seq<char>)
    requires
        payload.at("query"@).str() == Some(query),
    ensures
        ({
            let kind = exchange::kind_of_request(args, Some(payload));
            &&& text::occurs(query, "search("@) ==> kind == "discover_prs"@
            &&& text::occurs(query, "query AuthoredPrs"@) ==> kind == "discover_prs"@
            &&& kind == "viewer"@ ==> text::occurs(query, "viewer {"@)
            &&& !text::occurs(query, "search("@) && !text::occurs(query, "query AuthoredPrs"@) && text::occurs(
                query,
                "viewer {"@,
            ) ==> kind == "viewer"@
        }),
{
    reveal_strlit("discover_prs");
    reveal_strlit("viewer");
    reveal_strlit("pr_details");
    reveal_strlit("verify_head");
    reveal_strlit("resolve_pr");
    assert("discover_prs"@.len() == 12 && "viewer"@.len() == 6 && "pr_details"@.len() == 10);
    assert("verify_head"@.len() == 11 && "resolve_pr"@.len() == 10);
}

// ---------------------------------------------------------------- where and for whom

/// The GitHub CLI that the settings name is the only one that is tried; else it is looked for in
/// the search path first, and then where it usually is.
pub proof fn named_tools_come_first(config: ConfigView, search_path: Seq<char>, i: int)
    ensures
        ({
            let tried = github::candidates_of(config, search_path);
            let directories = text::split_on(search_path, ':');
            &&& config.gh_path matches Some(path) ==> tried == seq![path]
            &&& config.gh_path is None ==> {
                &&& tried.len() == directories.len() + 3
                &&& 0 <= i < directories.len() && directories[i].len() > 0 && directories[i].last() != '/' ==> tried[i]
                    == directories[i] + "/"@ + "gh"@
                &&& 0 <= i < directories.len() && directories[i].len() > 0 && directories[i].last() == '/' ==> tried[i]
                    == directories[i] + "gh"@
                &&& tried[directories.len() as int] == "/opt/homebrew/bin/gh"@
                &&& tried[(directories.len() + 1) as int] == "/usr/local/bin/gh"@
                &&& tried[(directories.len() + 2) as int] == "/usr/bin/gh"@
            }
        }),
{
}

/// Labels that were fetched count exactly where the account was the same one before and after.
pub proof fn labels_count_for_one_account(
    before: Result<Seq<char>, Seq<char>>,
    after: Result<Seq<char>, Seq<char>>,
    viewer: Seq<char>,
    changed: Seq<char>,
    labels: Result<Seq<PrLabelView>, Seq<char>>,
)
    ensures
        ({
            let counted = fetch::counted_labels(
                fetch::account_fault(before, viewer, changed),
                fetch::account_fault(after, viewer, changed),
                labels,
            );
            &&& before == Ok::<Seq<char>, Seq<char>>(viewer) && after == Ok::<Seq<char>, Seq<char>>(viewer) ==> counted
                == labels
            &&& (before is Ok && before->Ok_0 != viewer) ==> counted == Err::<Seq<PrLabelView>, Seq<char>>(changed)
            &&& before matches Err(message) ==> counted == Err::<Seq<PrLabelView>, Seq<char>>(message)
            &&& before == Ok::<Seq<char>, Seq<char>>(viewer) && (after is Ok && after->Ok_0 != viewer) ==> counted == Err::<
                Seq<PrLabelView>,
                Seq<char>,
            >(changed)
            &&& before == Ok::<Seq<char>, Seq<char>>(viewer) && after is Err ==> counted == Err::<
                Seq<PrLabelView>,
                Seq<char>,
            >(after->Err_0)
        }),
{
}

} // verus!
