//! The state of continuous integration, resolving the identity of workflows only for
//! names that are ambiguous.

use crate::github::exchange::{ApiRequest, ApiRequestView};
use crate::github::{details, fields};
use crate::json::{Json, JsonView};
use crate::model::CheckState;
use crate::text;
use std::collections::BTreeMap;
use vstd::prelude::*;

verus! {

broadcast use {vstd::seq_lib::group_seq_properties, vstd::std_specs::btree::group_btree_axioms};

/// A run of a workflow.
#[derive(Debug)]
pub struct WorkflowRun {
    pub workflow: u64,
    pub run: u64,
    pub event: String,
    pub branch: String,
}

impl Clone for WorkflowRun {
    fn clone(&self) -> (r: Self)
        ensures
            r.workflow == self.workflow,
            r.run == self.run,
            r.event@ == self.event@,
            r.branch@ == self.branch@,
    {
        WorkflowRun { workflow: self.workflow, run: self.run, event: self.event.clone(), branch: self.branch.clone() }
    }
}

/// Within what a check replaces an earlier one of its name: a suite, the runs of a
/// workflow for an event on a branch, or a single run.
pub enum ScopeView {
    Suite(u64),
    Workflow(u64, Seq<char>, Seq<char>),
    Execution(u64),
}

/// What identifies a check among those that it may replace, and its place among them.
pub struct IdentityView {
    pub app: Seq<char>,
    pub scope: ScopeView,
    pub name: Seq<char>,
    pub order: (u64, u64),
}

/// The app that a check belongs to, by its number or else by its slug.
pub open spec fn app_key(check: JsonView) -> Option<Seq<char>> {
    match check.at("app"@).at("id"@).whole() {
        Some(id) => Some("id:"@ + text::decimal_of(id as nat)),
        None => match check.at("app"@).at("slug"@).str() {
            Some(slug) => Some("slug:"@ + slug),
            None => None,
        },
    }
}

/// Whether an event starts runs by itself.
pub open spec fn automatic(event: Seq<char>) -> bool {
    event == "push"@ || event == "pull_request"@ || event == "pull_request_target"@
}

/// The run of a workflow that a check belongs to, where that is known.
pub open spec fn workflow_of(check: JsonView, suite: u64, workflows: Map<u64, WorkflowRun>) -> Option<WorkflowRun> {
    if check.at("app"@).at("slug"@).str() == Some("github-actions"@) && workflows.contains_key(suite) {
        Some(workflows[suite])
    } else {
        None
    }
}

/// What identifies a check, where it says enough. Runs that a push or a pull request
/// starts replace earlier ones in the same context. Other runs may have other inputs, so
/// only jobs within one run replace one another there. Without a known workflow, names
/// alone do not establish replacement beyond a suite.
pub open spec fn identity_of(check: JsonView, workflows: Map<u64, WorkflowRun>) -> Option<IdentityView> {
    let app = app_key(check);
    let name = check.at("name"@).str();
    let id = check.at("id"@).whole();
    let suite = check.at("check_suite"@).at("id"@).whole();
    if app is Some && name is Some && id is Some && suite is Some {
        let run = workflow_of(check, suite->0, workflows);
        Some(
            IdentityView {
                app: app->0,
                scope: match run {
                    Some(run) => if automatic(run.event@) {
                        ScopeView::Workflow(run.workflow, run.event@, run.branch@)
                    } else {
                        ScopeView::Execution(run.run)
                    },
                    None => ScopeView::Suite(suite->0),
                },
                name: name->0,
                order: match run {
                    Some(run) => (run.run, id->0),
                    None => (0, id->0),
                },
            },
        )
    } else {
        None
    }
}

/// Whether two checks are of one kind, so that the later one replaces the other.
pub open spec fn same_group(a: IdentityView, b: IdentityView) -> bool {
    a.app == b.app && a.scope == b.scope && a.name == b.name
}

/// Whether a place stands before another.
pub open spec fn order_lt(a: (u64, u64), b: (u64, u64)) -> bool {
    a.0 < b.0 || (a.0 == b.0 && a.1 < b.1)
}

/// Whether the check at `j` replaces the one at `i`: it is of the same kind and later, or
/// has the same place and stands before it in the list.
pub open spec fn replaces(checks: Seq<JsonView>, workflows: Map<u64, WorkflowRun>, j: int, i: int) -> bool {
    match (identity_of(checks[j], workflows), identity_of(checks[i], workflows)) {
        (Some(a), Some(b)) => same_group(a, b) && (order_lt(b.order, a.order) || (a.order == b.order && j < i)),
        _ => false,
    }
}

/// Whether a check counts: no other one replaces it. One that does not say what it is
/// always counts.
pub open spec fn counts(checks: Seq<JsonView>, workflows: Map<u64, WorkflowRun>, i: int) -> bool {
    forall|j: int| 0 <= j < checks.len() ==> !replaces(checks, workflows, j, i)
}

/// The state of a single check.
pub open spec fn run_state(check: JsonView) -> CheckState {
    let conclusion = check.at("conclusion"@).str();
    if check.at("status"@).str() != Some("completed"@) {
        CheckState::Running
    } else if conclusion == Some("success"@) || conclusion == Some("neutral"@) || conclusion == Some("skipped"@) {
        CheckState::Green
    } else {
        CheckState::Failed
    }
}

/// The worst state among those of the first `count` checks that count.
pub open spec fn worst_run(checks: Seq<JsonView>, workflows: Map<u64, WorkflowRun>, count: nat) -> CheckState
    decreases count,
{
    if count == 0 {
        CheckState::Green
    } else {
        let before = worst_run(checks, workflows, (count - 1) as nat);
        if counts(checks, workflows, count - 1) {
            before.worse_of(run_state(checks[count - 1]))
        } else {
            before
        }
    }
}

/// The place of a check among those that it may replace.
enum Scope {
    Suite(u64),
    Workflow(u64, String, String),
    Execution(u64),
}

impl Scope {
    spec fn contents(&self) -> ScopeView {
        match self {
            Scope::Suite(id) => ScopeView::Suite(*id),
            Scope::Workflow(id, event, branch) => ScopeView::Workflow(*id, event@, branch@),
            Scope::Execution(id) => ScopeView::Execution(*id),
        }
    }

    /// Whether two scopes are the same.
    fn same(&self, other: &Scope) -> (r: bool)
        ensures
            r == (self.contents() == other.contents()),
    {
        match (self, other) {
            (Scope::Suite(a), Scope::Suite(b)) => *a == *b,
            (Scope::Workflow(a, e, x), Scope::Workflow(b, f, y)) => *a == *b && text::same(e, f) && text::same(x, y),
            (Scope::Execution(a), Scope::Execution(b)) => *a == *b,
            _ => false,
        }
    }
}

/// What identifies a check.
struct Identity {
    app: String,
    scope: Scope,
    name: String,
    order: (u64, u64),
}

impl Identity {
    spec fn contents(&self) -> IdentityView {
        IdentityView { app: self.app@, scope: self.scope.contents(), name: self.name@, order: self.order }
    }
}

/// The contents of an optional identity.
spec fn identity_view(identity: Option<Identity>) -> Option<IdentityView> {
    match identity {
        Some(i) => Some(i.contents()),
        None => None,
    }
}

/// What identifies a check, where it says enough.
fn identify(check: &Json, workflows: &BTreeMap<u64, WorkflowRun>) -> (r: Option<Identity>)
    ensures
        identity_view(r) == identity_of(check@, workflows@),
{
    let app = match check.at("app").at("id").as_u64() {
        Some(id) => text::concat("id:", &text::decimal(id)),
        None => match check.at("app").at("slug").as_str() {
            Some(slug) => text::concat("slug:", slug),
            None => {
                return None;
            },
        },
    };
    let name = match check.at("name").as_str() {
        Some(name) => name.to_owned(),
        None => {
            return None;
        },
    };
    let id: u64 = match check.at("id").as_u64() {
        Some(id) => id,
        None => {
            return None;
        },
    };
    let suite: u64 = match check.at("check_suite").at("id").as_u64() {
        Some(suite) => suite,
        None => {
            return None;
        },
    };
    let known = if check.at("app").at("slug").is("github-actions") {
        workflows.get(&suite)
    } else {
        None
    };
    match known {
        Some(run) => {
            let order: (u64, u64) = (run.run, id);
            if text::same(&run.event, "push") || text::same(&run.event, "pull_request") || text::same(
                &run.event,
                "pull_request_target",
            ) {
                Some(
                    Identity {
                        app,
                        scope: Scope::Workflow(run.workflow, run.event.clone(), run.branch.clone()),
                        name,
                        order,
                    },
                )
            } else {
                Some(Identity { app, scope: Scope::Execution(run.run), name, order })
            }
        },
        None => Some(Identity { app, scope: Scope::Suite(suite), name, order: (0, id) }),
    }
}

/// Whether the check at `j` replaces the one at `i`.
fn does_replace(a: &Option<Identity>, b: &Option<Identity>, j: usize, i: usize) -> (r: bool)
    ensures
        r == match (identity_view(*a), identity_view(*b)) {
            (Some(a), Some(b)) => same_group(a, b) && (order_lt(b.order, a.order) || (a.order == b.order && j < i)),
            _ => false,
        },
{
    match (a, b) {
        (Some(a), Some(b)) => text::same(&a.app, &b.app) && a.scope.same(&b.scope) && text::same(&a.name, &b.name) && (
        b.order.0 < a.order.0 || (b.order.0 == a.order.0 && (b.order.1 < a.order.1 || (b.order.1 == a.order.1 && j < i)))),
        _ => false,
    }
}

/// The state of a single check.
pub fn check_run(check: &Json) -> (r: CheckState)
    ensures
        r == run_state(check@),
{
    if !check.at("status").is("completed") {
        return CheckState::Running;
    }
    let conclusion = check.at("conclusion");
    if conclusion.is("success") || conclusion.is("neutral") || conclusion.is("skipped") {
        CheckState::Green
    } else {
        CheckState::Failed
    }
}

/// The state of all checks: the worst among those that no later check replaces.
pub fn check_runs(checks: &[Json], workflows: &BTreeMap<u64, WorkflowRun>) -> (r: CheckState)
    ensures
        r == worst_run(json_views(checks@), workflows@, checks@.len()),
{
    let ghost v = json_views(checks@);
    let mut identities: Vec<Option<Identity>> = Vec::new();
    let mut i: usize = 0;
    while i < checks.len()
        invariant
            v == json_views(checks@),
            i <= checks@.len(),
            identities@.len() == i,
            forall|k: int| 0 <= k < i ==> identity_view(#[trigger] identities@[k]) == identity_of(v[k], workflows@),
        decreases checks.len() - i,
    {
        identities.push(identify(&checks[i], workflows));
        i += 1;
    }
    let mut state = CheckState::Green;
    i = 0;
    while i < checks.len()
        invariant
            v == json_views(checks@),
            i <= checks@.len(),
            identities@.len() == checks@.len(),
            forall|k: int|
                0 <= k < checks@.len() ==> identity_view(#[trigger] identities@[k]) == identity_of(v[k], workflows@),
            state == worst_run(v, workflows@, i as nat),
        decreases checks.len() - i,
    {
        let mut replaced = false;
        let mut j: usize = 0;
        while j < checks.len()
            invariant
                v == json_views(checks@),
                i < checks@.len(),
                j <= checks@.len(),
                identities@.len() == checks@.len(),
                forall|k: int|
                    0 <= k < checks@.len() ==> identity_view(#[trigger] identities@[k]) == identity_of(v[k], workflows@),
                replaced == exists|k: int| 0 <= k < j && #[trigger] replaces(v, workflows@, k, i as int),
            decreases checks.len() - j,
        {
            let now = does_replace(&identities[j], &identities[i], j, i);
            assert(now == replaces(v, workflows@, j as int, i as int));
            replaced = replaced || now;
            j += 1;
        }
        assert(replaced == !counts(v, workflows@, i as int));
        if !replaced {
            state = state.worse(check_run(&checks[i]));
        }
        i += 1;
    }
    state
}

/// The contents of values.
pub open spec fn json_views(values: Seq<Json>) -> Seq<JsonView> {
    Seq::new(values.len(), |i: int| values[i]@)
}

// ---------------------------------------------------------------- ambiguous names

/// Whether a check is a job of GitHub Actions that says its name and its suite.
pub open spec fn is_job(check: JsonView) -> bool {
    check.at("app"@).at("slug"@).str() == Some("github-actions"@) && check.at("name"@).str() is Some && check.at(
        "check_suite"@,
    ).at("id"@).whole() is Some
}

/// Whether two jobs have one name in two suites.
pub open spec fn ambiguous_pair(a: JsonView, b: JsonView) -> bool {
    is_job(a) && is_job(b) && a.at("name"@).str() == b.at("name"@).str() && a.at("check_suite"@).at("id"@).whole() != b.at(
        "check_suite"@,
    ).at("id"@).whole()
}

/// Whether the identity of workflows is needed: some name of a job occurs in two suites.
pub open spec fn ambiguous(checks: Seq<JsonView>) -> bool {
    exists|i: int, j: int|
        0 <= i < j < checks.len() && ambiguous_pair(#[trigger] checks[i], #[trigger] checks[j])
}

/// Whether a check is a job that says its name and its suite.
fn job(check: &Json) -> (r: bool)
    ensures
        r == is_job(check@),
{
    check.at("app").at("slug").is("github-actions") && check.at("name").as_str().is_some() && check.at("check_suite").at(
        "id",
    ).as_u64().is_some()
}

/// Whether two checks are jobs with one name in two suites.
fn ambiguous_jobs(a: &Json, b: &Json) -> (r: bool)
    ensures
        r == ambiguous_pair(a@, b@),
{
    if !job(a) || !job(b) {
        return false;
    }
    let same_name = match b.at("name").as_str() {
        Some(name) => a.at("name").is(name),
        None => false,
    };
    same_name && a.at("check_suite").at("id").as_u64() != b.at("check_suite").at("id").as_u64()
}

/// Whether the identity of workflows is needed.
pub fn needs_workflow_identity(checks: &[Json]) -> (r: bool)
    ensures
        r == ambiguous(json_views(checks@)),
{
    let ghost v = json_views(checks@);
    let mut i: usize = 0;
    while i < checks.len()
        invariant
            v == json_views(checks@),
            i <= checks@.len(),
            forall|a: int, b: int| 0 <= a < b < i ==> !ambiguous_pair(#[trigger] v[a], #[trigger] v[b]),
        decreases checks.len() - i,
    {
        let mut j: usize = 0;
        while j < i
            invariant
                v == json_views(checks@),
                j <= i < checks@.len(),
                forall|a: int, b: int| 0 <= a < b < i ==> !ambiguous_pair(#[trigger] v[a], #[trigger] v[b]),
                forall|a: int| 0 <= a < j ==> !ambiguous_pair(#[trigger] v[a], v[i as int]),
            decreases i - j,
        {
            if ambiguous_jobs(&checks[j], &checks[i]) {
                assert(ambiguous_pair(v[j as int], v[i as int]));
                return true;
            }
            j += 1;
        }
        i += 1;
    }
    false
}

// ---------------------------------------------------------------- workflow runs

/// The run of a workflow that a reply describes.
pub struct ListedRun {
    pub suite: u64,
    pub workflow: u64,
    pub run: u64,
    pub event: Seq<char>,
    pub branch: Seq<char>,
}

/// The run of a workflow that a reply describes, where it says enough and is about the
/// commit.
pub open spec fn listed_run(run: JsonView, head: Seq<char>) -> Option<ListedRun> {
    let suite = run.at("check_suite_id"@).whole();
    let workflow = run.at("workflow_id"@).whole();
    let id = run.at("id"@).whole();
    let event = run.at("event"@).str();
    let branch = run.at("head_branch"@).str();
    if run.at("head_sha"@).str() == Some(head) && suite is Some && workflow is Some && id is Some && event is Some && branch
        is Some {
        Some(ListedRun { suite: suite->0, workflow: workflow->0, run: id->0, event: event->0, branch: branch->0 })
    } else {
        None
    }
}

/// Whether what is known of a suite is what a reply describes.
pub open spec fn describes(known: WorkflowRun, listed: ListedRun) -> bool {
    known.workflow == listed.workflow && known.run == listed.run && known.event@ == listed.event && known.branch@
        == listed.branch
}

/// Whether `after` is what is known once the first `count` listed runs have been added to
/// what was known before: of each suite the run that is listed last, or else what was known.
pub open spec fn runs_added(
    before: Map<u64, WorkflowRun>,
    after: Map<u64, WorkflowRun>,
    runs: Seq<JsonView>,
    head: Seq<char>,
    count: int,
) -> bool {
    forall|suite: u64|
        match last_listed(runs, head, suite, count) {
            Some(listed) => #[trigger] after.contains_key(suite) && describes(after[suite], listed),
            None => after.contains_key(suite) == before.contains_key(suite) && (before.contains_key(suite) ==> after[suite]
                == before[suite]),
        }
}

/// The last among the first `count` listed runs that is about a suite.
pub open spec fn last_listed(runs: Seq<JsonView>, head: Seq<char>, suite: u64, count: int) -> Option<ListedRun>
    decreases count,
{
    if count <= 0 || count > runs.len() {
        None
    } else if listed_run(runs[count - 1], head) is Some && (listed_run(runs[count - 1], head)->0).suite == suite {
        listed_run(runs[count - 1], head)
    } else {
        last_listed(runs, head, suite, count - 1)
    }
}

/// Adds a page of workflow runs to those that are known. Says whether another page may
/// follow.
pub fn add_workflow_runs(data: &Json, head: &str, workflows: &mut BTreeMap<u64, WorkflowRun>) -> (r: Result<bool, String>)
    ensures
        match data@.at("workflow_runs"@).list() {
            Some(runs) => r == Ok::<bool, String>(runs.len() >= 100) && runs_added(
                old(workflows)@,
                final(workflows)@,
                runs,
                head@,
                runs.len() as int,
            ),
            None => r is Err && r->Err_0@ == "Missing workflow runs"@ && final(workflows)@ == old(workflows)@,
        },
{
    let list = data.at("workflow_runs");
    let runs = match list.as_array() {
        Some(runs) => runs,
        None => {
            return Err("Missing workflow runs".to_owned());
        },
    };
    let ghost v = list@.list()->0;
    let ghost before = workflows@;
    let mut i: usize = 0;
    while i < runs.len()
        invariant
            runs.deep_view() == v,
            i <= runs@.len(),
            runs_added(before, workflows@, v, head@, i as int),
        decreases runs.len() - i,
    {
        let run = &runs[i];
        assert(v[i as int] == run@);
        if run.at("head_sha").is(head) {
            if let (Some(suite), Some(workflow), Some(id), Some(event), Some(branch)) = (
                run.at("check_suite_id").as_u64(),
                run.at("workflow_id").as_u64(),
                run.at("id").as_u64(),
                run.at("event").as_str(),
                run.at("head_branch").as_str(),
            ) {
                workflows.insert(
                    suite,
                    WorkflowRun { workflow, run: id, event: event.to_owned(), branch: branch.to_owned() },
                );
            }
        }
        i += 1;
    }
    Ok(runs.len() >= 100)
}

/// A fetch of the workflow runs of a commit.
pub struct WorkflowFetch {
    pub repo: String,
    pub head: String,
    pub page: u64,
    pub done: bool,
    /// The runs that were read, by their suites.
    pub workflows: BTreeMap<u64, WorkflowRun>,
}

/// The question for a page of the workflow runs of a commit.
pub open spec fn workflow_question(repo: Seq<char>, head: Seq<char>, page: u64) -> ApiRequestView {
    fields::rest_view(
        "repos/"@ + repo + "/actions/runs?head_sha="@ + head + "&per_page=100&page="@ + text::decimal_of(page as nat),
    )
}

impl WorkflowFetch {
    /// Starts a fetch.
    pub fn new(repo: &str, head: &str) -> (r: WorkflowFetch)
        ensures
            r.repo@ == repo@,
            r.head@ == head@,
            r.page == 1,
            !r.done,
            r.workflows@ == Map::<u64, WorkflowRun>::empty(),
    {
        WorkflowFetch { repo: repo.to_owned(), head: head.to_owned(), page: 1, done: false, workflows: BTreeMap::new() }
    }

    /// The next question, unless everything has been read.
    pub fn request(&self) -> (r: Option<ApiRequest>)
        ensures
            r.deep_view() == (if self.done {
                None
            } else {
                Some(workflow_question(self.repo@, self.head@, self.page))
            }),
    {
        if self.done {
            return None;
        }
        let start = text::concat3("repos/", &self.repo, "/actions/runs?head_sha=");
        let commit = text::concat3(&start, &self.head, "&per_page=100&page=");
        Some(fields::rest(&text::concat(&commit, &text::decimal(self.page))))
    }

    /// A page of workflow runs has come.
    pub fn accept(self, answer: &Json) -> (r: Result<WorkflowFetch, String>)
        ensures
            match answer@.at("workflow_runs"@).list() {
                Some(runs) => match r {
                    Ok(next) => {
                        &&& next.repo@ == self.repo@
                        &&& next.head@ == self.head@
                        &&& next.page == details::next_page(self.page)
                        &&& next.done == (runs.len() < 100)
                        &&& runs_added(self.workflows@, next.workflows@, runs, self.head@, runs.len() as int)
                    },
                    Err(_) => false,
                },
                None => r is Err && r->Err_0@ == "Missing workflow runs"@,
            },
    {
        let mut workflows = self.workflows;
        match add_workflow_runs(answer, &self.head, &mut workflows) {
            Ok(more) => Ok(
                WorkflowFetch {
                    repo: self.repo,
                    head: self.head,
                    page: self.page.saturating_add(1),
                    done: !more,
                    workflows,
                },
            ),
            Err(message) => Err(message),
        }
    }
}

// ---------------------------------------------------------------- commit statuses

/// Whether an optional number is greater than another; none is less than any.
pub open spec fn number_gt(a: Option<u64>, b: Option<u64>) -> bool {
    match (a, b) {
        (Some(a), Some(b)) => a > b,
        (Some(_), None) => true,
        _ => false,
    }
}

/// The context of a commit status, without regard to case.
pub open spec fn context_of(status: JsonView) -> Seq<char> {
    text::unicode_lowercase(status.string("context"@))
}

/// Whether the status at `j` replaces the one at `i`: it has the same context and a
/// greater number, or the same number and stands before it.
pub open spec fn status_replaces(statuses: Seq<JsonView>, contexts: Seq<Seq<char>>, j: int, i: int) -> bool {
    let a = statuses[j].at("id"@).whole();
    let b = statuses[i].at("id"@).whole();
    contexts[j] == contexts[i] && (number_gt(a, b) || (a == b && j < i))
}

/// Whether a status counts: no other one replaces it.
pub open spec fn status_counts(statuses: Seq<JsonView>, contexts: Seq<Seq<char>>, i: int) -> bool {
    forall|j: int| 0 <= j < statuses.len() ==> !status_replaces(statuses, contexts, j, i)
}

/// The state of a single commit status.
pub open spec fn status_state(status: JsonView) -> CheckState {
    let state = status.at("state"@).str();
    if state == Some("success"@) {
        CheckState::Green
    } else if state == Some("pending"@) {
        CheckState::Running
    } else {
        CheckState::Failed
    }
}

/// The worst state among those of the first `count` statuses that count.
pub open spec fn worst_status(statuses: Seq<JsonView>, contexts: Seq<Seq<char>>, count: nat) -> CheckState
    decreases count,
{
    if count == 0 {
        CheckState::Green
    } else {
        let before = worst_status(statuses, contexts, (count - 1) as nat);
        if status_counts(statuses, contexts, count - 1) {
            before.worse_of(status_state(statuses[count - 1]))
        } else {
            before
        }
    }
}

/// The contexts of commit statuses.
pub open spec fn contexts_of(statuses: Seq<JsonView>) -> Seq<Seq<char>> {
    statuses.map_values(|s: JsonView| context_of(s))
}

/// The state of commit statuses, given the context of each without regard to case.
pub fn latest_statuses(statuses: &[Json], contexts: &Vec<String>) -> (r: CheckState)
    requires
        contexts@.len() == statuses@.len(),
    ensures
        r == worst_status(json_views(statuses@), contexts.deep_view(), statuses@.len()),
{
    let ghost v = json_views(statuses@);
    let ghost c = contexts.deep_view();
    let mut state = CheckState::Green;
    let mut i: usize = 0;
    while i < statuses.len()
        invariant
            v == json_views(statuses@),
            c == contexts.deep_view(),
            contexts@.len() == statuses@.len(),
            i <= statuses@.len(),
            state == worst_status(v, c, i as nat),
        decreases statuses.len() - i,
    {
        let mut replaced = false;
        let mut j: usize = 0;
        while j < statuses.len()
            invariant
                v == json_views(statuses@),
                c == contexts.deep_view(),
                contexts@.len() == statuses@.len(),
                i < statuses@.len(),
                j <= statuses@.len(),
                replaced == exists|k: int| 0 <= k < j && #[trigger] status_replaces(v, c, k, i as int),
            decreases statuses.len() - j,
        {
            let a: Option<u64> = statuses[j].at("id").as_u64();
            let b: Option<u64> = statuses[i].at("id").as_u64();
            let later = match (a, b) {
                (Some(x), Some(y)) => x > y || (x == y && j < i),
                (Some(_), None) => true,
                (None, Some(_)) => false,
                (None, None) => j < i,
            };
            assert(c[j as int] == contexts@[j as int]@);
            assert(c[i as int] == contexts@[i as int]@);
            let now = later && text::same(&contexts[j], &contexts[i]);
            assert(now == status_replaces(v, c, j as int, i as int));
            replaced = replaced || now;
            j += 1;
        }
        assert(replaced == !status_counts(v, c, i as int));
        if !replaced {
            let status = statuses[i].at("state");
            state = state.worse(
                if status.is("success") {
                    CheckState::Green
                } else if status.is("pending") {
                    CheckState::Running
                } else {
                    CheckState::Failed
                },
            );
        }
        i += 1;
    }
    state
}

/// The state of commit statuses. They are a history: only the latest status of each
/// context counts, whoever set it.
pub fn commit_statuses(statuses: &[Json]) -> (r: CheckState)
    ensures
        r == worst_status(json_views(statuses@), contexts_of(json_views(statuses@)), statuses@.len()),
{
    let ghost v = json_views(statuses@);
    let mut contexts: Vec<String> = Vec::new();
    let mut i: usize = 0;
    while i < statuses.len()
        invariant
            v == json_views(statuses@),
            i <= statuses@.len(),
            contexts.deep_view() == contexts_of(v.take(i as int)),
        decreases statuses.len() - i,
    {
        let ghost done = contexts.deep_view();
        let context = text::lowercase(&statuses[i].string("context"));
        let ghost new = context@;
        contexts.push(context);
        assert(contexts.deep_view() =~= done.push(new));
        assert(contexts.deep_view() =~= contexts_of(v.take(i + 1)));
        i += 1;
    }
    assert(v.take(i as int) =~= v);
    latest_statuses(statuses, &contexts)
}

// ---------------------------------------------------------------- laws

/// The worst state is at least as severe as that of any check that counts.
pub proof fn counted_runs_block(checks: Seq<JsonView>, workflows: Map<u64, WorkflowRun>, count: nat, i: int)
    requires
        0 <= i < count,
        counts(checks, workflows, i),
    ensures
        worst_run(checks, workflows, count).severity() >= run_state(checks[i]).severity(),
    decreases count,
{
    if i < count - 1 {
        counted_runs_block(checks, workflows, (count - 1) as nat, i);
    }
}

/// A state other than green is that of some check that counts.
pub proof fn worst_run_is_some_run(checks: Seq<JsonView>, workflows: Map<u64, WorkflowRun>, count: nat)
    requires
        worst_run(checks, workflows, count) != CheckState::Green,
    ensures
        exists|i: int|
            0 <= i < count && #[trigger] counts(checks, workflows, i) && run_state(checks[i]) == worst_run(
                checks,
                workflows,
                count,
            ),
    decreases count,
{
    let before = worst_run(checks, workflows, (count - 1) as nat);
    if worst_run(checks, workflows, count) == before {
        worst_run_is_some_run(checks, workflows, (count - 1) as nat);
        let i = choose|i: int|
            0 <= i < count - 1 && #[trigger] counts(checks, workflows, i) && run_state(checks[i]) == before;
        assert(counts(checks, workflows, i));
    } else {
        assert(counts(checks, workflows, count - 1));
    }
}

/// A check that does not say what it is can neither be replaced nor replace another.
pub proof fn unidentified_runs_count(checks: Seq<JsonView>, workflows: Map<u64, WorkflowRun>, i: int)
    requires
        0 <= i < checks.len(),
        identity_of(checks[i], workflows) is None,
    ensures
        counts(checks, workflows, i),
{
}

/// Checks in different suites do not replace each other unless their workflows are known.
pub proof fn unknown_workflows_keep_suites_apart(
    checks: Seq<JsonView>,
    workflows: Map<u64, WorkflowRun>,
    j: int,
    i: int,
)
    requires
        checks[j].at("check_suite"@).at("id"@).whole() != checks[i].at("check_suite"@).at("id"@).whole(),
        checks[i].at("check_suite"@).at("id"@).whole() is Some,
        !workflows.contains_key(checks[i].at("check_suite"@).at("id"@).whole()->0),
    ensures
        !replaces(checks, workflows, j, i),
{
}

} // verus!
