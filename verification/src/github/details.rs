//! Collecting everything about a pull request, page by page.

use crate::evidence;
use crate::github::check_status;
use crate::github::exchange::{ApiRequest, ApiRequestView, ResponsePolicy};
use crate::github::fields;
use crate::github::{PrRef, PrRefView};
use crate::json::{self, Json, JsonView};
use crate::model::{
    Agent, Check, CheckState, CheckView, Comment, CommentView, PrLabel, PrLabelView, Reaction, ReactionView, Review,
    ReviewView, Snapshot, SnapshotView, Thread, ThreadView,
};
use crate::text;
use vstd::prelude::*;

verus! {

broadcast use vstd::seq_lib::group_seq_properties;

/// The question about a pull request. Independent cursors keep a busy pull request whole.
pub const PR_QUERY: &'static str = r#"
query($id:ID!,$r:String,$c:String,$t:String,$e:String,$reviews:Boolean!,$comments:Boolean!,$threads:Boolean!,$reactions:Boolean!,$l:String,$labels:Boolean!) {
 node(id:$id) { ... on PullRequest {
  title url state isDraft headRefOid mergeable headRefName baseRefName isCrossRepository
  headRepositoryOwner { login }
  labels(first:100,after:$l) @include(if:$labels) {
   pageInfo { hasNextPage endCursor }
   nodes { name color }
  }
  reviews(first:100,after:$r) @include(if:$reviews) {
   pageInfo { hasNextPage endCursor }
   nodes { id author { login } body state submittedAt commit { oid } }
  }
  comments(first:100,after:$c) @include(if:$comments) {
   pageInfo { hasNextPage endCursor }
   nodes { id author { login } body updatedAt }
  }
  reviewThreads(first:100,after:$t) @include(if:$threads) {
   pageInfo { hasNextPage endCursor }
   nodes { id isResolved first:comments(first:1) { nodes { author { login } body } } last:comments(last:1) { nodes { id body updatedAt } } }
  }
  reactions(first:100,after:$e) @include(if:$reactions) {
   pageInfo { hasNextPage endCursor }
   nodes { id user { login } content createdAt }
  }
 } }
}
"#;

/// The question whether a pull request still is what it was.
pub const HEAD_QUERY: &'static str = "query($id:ID!){ node(id:$id){ ... on PullRequest { headRefOid state } } }";

// ---------------------------------------------------------------- what nodes describe

/// The review that a node describes.
pub open spec fn review_of(node: JsonView) -> ReviewView {
    ReviewView {
        id: node.string("id"@),
        author: node.at("author"@).string("login"@),
        body: node.string("body"@),
        state: node.string("state"@),
        commit: node.at("commit"@).string("oid"@),
        submitted_at: node.string("submittedAt"@),
    }
}

/// The comment that a node describes.
pub open spec fn comment_of(node: JsonView) -> CommentView {
    CommentView {
        id: node.string("id"@),
        author: node.at("author"@).string("login"@),
        body: node.string("body"@),
        updated_at: node.string("updatedAt"@),
    }
}

/// The reaction that a node describes.
pub open spec fn reaction_of(node: JsonView) -> ReactionView {
    ReactionView {
        id: node.string("id"@),
        author: node.at("user"@).string("login"@),
        content: node.string("content"@),
        created_at: node.string("createdAt"@),
    }
}

/// The thread that a node describes, by its first and its last comment.
pub open spec fn thread_of(node: JsonView) -> Result<ThreadView, Seq<char>> {
    let first = node.at("first"@).at("nodes"@).item(0);
    let last = node.at("last"@).at("nodes"@).item(0);
    match node.at("isResolved"@).truth() {
        None => Err("Missing thread resolution"@),
        Some(resolved) => Ok(
            ThreadView {
                id: node.string("id"@),
                resolved,
                author: first.at("author"@).string("login"@),
                last_comment_id: last.string("id"@),
                updated_at: last.string("updatedAt"@),
                body_hash: evidence::hash_of(vstd::utf8::encode_utf8(first.string("body"@) + last.string("body"@))),
            },
        ),
    }
}

/// The label that a node describes.
pub open spec fn label_of(node: JsonView) -> Result<PrLabelView, Seq<char>> {
    match fields::required_text(node, "name"@) {
        Err(message) => Err(message),
        Ok(name) => match fields::required_text(node, "color"@) {
            Err(message) => Err(message),
            Ok(color) => Ok(PrLabelView { name, color }),
        },
    }
}

/// The threads that nodes describe, or the first fault.
pub open spec fn threads_of(nodes: Seq<JsonView>) -> Result<Seq<ThreadView>, Seq<char>>
    decreases nodes.len(),
{
    if nodes.len() == 0 {
        Ok(Seq::empty())
    } else {
        match threads_of(nodes.drop_last()) {
            Err(message) => Err(message),
            Ok(before) => match thread_of(nodes.last()) {
                Err(message) => Err(message),
                Ok(thread) => Ok(before.push(thread)),
            },
        }
    }
}

/// The labels that nodes describe, or the first fault.
pub open spec fn labels_of(nodes: Seq<JsonView>) -> Result<Seq<PrLabelView>, Seq<char>>
    decreases nodes.len(),
{
    if nodes.len() == 0 {
        Ok(Seq::empty())
    } else {
        match labels_of(nodes.drop_last()) {
            Err(message) => Err(message),
            Ok(before) => match label_of(nodes.last()) {
                Err(message) => Err(message),
                Ok(label) => Ok(before.push(label)),
            },
        }
    }
}

/// The check that an entry describes.
pub open spec fn check_of(check: JsonView) -> CheckView {
    CheckView {
        id: json::written(check.at("id"@)),
        app: check.at("app"@).string("slug"@),
        name: check.string("name"@),
        status: check.string("status"@),
        conclusion: check.string("conclusion"@),
        started_at: check.string("started_at"@),
        completed_at: check.string("completed_at"@),
        summary: check.at("output"@).string("summary"@),
    }
}

/// The checks of agents among entries.
pub open spec fn agent_checks(checks: Seq<JsonView>) -> Seq<CheckView>
    decreases checks.len(),
{
    if checks.len() == 0 {
        Seq::empty()
    } else {
        let before = agent_checks(checks.drop_last());
        if crate::model::agent_of_app(checks.last().at("app"@).string("slug"@)) is Some {
            before.push(check_of(checks.last()))
        } else {
            before
        }
    }
}

/// The worst of a state and the states of checks.
pub open spec fn worst_of(state: CheckState, checks: Seq<JsonView>) -> CheckState
    decreases checks.len(),
{
    if checks.len() == 0 {
        state
    } else {
        worst_of(state, checks.drop_last()).worse_of(check_status::run_state(checks.last()))
    }
}

/// What the first page says of a pull request apart from its connections.
pub open spec fn opening(reference: PrRefView, pr: JsonView) -> Result<SnapshotView, Seq<char>> {
    let head = fields::required_text(pr, "headRefOid"@);
    let title = fields::required_text(pr, "title"@);
    let url = fields::required_text(pr, "url"@);
    if head is Err {
        Err(head->Err_0)
    } else if title is Err {
        Err(title->Err_0)
    } else if url is Err {
        Err(url->Err_0)
    } else {
        Ok(
            SnapshotView {
                id: reference.id,
                repo: reference.repo,
                number: reference.number,
                title: title->Ok_0,
                url: url->Ok_0,
                head: head->Ok_0,
                head_branch: pr.at("headRefName"@).str(),
                base_branch: pr.at("baseRefName"@).str(),
                source_owner: source_owner_of(pr),
                open: pr.at("state"@).str() == Some("OPEN"@),
                draft: pr.at("isDraft"@).truth() == Some(true),
                reviews: Seq::empty(),
                comments: Seq::empty(),
                reactions: Seq::empty(),
                threads: Seq::empty(),
                checks: Seq::empty(),
                check_state: None,
                labels: Seq::empty(),
            },
        )
    }
}

/// The owner of the source repository, where it is another one.
pub open spec fn source_owner_of(pr: JsonView) -> Option<Seq<char>> {
    if pr.at("isCrossRepository"@).truth() == Some(true) {
        pr.at("headRepositoryOwner"@).at("login"@).str()
    } else {
        None
    }
}

// ---------------------------------------------------------------- computing it

/// The review that a node describes.
fn read_review(node: &Json) -> (r: Review)
    ensures
        r@ == review_of(node@),
{
    Review {
        id: node.string("id"),
        author: node.at("author").string("login"),
        body: node.string("body"),
        state: node.string("state"),
        commit: node.at("commit").string("oid"),
        submitted_at: node.string("submittedAt"),
    }
}

/// The comment that a node describes.
fn read_comment(node: &Json) -> (r: Comment)
    ensures
        r@ == comment_of(node@),
{
    Comment {
        id: node.string("id"),
        author: node.at("author").string("login"),
        body: node.string("body"),
        updated_at: node.string("updatedAt"),
    }
}

/// The reaction that a node describes.
fn read_reaction(node: &Json) -> (r: Reaction)
    ensures
        r@ == reaction_of(node@),
{
    Reaction {
        id: node.string("id"),
        author: node.at("user").string("login"),
        content: node.string("content"),
        created_at: node.string("createdAt"),
    }
}

/// The thread that a node describes.
fn read_thread(node: &Json) -> (r: Result<Thread, String>)
    ensures
        fields::result_view(r) == thread_of(node@),
{
    let first = node.at("first").at("nodes").item(0);
    let last = node.at("last").at("nodes").item(0);
    match node.at("isResolved").as_bool() {
        None => Err("Missing thread resolution".to_owned()),
        Some(resolved) => {
            let body = text::concat(&first.string("body"), &last.string("body"));
            Ok(
                Thread {
                    id: node.string("id"),
                    resolved,
                    author: first.at("author").string("login"),
                    last_comment_id: last.string("id"),
                    updated_at: last.string("updatedAt"),
                    body_hash: evidence::hash(body.as_str().as_bytes()),
                },
            )
        },
    }
}

/// The label that a node describes.
fn read_label(node: &Json) -> (r: Result<PrLabel, String>)
    ensures
        fields::result_view(r) == label_of(node@),
{
    match fields::required(node, "name") {
        Err(message) => Err(message),
        Ok(name) => match fields::required(node, "color") {
            Err(message) => Err(message),
            Ok(color) => Ok(PrLabel { name: name.to_owned(), color: color.to_owned() }),
        },
    }
}

/// The check that an entry describes.
fn read_check(check: &Json) -> (r: Check)
    ensures
        r@ == check_of(check@),
{
    Check {
        id: check.at("id").write(),
        app: check.at("app").string("slug"),
        name: check.string("name"),
        status: check.string("status"),
        conclusion: check.string("conclusion"),
        started_at: check.string("started_at"),
        completed_at: check.string("completed_at"),
        summary: check.at("output").string("summary"),
    }
}

/// The owner of the source repository, where it is another one.
pub fn source_owner(pr: &Json) -> (r: Option<String>)
    ensures
        r.deep_view() == source_owner_of(pr@),
{
    match pr.at("isCrossRepository").as_bool() {
        Some(true) => optional_text(pr.at("headRepositoryOwner").at("login")),
        _ => None,
    }
}

/// The text of a value, where it is one.
pub fn optional_text(value: &Json) -> (r: Option<String>)
    ensures
        r.deep_view() == value@.str(),
{
    match value.as_str() {
        Some(t) => Some(t.to_owned()),
        None => None,
    }
}

/// What the first page says of a pull request apart from its connections.
fn read_opening(reference: &PrRef, pr: &Json) -> (r: Result<Snapshot, String>)
    ensures
        fields::result_view(r) == opening(reference@, pr@),
{
    let head = match fields::required(pr, "headRefOid") {
        Ok(head) => head.to_owned(),
        Err(message) => {
            return Err(message);
        },
    };
    let title = match fields::required(pr, "title") {
        Ok(title) => title.to_owned(),
        Err(message) => {
            return Err(message);
        },
    };
    let url = match fields::required(pr, "url") {
        Ok(url) => url.to_owned(),
        Err(message) => {
            return Err(message);
        },
    };
    let draft = match pr.at("isDraft").as_bool() {
        Some(draft) => draft,
        None => false,
    };
    let blank = Snapshot::default();
    Ok(
        Snapshot {
            id: reference.id.clone(),
            repo: reference.repo.clone(),
            number: reference.number,
            title,
            url,
            head,
            head_branch: optional_text(pr.at("headRefName")),
            base_branch: optional_text(pr.at("baseRefName")),
            source_owner: source_owner(pr),
            open: pr.at("state").is("OPEN"),
            draft,
            reviews: blank.reviews,
            comments: blank.comments,
            reactions: blank.reactions,
            threads: blank.threads,
            checks: blank.checks,
            check_state: None,
            labels: blank.labels,
        },
    )
}

// ---------------------------------------------------------------- commit statuses of CodeRabbit

/// Whether a commit status is one that CodeRabbit set about its review. The name of the
/// context alone proves nothing.
pub open spec fn own_status(status: JsonView) -> bool {
    crate::model::agent_of_login(status.at("creator"@).string("login"@)) == Some(Agent::CodeRabbit) && status.string(
        "context"@,
    ) == "CodeRabbit"@
}

/// The commit statuses that CodeRabbit set about its review.
pub open spec fn own_statuses(statuses: Seq<JsonView>) -> Seq<JsonView>
    decreases statuses.len(),
{
    if statuses.len() == 0 {
        Seq::empty()
    } else if own_status(statuses.last()) {
        own_statuses(statuses.drop_last()).push(statuses.last())
    } else {
        own_statuses(statuses.drop_last())
    }
}

/// The number of a commit status, or zero.
pub open spec fn status_number(status: JsonView) -> u64 {
    match status.at("id"@).whole() {
        Some(n) => n,
        None => 0,
    }
}

/// The index of the first status with the greatest number.
pub open spec fn newest_index(statuses: Seq<JsonView>) -> int
    decreases statuses.len(),
{
    if statuses.len() <= 1 {
        0
    } else {
        let before = newest_index(statuses.drop_last());
        if status_number(statuses.last()) > status_number(statuses[before]) {
            statuses.len() - 1
        } else {
            before
        }
    }
}

/// The status that started the run which the newest status ends: the one before it if that
/// was pending, or else the newest itself.
pub open spec fn started_status(own: Seq<JsonView>) -> JsonView {
    let newest = own[newest_index(own)];
    let rest = own.remove(newest_index(own));
    if newest.string("state"@) != "pending"@ && rest.len() > 0 && rest[newest_index(rest)].string("state"@) == "pending"@ {
        rest[newest_index(rest)]
    } else {
        newest
    }
}

/// The check that commit statuses of CodeRabbit amount to.
pub open spec fn legacy_check(own: Seq<JsonView>) -> CheckView {
    let newest = own[newest_index(own)];
    let pending = newest.string("state"@) == "pending"@;
    CheckView {
        id: json::written(newest.at("id"@)),
        app: "coderabbitai"@,
        name: "CodeRabbit"@,
        status: if pending {
            "in_progress"@
        } else {
            "completed"@
        },
        conclusion: if pending {
            ""@
        } else {
            newest.string("state"@)
        },
        started_at: started_status(own).string("created_at"@),
        completed_at: if pending {
            Seq::empty()
        } else {
            newest.string("created_at"@)
        },
        summary: newest.string("description"@),
    }
}

/// The checks that commit statuses amount to.
pub open spec fn legacy_checks_of(statuses: Seq<JsonView>) -> Seq<CheckView> {
    let own = own_statuses(statuses);
    if own.len() == 0 {
        Seq::empty()
    } else {
        seq![legacy_check(own)]
    }
}

/// The newest index lies within the statuses.
proof fn newest_index_within(statuses: Seq<JsonView>)
    requires
        statuses.len() > 0,
    ensures
        0 <= newest_index(statuses) < statuses.len(),
    decreases statuses.len(),
{
    if statuses.len() > 1 {
        newest_index_within(statuses.drop_last());
    }
}

/// The index of the first status with the greatest number.
fn find_newest(statuses: &Vec<Json>) -> (r: usize)
    requires
        statuses@.len() > 0,
    ensures
        r == newest_index(statuses.deep_view()),
        r < statuses@.len(),
{
    let ghost v = statuses.deep_view();
    let mut newest: usize = 0;
    let mut i: usize = 1;
    while i < statuses.len()
        invariant
            v == statuses.deep_view(),
            1 <= i <= statuses@.len(),
            newest < i,
            newest == newest_index(v.take(i as int)),
        decreases statuses.len() - i,
    {
        assert(v.take(i + 1).drop_last() =~= v.take(i as int));
        assert(v.take(i + 1).last() == statuses@[i as int]@);
        assert(v.take(i + 1)[newest as int] == statuses@[newest as int]@);
        let a: u64 = match statuses[i].at("id").as_u64() {
            Some(n) => n,
            None => 0,
        };
        let b: u64 = match statuses[newest].at("id").as_u64() {
            Some(n) => n,
            None => 0,
        };
        if a > b {
            newest = i;
        }
        i += 1;
    }
    assert(v.take(i as int) =~= v);
    newest
}

/// The checks that commit statuses amount to. CodeRabbit also uses commit statuses, which
/// are separate from check runs.
pub fn legacy_checks(statuses: &[Json]) -> (r: Vec<Check>)
    ensures
        r.deep_view() == legacy_checks_of(check_status::json_views(statuses@)),
{
    let ghost v = check_status::json_views(statuses@);
    let mut own: Vec<Json> = Vec::new();
    let mut i: usize = 0;
    assert(own.deep_view() =~= Seq::empty());
    while i < statuses.len()
        invariant
            v == check_status::json_views(statuses@),
            i <= statuses@.len(),
            own.deep_view() == own_statuses(v.take(i as int)),
        decreases statuses.len() - i,
    {
        let status = &statuses[i];
        assert(v.take(i + 1).drop_last() =~= v.take(i as int));
        assert(v.take(i + 1).last() == status@);
        if Agent::from_login(&status.at("creator").string("login")) == Some(Agent::CodeRabbit) && text::same(
            &status.string("context"),
            "CodeRabbit",
        ) {
            let ghost done = own.deep_view();
            own.push(status.clone());
            assert(own.deep_view() =~= done.push(status@));
        }
        i += 1;
    }
    assert(v.take(i as int) =~= v);
    let mut r: Vec<Check> = Vec::new();
    if own.len() == 0 {
        assert(r.deep_view() =~= Seq::empty());
        return r;
    }
    let ghost all = own.deep_view();
    let at = find_newest(&own);
    let newest = own.remove(at);
    assert(newest@ == all[at as int]);
    assert(own.deep_view() =~= all.remove(at as int));
    let pending = text::same(&newest.string("state"), "pending");
    let mut started_at = newest.string("created_at");
    if !pending && own.len() > 0 {
        let next = find_newest(&own);
        assert(own.deep_view()[next as int] == own@[next as int]@);
        if text::same(&own[next].string("state"), "pending") {
            started_at = own[next].string("created_at");
        }
    }
    let check = Check {
        id: newest.at("id").write(),
        app: "coderabbitai".to_owned(),
        name: "CodeRabbit".to_owned(),
        status: if pending {
            "in_progress".to_owned()
        } else {
            "completed".to_owned()
        },
        conclusion: if pending {
            "".to_owned()
        } else {
            newest.string("state")
        },
        started_at,
        completed_at: if pending {
            String::new()
        } else {
            newest.string("created_at")
        },
        summary: newest.string("description"),
    };
    assert(check@ == legacy_check(all));
    r.push(check);
    assert(r.deep_view() =~= seq![legacy_check(all)]);
    r
}

// ---------------------------------------------------------------- the fetch

/// How far a fetch has come.
#[derive(Clone, Copy, Debug, PartialEq, Eq, Structural)]
pub enum FetchStage {
    First,
    Connections,
    Checks,
    Statuses,
    Done,
}

/// The names of the connections, in the order in which they are read.
pub open spec fn connection_name(index: int) -> Seq<char> {
    if index == 0 {
        "reviews"@
    } else if index == 1 {
        "comments"@
    } else if index == 2 {
        "reviewThreads"@
    } else if index == 3 {
        "reactions"@
    } else {
        "labels"@
    }
}

/// The contents of a [`SnapshotFetch`].
#[verifier::ext_equal]
pub struct FetchView {
    pub reference: PrRefView,
    pub stage: FetchStage,
    pub cursors: Seq<Option<Seq<char>>>,
    pub done: Seq<bool>,
    pub snapshot: SnapshotView,
    pub statuses: Seq<JsonView>,
    pub page: u64,
}

/// Where a connection is read from, or null for its start.
pub open spec fn cursor_value(cursor: Option<Seq<char>>) -> JsonView {
    json::optional_text(cursor)
}

impl FetchView {
    /// Nothing has been read yet.
    pub open spec fn start(reference: PrRefView) -> FetchView {
        FetchView {
            reference,
            stage: FetchStage::First,
            cursors: seq![None, None, None, None, None],
            done: seq![false, false, false, false, false],
            snapshot: SnapshotView::blank(),
            statuses: Seq::empty(),
            page: 1,
        }
    }

    /// The values that the question about the pull request is asked with.
    pub open spec fn variables(self) -> JsonView {
        JsonView::Object(
            seq![
                ("c"@, cursor_value(self.cursors[1])),
                ("comments"@, JsonView::Bool(!self.done[1])),
                ("e"@, cursor_value(self.cursors[3])),
                ("id"@, JsonView::Text(self.reference.id)),
                ("l"@, cursor_value(self.cursors[4])),
                ("labels"@, JsonView::Bool(!self.done[4])),
                ("r"@, cursor_value(self.cursors[0])),
                ("reactions"@, JsonView::Bool(!self.done[3])),
                ("reviews"@, JsonView::Bool(!self.done[0])),
                ("t"@, cursor_value(self.cursors[2])),
                ("threads"@, JsonView::Bool(!self.done[2])),
            ],
        )
    }

    /// The endpoint about the commit.
    pub open spec fn commit_endpoint(self, part: Seq<char>) -> Seq<char> {
        "repos/"@ + self.reference.repo + "/commits/"@ + self.snapshot.head + part + text::decimal_of(self.page as nat)
    }

    /// The next question, unless everything has been read.
    pub open spec fn question(self) -> Option<ApiRequestView> {
        match self.stage {
            FetchStage::First | FetchStage::Connections => Some(
                fields::query_view(PR_QUERY@, self.variables(), ResponsePolicy::Strict),
            ),
            FetchStage::Checks => Some(
                fields::rest_view(self.commit_endpoint("/check-runs?per_page=100&page="@) + "&filter=latest"@),
            ),
            FetchStage::Statuses => Some(fields::rest_view(self.commit_endpoint("/statuses?per_page=100&page="@))),
            FetchStage::Done => None,
        }
    }

    /// The nodes of a connection have been read.
    pub open spec fn with_nodes(self, index: int, nodes: Seq<JsonView>) -> Result<FetchView, Seq<char>> {
        let s = self.snapshot;
        if index == 0 {
            Ok(
                FetchView {
                    snapshot: SnapshotView { reviews: s.reviews + nodes.map_values(|n: JsonView| review_of(n)), ..s },
                    ..self
                },
            )
        } else if index == 1 {
            Ok(
                FetchView {
                    snapshot: SnapshotView { comments: s.comments + nodes.map_values(|n: JsonView| comment_of(n)), ..s },
                    ..self
                },
            )
        } else if index == 2 {
            match threads_of(nodes) {
                Err(message) => Err(message),
                Ok(threads) => Ok(FetchView { snapshot: SnapshotView { threads: s.threads + threads, ..s }, ..self }),
            }
        } else if index == 3 {
            Ok(
                FetchView {
                    snapshot: SnapshotView { reactions: s.reactions + nodes.map_values(|n: JsonView| reaction_of(n)), ..s },
                    ..self
                },
            )
        } else {
            match labels_of(nodes) {
                Err(message) => Err(message),
                Ok(labels) => Ok(FetchView { snapshot: SnapshotView { labels: s.labels + labels, ..s }, ..self }),
            }
        }
    }

    /// A page of a connection has been read, unless the connection was complete before.
    pub open spec fn with_connection(self, index: int, pr: JsonView) -> Result<FetchView, Seq<char>> {
        if self.done[index] {
            Ok(self)
        } else {
            let connection = pr.at(connection_name(index));
            match fields::nodes_of(connection) {
                Err(message) => Err(message),
                Ok(nodes) => match self.with_nodes(index, nodes) {
                    Err(message) => Err(message),
                    Ok(read) => match fields::cursor_of(connection) {
                        Err(message) => Err(message),
                        Ok(Some(cursor)) => Ok(FetchView { cursors: read.cursors.update(index, Some(cursor)), ..read }),
                        Ok(None) => Ok(FetchView { done: read.done.update(index, true), ..read }),
                    },
                },
            }
        }
    }

    /// Pages of the first `count` connections have been read.
    pub open spec fn with_connections(self, pr: JsonView, count: nat) -> Result<FetchView, Seq<char>>
        decreases count,
    {
        if count == 0 {
            Ok(self)
        } else {
            match self.with_connections(pr, (count - 1) as nat) {
                Err(message) => Err(message),
                Ok(before) => before.with_connection(count - 1, pr),
            }
        }
    }

    /// Whether every connection is complete.
    pub open spec fn complete(self) -> bool {
        self.done[0] && self.done[1] && self.done[2] && self.done[3] && self.done[4]
    }

    /// A page about an open pull request has come. The latest page says whether it can be
    /// merged: GitHub may find that out while pages are read.
    pub open spec fn with_page(self, pr: JsonView) -> Result<FetchView, Seq<char>> {
        let state = if pr.at("mergeable"@).str() == Some("CONFLICTING"@) {
            CheckState::Conflicts
        } else {
            CheckState::Green
        };
        let marked = FetchView {
            stage: FetchStage::Connections,
            snapshot: SnapshotView { check_state: Some(state), ..self.snapshot },
            ..self
        };
        match marked.with_connections(pr, 5) {
            Err(message) => Err(message),
            Ok(read) => Ok(
                if read.complete() {
                    FetchView { stage: FetchStage::Checks, page: 1, ..read }
                } else {
                    read
                },
            ),
        }
    }

    /// The answer to the question about the pull request has come. Nothing more is read of
    /// one that is closed, and one that changes while it is read is given up.
    pub open spec fn after_page(self, answer: JsonView) -> Result<FetchView, Seq<char>> {
        match fields::data_of(answer) {
            Err(message) => Err(message),
            Ok(data) => {
                let pr = data.at("node"@);
                let head = fields::required_text(pr, "headRefOid"@);
                if head is Err {
                    Err(head->Err_0)
                } else if self.stage == FetchStage::First {
                    match opening(self.reference, pr) {
                        Err(message) => Err(message),
                        Ok(snapshot) => if snapshot.open {
                            FetchView { snapshot, ..self }.with_page(pr)
                        } else {
                            Ok(FetchView { snapshot, stage: FetchStage::Done, ..self })
                        },
                    }
                } else if self.snapshot.head != head->Ok_0 || pr.at("state"@).str() != Some("OPEN"@) {
                    Err("PR changed during pagination; retrying next poll"@)
                } else {
                    self.with_page(pr)
                }
            },
        }
    }

    /// The state of continuous integration that has been read so far.
    pub open spec fn check_state(self) -> CheckState {
        match self.snapshot.check_state {
            Some(state) => state,
            None => CheckState::Green,
        }
    }

    /// A page of check runs has come.
    pub open spec fn after_checks(self, answer: JsonView) -> Result<FetchView, Seq<char>> {
        match answer.at("check_runs"@).list() {
            None => Err("Missing check runs"@),
            Some(checks) => Ok(
                FetchView {
                    snapshot: SnapshotView {
                        check_state: Some(worst_of(self.check_state(), checks)),
                        checks: self.snapshot.checks + agent_checks(checks),
                        ..self.snapshot
                    },
                    stage: if checks.len() < 100 {
                        FetchStage::Statuses
                    } else {
                        FetchStage::Checks
                    },
                    page: if checks.len() < 100 {
                        1
                    } else {
                        next_page(self.page)
                    },
                    ..self
                },
            ),
        }
    }

    /// A page of commit statuses has come.
    pub open spec fn after_statuses(self, answer: JsonView) -> Result<FetchView, Seq<char>> {
        match answer.list() {
            None => Err("Missing commit statuses"@),
            Some(values) => {
                let statuses = self.statuses + values;
                if values.len() >= 100 {
                    Ok(FetchView { statuses, page: next_page(self.page), ..self })
                } else {
                    let state = check_status::worst_status(statuses, check_status::contexts_of(statuses), statuses.len());
                    Ok(
                        FetchView {
                            statuses,
                            stage: FetchStage::Done,
                            snapshot: SnapshotView {
                                checks: self.snapshot.checks + legacy_checks_of(statuses),
                                check_state: Some(self.check_state().worse_of(state)),
                                ..self.snapshot
                            },
                            ..self
                        },
                    )
                }
            },
        }
    }

    /// The answer to the next question has come.
    pub open spec fn after(self, answer: JsonView) -> Result<FetchView, Seq<char>> {
        match self.stage {
            FetchStage::First | FetchStage::Connections => self.after_page(answer),
            FetchStage::Checks => self.after_checks(answer),
            FetchStage::Statuses => self.after_statuses(answer),
            FetchStage::Done => Ok(self),
        }
    }
}

/// The page after another.
pub open spec fn next_page(page: u64) -> u64 {
    if page == u64::MAX {
        page
    } else {
        (page + 1) as u64
    }
}

/// A fetch of everything about a pull request.
pub struct SnapshotFetch {
    reference: PrRef,
    stage: FetchStage,
    cursors: Vec<Option<String>>,
    done: Vec<bool>,
    snapshot: Snapshot,
    statuses: Vec<Json>,
    page: u64,
}

impl View for SnapshotFetch {
    type V = FetchView;

    closed spec fn view(&self) -> FetchView {
        FetchView {
            reference: self.reference@,
            stage: self.stage,
            cursors: self.cursors.deep_view(),
            done: self.done@,
            snapshot: self.snapshot@,
            statuses: self.statuses.deep_view(),
            page: self.page,
        }
    }
}

impl DeepView for SnapshotFetch {
    type V = FetchView;

    open spec fn deep_view(&self) -> FetchView {
        self@
    }
}

impl SnapshotFetch {
    #[verifier::type_invariant]
    spec fn five_connections(&self) -> bool {
        self.cursors@.len() == 5 && self.done@.len() == 5
    }

    /// Starts a fetch.
    pub fn new(reference: PrRef) -> (r: SnapshotFetch)
        ensures
            r@ == FetchView::start(reference@),
    {
        let snapshot = Snapshot::default();
        let r = SnapshotFetch {
            reference,
            stage: FetchStage::First,
            cursors: vec![None, None, None, None, None],
            done: vec![false, false, false, false, false],
            snapshot,
            statuses: Vec::new(),
            page: 1,
        };
        assert(r.cursors.deep_view() =~= seq![None, None, None, None, None]);
        assert(r.done@ =~= seq![false, false, false, false, false]);
        assert(r.statuses.deep_view() =~= Seq::empty());
        r
    }

    /// The endpoint about the commit.
    fn commit_endpoint(&self, part: &str) -> (r: String)
        ensures
            r@ == self@.commit_endpoint(part@),
    {
        let base = text::concat3("repos/", &self.reference.repo, "/commits/");
        text::concat(&text::concat3(&base, &self.snapshot.head, part), &text::decimal(self.page))
    }

    /// The next question, unless everything has been read.
    pub fn request(&self) -> (r: Option<ApiRequest>)
        ensures
            r.deep_view() == self@.question(),
    {
        proof {
            use_type_invariant(self);
        }
        match self.stage {
            FetchStage::First | FetchStage::Connections => {
                let variables = Json::Object(
                    vec![
                        ("c".to_owned(), Json::optional(&self.cursors[1])),
                        ("comments".to_owned(), Json::boolean(!self.done[1])),
                        ("e".to_owned(), Json::optional(&self.cursors[3])),
                        ("id".to_owned(), Json::text(&self.reference.id)),
                        ("l".to_owned(), Json::optional(&self.cursors[4])),
                        ("labels".to_owned(), Json::boolean(!self.done[4])),
                        ("r".to_owned(), Json::optional(&self.cursors[0])),
                        ("reactions".to_owned(), Json::boolean(!self.done[3])),
                        ("reviews".to_owned(), Json::boolean(!self.done[0])),
                        ("t".to_owned(), Json::optional(&self.cursors[2])),
                        ("threads".to_owned(), Json::boolean(!self.done[2])),
                    ],
                );
                assert(variables@->Object_0 =~= self@.variables()->Object_0);
                Some(fields::query(PR_QUERY, variables, ResponsePolicy::Strict))
            },
            FetchStage::Checks => {
                let endpoint = self.commit_endpoint("/check-runs?per_page=100&page=");
                Some(fields::rest(&text::concat(&endpoint, "&filter=latest")))
            },
            FetchStage::Statuses => Some(fields::rest(&self.commit_endpoint("/statuses?per_page=100&page="))),
            FetchStage::Done => None,
        }
    }

    /// Whether everything has been read.
    pub fn is_done(&self) -> (r: bool)
        ensures
            r == (self@.stage == FetchStage::Done),
    {
        self.stage == FetchStage::Done
    }

    /// What has been read.
    pub fn into_snapshot(self) -> (r: Snapshot)
        ensures
            r@ == self@.snapshot,
    {
        self.snapshot
    }
}

/// Adds the reviews that nodes describe.
fn add_reviews(reviews: &mut Vec<Review>, nodes: &Vec<Json>)
    ensures
        final(reviews).deep_view() == old(reviews).deep_view() + nodes.deep_view().map_values(|n: JsonView| review_of(n)),
{
    let ghost before = reviews.deep_view();
    let ghost v = nodes.deep_view();
    let mut i: usize = 0;
    while i < nodes.len()
        invariant
            v == nodes.deep_view(),
            i <= nodes@.len(),
            reviews.deep_view() =~= before + v.take(i as int).map_values(|n: JsonView| review_of(n)),
        decreases nodes.len() - i,
    {
        let ghost done = reviews.deep_view();
        reviews.push(read_review(&nodes[i]));
        assert(v[i as int] == nodes@[i as int]@);
        assert(reviews.deep_view() =~= done.push(review_of(v[i as int])));
        i += 1;
    }
    assert(v.take(i as int) =~= v);
}

/// Adds the comments that nodes describe.
fn add_comments(comments: &mut Vec<Comment>, nodes: &Vec<Json>)
    ensures
        final(comments).deep_view() == old(comments).deep_view() + nodes.deep_view().map_values(
            |n: JsonView| comment_of(n),
        ),
{
    let ghost before = comments.deep_view();
    let ghost v = nodes.deep_view();
    let mut i: usize = 0;
    while i < nodes.len()
        invariant
            v == nodes.deep_view(),
            i <= nodes@.len(),
            comments.deep_view() =~= before + v.take(i as int).map_values(|n: JsonView| comment_of(n)),
        decreases nodes.len() - i,
    {
        let ghost done = comments.deep_view();
        comments.push(read_comment(&nodes[i]));
        assert(v[i as int] == nodes@[i as int]@);
        assert(comments.deep_view() =~= done.push(comment_of(v[i as int])));
        i += 1;
    }
    assert(v.take(i as int) =~= v);
}

/// Adds the reactions that nodes describe.
fn add_reactions(reactions: &mut Vec<Reaction>, nodes: &Vec<Json>)
    ensures
        final(reactions).deep_view() == old(reactions).deep_view() + nodes.deep_view().map_values(
            |n: JsonView| reaction_of(n),
        ),
{
    let ghost before = reactions.deep_view();
    let ghost v = nodes.deep_view();
    let mut i: usize = 0;
    while i < nodes.len()
        invariant
            v == nodes.deep_view(),
            i <= nodes@.len(),
            reactions.deep_view() =~= before + v.take(i as int).map_values(|n: JsonView| reaction_of(n)),
        decreases nodes.len() - i,
    {
        let ghost done = reactions.deep_view();
        reactions.push(read_reaction(&nodes[i]));
        assert(v[i as int] == nodes@[i as int]@);
        assert(reactions.deep_view() =~= done.push(reaction_of(v[i as int])));
        i += 1;
    }
    assert(v.take(i as int) =~= v);
}

/// A fault in some nodes is the fault of all of them.
proof fn thread_faults_stay(nodes: Seq<JsonView>, i: int)
    requires
        0 <= i <= nodes.len(),
        threads_of(nodes.take(i)) is Err,
    ensures
        threads_of(nodes) == threads_of(nodes.take(i)),
    decreases nodes.len() - i,
{
    if i < nodes.len() {
        assert(nodes.take(i + 1).drop_last() =~= nodes.take(i));
        thread_faults_stay(nodes, i + 1);
    } else {
        assert(nodes.take(i) =~= nodes);
    }
}

/// A fault in some nodes is the fault of all of them.
proof fn label_faults_stay(nodes: Seq<JsonView>, i: int)
    requires
        0 <= i <= nodes.len(),
        labels_of(nodes.take(i)) is Err,
    ensures
        labels_of(nodes) == labels_of(nodes.take(i)),
    decreases nodes.len() - i,
{
    if i < nodes.len() {
        assert(nodes.take(i + 1).drop_last() =~= nodes.take(i));
        label_faults_stay(nodes, i + 1);
    } else {
        assert(nodes.take(i) =~= nodes);
    }
}

/// Adds the threads that nodes describe.
fn add_threads(threads: &mut Vec<Thread>, nodes: &Vec<Json>) -> (r: Result<(), String>)
    ensures
        match r {
            Ok(_) => threads_of(nodes.deep_view()) is Ok && final(threads).deep_view() == old(threads).deep_view()
                + threads_of(nodes.deep_view())->Ok_0,
            Err(message) => threads_of(nodes.deep_view()) == Err::<Seq<ThreadView>, Seq<char>>(message@),
        },
{
    let ghost before = threads.deep_view();
    let ghost v = nodes.deep_view();
    let mut i: usize = 0;
    assert(threads.deep_view() =~= before + Seq::<ThreadView>::empty());
    while i < nodes.len()
        invariant
            v == nodes.deep_view(),
            i <= nodes@.len(),
            threads_of(v.take(i as int)) is Ok,
            threads.deep_view() =~= before + threads_of(v.take(i as int))->Ok_0,
        decreases nodes.len() - i,
    {
        let ghost done = threads.deep_view();
        assert(v.take(i + 1).drop_last() =~= v.take(i as int));
        assert(v.take(i + 1).last() == nodes@[i as int]@);
        match read_thread(&nodes[i]) {
            Ok(thread) => {
                let ghost new = thread@;
                threads.push(thread);
                assert(threads.deep_view() =~= done.push(new));
            },
            Err(message) => {
                proof {
                    thread_faults_stay(v, i + 1);
                }
                return Err(message);
            },
        }
        i += 1;
    }
    assert(v.take(i as int) =~= v);
    Ok(())
}

/// Adds the labels that nodes describe.
fn add_labels(labels: &mut Vec<PrLabel>, nodes: &Vec<Json>) -> (r: Result<(), String>)
    ensures
        match r {
            Ok(_) => labels_of(nodes.deep_view()) is Ok && final(labels).deep_view() == old(labels).deep_view() + labels_of(
                nodes.deep_view(),
            )->Ok_0,
            Err(message) => labels_of(nodes.deep_view()) == Err::<Seq<PrLabelView>, Seq<char>>(message@),
        },
{
    let ghost before = labels.deep_view();
    let ghost v = nodes.deep_view();
    let mut i: usize = 0;
    assert(labels.deep_view() =~= before + Seq::<PrLabelView>::empty());
    while i < nodes.len()
        invariant
            v == nodes.deep_view(),
            i <= nodes@.len(),
            labels_of(v.take(i as int)) is Ok,
            labels.deep_view() =~= before + labels_of(v.take(i as int))->Ok_0,
        decreases nodes.len() - i,
    {
        let ghost done = labels.deep_view();
        assert(v.take(i + 1).drop_last() =~= v.take(i as int));
        assert(v.take(i + 1).last() == nodes@[i as int]@);
        match read_label(&nodes[i]) {
            Ok(label) => {
                let ghost new = label@;
                labels.push(label);
                assert(labels.deep_view() =~= done.push(new));
            },
            Err(message) => {
                proof {
                    label_faults_stay(v, i + 1);
                }
                return Err(message);
            },
        }
        i += 1;
    }
    assert(v.take(i as int) =~= v);
    Ok(())
}

impl SnapshotFetch {
    /// The nodes of a connection have been read.
    fn with_nodes(self, index: usize, nodes: &Vec<Json>) -> (r: Result<SnapshotFetch, String>)
        requires
            index < 5,
        ensures
            fields::result_view(r) == self@.with_nodes(index as int, nodes.deep_view()),
            r is Ok ==> r->Ok_0@.cursors.len() == 5 && r->Ok_0@.done.len() == 5,
    {
        proof {
            use_type_invariant(&self);
        }
        let ghost was = self@;
        let mut snapshot = self.snapshot;
        if index == 0 {
            add_reviews(&mut snapshot.reviews, nodes);
        } else if index == 1 {
            add_comments(&mut snapshot.comments, nodes);
        } else if index == 2 {
            if let Err(message) = add_threads(&mut snapshot.threads, nodes) {
                return Err(message);
            }
        } else if index == 3 {
            add_reactions(&mut snapshot.reactions, nodes);
        } else {
            if let Err(message) = add_labels(&mut snapshot.labels, nodes) {
                return Err(message);
            }
        }
        let r = SnapshotFetch {
            reference: self.reference,
            stage: self.stage,
            cursors: self.cursors,
            done: self.done,
            snapshot,
            statuses: self.statuses,
            page: self.page,
        };
        assert(r@ == was.with_nodes(index as int, nodes.deep_view())->Ok_0);
        Ok(r)
    }

    /// A page of a connection has been read, unless the connection was complete before.
    fn with_connection(self, index: usize, pr: &Json) -> (r: Result<SnapshotFetch, String>)
        requires
            index < 5,
        ensures
            fields::result_view(r) == self@.with_connection(index as int, pr@),
    {
        proof {
            use_type_invariant(&self);
        }
        if self.done[index] {
            return Ok(self);
        }
        let name = if index == 0 {
            "reviews"
        } else if index == 1 {
            "comments"
        } else if index == 2 {
            "reviewThreads"
        } else if index == 3 {
            "reactions"
        } else {
            "labels"
        };
        let connection = pr.at(name);
        let nodes = match fields::nodes(connection) {
            Ok(nodes) => nodes,
            Err(message) => {
                return Err(message);
            },
        };
        let read = match self.with_nodes(index, nodes) {
            Ok(read) => read,
            Err(message) => {
                return Err(message);
            },
        };
        let ghost seen = read@;
        match fields::next_cursor(connection) {
            Err(message) => Err(message),
            Ok(Some(cursor)) => {
                let mut cursors = read.cursors;
                let ghost at = cursor@;
                cursors.set(index, Some(cursor));
                assert(cursors.deep_view() =~= seen.cursors.update(index as int, Some(at)));
                Ok(
                    SnapshotFetch {
                        reference: read.reference,
                        stage: read.stage,
                        cursors,
                        done: read.done,
                        snapshot: read.snapshot,
                        statuses: read.statuses,
                        page: read.page,
                    },
                )
            },
            Ok(None) => {
                let mut done = read.done;
                done.set(index, true);
                assert(done@ =~= seen.done.update(index as int, true));
                Ok(
                    SnapshotFetch {
                        reference: read.reference,
                        stage: read.stage,
                        cursors: read.cursors,
                        done,
                        snapshot: read.snapshot,
                        statuses: read.statuses,
                        page: read.page,
                    },
                )
            },
        }
    }

    /// The stage, the page and the snapshot are other ones.
    fn replace(self, stage: FetchStage, page: u64, snapshot: Snapshot) -> (r: SnapshotFetch)
        ensures
            r@ == (FetchView { stage, page, snapshot: snapshot@, ..self@ }),
    {
        proof {
            use_type_invariant(&self);
        }
        SnapshotFetch {
            reference: self.reference,
            stage,
            cursors: self.cursors,
            done: self.done,
            snapshot,
            statuses: self.statuses,
            page,
        }
    }

    /// A page about an open pull request has come.
    fn with_page(self, pr: &Json) -> (r: Result<SnapshotFetch, String>)
        ensures
            fields::result_view(r) == self@.with_page(pr@),
    {
        let state = if pr.at("mergeable").is("CONFLICTING") {
            CheckState::Conflicts
        } else {
            CheckState::Green
        };
        let page: u64 = self.page;
        let mut snapshot = self.snapshot.clone();
        snapshot.check_state = Some(state);
        let mut current = self.replace(FetchStage::Connections, page, snapshot);
        let ghost marked = current@;
        let mut i: usize = 0;
        while i < 5
            invariant
                i <= 5,
                marked.with_connections(pr@, i as nat) == Ok::<FetchView, Seq<char>>(current@),
                self@.with_page(pr@) == (match marked.with_connections(pr@, 5) {
                    Err(message) => Err(message),
                    Ok(read) => Ok(
                        if read.complete() {
                            FetchView { stage: FetchStage::Checks, page: 1, ..read }
                        } else {
                            read
                        },
                    ),
                }),
            decreases 5 - i,
        {
            match current.with_connection(i, pr) {
                Ok(next) => {
                    current = next;
                },
                Err(message) => {
                    proof {
                        connection_faults_stay(marked, pr@, i as nat, 5);
                    }
                    return Err(message);
                },
            }
            i += 1;
        }
        proof {
            use_type_invariant(&current);
        }
        if current.done[0] && current.done[1] && current.done[2] && current.done[3] && current.done[4] {
            let read = current.snapshot.clone();
            Ok(current.replace(FetchStage::Checks, 1, read))
        } else {
            Ok(current)
        }
    }

    /// The answer to the question about the pull request has come.
    fn after_page(self, answer: &Json) -> (r: Result<SnapshotFetch, String>)
        ensures
            fields::result_view(r) == self@.after_page(answer@),
    {
        let data = match fields::graphql_data(answer) {
            Ok(data) => data,
            Err(message) => {
                return Err(message);
            },
        };
        let pr = data.at("node");
        let head = match fields::required(pr, "headRefOid") {
            Ok(head) => head,
            Err(message) => {
                return Err(message);
            },
        };
        if self.stage == FetchStage::First {
            let snapshot = match read_opening(&self.reference, pr) {
                Ok(snapshot) => snapshot,
                Err(message) => {
                    return Err(message);
                },
            };
            let page: u64 = self.page;
            if snapshot.open {
                return self.replace(FetchStage::First, page, snapshot).with_page(pr);
            }
            return Ok(self.replace(FetchStage::Done, page, snapshot));
        }
        if !text::same(&self.snapshot.head, head) || !pr.at("state").is("OPEN") {
            return Err("PR changed during pagination; retrying next poll".to_owned());
        }
        self.with_page(pr)
    }

    /// A page of check runs has come.
    fn after_checks(self, answer: &Json) -> (r: Result<SnapshotFetch, String>)
        ensures
            fields::result_view(r) == self@.after_checks(answer@),
    {
        let listed = answer.at("check_runs");
        let entries = match listed.as_array() {
            Some(entries) => entries,
            None => {
                return Err("Missing check runs".to_owned());
            },
        };
        let ghost v = entries.deep_view();
        let ghost was = self@;
        let mut snapshot = self.snapshot.clone();
        let first = match snapshot.check_state {
            Some(state) => state,
            None => CheckState::Green,
        };
        let mut state = first;
        let mut i: usize = 0;
        assert(snapshot.checks.deep_view() =~= was.snapshot.checks + Seq::<CheckView>::empty());
        while i < entries.len()
            invariant
                v == entries.deep_view(),
                i <= entries@.len(),
                state == worst_of(first, v.take(i as int)),
                snapshot.checks.deep_view() =~= was.snapshot.checks + agent_checks(v.take(i as int)),
                snapshot@ == (SnapshotView { checks: snapshot.checks.deep_view(), ..was.snapshot }),
            decreases entries.len() - i,
        {
            let check = &entries[i];
            assert(v.take(i + 1).drop_last() =~= v.take(i as int));
            assert(v.take(i + 1).last() == check@);
            state = state.worse(check_status::check_run(check));
            if Agent::from_app(&check.at("app").string("slug")).is_some() {
                let ghost done = snapshot.checks.deep_view();
                snapshot.checks.push(read_check(check));
                assert(snapshot.checks.deep_view() =~= done.push(check_of(check@)));
            }
            i += 1;
        }
        assert(v.take(i as int) =~= v);
        snapshot.check_state = Some(state);
        let page: u64 = self.page;
        Ok(
            if entries.len() < 100 {
                self.replace(FetchStage::Statuses, 1, snapshot)
            } else {
                self.replace(FetchStage::Checks, page.saturating_add(1), snapshot)
            },
        )
    }

    /// A page of commit statuses has come.
    fn after_statuses(self, answer: &Json) -> (r: Result<SnapshotFetch, String>)
        ensures
            fields::result_view(r) == self@.after_statuses(answer@),
    {
        let values = match answer.as_array() {
            Some(values) => values,
            None => {
                return Err("Missing commit statuses".to_owned());
            },
        };
        proof {
            use_type_invariant(&self);
        }
        let ghost v = values.deep_view();
        let ghost was = self@;
        let mut statuses = self.statuses;
        let mut i: usize = 0;
        while i < values.len()
            invariant
                v == values.deep_view(),
                i <= values@.len(),
                statuses.deep_view() =~= was.statuses + v.take(i as int),
            decreases values.len() - i,
        {
            let ghost done = statuses.deep_view();
            statuses.push(values[i].clone());
            assert(v[i as int] == values@[i as int]@);
            assert(statuses.deep_view() =~= done.push(v[i as int]));
            i += 1;
        }
        assert(v.take(i as int) =~= v);
        assert(statuses.deep_view() =~= was.statuses + v);
        let mut snapshot = self.snapshot;
        let mut stage = self.stage;
        let mut page: u64 = self.page;
        if values.len() >= 100 {
            page = page.saturating_add(1);
        } else {
            assert(check_status::json_views(statuses@) =~= statuses.deep_view());
            let mut legacy = legacy_checks(&statuses);
            let ghost more = legacy.deep_view();
            let ghost held = snapshot.checks.deep_view();
            let ghost left = snapshot.checks@;
            let ghost right = legacy@;
            snapshot.checks.append(&mut legacy);
            assert(snapshot.checks.deep_view() =~= held + more);
            let state = match snapshot.check_state {
                Some(state) => state,
                None => CheckState::Green,
            };
            snapshot.check_state = Some(state.worse(check_status::commit_statuses(&statuses)));
            stage = FetchStage::Done;
        }
        Ok(
            SnapshotFetch {
                reference: self.reference,
                stage,
                cursors: self.cursors,
                done: self.done,
                snapshot,
                statuses,
                page,
            },
        )
    }

    /// The answer to the next question has come.
    pub fn accept(self, answer: &Json) -> (r: Result<SnapshotFetch, String>)
        ensures
            fields::result_view(r) == self@.after(answer@),
    {
        match self.stage {
            FetchStage::First | FetchStage::Connections => self.after_page(answer),
            FetchStage::Checks => self.after_checks(answer),
            FetchStage::Statuses => self.after_statuses(answer),
            FetchStage::Done => Ok(self),
        }
    }
}

/// A fault in some connections is the fault of all of them.
proof fn connection_faults_stay(fetch: FetchView, pr: JsonView, i: nat, count: nat)
    requires
        i < count,
        fetch.with_connections(pr, i) is Ok,
        fetch.with_connections(pr, i)->Ok_0.with_connection(i as int, pr) is Err,
    ensures
        fetch.with_connections(pr, count) == Err::<FetchView, Seq<char>>(
            fetch.with_connections(pr, i)->Ok_0.with_connection(i as int, pr)->Err_0,
        ),
    decreases count - i,
{
    if i + 1 < count {
        connection_faults_stay(fetch, pr, i, (count - 1) as nat);
    }
}

/// The question whether a pull request still has the commit that was read.
pub open spec fn head_question(id: Seq<char>) -> ApiRequestView {
    fields::query_view(HEAD_QUERY@, JsonView::Object(seq![("id"@, JsonView::Text(id))]), ResponsePolicy::Strict)
}

/// Whether the answer says that a pull request still has the commit that was read and is
/// open.
pub open spec fn head_verified(answer: JsonView, head: Seq<char>) -> Result<(), Seq<char>> {
    match fields::data_of(answer) {
        Err(message) => Err(message),
        Ok(data) => if data.at("node"@).at("headRefOid"@).str() == Some(head) && data.at("node"@).at("state"@).str() == Some(
            "OPEN"@,
        ) {
            Ok(())
        } else {
            Err("PR changed while fetching checks; retrying next poll"@)
        },
    }
}

/// The question whether a pull request still has the commit that was read.
pub fn head_request(id: &str) -> (r: ApiRequest)
    ensures
        r@ == head_question(id@),
{
    let variables = Json::Object(vec![("id".to_owned(), Json::text(id))]);
    assert(variables@->Object_0 =~= seq![("id"@, JsonView::Text(id@))]);
    fields::query(HEAD_QUERY, variables, ResponsePolicy::Strict)
}

/// Checks that a pull request still has the commit that was read and is open.
pub fn verify_head(answer: &Json, head: &str) -> (r: Result<(), String>)
    ensures
        fields::result_view(r) == head_verified(answer@, head@),
{
    let data = match fields::graphql_data(answer) {
        Ok(data) => data,
        Err(message) => {
            return Err(message);
        },
    };
    let node = data.at("node");
    if node.at("headRefOid").is(head) && node.at("state").is("OPEN") {
        Ok(())
    } else {
        Err("PR changed while fetching checks; retrying next poll".to_owned())
    }
}

// ---------------------------------------------------------------- laws

/// A pull request whose commit changes while its pages are read is given up.
pub proof fn changed_head_is_refused(fetch: FetchView, answer: JsonView, data: JsonView, head: Seq<char>)
    requires
        fetch.stage == FetchStage::Connections,
        fields::data_of(answer) == Ok::<JsonView, Seq<char>>(data),
        fields::required_text(data.at("node"@), "headRefOid"@) == Ok::<Seq<char>, Seq<char>>(head),
        head != fetch.snapshot.head,
    ensures
        fetch.after(answer) is Err,
{
}

/// The commit that a fetch is about never changes once it is known.
pub proof fn head_is_kept(fetch: FetchView, answer: JsonView)
    requires
        fetch.stage != FetchStage::First,
        fetch.after(answer) is Ok,
    ensures
        fetch.after(answer)->Ok_0.snapshot.head == fetch.snapshot.head,
        fetch.after(answer)->Ok_0.snapshot.id == fetch.snapshot.id,
{
    if fetch.stage == FetchStage::Connections {
        let pr = fields::data_of(answer)->Ok_0.at("node"@);
        let state = if pr.at("mergeable"@).str() == Some("CONFLICTING"@) {
            CheckState::Conflicts
        } else {
            CheckState::Green
        };
        let marked = FetchView {
            stage: FetchStage::Connections,
            snapshot: SnapshotView { check_state: Some(state), ..fetch.snapshot },
            ..fetch
        };
        connections_keep_head(marked, pr, 5);
    }
}

/// Reading connections keeps the commit.
proof fn connections_keep_head(fetch: FetchView, pr: JsonView, count: nat)
    requires
        fetch.with_connections(pr, count) is Ok,
    ensures
        fetch.with_connections(pr, count)->Ok_0.snapshot.head == fetch.snapshot.head,
        fetch.with_connections(pr, count)->Ok_0.snapshot.id == fetch.snapshot.id,
    decreases count,
{
    if count > 0 {
        connections_keep_head(fetch, pr, (count - 1) as nat);
    }
}

} // verus!
