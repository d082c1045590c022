//! What holds of the collection of a pull request, whatever GitHub answers.

use crate::github::check_status;
use crate::github::details;
use crate::github::details::{FetchStage, FetchView};
use crate::github::discovery_laws::{asks, goes_on, is_last_page, maybe};
use crate::github::exchange::{ApiRequestView, ResponsePolicy};
use crate::github::PrRefView;
use crate::json::JsonView;
use crate::model::{agent_of_app, agent_of_login, Agent, CheckState, CheckView, SnapshotView};
use crate::text;
use vstd::prelude::*;

verus! {

broadcast use vstd::seq_lib::group_seq_properties;

// ---------------------------------------------------------------- severity

/// Of two states of checks the worse one counts, whichever comes first: conflicts before
/// failures, failures before runs that go on, and those before all that is green.
pub proof fn the_worse_state_counts(a: CheckState, b: CheckState)
    ensures
        a.worse_of(b) == b.worse_of(a),
        a.worse_of(b) == a || a.worse_of(b) == b,
        a == CheckState::Conflicts ==> a.worse_of(b) == CheckState::Conflicts,
        a == CheckState::Failed && b != CheckState::Conflicts ==> a.worse_of(b) == CheckState::Failed,
        a == CheckState::Running && b == CheckState::Green ==> a.worse_of(b) == CheckState::Running,
{
}

/// Whether a state is at least as bad as another.
pub open spec fn as_bad(a: CheckState, b: CheckState) -> bool {
    a.worse_of(b) == a
}

/// A check run goes on until it is completed, and has then failed unless it succeeded, was
/// neutral or was skipped.
pub proof fn runs_are_green_only_by_their_conclusion(check: JsonView)
    ensures
        check.at("status"@) != JsonView::Text("completed"@) ==> check_status::run_state(check) == CheckState::Running,
        check.at("status"@) == JsonView::Text("completed"@) ==> {
            let conclusion = check.at("conclusion"@);
            let green = conclusion == JsonView::Text("success"@) || conclusion == JsonView::Text("neutral"@) || conclusion
                == JsonView::Text("skipped"@);
            check_status::run_state(check) == (if green {
                CheckState::Green
            } else {
                CheckState::Failed
            })
        },
{
}

/// A commit status is green when it is a success, goes on while it is pending, and has failed
/// otherwise.
pub proof fn statuses_are_green_only_by_success(status: JsonView)
    ensures
        check_status::status_state(status) == (if status.at("state"@) == JsonView::Text("success"@) {
            CheckState::Green
        } else if status.at("state"@) == JsonView::Text("pending"@) {
            CheckState::Running
        } else {
            CheckState::Failed
        }),
{
}

/// Check runs together are as bad as the worst of them, and no worse.
pub proof fn the_worst_run_counts(state: CheckState, checks: Seq<JsonView>, k: int)
    ensures
        as_bad(details::worst_of(state, checks), state),
        0 <= k < checks.len() ==> as_bad(details::worst_of(state, checks), check_status::run_state(checks[k])),
        details::worst_of(state, checks) == state || exists|j: int|
            0 <= j < checks.len() && check_status::run_state(#[trigger] checks[j]) == details::worst_of(state, checks),
    decreases checks.len(),
{
    if checks.len() > 0 {
        let rest = checks.drop_last();
        the_worst_run_counts(state, rest, k);
        if 0 <= k < rest.len() {
            assert(rest[k] == checks[k]);
        }
        let before = details::worst_of(state, rest);
        if details::worst_of(state, checks) == before && before != state {
            let j = choose|j: int|
                0 <= j < rest.len() && check_status::run_state(#[trigger] rest[j]) == details::worst_of(state, rest);
            assert(checks[j] == rest[j]);
        } else if details::worst_of(state, checks) != state {
            assert(check_status::run_state(checks[checks.len() - 1]) == details::worst_of(state, checks));
        }
    }
}

/// Whether a commit status is the latest of its context: all others have smaller numbers.
pub open spec fn is_latest(statuses: Seq<JsonView>, i: int) -> bool {
    &&& 0 <= i < statuses.len()
    &&& statuses[i].at("id"@).whole() is Some
    &&& forall|j: int|
        0 <= j < statuses.len() && j != i && text::unicode_lowercase((#[trigger] statuses[j]).string("context"@))
            == text::unicode_lowercase(statuses[i].string("context"@)) ==> statuses[j].at("id"@).whole() is None
            || statuses[j].at("id"@).whole()->0 < statuses[i].at("id"@).whole()->0
}

/// Commit statuses together are as bad as the latest of each context, whoever set it.
pub proof fn latest_statuses_count(statuses: Seq<JsonView>, i: int)
    requires
        is_latest(statuses, i),
    ensures
        as_bad(
            check_status::worst_status(statuses, check_status::contexts_of(statuses), statuses.len()),
            check_status::status_state(statuses[i]),
        ),
{
    let contexts = check_status::contexts_of(statuses);
    assert forall|j: int| 0 <= j < statuses.len() implies !check_status::status_replaces(statuses, contexts, j, i) by {
        assert(contexts[j] == text::unicode_lowercase(statuses[j].string("context"@)));
        assert(contexts[i] == text::unicode_lowercase(statuses[i].string("context"@)));
    }
    counted_statuses_block(statuses, contexts, statuses.len(), i);
}

/// A status that counts makes the whole as bad as itself.
proof fn counted_statuses_block(statuses: Seq<JsonView>, contexts: Seq<Seq<char>>, count: nat, i: int)
    requires
        0 <= i < count,
        check_status::status_counts(statuses, contexts, i),
    ensures
        as_bad(check_status::worst_status(statuses, contexts, count), check_status::status_state(statuses[i])),
    decreases count,
{
    if i < count - 1 {
        counted_statuses_block(statuses, contexts, (count - 1) as nat, i);
    }
}

/// A status that a later one of its context replaced does not count: where all the latest are
/// green, the whole is.
pub proof fn replaced_statuses_do_not_count(statuses: Seq<JsonView>)
    requires
        forall|i: int|
            0 <= i < statuses.len() && check_status::status_state(#[trigger] statuses[i]) != CheckState::Green ==> exists|j: int|
                0 <= j < statuses.len() && text::unicode_lowercase((#[trigger] statuses[j]).string("context"@))
                    == text::unicode_lowercase(statuses[i].string("context"@)) && statuses[j].at("id"@).whole() is Some && (
                statuses[i].at("id"@).whole() is None || statuses[j].at("id"@).whole()->0 > statuses[i].at(
                    "id"@,
                ).whole()->0),
    ensures
        check_status::worst_status(statuses, check_status::contexts_of(statuses), statuses.len()) == CheckState::Green,
{
    green_up_to(statuses, statuses.len());
}

/// Where all the latest are green, the first ones are.
proof fn green_up_to(statuses: Seq<JsonView>, count: nat)
    requires
        count <= statuses.len(),
        forall|i: int|
            0 <= i < statuses.len() && check_status::status_state(#[trigger] statuses[i]) != CheckState::Green ==> exists|j: int|
                0 <= j < statuses.len() && text::unicode_lowercase((#[trigger] statuses[j]).string("context"@))
                    == text::unicode_lowercase(statuses[i].string("context"@)) && statuses[j].at("id"@).whole() is Some && (
                statuses[i].at("id"@).whole() is None || statuses[j].at("id"@).whole()->0 > statuses[i].at(
                    "id"@,
                ).whole()->0),
    ensures
        check_status::worst_status(statuses, check_status::contexts_of(statuses), count) == CheckState::Green,
    decreases count,
{
    if count > 0 {
        green_up_to(statuses, (count - 1) as nat);
        let i = count - 1;
        let contexts = check_status::contexts_of(statuses);
        if check_status::status_state(statuses[i]) != CheckState::Green {
            let j = choose|j: int|
                0 <= j < statuses.len() && text::unicode_lowercase((#[trigger] statuses[j]).string("context"@))
                    == text::unicode_lowercase(statuses[i].string("context"@)) && statuses[j].at("id"@).whole() is Some && (
                statuses[i].at("id"@).whole() is None || statuses[j].at("id"@).whole()->0 > statuses[i].at(
                    "id"@,
                ).whole()->0);
            assert(contexts[j] == contexts[i]);
            assert(check_status::status_replaces(statuses, contexts, j, i));
        }
    }
}

// ---------------------------------------------------------------- questions

/// A fetch asks about its pull request, for all that was not read to its end, from where that
/// was left; then for its check runs and its commit statuses at its commit, page by page; and then
/// for nothing more.
pub proof fn fetches_ask_for_what_is_left(f: FetchView)
    ensures
        f.stage == FetchStage::First || f.stage == FetchStage::Connections ==> f.question() is Some && asks(
            f.question()->0,
            r#"
query($id:ID!,$r:String,$c:String,$t:String,$e:String,$reviews:Boolean!,$comments:Boolean!,$threads:Boolean!,$reactions:Boolean!,$l:String,$labels:Boolean!) {
 node(id:$id) { ... on PullRequest {
  title url state isDraft headRefOid mergeable headRefName baseRefName isCrossRepository
  headRepositoryOwner { login }
  labels(first:100,after:$l) @include(if:$labels) {
   pageInfo { hasNextPage endCursor }
   nodes { name color }
  }
  reviews(first:100,after:$r) @include(if:$reviews) {
   pageInfo { hasNextPage endCursor }
   nodes { id author { login } body state submittedAt commit { oid } }
  }
  comments(first:100,after:$c) @include(if:$comments) {
   pageInfo { hasNextPage endCursor }
   nodes { id author { login } body updatedAt }
  }
  reviewThreads(first:100,after:$t) @include(if:$threads) {
   pageInfo { hasNextPage endCursor }
   nodes { id isResolved first:comments(first:1) { nodes { author { login } body } } last:comments(last:1) { nodes { id body updatedAt } } }
  }
  reactions(first:100,after:$e) @include(if:$reactions) {
   pageInfo { hasNextPage endCursor }
   nodes { id user { login } content createdAt }
  }
 } }
}
"#@,
            seq![
                ("c"@, maybe(f.cursors[1])),
                ("comments"@, JsonView::Bool(!f.done[1])),
                ("e"@, maybe(f.cursors[3])),
                ("id"@, JsonView::Text(f.reference.id)),
                ("l"@, maybe(f.cursors[4])),
                ("labels"@, JsonView::Bool(!f.done[4])),
                ("r"@, maybe(f.cursors[0])),
                ("reactions"@, JsonView::Bool(!f.done[3])),
                ("reviews"@, JsonView::Bool(!f.done[0])),
                ("t"@, maybe(f.cursors[2])),
                ("threads"@, JsonView::Bool(!f.done[2])),
            ],
        ),
        f.stage == FetchStage::Checks ==> f.question() is Some && asks_at(
            f.question()->0,
            "repos/"@ + f.reference.repo + "/commits/"@ + f.snapshot.head + "/check-runs?per_page=100&page="@
                + text::decimal_of(f.page as nat) + "&filter=latest"@,
        ),
        f.stage == FetchStage::Statuses ==> f.question() is Some && asks_at(
            f.question()->0,
            "repos/"@ + f.reference.repo + "/commits/"@ + f.snapshot.head + "/statuses?per_page=100&page="@
                + text::decimal_of(f.page as nat),
        ),
        f.stage == FetchStage::Done ==> f.question() is None,
{
}

/// Whether a request reads an endpoint.
pub open spec fn asks_at(request: ApiRequestView, endpoint: Seq<char>) -> bool {
    &&& request.args == seq!["api"@, "--hostname"@, "github.com"@, endpoint]
    &&& request.payload is None
    &&& request.policy == ResponsePolicy::Strict
}

/// A fetch starts with everything about its pull request from the start.
pub proof fn fetches_start_from_nothing(reference: PrRefView, i: int)
    requires
        0 <= i < 5,
    ensures
        FetchView::start(reference).reference == reference,
        FetchView::start(reference).stage == FetchStage::First,
        FetchView::start(reference).cursors.len() == 5,
        FetchView::start(reference).cursors[i] is None,
        FetchView::start(reference).done.len() == 5,
        !FetchView::start(reference).done[i],
        FetchView::start(reference).snapshot.reviews.len() == 0,
        FetchView::start(reference).snapshot.threads.len() == 0,
        FetchView::start(reference).snapshot.checks.len() == 0,
        FetchView::start(reference).statuses.len() == 0,
{
}

// ---------------------------------------------------------------- pages

/// What an answer says of the pull request.
pub open spec fn pr_in(answer: JsonView) -> JsonView {
    answer.at("data"@).at("node"@)
}

/// A closed pull request is read no further.
pub proof fn closed_prs_are_read_no_further(f: FetchView, answer: JsonView)
    requires
        f.stage == FetchStage::First,
        f.after(answer) is Ok,
        pr_in(answer).at("state"@) != JsonView::Text("OPEN"@),
    ensures
        !f.after(answer)->Ok_0.snapshot.open,
        f.after(answer)->Ok_0.stage == FetchStage::Done,
        f.after(answer)->Ok_0.question() is None,
{
}

/// What the first page says of a pull request is what is known of it.
pub proof fn first_pages_open_a_snapshot(f: FetchView, answer: JsonView)
    requires
        f.stage == FetchStage::First,
        f.after(answer) is Ok,
    ensures
        ({
            let s = f.after(answer)->Ok_0.snapshot;
            let pr = pr_in(answer);
            &&& s.id == f.reference.id
            &&& s.repo == f.reference.repo
            &&& s.number == f.reference.number
            &&& pr.at("headRefOid"@) == JsonView::Text(s.head)
            &&& pr.at("title"@) == JsonView::Text(s.title)
            &&& pr.at("url"@) == JsonView::Text(s.url)
            &&& s.open == (pr.at("state"@) == JsonView::Text("OPEN"@))
            &&& s.draft == (pr.at("isDraft"@) == JsonView::Bool(true))
        }),
{
    reveal_with_fuel(FetchView::with_connections, 6);
}

/// A pull request that gets another commit, or is closed, while it is read is given up.
pub proof fn changed_prs_are_given_up(f: FetchView, answer: JsonView)
    requires
        f.stage == FetchStage::Connections,
        pr_in(answer).at("headRefOid"@) != JsonView::Text(f.snapshot.head) || pr_in(answer).at("state"@) != JsonView::Text(
            "OPEN"@,
        ),
    ensures
        f.after(answer) is Err,
{
}

/// The connection of a pull request that is read in a place.
pub open spec fn connection(answer: JsonView, i: int) -> JsonView {
    pr_in(answer).at(
        if i == 0 {
            "reviews"@
        } else if i == 1 {
            "comments"@
        } else if i == 2 {
            "reviewThreads"@
        } else if i == 3 {
            "reactions"@
        } else {
            "labels"@
        },
    )
}

/// The nodes of a connection.
pub open spec fn nodes_of(answer: JsonView, i: int) -> Seq<JsonView> {
    connection(answer, i).at("nodes"@)->List_0
}

/// Whether a page about an open pull request was read.
pub open spec fn reads_page(f: FetchView, answer: JsonView) -> bool {
    &&& f.stage == FetchStage::First || f.stage == FetchStage::Connections
    &&& f.cursors.len() == 5
    &&& f.done.len() == 5
    &&& f.after(answer) is Ok
    &&& pr_in(answer).at("state"@) == JsonView::Text("OPEN"@)
}

/// What was known of the connections before a page: nothing on the first one.
pub open spec fn known_before(f: FetchView) -> SnapshotView {
    if f.stage == FetchStage::First {
        SnapshotView {
            reviews: Seq::empty(),
            comments: Seq::empty(),
            threads: Seq::empty(),
            reactions: Seq::empty(),
            labels: Seq::empty(),
            checks: Seq::empty(),
            ..f.snapshot
        }
    } else {
        f.snapshot
    }
}

/// The first connections of a pull request, read.
#[verifier::opaque]
spec fn read_up_to(f: FetchView, pr: JsonView, count: nat) -> Result<FetchView, Seq<char>> {
    f.with_connections(pr, count)
}

/// The name of the connection in a place.
spec fn name_at(i: int) -> Seq<char> {
    if i == 0 {
        "reviews"@
    } else if i == 1 {
        "comments"@
    } else if i == 2 {
        "reviewThreads"@
    } else if i == 3 {
        "reactions"@
    } else {
        "labels"@
    }
}

/// Whether one connection was read, and nothing else was touched.
#[verifier::opaque]
spec fn reads_one(a: FetchView, b: FetchView, i: int, pr: JsonView) -> bool {
    let nodes = pr.at(name_at(i)).at("nodes"@)->List_0;
    &&& b == FetchView { cursors: b.cursors, done: b.done, snapshot: b.snapshot, ..a }
    &&& b.snapshot == SnapshotView {
        reviews: b.snapshot.reviews,
        comments: b.snapshot.comments,
        threads: b.snapshot.threads,
        reactions: b.snapshot.reactions,
        labels: b.snapshot.labels,
        ..a.snapshot
    }
    &&& b.cursors.len() == 5 && b.done.len() == 5
    &&& forall|j: int| 0 <= j < 5 && j != i ==> #[trigger] b.cursors[j] == a.cursors[j]
    &&& forall|j: int| 0 <= j < 5 && j != i ==> #[trigger] b.done[j] == a.done[j]
    &&& a.done[i] ==> b == a
    &&& !a.done[i] ==> {
        &&& pr.at(name_at(i)).at("nodes"@) is List
        &&& pr.at(name_at(i)).at("pageInfo"@).at("hasNextPage"@) is Bool
        &&& is_last_page(pr.at(name_at(i))) ==> b.done[i] && b.cursors[i] == a.cursors[i]
        &&& !is_last_page(pr.at(name_at(i))) ==> !b.done[i] && pr.at(name_at(i)).at("pageInfo"@).at("endCursor"@) is Text
            && b.cursors[i] == Some(pr.at(name_at(i)).at("pageInfo"@).at("endCursor"@)->Text_0)
        &&& b.snapshot.reviews == (if i == 0 {
            a.snapshot.reviews + nodes.map_values(|n: JsonView| details::review_of(n))
        } else {
            a.snapshot.reviews
        })
        &&& b.snapshot.comments == (if i == 1 {
            a.snapshot.comments + nodes.map_values(|n: JsonView| details::comment_of(n))
        } else {
            a.snapshot.comments
        })
        &&& i == 2 ==> details::threads_of(nodes) is Ok
        &&& b.snapshot.threads == (if i == 2 {
            a.snapshot.threads + details::threads_of(nodes)->Ok_0
        } else {
            a.snapshot.threads
        })
        &&& b.snapshot.reactions == (if i == 3 {
            a.snapshot.reactions + nodes.map_values(|n: JsonView| details::reaction_of(n))
        } else {
            a.snapshot.reactions
        })
        &&& i == 4 ==> details::labels_of(nodes) is Ok
        &&& b.snapshot.labels == (if i == 4 {
            a.snapshot.labels + details::labels_of(nodes)->Ok_0
        } else {
            a.snapshot.labels
        })
    }
}

/// One connection is read as the others are left alone.
proof fn one_is_read(a: FetchView, i: int, pr: JsonView)
    requires
        0 <= i < 5,
        a.cursors.len() == 5,
        a.done.len() == 5,
        a.with_connection(i, pr) is Ok,
    ensures
        reads_one(a, a.with_connection(i, pr)->Ok_0, i, pr),
{
    reveal(reads_one);
}

/// What was read one further was read before.
proof fn earlier_are_read(f: FetchView, pr: JsonView, k: nat)
    requires
        k < 5,
        f.cursors.len() == 5,
        f.done.len() == 5,
        read_up_to(f, pr, k + 1) is Ok,
    ensures
        read_up_to(f, pr, k) is Ok,
        read_up_to(f, pr, k)->Ok_0.cursors.len() == 5,
        read_up_to(f, pr, k)->Ok_0.done.len() == 5,
        reads_one(read_up_to(f, pr, k)->Ok_0, read_up_to(f, pr, k + 1)->Ok_0, k as int, pr),
    decreases k,
{
    reveal(read_up_to);
    if k > 0 {
        earlier_are_read(f, pr, (k - 1) as nat);
        reveal(reads_one);
    }
    let a = f.with_connections(pr, k)->Ok_0;
    assert(f.with_connections(pr, k + 1) == a.with_connection(k as int, pr));
    one_is_read(a, k as int, pr);
}

/// The fetch before the connections of a page are read.
spec fn page_start(f: FetchView, answer: JsonView) -> FetchView {
    let pr = pr_in(answer);
    let state = if pr.at("mergeable"@) == JsonView::Text("CONFLICTING"@) {
        CheckState::Conflicts
    } else {
        CheckState::Green
    };
    let s = if f.stage == FetchStage::First {
        details::opening(f.reference, pr)->Ok_0
    } else {
        f.snapshot
    };
    FetchView { stage: FetchStage::Connections, snapshot: SnapshotView { check_state: Some(state), ..s }, ..f }
}

/// A page is read one connection after the other.
proof fn pages_are_read_in_order(f: FetchView, answer: JsonView)
    requires
        reads_page(f, answer),
    ensures
        ({
            let pr = pr_in(answer);
            let start = page_start(f, answer);
            let end = read_up_to(start, pr, 5)->Ok_0;
            let next = f.after(answer)->Ok_0;
            &&& read_up_to(start, pr, 0) == Ok::<FetchView, Seq<char>>(start)
            &&& read_up_to(start, pr, 5) is Ok
            &&& reads_one(start, read_up_to(start, pr, 1)->Ok_0, 0, pr)
            &&& reads_one(read_up_to(start, pr, 1)->Ok_0, read_up_to(start, pr, 2)->Ok_0, 1, pr)
            &&& reads_one(read_up_to(start, pr, 2)->Ok_0, read_up_to(start, pr, 3)->Ok_0, 2, pr)
            &&& reads_one(read_up_to(start, pr, 3)->Ok_0, read_up_to(start, pr, 4)->Ok_0, 3, pr)
            &&& reads_one(read_up_to(start, pr, 4)->Ok_0, end, 4, pr)
            &&& next == (if end.complete() {
                FetchView { stage: FetchStage::Checks, page: 1, ..end }
            } else {
                end
            })
            &&& start.snapshot == SnapshotView {
                reviews: known_before(f).reviews,
                comments: known_before(f).comments,
                threads: known_before(f).threads,
                reactions: known_before(f).reactions,
                labels: known_before(f).labels,
                ..start.snapshot
            }
        }),
{
    let pr = pr_in(answer);
    let start = page_start(f, answer);
    assert(f.after_page(answer) == f.after(answer));
    assert(read_up_to(start, pr, 5) is Ok && read_up_to(start, pr, 0) == Ok::<FetchView, Seq<char>>(start)) by {
        reveal(read_up_to);
    }
    assert(f.after(answer)->Ok_0 == (if read_up_to(start, pr, 5)->Ok_0.complete() {
        FetchView { stage: FetchStage::Checks, page: 1, ..read_up_to(start, pr, 5)->Ok_0 }
    } else {
        read_up_to(start, pr, 5)->Ok_0
    })) by {
        reveal(read_up_to);
    }
    earlier_are_read(start, pr, 4);
    earlier_are_read(start, pr, 3);
    earlier_are_read(start, pr, 2);
    earlier_are_read(start, pr, 1);
    earlier_are_read(start, pr, 0);
}

/// A page moves each connection on: where it goes on, to the place that the page names, and at
/// its last page to its end. One that was at its end is left alone.
pub proof fn pages_move_connections_on(f: FetchView, answer: JsonView, i: int, cursor: Seq<char>)
    requires
        reads_page(f, answer),
        0 <= i < 5,
    ensures
        ({
            let next = f.after(answer)->Ok_0;
            &&& next.cursors.len() == 5 && next.done.len() == 5
            &&& f.done[i] ==> next.done[i] && next.cursors[i] == f.cursors[i]
            &&& !f.done[i] && goes_on(connection(answer, i), cursor) ==> !next.done[i] && next.cursors[i] == Some(cursor)
            &&& !f.done[i] && is_last_page(connection(answer, i)) ==> next.done[i]
            &&& next.stage == (if next.done[0] && next.done[1] && next.done[2] && next.done[3] && next.done[4] {
                FetchStage::Checks
            } else {
                FetchStage::Connections
            })
            &&& next.stage == FetchStage::Checks ==> next.page == 1
        }),
{
    pages_are_read_in_order(f, answer);
    reveal(reads_one);
}

/// Every review on a page is kept behind those before, with its author, its text, its state, its
/// commit and its time.
pub proof fn every_review_is_read(f: FetchView, answer: JsonView, k: int)
    requires
        reads_page(f, answer),
    ensures
        ({
            let before = known_before(f).reviews;
            let after = f.after(answer)->Ok_0.snapshot.reviews;
            let nodes = nodes_of(answer, 0);
            &&& f.done[0] ==> after == before
            &&& !f.done[0] ==> after.len() == before.len() + nodes.len() && before.is_prefix_of(after)
            &&& !f.done[0] && 0 <= k < nodes.len() ==> {
                let review = after[before.len() + k];
                &&& review.id == nodes[k].string("id"@)
                &&& review.author == nodes[k].at("author"@).string("login"@)
                &&& review.body == nodes[k].string("body"@)
                &&& review.state == nodes[k].string("state"@)
                &&& review.commit == nodes[k].at("commit"@).string("oid"@)
                &&& review.submitted_at == nodes[k].string("submittedAt"@)
            }
        }),
{
    pages_are_read_in_order(f, answer);
    reveal(reads_one);
    let before = known_before(f).reviews;
    let after = f.after(answer)->Ok_0.snapshot.reviews;
    assert(after.subrange(0, before.len() as int) =~= before);
}

/// Every comment on a page is kept behind those before.
pub proof fn every_comment_is_read(f: FetchView, answer: JsonView, k: int)
    requires
        reads_page(f, answer),
    ensures
        ({
            let before = known_before(f).comments;
            let after = f.after(answer)->Ok_0.snapshot.comments;
            let nodes = nodes_of(answer, 1);
            &&& f.done[1] ==> after == before
            &&& !f.done[1] ==> after.len() == before.len() + nodes.len() && before.is_prefix_of(after)
            &&& !f.done[1] && 0 <= k < nodes.len() ==> {
                let comment = after[before.len() + k];
                &&& comment.id == nodes[k].string("id"@)
                &&& comment.author == nodes[k].at("author"@).string("login"@)
                &&& comment.body == nodes[k].string("body"@)
                &&& comment.updated_at == nodes[k].string("updatedAt"@)
            }
        }),
{
    pages_are_read_in_order(f, answer);
    reveal(reads_one);
    let before = known_before(f).comments;
    let after = f.after(answer)->Ok_0.snapshot.comments;
    assert(after.subrange(0, before.len() as int) =~= before);
}

/// Every reaction on a page is kept behind those before.
pub proof fn every_reaction_is_read(f: FetchView, answer: JsonView, k: int)
    requires
        reads_page(f, answer),
    ensures
        ({
            let before = known_before(f).reactions;
            let after = f.after(answer)->Ok_0.snapshot.reactions;
            let nodes = nodes_of(answer, 3);
            &&& f.done[3] ==> after == before
            &&& !f.done[3] ==> after.len() == before.len() + nodes.len() && before.is_prefix_of(after)
            &&& !f.done[3] && 0 <= k < nodes.len() ==> {
                let reaction = after[before.len() + k];
                &&& reaction.id == nodes[k].string("id"@)
                &&& reaction.author == nodes[k].at("user"@).string("login"@)
                &&& reaction.content == nodes[k].string("content"@)
                &&& reaction.created_at == nodes[k].string("createdAt"@)
            }
        }),
{
    pages_are_read_in_order(f, answer);
    reveal(reads_one);
    let before = known_before(f).reactions;
    let after = f.after(answer)->Ok_0.snapshot.reactions;
    assert(after.subrange(0, before.len() as int) =~= before);
}

/// Every thread on a page is kept behind those before, by whoever began it, resolved or not as
/// the page says.
pub proof fn every_thread_is_read(f: FetchView, answer: JsonView, k: int)
    requires
        reads_page(f, answer),
    ensures
        ({
            let before = known_before(f).threads;
            let after = f.after(answer)->Ok_0.snapshot.threads;
            let nodes = nodes_of(answer, 2);
            &&& f.done[2] ==> after == before
            &&& !f.done[2] ==> after.len() == before.len() + nodes.len() && before.is_prefix_of(after)
            &&& !f.done[2] && 0 <= k < nodes.len() ==> {
                let thread = after[before.len() + k];
                &&& nodes[k].at("isResolved"@) == JsonView::Bool(thread.resolved)
                &&& thread.id == nodes[k].string("id"@)
                &&& thread.author == nodes[k].at("first"@).at("nodes"@).item(0).at("author"@).string("login"@)
                &&& thread.last_comment_id == nodes[k].at("last"@).at("nodes"@).item(0).string("id"@)
                &&& thread.updated_at == nodes[k].at("last"@).at("nodes"@).item(0).string("updatedAt"@)
            }
        }),
{
    pages_are_read_in_order(f, answer);
    reveal(reads_one);
    let before = known_before(f).threads;
    let after = f.after(answer)->Ok_0.snapshot.threads;
    if !f.done[2] {
        threads_are_those_of_nodes(nodes_of(answer, 2), k);
    }
    assert(after.subrange(0, before.len() as int) =~= before);
}

/// Each thread is that of its node.
proof fn threads_are_those_of_nodes(nodes: Seq<JsonView>, k: int)
    requires
        details::threads_of(nodes) is Ok,
    ensures
        details::threads_of(nodes)->Ok_0.len() == nodes.len(),
        0 <= k < nodes.len() ==> {
            let thread = details::threads_of(nodes)->Ok_0[k];
            &&& nodes[k].at("isResolved"@) == JsonView::Bool(thread.resolved)
            &&& thread.id == nodes[k].string("id"@)
            &&& thread.author == nodes[k].at("first"@).at("nodes"@).item(0).at("author"@).string("login"@)
            &&& thread.last_comment_id == nodes[k].at("last"@).at("nodes"@).item(0).string("id"@)
            &&& thread.updated_at == nodes[k].at("last"@).at("nodes"@).item(0).string("updatedAt"@)
        },
    decreases nodes.len(),
{
    if nodes.len() > 0 {
        threads_are_those_of_nodes(nodes.drop_last(), k);
        if 0 <= k < nodes.len() - 1 {
            assert(nodes.drop_last()[k] == nodes[k]);
        }
    }
}

/// Every label on a page is kept behind those before.
pub proof fn every_label_is_read(f: FetchView, answer: JsonView, k: int)
    requires
        reads_page(f, answer),
    ensures
        ({
            let before = known_before(f).labels;
            let after = f.after(answer)->Ok_0.snapshot.labels;
            let nodes = nodes_of(answer, 4);
            &&& f.done[4] ==> after == before
            &&& !f.done[4] ==> after.len() == before.len() + nodes.len() && before.is_prefix_of(after)
            &&& !f.done[4] && 0 <= k < nodes.len() ==> {
                let label = after[before.len() + k];
                &&& nodes[k].at("name"@) == JsonView::Text(label.name)
                &&& nodes[k].at("color"@) == JsonView::Text(label.color)
            }
        }),
{
    pages_are_read_in_order(f, answer);
    reveal(reads_one);
    let before = known_before(f).labels;
    let after = f.after(answer)->Ok_0.snapshot.labels;
    if !f.done[4] {
        labels_are_those_of_nodes(nodes_of(answer, 4), k);
    }
    assert(after.subrange(0, before.len() as int) =~= before);
}

/// Each label is that of its node.
proof fn labels_are_those_of_nodes(nodes: Seq<JsonView>, k: int)
    requires
        details::labels_of(nodes) is Ok,
    ensures
        details::labels_of(nodes)->Ok_0.len() == nodes.len(),
        0 <= k < nodes.len() ==> {
            let label = details::labels_of(nodes)->Ok_0[k];
            &&& nodes[k].at("name"@) == JsonView::Text(label.name)
            &&& nodes[k].at("color"@) == JsonView::Text(label.color)
        },
    decreases nodes.len(),
{
    if nodes.len() > 0 {
        labels_are_those_of_nodes(nodes.drop_last(), k);
        if 0 <= k < nodes.len() - 1 {
            assert(nodes.drop_last()[k] == nodes[k]);
        }
    }
}

/// The last page says whether a pull request is in conflict. What is in conflict stays so
/// whatever its checks are.
pub proof fn conflicts_are_known(f: FetchView, answer: JsonView)
    ensures
        reads_page(f, answer) ==> f.after(answer)->Ok_0.snapshot.check_state == Some(
            if pr_in(answer).at("mergeable"@) == JsonView::Text("CONFLICTING"@) {
                CheckState::Conflicts
            } else {
                CheckState::Green
            },
        ),
        (f.stage == FetchStage::Checks || f.stage == FetchStage::Statuses) && f.after(answer) is Ok
            && f.snapshot.check_state == Some(CheckState::Conflicts) ==> f.after(answer)->Ok_0.snapshot.check_state == Some(
            CheckState::Conflicts,
        ),
{
    if reads_page(f, answer) {
        pages_are_read_in_order(f, answer);
        reveal(reads_one);
    }
    if f.stage == FetchStage::Checks && f.after(answer) is Ok {
        the_worst_run_counts(CheckState::Conflicts, answer.at("check_runs"@)->List_0, 0);
    }
}

// ---------------------------------------------------------------- checks

/// Check runs are read page by page, a hundred on each, and then the commit statuses. What is
/// known of them is at least as bad as each of them, and those of agents are kept.
pub proof fn every_check_run_counts(f: FetchView, answer: JsonView, k: int)
    requires
        f.stage == FetchStage::Checks,
        f.after(answer) is Ok,
        f.snapshot.check_state is Some,
    ensures
        ({
            let next = f.after(answer)->Ok_0;
            let runs = answer.at("check_runs"@)->List_0;
            &&& answer.at("check_runs"@) is List
            &&& runs.len() < 100 ==> next.stage == FetchStage::Statuses && next.page == 1
            &&& runs.len() >= 100 && f.page < u64::MAX ==> next.stage == FetchStage::Checks && next.page == f.page + 1
            &&& next.snapshot.check_state is Some
            &&& as_bad(next.snapshot.check_state->0, f.snapshot.check_state->0)
            &&& 0 <= k < runs.len() ==> as_bad(next.snapshot.check_state->0, check_status::run_state(runs[k]))
            &&& 0 <= k < runs.len() && agent_of_app(runs[k].at("app"@).string("slug"@)) is Some
                ==> next.snapshot.checks.contains(
                CheckView {
                    id: crate::json::written(runs[k].at("id"@)),
                    app: runs[k].at("app"@).string("slug"@),
                    name: runs[k].string("name"@),
                    status: runs[k].string("status"@),
                    conclusion: runs[k].string("conclusion"@),
                    started_at: runs[k].string("started_at"@),
                    completed_at: runs[k].string("completed_at"@),
                    summary: runs[k].at("output"@).string("summary"@),
                },
            )
            &&& f.snapshot.checks.is_prefix_of(next.snapshot.checks)
            &&& next.snapshot.reviews == f.snapshot.reviews
            &&& next.snapshot.head == f.snapshot.head
        }),
{
    let next = f.after(answer)->Ok_0;
    let runs = answer.at("check_runs"@)->List_0;
    the_worst_run_counts(f.snapshot.check_state->0, runs, k);
    if 0 <= k < runs.len() && agent_of_app(runs[k].at("app"@).string("slug"@)) is Some {
        agents_runs_are_kept(runs, k);
        let kept = details::agent_checks(runs);
        let j = choose|j: int| 0 <= j < kept.len() && kept[j] == details::check_of(runs[k]);
        assert(next.snapshot.checks[f.snapshot.checks.len() + j] == kept[j]);
    }
    assert(next.snapshot.checks.subrange(0, f.snapshot.checks.len() as int) =~= f.snapshot.checks);
}

/// The run of an agent is kept.
proof fn agents_runs_are_kept(runs: Seq<JsonView>, k: int)
    requires
        0 <= k < runs.len(),
        agent_of_app(runs[k].at("app"@).string("slug"@)) is Some,
    ensures
        details::agent_checks(runs).contains(details::check_of(runs[k])),
    decreases runs.len(),
{
    let kept = details::agent_checks(runs);
    if k < runs.len() - 1 {
        let rest = runs.drop_last();
        assert(rest[k] == runs[k]);
        agents_runs_are_kept(rest, k);
        let before = details::agent_checks(rest);
        let j = choose|j: int| 0 <= j < before.len() && before[j] == details::check_of(runs[k]);
        assert(kept[j] == before[j]);
    } else {
        assert(kept[kept.len() - 1] == details::check_of(runs[k]));
    }
}

/// Commit statuses are read page by page, a hundred on each. At the last page what is known is at
/// least as bad as it was, and as the latest status of each context.
pub proof fn every_latest_status_counts(f: FetchView, answer: JsonView, i: int)
    requires
        f.stage == FetchStage::Statuses,
        f.after(answer) is Ok,
        f.snapshot.check_state is Some,
    ensures
        ({
            let next = f.after(answer)->Ok_0;
            let values = answer->List_0;
            &&& answer is List
            &&& next.statuses == f.statuses + values
            &&& values.len() >= 100 && f.page < u64::MAX ==> next.stage == FetchStage::Statuses && next.page == f.page + 1
                && next.snapshot == f.snapshot
            &&& values.len() < 100 ==> {
                &&& next.stage == FetchStage::Done
                &&& next.question() is None
                &&& next.snapshot.check_state is Some
                &&& as_bad(next.snapshot.check_state->0, f.snapshot.check_state->0)
                &&& is_latest(next.statuses, i) ==> as_bad(
                    next.snapshot.check_state->0,
                    check_status::status_state(next.statuses[i]),
                )
                &&& f.snapshot.checks.is_prefix_of(next.snapshot.checks)
                &&& next.snapshot.head == f.snapshot.head
            }
        }),
{
    let next = f.after(answer)->Ok_0;
    if answer->List_0.len() < 100 && is_latest(next.statuses, i) {
        latest_statuses_count(next.statuses, i);
    }
    assert(next.snapshot.checks.subrange(0, f.snapshot.checks.len() as int) =~= f.snapshot.checks);
}

// ---------------------------------------------------------------- CodeRabbit's commit statuses

/// Whether a commit status is one that CodeRabbit set about its review.
pub open spec fn is_own(status: JsonView) -> bool {
    agent_of_login(status.at("creator"@).string("login"@)) == Some(Agent::CodeRabbit) && status.string("context"@)
        == "CodeRabbit"@
}

/// The number of a commit status, or zero.
pub open spec fn number_of(status: JsonView) -> u64 {
    match status.at("id"@).whole() {
        Some(n) => n,
        None => 0,
    }
}

/// The newest status of CodeRabbit amounts to a check of its own: one that goes on while it is
/// pending, and one that ended with its state otherwise. Without one there is no such check, and
/// what others call by the same name is none.
pub proof fn the_newest_own_status_is_a_check(statuses: Seq<JsonView>, i: int)
    requires
        forall|j: int| 0 <= j < statuses.len() && j != i && is_own(#[trigger] statuses[j]) ==> number_of(statuses[j])
            < number_of(statuses[i]),
    ensures
        0 <= i < statuses.len() && is_own(statuses[i]) ==> {
            let checks = details::legacy_checks_of(statuses);
            let pending = statuses[i].string("state"@) == "pending"@;
            &&& checks.len() == 1
            &&& agent_of_app(checks[0].app) == Some(Agent::CodeRabbit)
            &&& checks[0].id == crate::json::written(statuses[i].at("id"@))
            &&& checks[0].summary == statuses[i].string("description"@)
            &&& pending ==> checks[0].status == "in_progress"@
            &&& !pending ==> checks[0].status == "completed"@ && checks[0].conclusion == statuses[i].string("state"@)
        },
        (forall|j: int| 0 <= j < statuses.len() ==> !is_own(#[trigger] statuses[j])) ==> details::legacy_checks_of(
            statuses,
        ).len() == 0,
{
    let own = details::own_statuses(statuses);
    own_statuses_are_kept(statuses);
    if 0 <= i < statuses.len() && is_own(statuses[i]) {
        assert(own.contains(statuses[i]));
        let k = choose|k: int| 0 <= k < own.len() && own[k] == statuses[i];
        newest_is_greatest(own, k);
        let n = details::newest_index(own);
        assert(own[n] == statuses[i]) by {
            assert(statuses.contains(own[n]) && is_own(own[n]));
            let j = choose|j: int| 0 <= j < statuses.len() && statuses[j] == own[n];
            if j != i {
                assert(is_own(statuses[j]));
            }
        }
        crate::reviewers::laws::apps_are_told_by_their_names("coderabbitai"@);
    }
    if forall|j: int| 0 <= j < statuses.len() ==> !is_own(#[trigger] statuses[j]) {
        if own.len() > 0 {
            assert(statuses.contains(own[0]) && is_own(own[0]));
            let j = choose|j: int| 0 <= j < statuses.len() && statuses[j] == own[0];
            assert(!is_own(statuses[j]));
        }
    }
}

/// The statuses of CodeRabbit are kept, and no others.
proof fn own_statuses_are_kept(statuses: Seq<JsonView>)
    ensures
        forall|k: int|
            0 <= k < details::own_statuses(statuses).len() ==> statuses.contains(
                #[trigger] details::own_statuses(statuses)[k],
            ) && is_own(details::own_statuses(statuses)[k]),
        forall|j: int|
            0 <= j < statuses.len() && is_own(#[trigger] statuses[j]) ==> details::own_statuses(statuses).contains(
                statuses[j],
            ),
    decreases statuses.len(),
{
    if statuses.len() > 0 {
        let rest = statuses.drop_last();
        own_statuses_are_kept(rest);
        let before = details::own_statuses(rest);
        let own = details::own_statuses(statuses);
        assert forall|k: int| 0 <= k < own.len() implies statuses.contains(#[trigger] own[k]) && is_own(own[k]) by {
            if k < before.len() {
                assert(own[k] == before[k]);
                let j = choose|j: int| 0 <= j < rest.len() && rest[j] == before[k];
                assert(statuses[j] == own[k]);
            } else {
                assert(statuses[statuses.len() - 1] == own[k]);
            }
        }
        assert forall|j: int| 0 <= j < statuses.len() && is_own(#[trigger] statuses[j]) implies own.contains(
            statuses[j],
        ) by {
            if j < rest.len() {
                assert(rest[j] == statuses[j]);
                let k = choose|k: int| 0 <= k < before.len() && before[k] == rest[j];
                assert(own[k] == statuses[j]);
            } else {
                assert(own[own.len() - 1] == statuses[j]);
            }
        }
    }
}

/// The newest status has the greatest number.
proof fn newest_is_greatest(statuses: Seq<JsonView>, k: int)
    requires
        0 <= k < statuses.len(),
    ensures
        0 <= details::newest_index(statuses) < statuses.len(),
        number_of(statuses[details::newest_index(statuses)]) >= number_of(statuses[k]),
    decreases statuses.len(),
{
    if statuses.len() > 1 {
        let rest = statuses.drop_last();
        if k < rest.len() {
            newest_is_greatest(rest, k);
            assert(rest[k] == statuses[k]);
        } else {
            newest_is_greatest(rest, 0);
        }
        assert(rest[details::newest_index(rest)] == statuses[details::newest_index(rest)]);
    }
}

} // verus!
