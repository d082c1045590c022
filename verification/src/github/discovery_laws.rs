//! What holds of a discovery, whatever GitHub answers.

use crate::github::discovery;
use crate::github::discovery::DiscoveryView;
use crate::github::exchange::{ApiRequestView, ResponsePolicy};
use crate::github::PrRefView;
use crate::json::JsonView;
use crate::text_map;
use vstd::prelude::*;

verus! {

broadcast use vstd::seq_lib::group_seq_properties;

/// A text, or null where there is none.
pub open spec fn maybe(t: Option<Seq<char>>) -> JsonView {
    match t {
        Some(t) => JsonView::Text(t),
        None => JsonView::Null,
    }
}

/// Whether a request asks GitHub a query with some values.
pub open spec fn asks(request: ApiRequestView, query: Seq<char>, variables: Seq<(Seq<char>, JsonView)>) -> bool {
    &&& request.args == seq!["api"@, "graphql"@, "--hostname"@, "github.com"@, "--input"@, "-"@]
    &&& request.payload == Some(
        JsonView::Object(seq![("query"@, JsonView::Text(query)), ("variables"@, JsonView::Object(variables))]),
    )
    &&& request.policy == ResponsePolicy::Strict
}

/// Whether a request asks for a page of the user's own open pull requests.
pub open spec fn asks_for_own(request: ApiRequestView, cursor: Option<Seq<char>>) -> bool {
    asks(
        request,
        "query AuthoredPrs($cursor:String) { viewer { pullRequests(states:OPEN,first:100,after:$cursor) { pageInfo { hasNextPage endCursor } nodes { id number repository { nameWithOwner } } } } }"@,
        seq![("cursor"@, maybe(cursor))],
    )
}

/// Whether a request searches for a page of the open pull requests in which an account has a
/// role.
pub open spec fn searches_for(request: ApiRequestView, role: Seq<char>, login: Seq<char>, cursor: Option<Seq<char>>) -> bool {
    asks(
        request,
        "query($q:String!,$cursor:String) { search(query:$q,type:ISSUE,first:100,after:$cursor) { issueCount pageInfo { hasNextPage endCursor } nodes { ... on PullRequest { id number repository { nameWithOwner } } } } }"@,
        seq![
            ("cursor"@, maybe(cursor)),
            ("q"@, JsonView::Text("is:pr "@ + "is:open "@ + role + ":"@ + login)),
        ],
    )
}

/// The connection that an answer has, of the user's own pull requests or of those found.
pub open spec fn page_in(answer: JsonView, own: bool) -> JsonView {
    if own {
        answer.at("data"@).at("viewer"@).at("pullRequests"@)
    } else {
        answer.at("data"@).at("search"@)
    }
}

/// Whether a page is the last one of its connection.
pub open spec fn is_last_page(page: JsonView) -> bool {
    page.at("pageInfo"@).at("hasNextPage"@) == JsonView::Bool(false)
}

/// Whether a page has another one behind it, from some place on.
pub open spec fn goes_on(page: JsonView, cursor: Seq<char>) -> bool {
    &&& page.at("pageInfo"@).at("hasNextPage"@) == JsonView::Bool(true)
    &&& page.at("pageInfo"@).at("endCursor"@) == JsonView::Text(cursor)
}

/// A discovery starts with the user's own open pull requests.
pub proof fn discoveries_start_with_own(login: Seq<char>)
    ensures
        DiscoveryView::start(login).question() is Some,
        asks_for_own(DiscoveryView::start(login).question()->0, None),
        DiscoveryView::start(login).found == Map::<Seq<char>, PrRefView>::empty(),
        DiscoveryView::start(login).login == login,
{
}

/// Whether a discovery is at the user's own pull requests.
pub open spec fn at_own(d: DiscoveryView) -> bool {
    d.question() is Some && asks_for_own(d.question()->0, d.cursor)
}

/// Whether a discovery is at those in which the user has a role.
pub open spec fn at_role(d: DiscoveryView, role: Seq<char>) -> bool {
    d.question() is Some && searches_for(d.question()->0, role, d.login, d.cursor)
}

/// After the last page of the user's own pull requests come the open ones that are assigned to
/// the user, then the open ones whose review is asked of the user, each from its start, and then
/// nothing more is asked. Before its last page each is asked for on, from where the page ended.
pub proof fn discoveries_ask_for_every_role(d: DiscoveryView, answer: JsonView, cursor: Seq<char>)
    requires
        d.after(answer) is Ok,
    ensures
        ({
            let next = d.after(answer)->Ok_0;
            let own = page_in(answer, true);
            let found = page_in(answer, false);
            &&& next.login == d.login
            &&& at_own(d) && is_last_page(own) ==> at_role(next, "assignee"@) && next.cursor is None
            &&& at_role(d, "assignee"@) && is_last_page(found) ==> at_role(next, "review-requested"@) && next.cursor is None
            &&& at_role(d, "review-requested"@) && is_last_page(found) ==> next.question() is None
            &&& at_own(d) && goes_on(own, cursor) ==> at_own(next) && next.cursor == Some(cursor)
            &&& at_role(d, "assignee"@) && goes_on(found, cursor) ==> at_role(next, "assignee"@) && next.cursor == Some(cursor)
            &&& at_role(d, "review-requested"@) && goes_on(found, cursor) ==> at_role(next, "review-requested"@)
                && next.cursor == Some(cursor)
        }),
{
    questions_tell_stages(d);
    let next = d.after(answer)->Ok_0;
    questions_tell_stages(next);
}

/// What a discovery asks tells where it is.
proof fn questions_tell_stages(d: DiscoveryView)
    ensures
        at_own(d) <==> d.stage == discovery::DiscoveryStage::Authored,
        at_role(d, "assignee"@) <==> d.stage == discovery::DiscoveryStage::Assigned,
        at_role(d, "review-requested"@) <==> d.stage == discovery::DiscoveryStage::Requested,
        d.question() is None <==> d.stage == discovery::DiscoveryStage::Done,
{
    reveal_strlit("is:pr ");
    reveal_strlit("is:open ");
    reveal_strlit(":");
    reveal_strlit("assignee");
    reveal_strlit("review-requested");
    reveal_strlit("is:pr is:open assignee:");
    reveal_strlit("is:pr is:open review-requested:");
    reveal_strlit("cursor");
    reveal_strlit("q");
    let a = "is:pr "@ + "is:open "@ + "assignee"@ + ":"@ + d.login;
    let b = "is:pr "@ + "is:open "@ + "review-requested"@ + ":"@ + d.login;
    assert("is:pr is:open assignee:"@ + d.login =~= a);
    assert("is:pr is:open review-requested:"@ + d.login =~= b);
    assert(a[14] == 'a');
    assert(b[14] == 'r');
    if d.question() is Some {
        let payload = d.question()->0.payload->0->Object_0;
        let variables = payload[1].1->Object_0;
        if d.stage == discovery::DiscoveryStage::Authored {
            assert(variables.len() == 1);
        } else {
            assert(variables.len() == 2);
            assert(variables[1].1 == JsonView::Text(d.search_text()));
        }
    }
}

/// Whether a node is one of a pull request.
pub open spec fn names(node: JsonView, reference: PrRefView) -> bool {
    &&& node.at("id"@) == JsonView::Text(reference.id)
    &&& node.at("repository"@).at("nameWithOwner"@) == JsonView::Text(reference.repo)
    &&& node.at("number"@).whole() == Some(reference.number)
}

/// The nodes that a discovery reads in an answer.
pub open spec fn nodes_in(d: DiscoveryView, answer: JsonView) -> JsonView {
    page_in(answer, at_own(d)).at("nodes"@)
}

/// Every pull request on a page that was accepted is found, by its identity, with its repository
/// and number, and all that was found before stays found.
pub proof fn every_listed_pr_is_found(d: DiscoveryView, answer: JsonView, k: int, reference: PrRefView, before: Seq<char>)
    requires
        d.after(answer) is Ok,
        d.question() is Some,
    ensures
        nodes_in(d, answer) is List,
        0 <= k < nodes_in(d, answer)->List_0.len() && names(nodes_in(d, answer)->List_0[k], reference)
            ==> d.after(answer)->Ok_0.found.contains_key(reference.id),
        0 <= k < nodes_in(d, answer)->List_0.len() && names(nodes_in(d, answer)->List_0[k], reference) && (forall|j: int|
            k < j < nodes_in(d, answer)->List_0.len() ==> (#[trigger] nodes_in(d, answer)->List_0[j]).at("id"@)
                != JsonView::Text(reference.id)) ==> d.after(answer)->Ok_0.found[reference.id] == reference,
        d.found.contains_key(before) ==> d.after(answer)->Ok_0.found.contains_key(before),
        d.after(answer)->Ok_0.found.contains_key(before) ==> d.found.contains_key(before) || exists|j: int|
            0 <= j < nodes_in(d, answer)->List_0.len() && (#[trigger] nodes_in(d, answer)->List_0[j]).at("id"@)
                == JsonView::Text(before),
{
    questions_tell_stages(d);
    let nodes = nodes_in(d, answer)->List_0;
    if 0 <= k < nodes.len() && names(nodes[k], reference) {
        nodes_are_found(d.found, nodes, k, reference);
    }
    found_are_nodes(d.found, nodes, before);
}

/// A node that is read is found.
proof fn nodes_are_found(found: Map<Seq<char>, PrRefView>, nodes: Seq<JsonView>, k: int, reference: PrRefView)
    requires
        0 <= k < nodes.len(),
        names(nodes[k], reference),
        discovery::refs_with(found, nodes) is Ok,
    ensures
        discovery::refs_with(found, nodes)->Ok_0.contains_key(reference.id),
        (forall|j: int| k < j < nodes.len() ==> (#[trigger] nodes[j]).at("id"@) != JsonView::Text(reference.id))
            ==> discovery::refs_with(found, nodes)->Ok_0[reference.id] == reference,
    decreases nodes.len(),
{
    if k < nodes.len() - 1 {
        let rest = nodes.drop_last();
        assert(rest[k] == nodes[k]);
        nodes_are_found(found, rest, k, reference);
        if forall|j: int| k < j < nodes.len() ==> (#[trigger] nodes[j]).at("id"@) != JsonView::Text(reference.id) {
            assert forall|j: int| k < j < rest.len() implies (#[trigger] rest[j]).at("id"@) != JsonView::Text(
                reference.id,
            ) by {
                assert(rest[j] == nodes[j]);
            }
            assert(nodes[nodes.len() - 1].at("id"@) != JsonView::Text(reference.id));
        }
    }
}

/// What is found was found before, or is a node.
proof fn found_are_nodes(found: Map<Seq<char>, PrRefView>, nodes: Seq<JsonView>, id: Seq<char>)
    requires
        discovery::refs_with(found, nodes) is Ok,
    ensures
        found.contains_key(id) ==> discovery::refs_with(found, nodes)->Ok_0.contains_key(id),
        discovery::refs_with(found, nodes)->Ok_0.contains_key(id) ==> found.contains_key(id) || exists|j: int|
            0 <= j < nodes.len() && (#[trigger] nodes[j]).at("id"@) == JsonView::Text(id),
    decreases nodes.len(),
{
    if nodes.len() > 0 {
        let rest = nodes.drop_last();
        found_are_nodes(found, rest, id);
        if exists|j: int| 0 <= j < rest.len() && (#[trigger] rest[j]).at("id"@) == JsonView::Text(id) {
            let j = choose|j: int| 0 <= j < rest.len() && (#[trigger] rest[j]).at("id"@) == JsonView::Text(id);
            assert(nodes[j].at("id"@) == JsonView::Text(id));
        }
        assert(nodes[nodes.len() - 1] == nodes.last());
    }
}

/// All that was found is handed on, each pull request once, in the order of the identities.
pub proof fn all_that_is_found_is_handed_on(found: Map<Seq<char>, PrRefView>, id: Seq<char>)
    requires
        found.dom().finite(),
        found.contains_key(id),
    ensures
        text_map::values_in_order(found).contains(found[id]),
        text_map::values_in_order(found).len() == found.dom().len(),
{
    let keys = text_map::sorted_keys(found.dom());
    text_map::sorted_keys_exist(found.dom());
    assert(keys.to_set().contains(id));
    let k = choose|k: int| 0 <= k < keys.len() && keys[k] == id;
    assert(text_map::values_in_order(found)[k] == found[id]);
}

/// An answer is accepted where it is whole: with a list of pull requests that all have their
/// identity, their repository and their number, and with the place of the next page, if there is
/// one; of a search, where it finds a thousand at most.
pub proof fn whole_pages_are_accepted(d: DiscoveryView, answer: JsonView)
    requires
        d.question() is Some,
        answer.find("errors"@) is None,
        answer.find("data"@) is Some,
        nodes_in(d, answer) is List,
        forall|k: int|
            0 <= k < nodes_in(d, answer)->List_0.len() ==> {
                let node = #[trigger] nodes_in(d, answer)->List_0[k];
                &&& node.at("id"@) is Text
                &&& node.at("repository"@).at("nameWithOwner"@) is Text
                &&& node.at("number"@).whole() is Some
            },
        is_last_page(page_in(answer, at_own(d))) || page_in(answer, at_own(d)).at("pageInfo"@).at("hasNextPage"@)
            == JsonView::Bool(true) && page_in(answer, at_own(d)).at("pageInfo"@).at("endCursor"@) is Text,
        !at_own(d) ==> page_in(answer, false).at("issueCount"@).whole() is None || page_in(answer, false).at(
            "issueCount"@,
        ).whole()->0 <= 1000,
    ensures
        d.after(answer) is Ok,
{
    questions_tell_stages(d);
    let nodes = nodes_in(d, answer)->List_0;
    whole_nodes_are_read(d.found, nodes);
}

/// Whole nodes are read.
proof fn whole_nodes_are_read(found: Map<Seq<char>, PrRefView>, nodes: Seq<JsonView>)
    requires
        forall|k: int|
            0 <= k < nodes.len() ==> {
                let node = #[trigger] nodes[k];
                &&& node.at("id"@) is Text
                &&& node.at("repository"@).at("nameWithOwner"@) is Text
                &&& node.at("number"@).whole() is Some
            },
    ensures
        discovery::refs_with(found, nodes) is Ok,
    decreases nodes.len(),
{
    if nodes.len() > 0 {
        let rest = nodes.drop_last();
        assert forall|k: int| 0 <= k < rest.len() implies ({
            let node = #[trigger] rest[k];
            &&& node.at("id"@) is Text
            &&& node.at("repository"@).at("nameWithOwner"@) is Text
            &&& node.at("number"@).whole() is Some
        }) by {
            assert(rest[k] == nodes[k]);
        }
        whole_nodes_are_read(found, rest);
        assert(nodes[nodes.len() - 1].at("id"@) is Text);
    }
}

/// An answer with errors, without its data, without its list, with a pull request that lacks
/// something, or without word of the next page is refused; so is a search that finds more than a
/// thousand.
pub proof fn partial_pages_are_refused(d: DiscoveryView, answer: JsonView, k: int)
    requires
        d.question() is Some,
        ({
            let page = page_in(answer, at_own(d));
            ||| answer.find("errors"@) is Some
            ||| answer.find("data"@) is None
            ||| !(page.at("nodes"@) is List)
            ||| 0 <= k < page.at("nodes"@)->List_0.len() && !(page.at("nodes"@)->List_0[k].at("id"@) is Text)
            ||| 0 <= k < page.at("nodes"@)->List_0.len() && page.at("nodes"@)->List_0[k].at("number"@).whole() is None
            ||| !(page.at("pageInfo"@).at("hasNextPage"@) is Bool)
            ||| page.at("pageInfo"@).at("hasNextPage"@) == JsonView::Bool(true) && !(page.at("pageInfo"@).at("endCursor"@)
                is Text)
            ||| !at_own(d) && page.at("issueCount"@).whole() is Some && page.at("issueCount"@).whole()->0 > 1000
        }),
    ensures
        d.after(answer) is Err,
{
    questions_tell_stages(d);
    let nodes = nodes_in(d, answer)->List_0;
    if nodes_in(d, answer) is List && 0 <= k < nodes.len() && (!(nodes[k].at("id"@) is Text) || nodes[k].at(
        "number"@,
    ).whole() is None) {
        partial_nodes_are_refused(d.found, nodes, k);
    }
}

/// A node that lacks something is refused.
proof fn partial_nodes_are_refused(found: Map<Seq<char>, PrRefView>, nodes: Seq<JsonView>, k: int)
    requires
        0 <= k < nodes.len(),
        !(nodes[k].at("id"@) is Text) || nodes[k].at("number"@).whole() is None,
    ensures
        discovery::refs_with(found, nodes) is Err,
    decreases nodes.len(),
{
    if k < nodes.len() - 1 {
        assert(nodes.drop_last()[k] == nodes[k]);
        partial_nodes_are_refused(found, nodes.drop_last(), k);
    }
}

// ---------------------------------------------------------------- the end of a poll

/// At the end of a poll a pull request is what its node says: the commit, and open exactly where
/// its state is so. Another state, another pull request and another account are refused.
pub proof fn ends_of_polls_are_read(answer: JsonView, ids: Seq<Seq<char>>, viewer: Seq<char>, k: int)
    requires
        discovery::final_answer(answer, ids, viewer) is Ok,
        0 <= k < ids.len(),
    ensures
        ({
            let heads = discovery::final_answer(answer, ids, viewer)->Ok_0;
            let nodes = answer.at("data"@).at("nodes"@)->List_0;
            let state = nodes[k].at("state"@);
            &&& answer.at("data"@).at("viewer"@).at("login"@) == JsonView::Text(viewer)
            &&& answer.at("data"@).at("nodes"@) is List
            &&& nodes.len() == ids.len()
            &&& heads.len() == ids.len()
            &&& nodes[k].at("id"@) == JsonView::Text(ids[k])
            &&& heads[k].id == ids[k]
            &&& nodes[k].at("headRefOid"@) == JsonView::Text(heads[k].head)
            &&& state == JsonView::Text("OPEN"@) || state == JsonView::Text("CLOSED"@) || state == JsonView::Text("MERGED"@)
            &&& heads[k].open == (state == JsonView::Text("OPEN"@))
        }),
{
    let nodes = answer.at("data"@).at("nodes"@)->List_0;
    heads_are_those_of_nodes(nodes, ids, ids.len(), k);
}

/// Each head is that of its node.
proof fn heads_are_those_of_nodes(nodes: Seq<JsonView>, ids: Seq<Seq<char>>, count: nat, k: int)
    requires
        discovery::final_heads_of(nodes, ids, count) is Ok,
        0 <= k < count,
    ensures
        ({
            let heads = discovery::final_heads_of(nodes, ids, count)->Ok_0;
            let state = nodes[k].at("state"@);
            &&& heads.len() == count
            &&& nodes[k].at("id"@) == JsonView::Text(ids[k])
            &&& heads[k].id == ids[k]
            &&& nodes[k].at("headRefOid"@) == JsonView::Text(heads[k].head)
            &&& state == JsonView::Text("OPEN"@) || state == JsonView::Text("CLOSED"@) || state == JsonView::Text("MERGED"@)
            &&& heads[k].open == (state == JsonView::Text("OPEN"@))
        }),
    decreases count,
{
    reveal_strlit("OPEN");
    reveal_strlit("CLOSED");
    reveal_strlit("MERGED");
    assert("OPEN"@.len() == 4 && "CLOSED"@.len() == 6 && "MERGED"@.len() == 6);
    if k < count - 1 {
        heads_are_those_of_nodes(nodes, ids, (count - 1) as nat, k);
    } else if count > 1 {
        heads_are_those_of_nodes(nodes, ids, (count - 1) as nat, 0);
    }
}

} // verus!
