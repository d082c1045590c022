//! Finding pull requests, and asking who they are.

use crate::github::details;
use crate::github::exchange::{self, ApiRequest, ApiRequestView, ResponsePolicy};
use crate::github::fields;
use crate::github::{PrRef, PrRefView};
use crate::json::{Json, JsonView};
use crate::model::{Snapshot, SnapshotView};
use crate::text;
use crate::text_map::{self, TextMap};
use vstd::prelude::*;

verus! {

broadcast use vstd::seq_lib::group_seq_properties;

/// The question for the user's own pull requests. Search can silently omit open ones; this
/// reads the records themselves.
pub const AUTHORED_QUERY: &'static str =
    "query AuthoredPrs($cursor:String) { viewer { pullRequests(states:OPEN,first:100,after:$cursor) { pageInfo { hasNextPage endCursor } nodes { id number repository { nameWithOwner } } } } }";

/// The question for pull requests that a search finds.
pub const SEARCH_QUERY: &'static str =
    "query($q:String!,$cursor:String) { search(query:$q,type:ISSUE,first:100,after:$cursor) { issueCount pageInfo { hasNextPage endCursor } nodes { ... on PullRequest { id number repository { nameWithOwner } } } } }";

/// The question for the account.
pub const VIEWER_QUERY: &'static str = "query { viewer { login } }";

/// The question for a pull request by its number.
pub const RESOLVE_QUERY: &'static str =
    "query($owner:String!,$name:String!,$number:Int!) { repository(owner:$owner,name:$name) { pullRequest(number:$number) { id } } }";

/// The question for what ignored pull requests are, without their reviews.
pub const IGNORED_QUERY: &'static str =
    "query IgnoredPrDetails($ids:[ID!]!){nodes(ids:$ids){... on PullRequest{id number title url state isDraft headRefName baseRefName isCrossRepository headRepositoryOwner{login} repository{nameWithOwner}}}}";

/// The question for the commits of pull requests at the end of a poll.
pub const HEADS_QUERY: &'static str =
    "query PollHeads($ids:[ID!]!){viewer{login} nodes(ids:$ids){... on PullRequest{id headRefOid state}}}";

// ---------------------------------------------------------------- the account

/// The question for the account: a plain one where queries have to wait and plain
/// questions have not.
pub open spec fn viewer_question(plain: bool) -> ApiRequestView {
    if plain {
        fields::rest_view("user"@)
    } else {
        fields::query_view(VIEWER_QUERY@, JsonView::Object(Seq::empty()), ResponsePolicy::Strict)
    }
}

/// The account that an answer names.
pub open spec fn viewer_of(answer: JsonView, plain: bool) -> Result<Seq<char>, Seq<char>> {
    if plain {
        fields::required_text(answer, "login"@)
    } else {
        match fields::data_of(answer) {
            Err(message) => Err(message),
            Ok(data) => fields::required_text(data.at("viewer"@), "login"@),
        }
    }
}

/// The question for the account.
pub fn viewer_request(plain: bool) -> (r: ApiRequest)
    ensures
        r@ == viewer_question(plain),
{
    if plain {
        fields::rest("user")
    } else {
        let members: Vec<(String, Json)> = Vec::new();
        let variables = Json::Object(members);
        assert(variables@->Object_0 =~= Seq::empty());
        fields::query(VIEWER_QUERY, variables, ResponsePolicy::Strict)
    }
}

/// The account that an answer names.
pub fn read_viewer(answer: &Json, plain: bool) -> (r: Result<String, String>)
    ensures
        fields::result_view(r) == viewer_of(answer@, plain),
{
    let named = if plain {
        fields::required(answer, "login")
    } else {
        match fields::graphql_data(answer) {
            Err(message) => Err(message),
            Ok(data) => fields::required(data.at("viewer"), "login"),
        }
    };
    match named {
        Ok(login) => Ok(login.to_owned()),
        Err(message) => Err(message),
    }
}

// ---------------------------------------------------------------- discovery

/// Where a discovery looks.
#[derive(Clone, Copy, Debug, PartialEq, Eq, Structural)]
pub enum DiscoveryStage {
    Authored,
    Assigned,
    Requested,
    Done,
}

/// The contents of a [`Discovery`].
#[verifier::ext_equal]
pub struct DiscoveryView {
    pub login: Seq<char>,
    pub stage: DiscoveryStage,
    pub cursor: Option<Seq<char>>,
    pub found: Map<Seq<char>, PrRefView>,
}

/// The pull request that a node names.
pub open spec fn ref_of(node: JsonView) -> Result<PrRefView, Seq<char>> {
    let id = fields::required_text(node, "id"@);
    let repo = fields::required_text(node.at("repository"@), "nameWithOwner"@);
    let number = fields::pr_number(node);
    if id is Err {
        Err(id->Err_0)
    } else if repo is Err {
        Err(repo->Err_0)
    } else if number is Err {
        Err(number->Err_0)
    } else {
        Ok(PrRefView { id: id->Ok_0, repo: repo->Ok_0, number: number->Ok_0 })
    }
}

/// The pull requests that are known once nodes have been read, each once.
pub open spec fn refs_with(found: Map<Seq<char>, PrRefView>, nodes: Seq<JsonView>) -> Result<
    Map<Seq<char>, PrRefView>,
    Seq<char>,
>
    decreases nodes.len(),
{
    if nodes.len() == 0 {
        Ok(found)
    } else {
        match refs_with(found, nodes.drop_last()) {
            Err(message) => Err(message),
            Ok(before) => match ref_of(nodes.last()) {
                Err(message) => Err(message),
                Ok(reference) => Ok(before.insert(reference.id, reference)),
            },
        }
    }
}

/// A fault in some nodes is the fault of all of them.
proof fn ref_faults_stay(found: Map<Seq<char>, PrRefView>, nodes: Seq<JsonView>, i: int)
    requires
        0 <= i <= nodes.len(),
        refs_with(found, nodes.take(i)) is Err,
    ensures
        refs_with(found, nodes) == refs_with(found, nodes.take(i)),
    decreases nodes.len() - i,
{
    if i < nodes.len() {
        assert(nodes.take(i + 1).drop_last() =~= nodes.take(i));
        ref_faults_stay(found, nodes, i + 1);
    } else {
        assert(nodes.take(i) =~= nodes);
    }
}

impl DiscoveryView {
    /// Nothing has been found yet.
    pub open spec fn start(login: Seq<char>) -> DiscoveryView {
        DiscoveryView { login, stage: DiscoveryStage::Authored, cursor: None, found: Map::empty() }
    }

    /// What is searched for.
    pub open spec fn search_text(self) -> Seq<char> {
        if self.stage == DiscoveryStage::Assigned {
            "is:pr is:open assignee:"@ + self.login
        } else {
            "is:pr is:open review-requested:"@ + self.login
        }
    }

    /// The next question, unless everything has been found.
    pub open spec fn question(self) -> Option<ApiRequestView> {
        let cursor = ("cursor"@, details::cursor_value(self.cursor));
        match self.stage {
            DiscoveryStage::Authored => Some(
                fields::query_view(AUTHORED_QUERY@, JsonView::Object(seq![cursor]), ResponsePolicy::Strict),
            ),
            DiscoveryStage::Assigned | DiscoveryStage::Requested => Some(
                fields::query_view(
                    SEARCH_QUERY@,
                    JsonView::Object(seq![cursor, ("q"@, JsonView::Text(self.search_text()))]),
                    ResponsePolicy::Strict,
                ),
            ),
            DiscoveryStage::Done => None,
        }
    }

    /// Where is looked next.
    pub open spec fn next_stage(self) -> DiscoveryStage {
        match self.stage {
            DiscoveryStage::Authored => DiscoveryStage::Assigned,
            DiscoveryStage::Assigned => DiscoveryStage::Requested,
            _ => DiscoveryStage::Done,
        }
    }

    /// A page of pull requests has come.
    pub open spec fn with_connection(self, connection: JsonView) -> Result<DiscoveryView, Seq<char>> {
        match fields::nodes_of(connection) {
            Err(message) => Err(message),
            Ok(nodes) => match refs_with(self.found, nodes) {
                Err(message) => Err(message),
                Ok(found) => match fields::cursor_of(connection) {
                    Err(message) => Err(message),
                    Ok(Some(cursor)) => Ok(DiscoveryView { found, cursor: Some(cursor), ..self }),
                    Ok(None) => Ok(DiscoveryView { found, cursor: None, stage: self.next_stage(), ..self }),
                },
            },
        }
    }

    /// The number of pull requests that a search finds, or zero where it does not say.
    pub open spec fn search_count(search: JsonView) -> u64 {
        match search.at("issueCount"@).whole() {
            Some(n) => n,
            None => 0,
        }
    }

    /// The answer to the next question has come. A search that finds more than can be
    /// listed is refused.
    pub open spec fn after(self, answer: JsonView) -> Result<DiscoveryView, Seq<char>> {
        if self.stage == DiscoveryStage::Done {
            Ok(self)
        } else {
            match fields::data_of(answer) {
                Err(message) => Err(message),
                Ok(data) => if self.stage == DiscoveryStage::Authored {
                    self.with_connection(data.at("viewer"@).at("pullRequests"@))
                } else if Self::search_count(data.at("search"@)) > 1000 {
                    Err("GitHub search exceeds 1,000 PRs; refusing a truncated discovery result"@)
                } else {
                    self.with_connection(data.at("search"@))
                },
            }
        }
    }
}

/// A search for the pull requests that concern an account.
pub struct Discovery {
    login: String,
    stage: DiscoveryStage,
    cursor: Option<String>,
    found: TextMap<PrRef>,
}

impl View for Discovery {
    type V = DiscoveryView;

    closed spec fn view(&self) -> DiscoveryView {
        DiscoveryView {
            login: self.login@,
            stage: self.stage,
            cursor: self.cursor.deep_view(),
            found: self.found@,
        }
    }
}

impl DeepView for Discovery {
    type V = DiscoveryView;

    open spec fn deep_view(&self) -> DiscoveryView {
        self@
    }
}

/// The pull request that a node names.
fn read_ref(node: &Json) -> (r: Result<PrRef, String>)
    ensures
        fields::result_view(r) == ref_of(node@),
{
    let id = match fields::required(node, "id") {
        Ok(id) => id.to_owned(),
        Err(message) => {
            return Err(message);
        },
    };
    let repo = match fields::required(node.at("repository"), "nameWithOwner") {
        Ok(repo) => repo.to_owned(),
        Err(message) => {
            return Err(message);
        },
    };
    match node.at("number").as_u64() {
        Some(number) => Ok(PrRef { id, repo, number }),
        None => Err("Missing PR number".to_owned()),
    }
}

impl Discovery {
    /// Starts a discovery.
    pub fn new(login: &str) -> (r: Discovery)
        ensures
            r@ == DiscoveryView::start(login@),
    {
        Discovery { login: login.to_owned(), stage: DiscoveryStage::Authored, cursor: None, found: TextMap::new() }
    }

    /// The next question, unless everything has been found.
    pub fn request(&self) -> (r: Option<ApiRequest>)
        ensures
            r.deep_view() == self@.question(),
    {
        match self.stage {
            DiscoveryStage::Authored => {
                let variables = Json::Object(vec![("cursor".to_owned(), Json::optional(&self.cursor))]);
                assert(variables@->Object_0 =~= seq![("cursor"@, details::cursor_value(self@.cursor))]);
                Some(fields::query(AUTHORED_QUERY, variables, ResponsePolicy::Strict))
            },
            DiscoveryStage::Assigned | DiscoveryStage::Requested => {
                let search = if self.stage == DiscoveryStage::Assigned {
                    text::concat("is:pr is:open assignee:", &self.login)
                } else {
                    text::concat("is:pr is:open review-requested:", &self.login)
                };
                let variables = Json::Object(
                    vec![("cursor".to_owned(), Json::optional(&self.cursor)), ("q".to_owned(), Json::text(&search))],
                );
                assert(variables@->Object_0 =~= seq![
                    ("cursor"@, details::cursor_value(self@.cursor)),
                    ("q"@, JsonView::Text(self@.search_text())),
                ]);
                Some(fields::query(SEARCH_QUERY, variables, ResponsePolicy::Strict))
            },
            DiscoveryStage::Done => None,
        }
    }

    /// A page of pull requests has come.
    fn with_connection(self, connection: &Json) -> (r: Result<Discovery, String>)
        ensures
            fields::result_view(r) == self@.with_connection(connection@),
    {
        let nodes = match fields::nodes(connection) {
            Ok(nodes) => nodes,
            Err(message) => {
                return Err(message);
            },
        };
        let ghost v = nodes.deep_view();
        let ghost was = self@;
        let mut found = self.found;
        let mut i: usize = 0;
        while i < nodes.len()
            invariant
                v == nodes.deep_view(),
                i <= nodes@.len(),
                was == self@,
                fields::nodes_of(connection@) == Ok::<Seq<JsonView>, Seq<char>>(v),
                refs_with(was.found, v.take(i as int)) == Ok::<Map<Seq<char>, PrRefView>, Seq<char>>(found@),
            decreases nodes.len() - i,
        {
            assert(v.take(i + 1).drop_last() =~= v.take(i as int));
            assert(v.take(i + 1).last() == nodes@[i as int]@);
            match read_ref(&nodes[i]) {
                Ok(reference) => {
                    found.insert(reference.id.clone(), reference);
                },
                Err(message) => {
                    proof {
                        ref_faults_stay(was.found, v, i + 1);
                    }
                    return Err(message);
                },
            }
            i += 1;
        }
        assert(v.take(i as int) =~= v);
        match fields::next_cursor(connection) {
            Err(message) => Err(message),
            Ok(Some(cursor)) => Ok(Discovery { login: self.login, stage: self.stage, cursor: Some(cursor), found }),
            Ok(None) => {
                let stage = match self.stage {
                    DiscoveryStage::Authored => DiscoveryStage::Assigned,
                    DiscoveryStage::Assigned => DiscoveryStage::Requested,
                    _ => DiscoveryStage::Done,
                };
                Ok(Discovery { login: self.login, stage, cursor: None, found })
            },
        }
    }

    /// The answer to the next question has come.
    pub fn accept(self, answer: &Json) -> (r: Result<Discovery, String>)
        ensures
            fields::result_view(r) == self@.after(answer@),
    {
        if self.stage == DiscoveryStage::Done {
            return Ok(self);
        }
        let data = match fields::graphql_data(answer) {
            Ok(data) => data,
            Err(message) => {
                return Err(message);
            },
        };
        if self.stage == DiscoveryStage::Authored {
            return self.with_connection(data.at("viewer").at("pullRequests"));
        }
        let search = data.at("search");
        let count: u64 = match search.at("issueCount").as_u64() {
            Some(n) => n,
            None => 0,
        };
        if count > 1000 {
            return Err("GitHub search exceeds 1,000 PRs; refusing a truncated discovery result".to_owned());
        }
        self.with_connection(search)
    }

    /// What has been found, in the order of the identities.
    pub fn into_refs(self) -> (r: Vec<PrRef>)
        ensures
            r.deep_view() == text_map::values_in_order(self@.found),
    {
        values(&self.found)
    }
}

/// The pull requests of a map in the order of their identities.
pub fn values(found: &TextMap<PrRef>) -> (r: Vec<PrRef>)
    ensures
        r.deep_view() == text_map::values_in_order(found@),
{
    let ghost keys = text_map::sorted_keys(found@.dom());
    let count: usize = found.len();
    let mut r: Vec<PrRef> = Vec::new();
    let mut i: usize = 0;
    while i < count
        invariant
            keys == text_map::sorted_keys(found@.dom()),
            count == keys.len(),
            i <= count,
            r.deep_view() =~= keys.take(i as int).map_values(|k: Seq<char>| found@[k]),
        decreases count - i,
    {
        let ghost done = r.deep_view();
        r.push(found.value_at(i).clone());
        assert(r.deep_view() =~= done.push(found@[keys[i as int]]));
        i += 1;
    }
    assert(keys.take(i as int) =~= keys);
    r
}

// ---------------------------------------------------------------- single pull requests

/// The question for a pull request by its number.
pub open spec fn resolve_question(repo: Seq<char>, number: u64) -> Result<ApiRequestView, Seq<char>> {
    match text::split_once_at(repo, "/"@) {
        None => Err("Repository must be OWNER/REPO"@),
        Some(parts) => Ok(
            fields::query_view(
                RESOLVE_QUERY@,
                JsonView::Object(
                    seq![
                        ("name"@, JsonView::Text(parts.1)),
                        ("number"@, JsonView::Number(Some(number), text::decimal_of(number as nat))),
                        ("owner"@, JsonView::Text(parts.0)),
                    ],
                ),
                ResponsePolicy::Strict,
            ),
        ),
    }
}

/// The pull request that an answer names.
pub open spec fn resolved(answer: JsonView, repo: Seq<char>, number: u64) -> Result<PrRefView, Seq<char>> {
    match fields::data_of(answer) {
        Err(message) => Err(message),
        Ok(data) => match fields::required_text(data.at("repository"@).at("pullRequest"@), "id"@) {
            Err(message) => Err(message),
            Ok(id) => Ok(PrRefView { id, repo, number }),
        },
    }
}

/// The question for a pull request by its number.
pub fn resolve_request(repo: &str, number: u64) -> (r: Result<ApiRequest, String>)
    ensures
        fields::result_view(r) == resolve_question(repo@, number),
{
    match text::split_once(repo, "/") {
        None => Err("Repository must be OWNER/REPO".to_owned()),
        Some((owner, name)) => {
            let variables = Json::Object(
                vec![
                    ("name".to_owned(), Json::text(&name)),
                    ("number".to_owned(), Json::number(number)),
                    ("owner".to_owned(), Json::text(&owner)),
                ],
            );
            assert(variables@->Object_0 =~= seq![
                ("name"@, JsonView::Text(name@)),
                ("number"@, JsonView::Number(Some(number), text::decimal_of(number as nat))),
                ("owner"@, JsonView::Text(owner@)),
            ]);
            Ok(fields::query(RESOLVE_QUERY, variables, ResponsePolicy::Strict))
        },
    }
}

/// The pull request that an answer names.
pub fn read_resolved(answer: &Json, repo: &str, number: u64) -> (r: Result<PrRef, String>)
    ensures
        fields::result_view(r) == resolved(answer@, repo@, number),
{
    match fields::graphql_data(answer) {
        Err(message) => Err(message),
        Ok(data) => match fields::required(data.at("repository").at("pullRequest"), "id") {
            Err(message) => Err(message),
            Ok(id) => Ok(PrRef { id: id.to_owned(), repo: repo.to_owned(), number }),
        },
    }
}

/// The question that names pull requests by their identities.
pub open spec fn identities_question(query: Seq<char>, ids: Seq<Seq<char>>, policy: ResponsePolicy) -> ApiRequestView {
    fields::query_view(query, JsonView::Object(seq![("ids"@, fields::texts_view(ids))]), policy)
}

/// The question that names pull requests by their identities.
fn identities_request(query: &str, ids: &Vec<String>, policy: ResponsePolicy) -> (r: ApiRequest)
    ensures
        r@ == identities_question(query@, ids.deep_view(), policy),
{
    let variables = Json::Object(vec![("ids".to_owned(), fields::texts(ids))]);
    assert(variables@->Object_0 =~= seq![("ids"@, fields::texts_view(ids.deep_view()))]);
    fields::query(query, variables, policy)
}

// ---------------------------------------------------------------- ignored pull requests

/// Whether a state means that a pull request is open; none for an unknown state.
pub open spec fn open_state(state: Seq<char>) -> Option<bool> {
    if state == "OPEN"@ {
        Some(true)
    } else if state == "CLOSED"@ || state == "MERGED"@ {
        Some(false)
    } else {
        None
    }
}

/// What a node says of an ignored pull request.
pub open spec fn ignored_of(node: JsonView, ids: Seq<Seq<char>>) -> Result<SnapshotView, Seq<char>> {
    let id = fields::required_text(node, "id"@);
    let repo = fields::required_text(node.at("repository"@), "nameWithOwner"@);
    let number = fields::pr_number(node);
    let title = fields::required_text(node, "title"@);
    let url = fields::required_text(node, "url"@);
    let state = fields::required_text(node, "state"@);
    if id is Err {
        Err(id->Err_0)
    } else if !ids.contains(id->Ok_0) {
        Err("Unexpected ignored PR identity"@)
    } else if repo is Err {
        Err(repo->Err_0)
    } else if number is Err {
        Err(number->Err_0)
    } else if title is Err {
        Err(title->Err_0)
    } else if url is Err {
        Err(url->Err_0)
    } else if state is Err {
        Err(state->Err_0)
    } else if open_state(state->Ok_0) is None {
        Err("Unknown ignored PR lifecycle state"@)
    } else {
        Ok(
            SnapshotView {
                id: id->Ok_0,
                repo: repo->Ok_0,
                number: number->Ok_0,
                title: title->Ok_0,
                head_branch: node.at("headRefName"@).str(),
                base_branch: node.at("baseRefName"@).str(),
                source_owner: details::source_owner_of(node),
                url: url->Ok_0,
                open: open_state(state->Ok_0)->0,
                draft: node.at("isDraft"@).truth() == Some(true),
                ..SnapshotView::blank()
            },
        )
    }
}

/// What nodes say of ignored pull requests. Of one that is not available nothing is said.
pub open spec fn ignored_list(nodes: Seq<JsonView>, ids: Seq<Seq<char>>) -> Result<Seq<SnapshotView>, Seq<char>>
    decreases nodes.len(),
{
    if nodes.len() == 0 {
        Ok(Seq::empty())
    } else {
        match ignored_list(nodes.drop_last(), ids) {
            Err(message) => Err(message),
            Ok(before) => if nodes.last() is Null {
                Ok(before)
            } else {
                match ignored_of(nodes.last(), ids) {
                    Err(message) => Err(message),
                    Ok(snapshot) => Ok(before.push(snapshot)),
                }
            },
        }
    }
}

/// What an answer says of ignored pull requests. Errors are refused unless each of them
/// only says that a pull request is not available.
pub open spec fn ignored_answer(answer: JsonView, ids: Seq<Seq<char>>) -> Result<Seq<SnapshotView>, Seq<char>> {
    if answer.find("errors"@) is Some && !exchange::only_missing_nodes(answer) {
        Err("GitHub GraphQL returned errors during ignored PR lookup"@)
    } else {
        match answer.at("data"@).at("nodes"@).list() {
            None => Err("Missing ignored PR identities"@),
            Some(nodes) => ignored_list(nodes, ids),
        }
    }
}

/// A fault in some nodes is the fault of all of them.
proof fn ignored_faults_stay(nodes: Seq<JsonView>, ids: Seq<Seq<char>>, i: int)
    requires
        0 <= i <= nodes.len(),
        ignored_list(nodes.take(i), ids) is Err,
    ensures
        ignored_list(nodes, ids) == ignored_list(nodes.take(i), ids),
    decreases nodes.len() - i,
{
    if i < nodes.len() {
        assert(nodes.take(i + 1).drop_last() =~= nodes.take(i));
        ignored_faults_stay(nodes, ids, i + 1);
    } else {
        assert(nodes.take(i) =~= nodes);
    }
}

/// The question for what ignored pull requests are.
pub fn ignored_request(ids: &Vec<String>) -> (r: ApiRequest)
    ensures
        r@ == identities_question(IGNORED_QUERY@, ids.deep_view(), ResponsePolicy::MissingNodes),
{
    identities_request(IGNORED_QUERY, ids, ResponsePolicy::MissingNodes)
}

/// Whether texts hold a given one.
fn holds(list: &Vec<String>, wanted: &str) -> (r: bool)
    ensures
        r == list.deep_view().contains(wanted@),
{
    let ghost v = list.deep_view();
    let mut i: usize = 0;
    while i < list.len()
        invariant
            v == list.deep_view(),
            i <= list@.len(),
            forall|k: int| 0 <= k < i ==> v[k] != wanted@,
        decreases list.len() - i,
    {
        assert(v[i as int] == list@[i as int]@);
        if text::same(&list[i], wanted) {
            return true;
        }
        i += 1;
    }
    false
}

/// What a node says of an ignored pull request.
fn read_ignored_node(node: &Json, ids: &Vec<String>) -> (r: Result<Snapshot, String>)
    ensures
        fields::result_view(r) == ignored_of(node@, ids.deep_view()),
{
    let id = match fields::required(node, "id") {
        Ok(id) => id.to_owned(),
        Err(message) => {
            return Err(message);
        },
    };
    if !holds(ids, &id) {
        return Err("Unexpected ignored PR identity".to_owned());
    }
    let repo = match fields::required(node.at("repository"), "nameWithOwner") {
        Ok(repo) => repo.to_owned(),
        Err(message) => {
            return Err(message);
        },
    };
    let number: u64 = match node.at("number").as_u64() {
        Some(number) => number,
        None => {
            return Err("Missing PR number".to_owned());
        },
    };
    let title = match fields::required(node, "title") {
        Ok(title) => title.to_owned(),
        Err(message) => {
            return Err(message);
        },
    };
    let url = match fields::required(node, "url") {
        Ok(url) => url.to_owned(),
        Err(message) => {
            return Err(message);
        },
    };
    let state = match fields::required(node, "state") {
        Ok(state) => state,
        Err(message) => {
            return Err(message);
        },
    };
    let open = match read_open_state(state) {
        Some(open) => open,
        None => {
            return Err("Unknown ignored PR lifecycle state".to_owned());
        },
    };
    let draft = match node.at("isDraft").as_bool() {
        Some(draft) => draft,
        None => false,
    };
    let blank = Snapshot::default();
    Ok(
        Snapshot {
            id,
            repo,
            number,
            title,
            url,
            head: blank.head,
            head_branch: details::optional_text(node.at("headRefName")),
            base_branch: details::optional_text(node.at("baseRefName")),
            source_owner: details::source_owner(node),
            open,
            draft,
            reviews: blank.reviews,
            comments: blank.comments,
            reactions: blank.reactions,
            threads: blank.threads,
            checks: blank.checks,
            check_state: None,
            labels: blank.labels,
        },
    )
}

/// Whether a state means that a pull request is open.
fn read_open_state(state: &str) -> (r: Option<bool>)
    ensures
        r == open_state(state@),
{
    if text::same(state, "OPEN") {
        Some(true)
    } else if text::same(state, "CLOSED") || text::same(state, "MERGED") {
        Some(false)
    } else {
        None
    }
}

/// What an answer says of ignored pull requests.
pub fn read_ignored(answer: &Json, ids: &Vec<String>) -> (r: Result<Vec<Snapshot>, String>)
    ensures
        fields::result_view(r) == ignored_answer(answer@, ids.deep_view()),
{
    if answer.get("errors").is_some() && !exchange::only_missing_node_errors(answer) {
        return Err("GitHub GraphQL returned errors during ignored PR lookup".to_owned());
    }
    let listed = answer.at("data").at("nodes");
    let nodes = match listed.as_array() {
        Some(nodes) => nodes,
        None => {
            return Err("Missing ignored PR identities".to_owned());
        },
    };
    let ghost v = nodes.deep_view();
    let ghost wanted = ids.deep_view();
    let mut found: Vec<Snapshot> = Vec::new();
    let mut i: usize = 0;
    assert(found.deep_view() =~= Seq::empty());
    while i < nodes.len()
        invariant
            v == nodes.deep_view(),
            wanted == ids.deep_view(),
            listed@ == JsonView::List(v),
            listed@ == answer@.at("data"@).at("nodes"@),
            answer@.find("errors"@) is None || exchange::only_missing_nodes(answer@),
            i <= nodes@.len(),
            ignored_list(v.take(i as int), wanted) == Ok::<Seq<SnapshotView>, Seq<char>>(found.deep_view()),
        decreases nodes.len() - i,
    {
        let node = &nodes[i];
        assert(v.take(i + 1).drop_last() =~= v.take(i as int));
        assert(v.take(i + 1).last() == node@);
        if !node.is_null() {
            let ghost done = found.deep_view();
            match read_ignored_node(node, ids) {
                Ok(snapshot) => {
                    let ghost new = snapshot@;
                    found.push(snapshot);
                    assert(found.deep_view() =~= done.push(new));
                },
                Err(message) => {
                    proof {
                        ignored_faults_stay(v, wanted, i + 1);
                    }
                    return Err(message);
                },
            }
        }
        i += 1;
    }
    assert(v.take(i as int) =~= v);
    Ok(found)
}

// ---------------------------------------------------------------- the end of a poll

/// What is known of a pull request at the end of a poll.
pub struct FinalHead {
    pub id: String,
    pub head: String,
    pub open: bool,
}

/// The contents of a [`FinalHead`].
#[verifier::ext_equal]
pub struct FinalHeadView {
    pub id: Seq<char>,
    pub head: Seq<char>,
    pub open: bool,
}

impl View for FinalHead {
    type V = FinalHeadView;

    open spec fn view(&self) -> FinalHeadView {
        FinalHeadView { id: self.id@, head: self.head@, open: self.open }
    }
}

impl DeepView for FinalHead {
    type V = FinalHeadView;

    open spec fn deep_view(&self) -> FinalHeadView {
        self@
    }
}

/// What a node says of a pull request at the end of a poll.
pub open spec fn final_head_of(node: JsonView, id: Seq<char>) -> Result<FinalHeadView, Seq<char>> {
    let state = fields::required_text(node, "state"@);
    let head = fields::required_text(node, "headRefOid"@);
    if node.at("id"@).str() != Some(id) {
        Err("Missing or unexpected PR identity in final head checks"@)
    } else if state is Err {
        Err(state->Err_0)
    } else if open_state(state->Ok_0) is None {
        Err("Unknown PR lifecycle state"@)
    } else if head is Err {
        Err(head->Err_0)
    } else {
        Ok(FinalHeadView { id, head: head->Ok_0, open: open_state(state->Ok_0)->0 })
    }
}

/// What the first `count` nodes say of pull requests at the end of a poll.
pub open spec fn final_heads_of(nodes: Seq<JsonView>, ids: Seq<Seq<char>>, count: nat) -> Result<
    Seq<FinalHeadView>,
    Seq<char>,
>
    decreases count,
{
    if count == 0 {
        Ok(Seq::empty())
    } else {
        match final_heads_of(nodes, ids, (count - 1) as nat) {
            Err(message) => Err(message),
            Ok(before) => match final_head_of(nodes[count - 1], ids[count - 1]) {
                Err(message) => Err(message),
                Ok(head) => Ok(before.push(head)),
            },
        }
    }
}

/// What an answer says of pull requests at the end of a poll of an account.
pub open spec fn final_answer(answer: JsonView, ids: Seq<Seq<char>>, viewer: Seq<char>) -> Result<
    Seq<FinalHeadView>,
    Seq<char>,
> {
    match fields::data_of(answer) {
        Err(message) => Err(message),
        Ok(data) => {
            let login = fields::required_text(data.at("viewer"@), "login"@);
            if login is Err {
                Err(login->Err_0)
            } else if login->Ok_0 != viewer {
                Err("GitHub account changed while refreshing PRs"@)
            } else {
                match data.at("nodes"@).list() {
                    None => Err("Missing final PR head checks"@),
                    Some(nodes) => if nodes.len() != ids.len() {
                        Err("Incomplete final PR head checks"@)
                    } else {
                        final_heads_of(nodes, ids, ids.len())
                    },
                }
            }
        },
    }
}

/// A fault in some nodes is the fault of all of them.
proof fn head_faults_stay(nodes: Seq<JsonView>, ids: Seq<Seq<char>>, i: nat, count: nat)
    requires
        i <= count,
        final_heads_of(nodes, ids, i) is Err,
    ensures
        final_heads_of(nodes, ids, count) == final_heads_of(nodes, ids, i),
    decreases count - i,
{
    if i < count {
        head_faults_stay(nodes, ids, i, (count - 1) as nat);
    }
}

/// The question for the commits of pull requests at the end of a poll.
pub fn heads_request(ids: &Vec<String>) -> (r: ApiRequest)
    ensures
        r@ == identities_question(HEADS_QUERY@, ids.deep_view(), ResponsePolicy::Strict),
{
    identities_request(HEADS_QUERY, ids, ResponsePolicy::Strict)
}

/// What a node says of a pull request at the end of a poll.
fn read_head(node: &Json, id: &str) -> (r: Result<FinalHead, String>)
    ensures
        fields::result_view(r) == final_head_of(node@, id@),
{
    if !node.at("id").is(id) {
        return Err("Missing or unexpected PR identity in final head checks".to_owned());
    }
    let state = match fields::required(node, "state") {
        Ok(state) => state,
        Err(message) => {
            return Err(message);
        },
    };
    let open = match read_open_state(state) {
        Some(open) => open,
        None => {
            return Err("Unknown PR lifecycle state".to_owned());
        },
    };
    match fields::required(node, "headRefOid") {
        Ok(head) => Ok(FinalHead { id: id.to_owned(), head: head.to_owned(), open }),
        Err(message) => Err(message),
    }
}

/// What an answer says of pull requests at the end of a poll of an account.
pub fn read_heads(answer: &Json, ids: &Vec<String>, viewer: &str) -> (r: Result<Vec<FinalHead>, String>)
    ensures
        fields::result_view(r) == final_answer(answer@, ids.deep_view(), viewer@),
{
    let data = match fields::graphql_data(answer) {
        Ok(data) => data,
        Err(message) => {
            return Err(message);
        },
    };
    match fields::required(data.at("viewer"), "login") {
        Err(message) => {
            return Err(message);
        },
        Ok(login) => {
            if !text::same(login, viewer) {
                return Err("GitHub account changed while refreshing PRs".to_owned());
            }
        },
    }
    let listed = data.at("nodes");
    let nodes = match listed.as_array() {
        Some(nodes) => nodes,
        None => {
            return Err("Missing final PR head checks".to_owned());
        },
    };
    if nodes.len() != ids.len() {
        return Err("Incomplete final PR head checks".to_owned());
    }
    let ghost v = nodes.deep_view();
    let ghost wanted = ids.deep_view();
    let mut found: Vec<FinalHead> = Vec::new();
    let mut i: usize = 0;
    assert(found.deep_view() =~= Seq::empty());
    while i < nodes.len()
        invariant
            v == nodes.deep_view(),
            wanted == ids.deep_view(),
            nodes@.len() == ids@.len(),
            final_answer(answer@, wanted, viewer@) == final_heads_of(v, wanted, wanted.len()),
            i <= nodes@.len(),
            final_heads_of(v, wanted, i as nat) == Ok::<Seq<FinalHeadView>, Seq<char>>(found.deep_view()),
        decreases nodes.len() - i,
    {
        assert(v[i as int] == nodes@[i as int]@);
        assert(wanted[i as int] == ids@[i as int]@);
        let ghost done = found.deep_view();
        match read_head(&nodes[i], &ids[i]) {
            Ok(head) => {
                let ghost new = head@;
                found.push(head);
                assert(found.deep_view() =~= done.push(new));
            },
            Err(message) => {
                proof {
                    head_faults_stay(v, wanted, (i + 1) as nat, wanted.len());
                }
                return Err(message);
            },
        }
        i += 1;
    }
    Ok(found)
}

// ---------------------------------------------------------------- batches

/// How many identities are asked for at once.
pub const BATCH: usize = 50;

/// The batch of texts that starts at an index.
fn batch(list: &Vec<String>, start: usize) -> (r: Vec<String>)
    requires
        start <= list@.len(),
    ensures
        r.deep_view() == list.deep_view().subrange(
            start as int,
            if start + BATCH < list@.len() {
                start + BATCH
            } else {
                list@.len() as int
            },
        ),
{
    let total: usize = list.len();
    let end: usize = if total - start > BATCH {
        start + BATCH
    } else {
        total
    };
    let ghost v = list.deep_view();
    let mut r: Vec<String> = Vec::new();
    let mut i: usize = start;
    while i < end
        invariant
            v == list.deep_view(),
            start <= i <= end <= list@.len(),
            r.deep_view() =~= v.subrange(start as int, i as int),
        decreases end - i,
    {
        let ghost done = r.deep_view();
        r.push(list[i].clone());
        assert(v[i as int] == list@[i as int]@);
        assert(r.deep_view() =~= done.push(v[i as int]));
        i += 1;
    }
    r
}

/// Texts in batches: each is full but the last.
pub open spec fn batches_of(ids: Seq<Seq<char>>) -> Seq<Seq<Seq<char>>>
    decreases ids.len(),
{
    if ids.len() == 0 {
        Seq::empty()
    } else if ids.len() <= BATCH {
        seq![ids]
    } else {
        seq![ids.take(BATCH as int)] + batches_of(ids.skip(BATCH as int))
    }
}

/// Texts in batches of 1 to [`BATCH`], which together hold each of them once, in order.
pub fn batches(ids: &Vec<String>) -> (r: Vec<Vec<String>>)
    ensures
        r.deep_view() == batches_of(ids.deep_view()),
        r.deep_view().flatten() == ids.deep_view(),
        forall|i: int| 0 <= i < r@.len() ==> 1 <= (#[trigger] r.deep_view()[i]).len() <= BATCH,
{
    let ghost v = ids.deep_view();
    let mut r: Vec<Vec<String>> = Vec::new();
    let mut start: usize = 0;
    assert(v.skip(0) =~= v);
    assert(r.deep_view() + batches_of(v) =~= batches_of(v));
    while start < ids.len()
        invariant
            v == ids.deep_view(),
            start <= ids@.len(),
            r.deep_view() + batches_of(v.skip(start as int)) == batches_of(v),
        decreases ids.len() - start,
    {
        let part = batch(ids, start);
        let ghost rest = v.skip(start as int);
        let ghost done = r.deep_view();
        let count: usize = part.len();
        assert(part.deep_view().len() == count);
        r.push(part);
        assert(r.deep_view() =~= done.push(part.deep_view()));
        proof {
            if rest.len() <= BATCH {
                assert(part.deep_view() =~= rest);
                assert(v.skip(start + count) =~= Seq::empty());
                assert(r.deep_view() + batches_of(v.skip(start + count)) =~= done + seq![rest]);
            } else {
                assert(part.deep_view() =~= rest.take(BATCH as int));
                assert(v.skip(start + count) =~= rest.skip(BATCH as int));
                assert(r.deep_view() + batches_of(v.skip(start + count)) =~= done + (seq![rest.take(BATCH as int)]
                    + batches_of(rest.skip(BATCH as int))));
            }
        }
        start += count;
    }
    assert(v.skip(start as int) =~= Seq::empty());
    assert(r.deep_view() =~= batches_of(v));
    proof {
        batches_hold_all(v);
    }
    r
}

/// The contents of a [`HeadsFetch`].
#[verifier::ext_equal]
pub struct HeadsFetchView {
    pub left: Seq<Seq<Seq<char>>>,
    pub viewer: Seq<char>,
    pub found: Seq<FinalHeadView>,
}

impl HeadsFetchView {
    /// A fetch that has not begun.
    pub open spec fn start(ids: Seq<Seq<char>>, viewer: Seq<char>) -> HeadsFetchView {
        HeadsFetchView { left: batches_of(ids), viewer, found: Seq::empty() }
    }

    /// The next question, unless everything has been read.
    pub open spec fn question(self) -> Option<ApiRequestView> {
        if self.left.len() == 0 {
            None
        } else {
            Some(identities_question(HEADS_QUERY@, self.left[0], ResponsePolicy::Strict))
        }
    }

    /// An answer has come.
    pub open spec fn after(self, answer: JsonView) -> Result<HeadsFetchView, Seq<char>> {
        if self.left.len() == 0 {
            Ok(self)
        } else {
            match final_answer(answer, self.left[0], self.viewer) {
                Err(message) => Err(message),
                Ok(heads) => Ok(
                    HeadsFetchView { left: self.left.drop_first(), found: self.found + heads, ..self },
                ),
            }
        }
    }

    /// Whether what was found and what is left are some pull requests, each once and in order.
    pub open spec fn is_about(self, ids: Seq<Seq<char>>) -> bool {
        head_ids(self.found) + self.left.flatten() == ids
    }
}

/// The identities of pull requests at the end of a poll.
pub open spec fn head_ids(heads: Seq<FinalHeadView>) -> Seq<Seq<char>> {
    Seq::new(heads.len(), |i: int| heads[i].id)
}

/// A fetch of what pull requests are at the end of a poll of an account.
pub struct HeadsFetch {
    left: Vec<Vec<String>>,
    viewer: String,
    found: Vec<FinalHead>,
}

impl View for HeadsFetch {
    type V = HeadsFetchView;

    closed spec fn view(&self) -> HeadsFetchView {
        HeadsFetchView { left: self.left.deep_view(), viewer: self.viewer@, found: self.found.deep_view() }
    }
}

impl DeepView for HeadsFetch {
    type V = HeadsFetchView;

    open spec fn deep_view(&self) -> HeadsFetchView {
        self@
    }
}

impl HeadsFetch {
    /// Starts a fetch.
    pub fn new(ids: &Vec<String>, viewer: &str) -> (r: HeadsFetch)
        ensures
            r@ == HeadsFetchView::start(ids.deep_view(), viewer@),
    {
        let r = HeadsFetch { left: batches(ids), viewer: viewer.to_owned(), found: Vec::new() };
        assert(r.found.deep_view() =~= Seq::empty());
        r
    }

    /// The next question, unless everything has been read.
    pub fn request(&self) -> (r: Option<ApiRequest>)
        ensures
            r.deep_view() == self@.question(),
    {
        if self.left.len() == 0 {
            return None;
        }
        assert(self@.left[0] == self.left@[0].deep_view());
        Some(heads_request(&self.left[0]))
    }

    /// An answer has come.
    pub fn accept(self, answer: &Json) -> (r: Result<HeadsFetch, String>)
        ensures
            fields::result_view(r) == self@.after(answer@),
    {
        let ghost was = self@;
        if self.left.len() == 0 {
            return Ok(self);
        }
        let mut left = self.left;
        let part = left.remove(0);
        assert(was.left[0] == part.deep_view());
        assert(left.deep_view() =~= was.left.drop_first());
        let mut heads = match read_heads(answer, &part, &self.viewer) {
            Ok(heads) => heads,
            Err(message) => {
                return Err(message);
            },
        };
        let ghost read = heads.deep_view();
        let mut found = self.found;
        found.append(&mut heads);
        assert(found.deep_view() =~= was.found + read);
        Ok(HeadsFetch { left, viewer: self.viewer, found })
    }

    /// What was found.
    pub fn into_heads(self) -> (r: Vec<FinalHead>)
        ensures
            r.deep_view() == self@.found,
    {
        self.found
    }
}

/// The contents of an [`IgnoredFetch`].
#[verifier::ext_equal]
pub struct IgnoredFetchView {
    pub left: Seq<Seq<Seq<char>>>,
    pub found: Seq<SnapshotView>,
}

impl IgnoredFetchView {
    /// A fetch that has not begun.
    pub open spec fn start(ids: Seq<Seq<char>>) -> IgnoredFetchView {
        IgnoredFetchView { left: batches_of(ids), found: Seq::empty() }
    }

    /// The next question, unless everything has been read.
    pub open spec fn question(self) -> Option<ApiRequestView> {
        if self.left.len() == 0 {
            None
        } else {
            Some(identities_question(IGNORED_QUERY@, self.left[0], ResponsePolicy::MissingNodes))
        }
    }

    /// An answer has come.
    pub open spec fn after(self, answer: JsonView) -> Result<IgnoredFetchView, Seq<char>> {
        if self.left.len() == 0 {
            Ok(self)
        } else {
            match ignored_answer(answer, self.left[0]) {
                Err(message) => Err(message),
                Ok(snapshots) => Ok(
                    IgnoredFetchView { left: self.left.drop_first(), found: self.found + snapshots },
                ),
            }
        }
    }

    /// Whether what was found and what is left is about some pull requests only.
    pub open spec fn is_about(self, ids: Seq<Seq<char>>) -> bool {
        &&& forall|i: int| 0 <= i < self.found.len() ==> ids.contains((#[trigger] self.found[i]).id)
        &&& forall|k: int, i: int|
            0 <= k < self.left.len() && 0 <= i < self.left[k].len() ==> ids.contains(#[trigger] self.left[k][i])
    }
}

/// A fetch of what ignored pull requests are.
pub struct IgnoredFetch {
    left: Vec<Vec<String>>,
    found: Vec<Snapshot>,
}

impl View for IgnoredFetch {
    type V = IgnoredFetchView;

    closed spec fn view(&self) -> IgnoredFetchView {
        IgnoredFetchView { left: self.left.deep_view(), found: self.found.deep_view() }
    }
}

impl DeepView for IgnoredFetch {
    type V = IgnoredFetchView;

    open spec fn deep_view(&self) -> IgnoredFetchView {
        self@
    }
}

impl IgnoredFetch {
    /// Starts a fetch.
    pub fn new(ids: &Vec<String>) -> (r: IgnoredFetch)
        ensures
            r@ == IgnoredFetchView::start(ids.deep_view()),
    {
        let r = IgnoredFetch { left: batches(ids), found: Vec::new() };
        assert(r.found.deep_view() =~= Seq::empty());
        r
    }

    /// The next question, unless everything has been read.
    pub fn request(&self) -> (r: Option<ApiRequest>)
        ensures
            r.deep_view() == self@.question(),
    {
        if self.left.len() == 0 {
            return None;
        }
        assert(self@.left[0] == self.left@[0].deep_view());
        Some(ignored_request(&self.left[0]))
    }

    /// An answer has come.
    pub fn accept(self, answer: &Json) -> (r: Result<IgnoredFetch, String>)
        ensures
            fields::result_view(r) == self@.after(answer@),
    {
        let ghost was = self@;
        if self.left.len() == 0 {
            return Ok(self);
        }
        let mut left = self.left;
        let part = left.remove(0);
        assert(was.left[0] == part.deep_view());
        assert(left.deep_view() =~= was.left.drop_first());
        let mut snapshots = match read_ignored(answer, &part) {
            Ok(snapshots) => snapshots,
            Err(message) => {
                return Err(message);
            },
        };
        let ghost read = snapshots.deep_view();
        let mut found = self.found;
        found.append(&mut snapshots);
        assert(found.deep_view() =~= was.found + read);
        Ok(IgnoredFetch { left, found })
    }

    /// What was found.
    pub fn into_snapshots(self) -> (r: Vec<Snapshot>)
        ensures
            r.deep_view() == self@.found,
    {
        self.found
    }
}

// ---------------------------------------------------------------- laws

/// The batches of some texts together hold each of them once, in order, and none is empty or
/// larger than [`BATCH`].
pub proof fn batches_hold_all(ids: Seq<Seq<char>>)
    ensures
        batches_of(ids).flatten() == ids,
        forall|i: int| 0 <= i < batches_of(ids).len() ==> 1 <= (#[trigger] batches_of(ids)[i]).len() <= BATCH,
    decreases ids.len(),
{
    if ids.len() == 0 {
        assert(batches_of(ids).flatten() =~= ids);
    } else if ids.len() <= BATCH {
        seq![ids].lemma_flatten_one_element();
    } else {
        let first = ids.take(BATCH as int);
        let rest = batches_of(ids.skip(BATCH as int));
        batches_hold_all(ids.skip(BATCH as int));
        assert((seq![first] + rest).drop_first() =~= rest);
        assert(first + ids.skip(BATCH as int) =~= ids);
        assert forall|i: int| 0 <= i < batches_of(ids).len() implies 1 <= (#[trigger] batches_of(ids)[i]).len()
            <= BATCH by {
            if i > 0 {
                assert(batches_of(ids)[i] == rest[i - 1]);
            }
        }
    }
}

/// A discovery only adds to what it has found.
pub proof fn discovery_keeps_what_it_found(d: DiscoveryView, answer: JsonView, id: Seq<char>)
    requires
        d.found.contains_key(id),
        d.after(answer) is Ok,
    ensures
        d.after(answer)->Ok_0.found.contains_key(id),
{
    if d.stage != DiscoveryStage::Done {
        let data = fields::data_of(answer)->Ok_0;
        let connection = if d.stage == DiscoveryStage::Authored {
            data.at("viewer"@).at("pullRequests"@)
        } else {
            data.at("search"@)
        };
        refs_only_grow(d.found, fields::nodes_of(connection)->Ok_0, id);
    }
}

/// Reading nodes only adds to what is found.
proof fn refs_only_grow(found: Map<Seq<char>, PrRefView>, nodes: Seq<JsonView>, id: Seq<char>)
    requires
        found.contains_key(id),
        refs_with(found, nodes) is Ok,
    ensures
        refs_with(found, nodes)->Ok_0.contains_key(id),
    decreases nodes.len(),
{
    if nodes.len() > 0 {
        refs_only_grow(found, nodes.drop_last(), id);
    }
}

/// At the end of a poll the answer is about the account that was polled and about each
/// pull request that was asked for, in order.
pub proof fn final_heads_match(answer: JsonView, ids: Seq<Seq<char>>, viewer: Seq<char>, i: int)
    requires
        final_answer(answer, ids, viewer) is Ok,
        0 <= i < ids.len(),
    ensures
        fields::data_of(answer)->Ok_0.at("viewer"@).at("login"@).str() == Some(viewer),
        final_answer(answer, ids, viewer)->Ok_0.len() == ids.len(),
        final_answer(answer, ids, viewer)->Ok_0[i].id == ids[i],
{
    let nodes = fields::data_of(answer)->Ok_0.at("nodes"@).list()->0;
    final_heads_are_in_order(nodes, ids, ids.len(), i);
}

/// The commits come in the order of the identities.
proof fn final_heads_are_in_order(nodes: Seq<JsonView>, ids: Seq<Seq<char>>, count: nat, i: int)
    requires
        final_heads_of(nodes, ids, count) is Ok,
        count <= ids.len(),
    ensures
        final_heads_of(nodes, ids, count)->Ok_0.len() == count,
        0 <= i < count ==> final_heads_of(nodes, ids, count)->Ok_0[i].id == ids[i],
    decreases count,
{
    if count > 0 {
        final_heads_are_in_order(nodes, ids, (count - 1) as nat, i);
    }
}

/// What is said of ignored pull requests is only about those that were asked for.
pub proof fn ignored_answers_are_expected(nodes: Seq<JsonView>, ids: Seq<Seq<char>>, i: int)
    requires
        ignored_list(nodes, ids) is Ok,
        0 <= i < ignored_list(nodes, ids)->Ok_0.len(),
    ensures
        ids.contains(ignored_list(nodes, ids)->Ok_0[i].id),
    decreases nodes.len(),
{
    if nodes.len() > 0 {
        let before = ignored_list(nodes.drop_last(), ids)->Ok_0;
        if i < before.len() {
            ignored_answers_are_expected(nodes.drop_last(), ids, i);
        }
    }
}

/// A fetch of what pull requests are at the end of a poll is about all of them from the start.
pub proof fn heads_fetch_starts_whole(ids: Seq<Seq<char>>, viewer: Seq<char>)
    ensures
        HeadsFetchView::start(ids, viewer).is_about(ids),
{
    batches_hold_all(ids);
    assert(head_ids(Seq::empty()) + ids =~= ids);
}

/// It stays so with each answer that is taken, and has found all of them, each once and in
/// order, when there is no question left.
pub proof fn heads_fetch_stays_whole(fetch: HeadsFetchView, answer: JsonView, ids: Seq<Seq<char>>)
    requires
        fetch.is_about(ids),
    ensures
        fetch.after(answer) is Ok ==> fetch.after(answer)->Ok_0.is_about(ids),
        fetch.question() is None ==> head_ids(fetch.found) == ids,
{
    if fetch.left.len() == 0 {
        assert(head_ids(fetch.found) + fetch.left.flatten() =~= head_ids(fetch.found));
    } else if fetch.after(answer) is Ok {
        let part = fetch.left[0];
        let heads = final_answer(answer, part, fetch.viewer)->Ok_0;
        assert(heads.len() == part.len()) by {
            let nodes = fields::data_of(answer)->Ok_0.at("nodes"@).list()->0;
            final_heads_are_in_order(nodes, part, part.len(), 0);
        }
        assert forall|i: int| 0 <= i < part.len() implies (#[trigger] heads[i]).id == part[i] by {
            final_heads_match(answer, part, fetch.viewer, i);
        }
        assert(head_ids(heads) =~= part);
        assert(head_ids(fetch.found + heads) =~= head_ids(fetch.found) + part);
        assert(fetch.left.flatten() == part + fetch.left.drop_first().flatten());
        assert(head_ids(fetch.found + heads) + fetch.left.drop_first().flatten() =~= head_ids(fetch.found) + (part
            + fetch.left.drop_first().flatten()));
    }
}

/// A fetch of what ignored pull requests are asks about all of them, and about no others.
pub proof fn ignored_fetch_starts_whole(ids: Seq<Seq<char>>)
    ensures
        IgnoredFetchView::start(ids).left.flatten() == ids,
        IgnoredFetchView::start(ids).is_about(ids),
    decreases ids.len(),
{
    batches_hold_all(ids);
    let left = batches_of(ids);
    if ids.len() > BATCH {
        let rest = ids.skip(BATCH as int);
        ignored_fetch_starts_whole(rest);
        assert forall|k: int, i: int| 0 <= k < left.len() && 0 <= i < left[k].len() implies ids.contains(
            #[trigger] left[k][i],
        ) by {
            if k == 0 {
                assert(left[k][i] == ids[i]);
            } else {
                assert(left[k] == batches_of(rest)[k - 1]);
                assert(IgnoredFetchView::start(rest).left[k - 1][i] == left[k][i]);
                let j = rest.index_of(left[k][i]);
                assert(ids[j + BATCH] == left[k][i]);
            }
        }
    }
}

/// What a fetch of ignored pull requests finds is only about those that were asked for.
pub proof fn ignored_fetch_stays_expected(fetch: IgnoredFetchView, answer: JsonView, ids: Seq<Seq<char>>)
    requires
        fetch.is_about(ids),
        fetch.after(answer) is Ok,
    ensures
        fetch.after(answer)->Ok_0.is_about(ids),
{
    if fetch.left.len() > 0 {
        let part = fetch.left[0];
        let nodes = answer.at("data"@).at("nodes"@).list()->0;
        let read = ignored_answer(answer, part)->Ok_0;
        let next = fetch.after(answer)->Ok_0;
        assert forall|i: int| 0 <= i < next.found.len() implies ids.contains((#[trigger] next.found[i]).id) by {
            if i >= fetch.found.len() {
                let k = i - fetch.found.len();
                ignored_answers_are_expected(nodes, part, k);
                let j = part.index_of(read[k].id);
                assert(fetch.left[0][j] == read[k].id);
            } else {
                assert(next.found[i] == fetch.found[i]);
            }
        }
        assert forall|k: int, i: int| 0 <= k < next.left.len() && 0 <= i < next.left[k].len() implies ids.contains(
            #[trigger] next.left[k][i],
        ) by {
            assert(next.left[k] == fetch.left[k + 1]);
            assert(ids.contains(fetch.left[k + 1][i]));
        }
    }
}

} // verus!
