//! Reading GitHub's answers, and building questions.

use crate::github::exchange::{ApiRequest, ApiRequestView, ResponsePolicy};
use crate::json::{Json, JsonView};
use crate::text;
use vstd::prelude::*;

verus! {

/// The contents of a result.
pub open spec fn result_view<T: DeepView>(r: Result<T, String>) -> Result<T::V, Seq<char>> {
    match r {
        Ok(value) => Ok(value.deep_view()),
        Err(message) => Err(message@),
    }
}

/// The text of a member that an answer must have.
pub open spec fn required_text(value: JsonView, name: Seq<char>) -> Result<Seq<char>, Seq<char>> {
    match value.at(name).str() {
        Some(t) => Ok(t),
        None => Err("Missing GitHub field: "@ + name),
    }
}

/// The text of a member that an answer must have.
pub fn required<'a>(value: &'a Json, name: &str) -> (r: Result<&'a str, String>)
    ensures
        result_view(r) == required_text(value@, name@),
{
    match value.at(name).as_str() {
        Some(t) => Ok(t),
        None => Err(text::concat("Missing GitHub field: ", name)),
    }
}

/// The nodes of a connection.
pub open spec fn nodes_of(connection: JsonView) -> Result<Seq<JsonView>, Seq<char>> {
    match connection.at("nodes"@).list() {
        Some(nodes) => Ok(nodes),
        None => Err("Missing GitHub connection nodes"@),
    }
}

/// The nodes of a connection.
pub fn nodes(connection: &Json) -> (r: Result<&Vec<Json>, String>)
    ensures
        result_view(r) == nodes_of(connection@),
{
    match connection.at("nodes").as_array() {
        Some(nodes) => Ok(nodes),
        None => Err("Missing GitHub connection nodes".to_owned()),
    }
}

/// Where the next page of a connection starts, if there is one.
pub open spec fn cursor_of(connection: JsonView) -> Result<Option<Seq<char>>, Seq<char>> {
    match connection.at("pageInfo"@).at("hasNextPage"@).truth() {
        None => Err("Missing GitHub pagination metadata"@),
        Some(more) => if more {
            match required_text(connection.at("pageInfo"@), "endCursor"@) {
                Ok(cursor) => Ok(Some(cursor)),
                Err(message) => Err(message),
            }
        } else {
            Ok(None)
        },
    }
}

/// Where the next page of a connection starts, if there is one.
pub fn next_cursor(connection: &Json) -> (r: Result<Option<String>, String>)
    ensures
        result_view(r) == cursor_of(connection@),
{
    match connection.at("pageInfo").at("hasNextPage").as_bool() {
        None => Err("Missing GitHub pagination metadata".to_owned()),
        Some(more) => if more {
            match required(connection.at("pageInfo"), "endCursor") {
                Ok(cursor) => Ok(Some(cursor.to_owned())),
                Err(message) => Err(message),
            }
        } else {
            Ok(None)
        },
    }
}

/// The number that an answer must have, of a pull request.
pub open spec fn pr_number(node: JsonView) -> Result<u64, Seq<char>> {
    match node.at("number"@).whole() {
        Some(n) => Ok(n),
        None => Err("Missing PR number"@),
    }
}

/// The arguments of a query in GraphQL.
pub open spec fn graphql_args() -> Seq<Seq<char>> {
    seq!["api"@, "graphql"@, "--hostname"@, "github.com"@, "--input"@, "-"@]
}

/// A query in GraphQL.
pub open spec fn query_view(query: Seq<char>, variables: JsonView, policy: ResponsePolicy) -> ApiRequestView {
    ApiRequestView {
        args: graphql_args(),
        payload: Some(JsonView::Object(seq![("query"@, JsonView::Text(query)), ("variables"@, variables)])),
        policy,
    }
}

/// A query in GraphQL.
pub fn query(text: &str, variables: Json, policy: ResponsePolicy) -> (r: ApiRequest)
    ensures
        r@ == query_view(text@, variables@, policy),
{
    let args = vec![
        "api".to_owned(),
        "graphql".to_owned(),
        "--hostname".to_owned(),
        "github.com".to_owned(),
        "--input".to_owned(),
        "-".to_owned(),
    ];
    assert(args.deep_view() =~= graphql_args());
    let payload = Json::Object(vec![("query".to_owned(), Json::text(text)), ("variables".to_owned(), variables)]);
    assert(payload@->Object_0 =~= seq![("query"@, JsonView::Text(text@)), ("variables"@, variables@)]);
    ApiRequest { args, payload: Some(payload), policy }
}

/// A plain question about an endpoint.
pub open spec fn rest_view(endpoint: Seq<char>) -> ApiRequestView {
    ApiRequestView {
        args: seq!["api"@, "--hostname"@, "github.com"@, endpoint],
        payload: None,
        policy: ResponsePolicy::Strict,
    }
}

/// A plain question about an endpoint.
pub fn rest(endpoint: &str) -> (r: ApiRequest)
    ensures
        r@ == rest_view(endpoint@),
{
    let args = vec!["api".to_owned(), "--hostname".to_owned(), "github.com".to_owned(), endpoint.to_owned()];
    assert(args.deep_view() =~= seq!["api"@, "--hostname"@, "github.com"@, endpoint@]);
    ApiRequest { args, payload: None, policy: ResponsePolicy::Strict }
}

/// The data in the answer to a query. Errors and partial data are refused.
pub open spec fn data_of(answer: JsonView) -> Result<JsonView, Seq<char>> {
    if answer.find("errors"@) is Some {
        Err("GitHub GraphQL returned errors or partial data; refusing an incomplete review snapshot"@)
    } else {
        match answer.find("data"@) {
            Some(data) => Ok(data),
            None => Err("Missing GraphQL data"@),
        }
    }
}

/// The data in the answer to a query. Errors and partial data are refused.
pub fn graphql_data(answer: &Json) -> (r: Result<&Json, String>)
    ensures
        result_view(r) == data_of(answer@),
{
    if answer.get("errors").is_some() {
        return Err(
            "GitHub GraphQL returned errors or partial data; refusing an incomplete review snapshot".to_owned(),
        );
    }
    match answer.get("data") {
        Some(data) => Ok(data),
        None => Err("Missing GraphQL data".to_owned()),
    }
}

/// The texts as a list.
pub open spec fn texts_view(texts: Seq<Seq<char>>) -> JsonView {
    JsonView::List(texts.map_values(|t: Seq<char>| JsonView::Text(t)))
}

/// The texts as a list.
pub fn texts(list: &Vec<String>) -> (r: Json)
    ensures
        r@ == texts_view(list.deep_view()),
{
    let ghost v = list.deep_view();
    let mut items: Vec<Json> = Vec::new();
    let mut i: usize = 0;
    while i < list.len()
        invariant
            v == list.deep_view(),
            i <= list@.len(),
            items@.len() == i,
            forall|k: int| 0 <= k < i ==> (#[trigger] items@[k])@ == JsonView::Text(v[k]),
        decreases list.len() - i,
    {
        items.push(Json::text(&list[i]));
        i += 1;
    }
    let r = Json::List(items);
    assert(r@->List_0 =~= v.map_values(|t: Seq<char>| JsonView::Text(t)));
    r
}

/// No answer with errors is taken for complete.
pub proof fn partial_data_is_refused(answer: JsonView)
    requires
        answer.find("errors"@) is Some,
    ensures
        data_of(answer) is Err,
{
}

} // verus!
