//! One request through the GitHub CLI: what is asked, and what the answer means.

use crate::github::cache::{self, ApiState, ApiStateView, CacheKey, CacheKeyView, Cached, CachedView};
use crate::github::failure::{self, FailureKind};
use crate::github::response;
use crate::json::{self, Json, JsonView};
use crate::text;
use crate::text_map::TextMap;
use vstd::prelude::*;

verus! {

broadcast use vstd::seq_lib::group_seq_properties;

/// How an answer may be used.
#[derive(Clone, Copy, Debug, PartialEq, Eq, Structural)]
pub enum ResponsePolicy {
    /// It must be complete.
    Strict,
    /// Nodes that are asked for may be missing.
    MissingNodes,
    /// The request changes something.
    Mutation,
}

/// A request through the GitHub CLI.
pub struct ApiRequest {
    pub args: Vec<String>,
    pub payload: Option<Json>,
    pub policy: ResponsePolicy,
}

/// The contents of an [`ApiRequest`].
#[verifier::ext_equal]
pub struct ApiRequestView {
    pub args: Seq<Seq<char>>,
    pub payload: Option<JsonView>,
    pub policy: ResponsePolicy,
}

impl View for ApiRequest {
    type V = ApiRequestView;

    open spec fn view(&self) -> ApiRequestView {
        ApiRequestView { args: self.args.deep_view(), payload: self.payload.deep_view(), policy: self.policy }
    }
}

impl DeepView for ApiRequest {
    type V = ApiRequestView;

    open spec fn deep_view(&self) -> ApiRequestView {
        self@
    }
}

// ---------------------------------------------------------------- asking

/// The quota that a request counts against.
pub open spec fn resource_of(args: Seq<Seq<char>>) -> Seq<char> {
    if args.contains("graphql"@) {
        "graphql"@
    } else {
        "core"@
    }
}

/// The first argument that names something in a repository.
pub open spec fn endpoint_of(args: Seq<Seq<char>>) -> Option<Seq<char>>
    decreases args.len(),
{
    if args.len() == 0 {
        None
    } else if "repos/"@.is_prefix_of(args[0]) {
        Some(args[0])
    } else {
        endpoint_of(args.drop_first())
    }
}

/// The contents of an [`Exchange`].
#[verifier::ext_equal]
pub struct ExchangeView {
    pub resource: Seq<char>,
    pub key: Option<CacheKeyView>,
    pub cached: Option<CachedView>,
    pub args: Seq<Seq<char>>,
}

/// A request that is under way: its quota, the right to remember the reply, the reply that
/// is remembered, and the complete arguments.
pub struct Exchange {
    pub resource: String,
    pub key: Option<CacheKey>,
    pub cached: Option<Cached>,
    pub args: Vec<String>,
}

impl View for Exchange {
    type V = ExchangeView;

    open spec fn view(&self) -> ExchangeView {
        ExchangeView {
            resource: self.resource@,
            key: self.key.deep_view(),
            cached: self.cached.deep_view(),
            args: self.args.deep_view(),
        }
    }
}

/// Whether a request only reads something in a repository by a plain endpoint.
pub open spec fn key_of(api: ApiStateView, account: Option<Seq<char>>, request: ApiRequestView) -> Option<CacheKeyView> {
    if request.payload is None && request.policy != ResponsePolicy::Mutation && endpoint_of(request.args) is Some {
        api.key_for(endpoint_of(request.args)->0, account)
    } else {
        None
    }
}

/// The complete arguments of a request. A remembered reply is only asked for anew if it
/// has changed.
pub open spec fn complete_args(args: Seq<Seq<char>>, cached: Option<CachedView>) -> Seq<Seq<char>> {
    let included = args.push("--include"@);
    match cached {
        Some(reply) => included.push("-H"@).push("If-None-Match: "@ + reply.etag),
        None => included,
    }
}

/// How a request is made, unless its quota has to be waited for.
pub open spec fn planned(api: ApiStateView, account: Option<Seq<char>>, request: ApiRequestView, now: u64) -> Result<
    ExchangeView,
    Seq<char>,
> {
    let resource = resource_of(request.args);
    if api.paused(Some(resource), now) {
        Err("GitHub rate limit: requests paused until the quota cooldown ends"@)
    } else {
        let key = key_of(api, account, request);
        let cached = match key {
            Some(key) => api.found(key),
            None => None,
        };
        Ok(ExchangeView { resource, key, cached, args: complete_args(request.args, cached) })
    }
}

/// Whether texts hold a given one.
fn holds(list: &Vec<String>, wanted: &str) -> (r: bool)
    ensures
        r == list.deep_view().contains(wanted@),
{
    let ghost v = list.deep_view();
    let mut i: usize = 0;
    while i < list.len()
        invariant
            v == list.deep_view(),
            i <= list@.len(),
            forall|k: int| 0 <= k < i ==> v[k] != wanted@,
        decreases list.len() - i,
    {
        assert(v[i as int] == list@[i as int]@);
        if text::same(&list[i], wanted) {
            return true;
        }
        i += 1;
    }
    false
}

/// The first argument that names something in a repository.
fn find_endpoint(args: &Vec<String>) -> (r: Option<&String>)
    ensures
        match r {
            Some(e) => endpoint_of(args.deep_view()) == Some(e@),
            None => endpoint_of(args.deep_view()) is None,
        },
{
    let ghost v = args.deep_view();
    let mut i: usize = 0;
    assert(v.skip(0) =~= v);
    while i < args.len()
        invariant
            v == args.deep_view(),
            i <= args@.len(),
            endpoint_of(v) == endpoint_of(v.skip(i as int)),
        decreases args.len() - i,
    {
        assert(v.skip(i as int)[0] == args@[i as int]@);
        assert(v.skip(i as int).drop_first() =~= v.skip(i + 1));
        if text::starts_with(&args[i], "repos/") {
            return Some(&args[i]);
        }
        i += 1;
    }
    None
}

/// How a request is made, unless its quota has to be waited for.
pub fn plan(api: &ApiState, account: Option<&str>, request: &ApiRequest, now: u64) -> (r: Result<Exchange, String>)
    ensures
        match r {
            Ok(exchange) => planned(api@, account_view(account), request@, now) == Ok::<ExchangeView, Seq<char>>(exchange@),
            Err(message) => planned(api@, account_view(account), request@, now) == Err::<ExchangeView, Seq<char>>(message@),
        },
{
    let resource = if holds(&request.args, "graphql") {
        "graphql"
    } else {
        "core"
    };
    if api.delay(Some(resource), now) > 0 {
        return Err("GitHub rate limit: requests paused until the quota cooldown ends".to_owned());
    }
    let key = if request.payload.is_none() && request.policy != ResponsePolicy::Mutation {
        match find_endpoint(&request.args) {
            Some(endpoint) => api.key(endpoint, account),
            None => None,
        }
    } else {
        None
    };
    let cached = match &key {
        Some(key) => api.get(key),
        None => None,
    };
    let mut args = request.args.clone();
    assert(args.deep_view() =~= request.args.deep_view());
    let ghost given = args.deep_view();
    args.push("--include".to_owned());
    assert(args.deep_view() =~= given.push("--include"@));
    if let Some(reply) = &cached {
        let ghost before = args.deep_view();
        args.push("-H".to_owned());
        args.push(text::concat("If-None-Match: ", &reply.etag));
        assert(args.deep_view() =~= before.push("-H"@).push("If-None-Match: "@ + reply.etag@));
    }
    Ok(Exchange { resource: resource.to_owned(), key, cached, args })
}

/// The contents of an optional account.
pub open spec fn account_view(account: Option<&str>) -> Option<Seq<char>> {
    match account {
        Some(a) => Some(a@),
        None => None,
    }
}

/// The kind of a request, for the log.
pub open spec fn kind_of_request(args: Seq<Seq<char>>, payload: Option<JsonView>) -> Seq<char> {
    let query = match payload {
        Some(p) => p.at("query"@).str(),
        None => None,
    };
    match query {
        Some(q) => if text::occurs(q, "search("@) || text::occurs(q, "query AuthoredPrs"@) {
            "discover_prs"@
        } else if text::occurs(q, "viewer {"@) {
            "viewer"@
        } else if text::occurs(q, "reviews(first:"@) {
            "pr_details"@
        } else if text::occurs(q, "headRefOid"@) {
            "verify_head"@
        } else {
            "resolve_pr"@
        },
        None => if exists|i: int| 0 <= i < args.len() && text::occurs(#[trigger] args[i], "/check-runs?"@) {
            "check_runs"@
        } else if exists|i: int| 0 <= i < args.len() && text::occurs(#[trigger] args[i], "/statuses?"@) {
            "commit_statuses"@
        } else {
            "rest"@
        },
    }
}

/// Whether some argument contains a part.
fn some_contains(args: &Vec<String>, part: &str) -> (r: bool)
    ensures
        r == exists|i: int| 0 <= i < args.deep_view().len() && text::occurs(#[trigger] args.deep_view()[i], part@),
{
    let ghost v = args.deep_view();
    let mut i: usize = 0;
    while i < args.len()
        invariant
            v == args.deep_view(),
            i <= args@.len(),
            forall|k: int| 0 <= k < i ==> !text::occurs(#[trigger] v[k], part@),
        decreases args.len() - i,
    {
        assert(v[i as int] == args@[i as int]@);
        if text::contains(&args[i], part) {
            return true;
        }
        i += 1;
    }
    false
}

/// The kind of a request, for the log.
pub fn request_kind(args: &Vec<String>, payload: Option<&Json>) -> (r: &'static str)
    ensures
        r@ == kind_of_request(
            args.deep_view(),
            match payload {
                Some(p) => Some(p@),
                None => None,
            },
        ),
{
    let query = match payload {
        Some(p) => p.at("query").as_str(),
        None => None,
    };
    match query {
        Some(q) => if text::contains(q, "search(") || text::contains(q, "query AuthoredPrs") {
            "discover_prs"
        } else if text::contains(q, "viewer {") {
            "viewer"
        } else if text::contains(q, "reviews(first:") {
            "pr_details"
        } else if text::contains(q, "headRefOid") {
            "verify_head"
        } else {
            "resolve_pr"
        },
        None => if some_contains(args, "/check-runs?") {
            "check_runs"
        } else if some_contains(args, "/statuses?") {
            "commit_statuses"
        } else {
            "rest"
        },
    }
}

// ---------------------------------------------------------------- answering

/// What `String::from_utf8_lossy` makes of bytes.
pub uninterp spec fn lossy_text(bytes: Seq<u8>) -> Seq<char>;

/// Trusted: `String::from_utf8_lossy`. Its result is a function of the bytes alone, and of
/// well-formed UTF-8 it is the text that the bytes encode.
#[verifier::external_body]
pub(crate) fn read_lossy(bytes: &[u8]) -> (r: String)
    ensures
        r@ == lossy_text(bytes@),
        vstd::utf8::valid_utf8(bytes@) ==> r@ == vstd::utf8::decode_utf8(bytes@),
{
    String::from_utf8_lossy(bytes).into_owned()
}

/// The greatest length of an answer.
pub const MAX_OUTPUT: usize = 32 * 1024 * 1024;

/// The characters of a message that are shown: no control characters, and at most 400.
pub open spec fn shown_characters(message: Seq<char>) -> Seq<char>
    decreases message.len(),
{
    if message.len() == 0 {
        Seq::empty()
    } else {
        let before = shown_characters(message.drop_last());
        if text::control(message.last()) || before.len() >= 400 {
            before
        } else {
            before.push(message.last())
        }
    }
}

/// The message of an answer, or what stands in its place.
pub open spec fn message_of(answer: JsonView, fallback: Seq<char>) -> Seq<char> {
    match answer.at("message"@).str() {
        Some(message) => shown_characters(message),
        None => shown_characters(fallback),
    }
}

/// The characters of a message that are shown.
fn shown(message: &str) -> (r: String)
    ensures
        r@ == shown_characters(message@),
{
    let letters = text::chars(message);
    let mut r = String::new();
    let mut count: usize = 0;
    let mut i: usize = 0;
    while i < letters.len()
        invariant
            letters@ == message@,
            i <= letters@.len(),
            r@ == shown_characters(message@.take(i as int)),
            count == r@.len(),
            count <= 400,
        decreases letters.len() - i,
    {
        let c = letters[i];
        assert(message@.take(i + 1).drop_last() =~= message@.take(i as int));
        if !text::is_control(c) && count < 400 {
            r.push(c);
            count += 1;
        }
        i += 1;
    }
    assert(message@.take(i as int) =~= message@);
    r
}

/// The message of an answer, or what stands in its place.
pub fn message(answer: &Json, fallback: &str) -> (r: String)
    ensures
        r@ == message_of(answer@, fallback@),
{
    match answer.at("message").as_str() {
        Some(message) => shown(message),
        None => shown(fallback),
    }
}

/// Whether an error says that a node that was asked for is missing, and the node is null.
pub open spec fn missing_node(error: JsonView, nodes: Seq<JsonView>) -> bool {
    let path = error.at("path"@);
    &&& error.at("type"@).str() == Some("NOT_FOUND"@)
    &&& path.list() is Some
    &&& path.list()->0.len() == 2
    &&& path.item(0).str() == Some("nodes"@)
    &&& path.item(1).whole() is Some
    &&& (path.item(1).whole()->0 as int) < nodes.len()
    &&& nodes[path.item(1).whole()->0 as int] is Null
}

/// Whether an answer has errors, and every one of them says that a node is missing: none is
/// about a field of a node that was found, or about the whole query.
pub open spec fn only_missing_nodes(answer: JsonView) -> bool {
    let nodes = answer.at("data"@).at("nodes"@).list();
    let errors = answer.at("errors"@).list();
    &&& nodes is Some
    &&& errors is Some
    &&& errors->0.len() > 0
    &&& forall|i: int| 0 <= i < errors->0.len() ==> missing_node(#[trigger] errors->0[i], nodes->0)
}

/// Whether an error says that a node that was asked for is missing, and the node is null.
fn is_missing_node(error: &Json, nodes: &Vec<Json>) -> (r: bool)
    ensures
        r == missing_node(error@, nodes.deep_view()),
{
    if !error.at("type").is("NOT_FOUND") {
        return false;
    }
    let path = error.at("path");
    match path.as_array() {
        Some(steps) => {
            if steps.len() != 2 || !path.item(0).is("nodes") {
                return false;
            }
            match path.item(1).as_u64() {
                Some(index) => if index < nodes.len() as u64 {
                    nodes[index as usize].is_null()
                } else {
                    false
                },
                None => false,
            }
        },
        None => false,
    }
}

/// Whether an answer has errors, and every one of them says that a node is missing.
pub fn only_missing_node_errors(answer: &Json) -> (r: bool)
    ensures
        r == only_missing_nodes(answer@),
{
    let listed = answer.at("data").at("nodes");
    let nodes = match listed.as_array() {
        Some(nodes) => nodes,
        None => {
            return false;
        },
    };
    let reported = answer.at("errors");
    let errors = match reported.as_array() {
        Some(errors) => errors,
        None => {
            return false;
        },
    };
    let ghost v = errors.deep_view();
    let mut i: usize = 0;
    while i < errors.len()
        invariant
            v == errors.deep_view(),
            reported@ == JsonView::List(v),
            listed@ == JsonView::List(nodes.deep_view()),
            listed@ == answer@.at("data"@).at("nodes"@),
            reported@ == answer@.at("errors"@),
            i <= errors@.len(),
            forall|k: int| 0 <= k < i ==> missing_node(#[trigger] v[k], nodes.deep_view()),
        decreases errors.len() - i,
    {
        assert(v[i as int] == errors@[i as int]@);
        if !is_missing_node(&errors[i], nodes) {
            return false;
        }
        i += 1;
    }
    errors.len() > 0
}

/// Whether an answer speaks of a limit on requests.
pub open spec fn answer_limited(answer: JsonView) -> bool {
    let errors = answer.at("errors"@).list();
    ||| answer.at("message"@).str() is Some && failure::names_limit(answer.at("message"@).str()->0)
    ||| errors is Some && exists|i: int|
        0 <= i < errors->0.len() && error_limited(#[trigger] errors->0[i])
}

/// Whether an error speaks of a limit on requests.
pub open spec fn error_limited(error: JsonView) -> bool {
    error.at("type"@).str() == Some("RATE_LIMITED"@) || (error.at("message"@).str() is Some && failure::names_limit(
        error.at("message"@).str()->0,
    ))
}

/// Whether a text of an answer speaks of a limit on requests.
fn text_limited(value: &Json) -> (r: bool)
    ensures
        r == (value@.str() is Some && failure::names_limit(value@.str()->0)),
{
    match value.as_str() {
        Some(message) => failure::is_rate_limit(message),
        None => false,
    }
}

/// Whether an answer speaks of a limit on requests.
fn is_limited(answer: &Json) -> (r: bool)
    ensures
        r == answer_limited(answer@),
{
    if text_limited(answer.at("message")) {
        return true;
    }
    let reported = answer.at("errors");
    match reported.as_array() {
        Some(errors) => {
            let ghost v = errors.deep_view();
            let mut i: usize = 0;
            while i < errors.len()
                invariant
                    v == errors.deep_view(),
                    reported@ == JsonView::List(v),
                    reported@ == answer@.at("errors"@),
                    i <= errors@.len(),
                    forall|k: int| 0 <= k < i ==> !error_limited(#[trigger] v[k]),
                decreases errors.len() - i,
            {
                assert(v[i as int] == errors@[i as int]@);
                if errors[i].at("type").is("RATE_LIMITED") || text_limited(errors[i].at("message")) {
                    assert(error_limited(answer@.at("errors"@).list()->0[i as int]));
                    return true;
                }
                i += 1;
            }
            false
        },
        None => false,
    }
}

/// What has come back: whether the GitHub CLI succeeded, the status, the headers and the
/// body, the document in the body, and what the CLI's messages amount to.
pub struct ReplyView {
    pub succeeded: bool,
    pub status: u16,
    pub headers: Map<Seq<char>, Seq<char>>,
    pub body: Seq<u8>,
    pub parsed: Option<JsonView>,
    pub failure: FailureKind,
}

impl ReplyView {
    /// Whether GitHub limits requests.
    pub open spec fn limited(self) -> bool {
        ||| self.status == 429
        ||| self.status == 403 && self.headers.contains_key("retry-after"@)
        ||| self.failure == FailureKind::RateLimit
        ||| self.parsed is Some && answer_limited(self.parsed->0)
    }
}

/// What is remembered once an answer has come, whatever it says.
pub open spec fn noted(
    api: ApiStateView,
    resource: Seq<char>,
    reply: ReplyView,
    retry: Option<u64>,
    now: u64,
    unix: i64,
) -> ApiStateView {
    let seen = api.observed(reply.headers, resource, reply.limited(), retry, now, unix);
    if reply.status == 503 {
        seen.service_retry(retry, now)
    } else {
        seen
    }
}

/// What an answer amounts to, by what is remembered once it has come.
pub open spec fn answer_of(api: ApiStateView, exchange: ExchangeView, policy: ResponsePolicy, reply: ReplyView) -> Result<
    JsonView,
    Seq<char>,
> {
    if reply.limited() {
        Err("GitHub rate limit reached; requests paused until the quota cooldown ends"@)
    } else if reply.status == 304 {
        if exchange.cached is None {
            Err("GitHub returned 304 without a cached response"@)
        } else if exchange.key is None || api.found(exchange.key->0) is None {
            Err("GitHub response cache changed during the request; retry next poll"@)
        } else {
            match json::json_document(exchange.cached->0.body) {
                Some(document) => Ok(document),
                None => Err("Invalid cached GitHub JSON"@),
            }
        }
    } else if policy == ResponsePolicy::MissingNodes && reply.parsed is Some && only_missing_nodes(reply.parsed->0) {
        Ok(reply.parsed->0)
    } else if !reply.succeeded || reply.status >= 400 {
        if policy == ResponsePolicy::Mutation && reply.parsed is Some && reply.parsed->0.at("message"@).str() is Some {
            Err("GitHub: "@ + message_of(reply.parsed->0, "Action was rejected"@))
        } else {
            Err(reply.failure.message_text())
        }
    } else {
        match reply.parsed {
            Some(answer) => Ok(answer),
            None => Err("GitHub CLI returned invalid JSON"@),
        }
    }
}

/// What is remembered once an answer has been used. After a change all replies are
/// forgotten; a complete reply is kept.
pub open spec fn remembered(
    api: ApiStateView,
    exchange: ExchangeView,
    policy: ResponsePolicy,
    reply: ReplyView,
) -> ApiStateView {
    let plain = !reply.limited() && reply.status != 304 && !(policy == ResponsePolicy::MissingNodes && reply.parsed is Some
        && only_missing_nodes(reply.parsed->0)) && reply.succeeded && reply.status < 400 && reply.parsed is Some;
    if !plain {
        api
    } else if policy == ResponsePolicy::Mutation {
        api.invalidated()
    } else if reply.status == 200 && reply.parsed->0.find("errors"@) is None && exchange.key is Some {
        api.stored(
            exchange.key->0,
            if reply.headers.contains_key("etag"@) {
                Some(reply.headers["etag"@])
            } else {
                None
            },
            reply.body,
        )
    } else {
        api
    }
}

/// What has come back from the GitHub CLI, read.
pub struct Reply<'a> {
    pub succeeded: bool,
    pub status: u16,
    pub headers: TextMap<String>,
    pub body: &'a [u8],
    pub parsed: Option<Json>,
    pub failure: FailureKind,
}

impl<'a> Reply<'a> {
    /// The contents of a reply.
    pub open spec fn contents(&self) -> ReplyView {
        ReplyView {
            succeeded: self.succeeded,
            status: self.status,
            headers: self.headers@,
            body: self.body@,
            parsed: self.parsed.deep_view(),
            failure: self.failure,
        }
    }

    /// Whether GitHub limits requests.
    fn limited(&self) -> (r: bool)
        ensures
            r == self.contents().limited(),
    {
        self.status == 429 || (self.status == 403 && self.headers.contains_key("retry-after")) || self.failure
            == FailureKind::RateLimit || match &self.parsed {
            Some(answer) => is_limited(answer),
            None => false,
        }
    }
}

/// The outcome of a request, as its contents.
pub open spec fn outcome(r: Result<Json, String>) -> Result<JsonView, Seq<char>> {
    match r {
        Ok(answer) => Ok(answer@),
        Err(message) => Err(message@),
    }
}

/// What an answer amounts to, given the wait that its headers ask for. What is remembered
/// is brought up to date.
pub fn conclude(
    api: &mut ApiState,
    exchange: &Exchange,
    policy: ResponsePolicy,
    reply: Reply<'_>,
    retry: Option<u64>,
    now: u64,
    unix: i64,
) -> (r: Result<Json, String>)
    ensures
        ({
            let seen = noted(old(api)@, exchange@.resource, reply.contents(), retry, now, unix);
            outcome(r) == answer_of(seen, exchange@, policy, reply.contents()) && final(api)@ == remembered(
                seen,
                exchange@,
                policy,
                reply.contents(),
            )
        }),
{
    let limited = reply.limited();
    api.observe_wait(&reply.headers, &exchange.resource, limited, retry, now, unix);
    if reply.status == 503 {
        api.wait_for_service(retry, now);
    }
    if limited {
        return Err("GitHub rate limit reached; requests paused until the quota cooldown ends".to_owned());
    }
    if reply.status == 304 {
        let cached = match &exchange.cached {
            Some(cached) => cached,
            None => {
                return Err("GitHub returned 304 without a cached response".to_owned());
            },
        };
        let known = match &exchange.key {
            Some(key) => api.get(key).is_some(),
            None => false,
        };
        if !known {
            return Err("GitHub response cache changed during the request; retry next poll".to_owned());
        }
        return match json::parse(&cached.body) {
            Some(document) => Ok(document),
            None => Err("Invalid cached GitHub JSON".to_owned()),
        };
    }
    if policy == ResponsePolicy::MissingNodes {
        if let Some(answer) = &reply.parsed {
            if only_missing_node_errors(answer) {
                return Ok(answer.clone());
            }
        }
    }
    if !reply.succeeded || reply.status >= 400 {
        if policy == ResponsePolicy::Mutation {
            if let Some(answer) = &reply.parsed {
                if answer.at("message").as_str().is_some() {
                    return Err(text::concat("GitHub: ", &message(answer, "Action was rejected")));
                }
            }
        }
        return Err(reply.failure.message().to_owned());
    }
    let answer = match reply.parsed {
        Some(answer) => answer,
        None => {
            return Err("GitHub CLI returned invalid JSON".to_owned());
        },
    };
    if policy == ResponsePolicy::Mutation {
        api.invalidate();
    } else if reply.status == 200 && answer.get("errors").is_none() {
        if let Some(key) = &exchange.key {
            let etag = match reply.headers.get("etag") {
                Some(etag) => Some(etag.as_str()),
                None => None,
            };
            api.put(key, etag, reply.body);
        }
    }
    Ok(answer)
}

/// What the output of the GitHub CLI says, read.
pub open spec fn reply_of(output: response::ResponseView, printed: Seq<u8>, succeeded: bool) -> ReplyView {
    ReplyView {
        succeeded,
        status: output.status,
        headers: output.headers,
        body: output.body,
        parsed: if output.status == 204 {
            Some(JsonView::Null)
        } else {
            json::json_document(output.body)
        },
        failure: failure::failure_of(lossy_text(printed)),
    }
}

/// What the output of the GitHub CLI amounts to, and what is remembered afterwards.
pub open spec fn interpreted(
    api: ApiStateView,
    exchange: ExchangeView,
    policy: ResponsePolicy,
    succeeded: bool,
    output: Seq<u8>,
    printed: Seq<u8>,
    now: u64,
    unix: i64,
) -> (Result<JsonView, Seq<char>>, ApiStateView) {
    if output.len() > MAX_OUTPUT {
        (Err("GitHub response exceeded 32 MiB"@), api)
    } else {
        match response::response_of(output) {
            Err(message) => (Err(message), api),
            Ok(read) => {
                let reply = reply_of(read, printed, succeeded);
                let retry = cache::retry_after(reply.headers, unix);
                let seen = noted(api, exchange.resource, reply, retry, now, unix);
                (answer_of(seen, exchange, policy, reply), remembered(seen, exchange, policy, reply))
            },
        }
    }
}

/// What the output of the GitHub CLI amounts to. What is remembered is brought up to date.
pub fn interpret(
    api: &mut ApiState,
    exchange: &Exchange,
    policy: ResponsePolicy,
    succeeded: bool,
    output: &[u8],
    printed: &[u8],
    now: u64,
    unix: i64,
) -> (r: Result<Json, String>)
    ensures
        (outcome(r), final(api)@) == interpreted(old(api)@, exchange@, policy, succeeded, output@, printed@, now, unix),
{
    if output.len() > MAX_OUTPUT {
        return Err("GitHub response exceeded 32 MiB".to_owned());
    }
    let read = match response::response(output) {
        Ok(read) => read,
        Err(message) => {
            return Err(message);
        },
    };
    let parsed = if read.status == 204 {
        Some(Json::Null)
    } else {
        json::parse(read.body)
    };
    let failure = failure::classify_failure(&read_lossy(printed));
    let retry = cache::retry_seconds(&read.headers, unix);
    let reply = Reply {
        succeeded,
        status: read.status,
        headers: read.headers,
        body: read.body,
        parsed,
        failure: failure.kind,
    };
    conclude(api, exchange, policy, reply, retry, now, unix)
}

// ---------------------------------------------------------------- reporting

/// What the headers of a reply say of a quota.
#[derive(Clone, Copy, Debug, PartialEq, Eq, Structural)]
pub struct Quota {
    pub limit: u64,
    pub remaining: u64,
    pub used: Option<u64>,
    pub reset: Option<u64>,
}

/// What is written down of a request: the status, whether it succeeded, the class of its
/// failure where it failed, and its quota where one is named.
pub struct Report {
    pub status: u16,
    pub succeeded: bool,
    pub failure: Option<failure::RequestFailure>,
    pub quota: Option<Quota>,
}

/// Whether a request has failed by itself: it was neither limited, nor answered from memory,
/// nor answered in part as it may be.
pub open spec fn failed(policy: ResponsePolicy, reply: ReplyView) -> bool {
    &&& !reply.limited()
    &&& reply.status != 304
    &&& !(policy == ResponsePolicy::MissingNodes && reply.parsed is Some && only_missing_nodes(reply.parsed->0))
    &&& !reply.succeeded || reply.status >= 400
}

/// What the headers of a reply say of a quota, where they name its limit and what is left.
pub open spec fn quota_of(headers: Map<Seq<char>, Seq<char>>) -> Option<Quota> {
    match (
        cache::header_number(headers, "x-ratelimit-limit"@),
        cache::header_number(headers, "x-ratelimit-remaining"@),
    ) {
        (Some(limit), Some(remaining)) => Some(
            Quota {
                limit,
                remaining,
                used: cache::header_number(headers, "x-ratelimit-used"@),
                reset: cache::header_number(headers, "x-ratelimit-reset"@),
            },
        ),
        _ => None,
    }
}

/// What the headers of a reply say of a quota.
fn read_quota(headers: &TextMap<String>) -> (r: Option<Quota>)
    ensures
        r == quota_of(headers@),
{
    match (cache::number(headers, "x-ratelimit-limit"), cache::number(headers, "x-ratelimit-remaining")) {
        (Some(limit), Some(remaining)) => Some(
            Quota {
                limit,
                remaining,
                used: cache::number(headers, "x-ratelimit-used"),
                reset: cache::number(headers, "x-ratelimit-reset"),
            },
        ),
        _ => None,
    }
}

/// What is written down of a request, where the output of the GitHub CLI can be read.
pub fn report(policy: ResponsePolicy, succeeded: bool, output: &[u8], printed: &[u8]) -> (r: Option<Report>)
    ensures
        match r {
            Some(report) => {
                &&& output@.len() <= MAX_OUTPUT
                &&& response::response_of(output@) matches Ok(read)
                &&& report.status == read.status
                &&& report.succeeded == (succeeded || read.status == 304)
                &&& report.quota == quota_of(read.headers)
                &&& match report.failure {
                    Some(failure) => failed(policy, reply_of(read, printed@, succeeded)) && failure.is(
                        failure::failure_of(lossy_text(printed@)),
                        failure::named_status(lossy_text(printed@)),
                    ),
                    None => !failed(policy, reply_of(read, printed@, succeeded)),
                }
            },
            None => output@.len() > MAX_OUTPUT || response::response_of(output@) is Err,
        },
{
    if output.len() > MAX_OUTPUT {
        return None;
    }
    let read = match response::response(output) {
        Ok(read) => read,
        Err(_) => {
            return None;
        },
    };
    let status: u16 = read.status;
    let quota = read_quota(&read.headers);
    let parsed = if status == 204 {
        Some(Json::Null)
    } else {
        json::parse(read.body)
    };
    let failure = failure::classify_failure(&read_lossy(printed));
    let reply = Reply { succeeded, status, headers: read.headers, body: read.body, parsed, failure: failure.kind };
    assert(reply.contents() == reply_of(response::response_of(output@)->Ok_0, printed@, succeeded));
    let partly = policy == ResponsePolicy::MissingNodes && match &reply.parsed {
        Some(answer) => only_missing_node_errors(answer),
        None => false,
    };
    let has_failed = !reply.limited() && status != 304 && !partly && (!succeeded || status >= 400);
    Some(
        Report {
            status,
            succeeded: succeeded || status == 304,
            failure: if has_failed {
                Some(failure)
            } else {
                None
            },
            quota,
        },
    )
}

// ---------------------------------------------------------------- laws

/// A request that is reported as failed is answered with an error.
pub proof fn reported_failures_are_errors(
    api: ApiStateView,
    exchange: ExchangeView,
    policy: ResponsePolicy,
    reply: ReplyView,
)
    requires
        failed(policy, reply),
    ensures
        answer_of(api, exchange, policy, reply) is Err,
        remembered(api, exchange, policy, reply) == api,
{
}

/// A request whose quota has to be waited for is not made, and one that is made names its
/// remembered reply.
pub proof fn paused_requests_are_not_made(
    api: ApiStateView,
    account: Option<Seq<char>>,
    request: ApiRequestView,
    now: u64,
)
    ensures
        api.paused(Some(resource_of(request.args)), now) <==> planned(api, account, request, now) is Err,
{
}

/// A request that changes something is never answered from memory, and after it has
/// succeeded nothing is answered from what was remembered before.
pub proof fn mutations_forget_replies(
    api: ApiStateView,
    account: Option<Seq<char>>,
    request: ApiRequestView,
    now: u64,
    reply: ReplyView,
)
    requires
        request.policy == ResponsePolicy::Mutation,
        planned(api, account, request, now) is Ok,
    ensures
        ({
            let exchange = planned(api, account, request, now)->Ok_0;
            &&& exchange.key is None
            &&& exchange.cached is None
            &&& answer_of(api, exchange, request.policy, reply) is Ok ==> remembered(
                api,
                exchange,
                request.policy,
                reply,
            ).cached == Map::<Seq<char>, CachedView>::empty()
        }),
{
}

/// What the GitHub CLI prints reaches nobody: only the class of failure that it amounts to
/// has any effect.
pub proof fn printed_messages_do_not_leak(
    api: ApiStateView,
    exchange: ExchangeView,
    policy: ResponsePolicy,
    succeeded: bool,
    output: Seq<u8>,
    printed: Seq<u8>,
    other: Seq<u8>,
    now: u64,
    unix: i64,
)
    requires
        failure::failure_of(lossy_text(printed)) == failure::failure_of(lossy_text(other)),
    ensures
        interpreted(api, exchange, policy, succeeded, output, printed, now, unix) == interpreted(
            api,
            exchange,
            policy,
            succeeded,
            output,
            other,
            now,
            unix,
        ),
{
}

} // verus!
