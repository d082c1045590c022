//! What holds of requests to GitHub, whatever comes back.

use crate::actions::MergeMethod;
use crate::evidence;
use crate::github::cache;
use crate::github::cache::{ApiStateView, CacheKeyView, CachedView};
use crate::github::changes;
use crate::github::credentials;
use crate::github::credentials::SessionsView;
use crate::github::exchange;
use crate::github::exchange::{ApiRequestView, ExchangeView, ReplyView, ResponsePolicy};
use crate::github::failure;
use crate::github::failure::FailureKind;
use crate::github::PrRefView;
use crate::json;
use crate::json::JsonView;
use crate::text;
use vstd::prelude::*;

verus! {

broadcast use vstd::seq_lib::group_seq_properties;

// ---------------------------------------------------------------- what is sent

/// The resource whose quota a request uses.
pub open spec fn quota_of(request: ApiRequestView) -> Seq<char> {
    if exists|i: int| 0 <= i < request.args.len() && #[trigger] request.args[i] == "graphql"@ {
        "graphql"@
    } else {
        "core"@
    }
}

/// Whether a request has to wait: its own quota is blocked, or all requests are.
pub open spec fn has_to_wait(api: ApiStateView, request: ApiRequestView, now: u64) -> bool {
    ||| api.blocked.contains_key(quota_of(request)) && api.blocked[quota_of(request)] > now
    ||| api.blocked.contains_key("secondary"@) && api.blocked["secondary"@] > now
}

/// A request is made exactly where it does not have to wait; and it is the one that was asked for,
/// with its headers, and with the tag of what is remembered of it, if something is.
pub proof fn requests_are_made_unless_they_wait(
    api: ApiStateView,
    account: Option<Seq<char>>,
    request: ApiRequestView,
    now: u64,
)
    ensures
        exchange::planned(api, account, request, now) is Err <==> has_to_wait(api, request, now),
        exchange::planned(api, account, request, now) is Ok ==> {
            let made = exchange::planned(api, account, request, now)->Ok_0;
            &&& made.resource == quota_of(request)
            &&& made.cached is None ==> made.args == request.args.push("--include"@)
            &&& made.cached is Some ==> made.args == request.args.push("--include"@).push("-H"@).push(
                "If-None-Match: "@ + made.cached->0.etag,
            )
        },
{
    let resource = quota_of(request);
    if request.args.contains("graphql"@) {
        let i = choose|i: int| 0 <= i < request.args.len() && request.args[i] == "graphql"@;
        assert(request.args[i] == "graphql"@);
    }
    if exists|i: int| 0 <= i < request.args.len() && #[trigger] request.args[i] == "graphql"@ {
        let i = choose|i: int| 0 <= i < request.args.len() && #[trigger] request.args[i] == "graphql"@;
        assert(request.args.contains("graphql"@));
    }
    assert(exchange::resource_of(request.args) == resource);
    if has_to_wait(api, request, now) {
        if api.blocked.contains_key(resource) && api.blocked[resource] > now {
            assert(ApiStateView::concerns(resource, Some(resource)));
        } else {
            assert(ApiStateView::concerns("secondary"@, Some(resource)));
        }
        assert(api.paused(Some(resource), now));
    }
    if api.paused(Some(resource), now) {
        let name = choose|name: Seq<char>| #[trigger]
            api.blocked.contains_key(name) && ApiStateView::concerns(name, Some(resource)) && api.blocked[name] > now;
        assert(name == resource || name == "secondary"@);
    }
}

/// Only what reads something of a repository, for the account that is known, is answered from
/// what is remembered: never a change, never a query, and never for another account.
pub proof fn only_readings_are_remembered(
    api: ApiStateView,
    account: Option<Seq<char>>,
    request: ApiRequestView,
    now: u64,
)
    requires
        exchange::planned(api, account, request, now) is Ok,
        exchange::planned(api, account, request, now)->Ok_0.key is Some,
    ensures
        ({
            let made = exchange::planned(api, account, request, now)->Ok_0;
            let key = made.key->0;
            &&& request.payload is None
            &&& request.policy != ResponsePolicy::Mutation
            &&& account is Some
            &&& api.account == account
            &&& key.account == account->0
            &&& key.generation == api.generation
            &&& "repos/"@.is_prefix_of(key.endpoint)
            &&& request.args.contains(key.endpoint)
            &&& made.cached is Some <==> api.cached.contains_key(key.endpoint)
            &&& made.cached is Some ==> made.cached->0 == api.cached[key.endpoint]
        }),
{
    endpoints_are_arguments(request.args);
}

/// An endpoint is one of the arguments.
proof fn endpoints_are_arguments(args: Seq<Seq<char>>)
    ensures
        exchange::endpoint_of(args) is Some ==> args.contains(exchange::endpoint_of(args)->0) && "repos/"@.is_prefix_of(
            exchange::endpoint_of(args)->0,
        ),
    decreases args.len(),
{
    if args.len() > 0 {
        let rest = args.drop_first();
        endpoints_are_arguments(rest);
        assert(args[0] == args.first());
        if exchange::endpoint_of(rest) is Some {
            let e = exchange::endpoint_of(rest)->0;
            let k = choose|k: int| 0 <= k < rest.len() && rest[k] == e;
            assert(args[k + 1] == e);
        }
    }
}

/// A merge is asked for by the commit that it is about and by its method, and not without a
/// commit.
pub proof fn merges_are_asked_for_by_commit(pr: PrRefView, head: Seq<char>, method: MergeMethod)
    ensures
        head.len() == 0 ==> changes::merge_question(pr, head, method) is Err,
        head.len() > 0 ==> {
            let asked = changes::merge_question(pr, head, method);
            let name = match method {
                MergeMethod::Merge => "merge"@,
                MergeMethod::Squash => "squash"@,
                MergeMethod::Rebase => "rebase"@,
            };
            &&& asked is Ok
            &&& asked->Ok_0.policy == ResponsePolicy::Mutation
            &&& asked->Ok_0.args == seq![
                "api"@,
                "--hostname"@,
                "github.com"@,
                "--method"@,
                "PUT"@,
                "repos/"@ + pr.repo + "/pulls/"@ + text::decimal_of(pr.number as nat) + "/merge"@,
                "--input"@,
                "-"@,
            ]
            &&& asked->Ok_0.payload == Some(
                JsonView::Object(seq![("merge_method"@, JsonView::Text(name)), ("sha"@, JsonView::Text(head))]),
            )
        },
{
    if head.len() > 0 {
        let asked = changes::merge_question(pr, head, method)->Ok_0;
        assert(asked.args =~= seq![
            "api"@,
            "--hostname"@,
            "github.com"@,
            "--method"@,
            "PUT"@,
            "repos/"@ + pr.repo + "/pulls/"@ + text::decimal_of(pr.number as nat) + "/merge"@,
            "--input"@,
            "-"@,
        ]);
    }
}

/// A pull request was merged exactly where the answer says so.
pub proof fn merges_are_confirmed_by_their_answer(answer: JsonView)
    ensures
        changes::merge_answer(answer) is Ok <==> answer.at("merged"@) == JsonView::Bool(true),
{
}

/// A label is put on by its name, beside those that are there, and taken off by its own address.
pub proof fn labels_are_changed_one_by_one(pr: PrRefView, name: Seq<char>)
    ensures
        ({
            let asked = changes::label_question(pr, name, true);
            let endpoint = "repos/"@ + pr.repo + "/issues/"@ + text::decimal_of(pr.number as nat) + "/labels"@;
            &&& asked is Ok
            &&& asked->Ok_0.policy == ResponsePolicy::Mutation
            &&& asked->Ok_0.args == seq![
                "api"@,
                "--hostname"@,
                "github.com"@,
                "--method"@,
                "POST"@,
                endpoint,
                "--input"@,
                "-"@,
            ]
            &&& asked->Ok_0.payload == Some(
                JsonView::Object(seq![("labels"@, JsonView::List(seq![JsonView::Text(name)]))]),
            )
        }),
        ({
            let asked = changes::label_question(pr, name, false);
            let path = changes::url_path_with(
                "https://github.com/"@ + ("repos/"@ + pr.repo + "/issues/"@ + text::decimal_of(pr.number as nat)
                    + "/labels"@),
                name,
            );
            &&& asked is Ok <==> path is Some
            &&& asked is Ok ==> {
                &&& asked->Ok_0.policy == ResponsePolicy::Mutation
                &&& asked->Ok_0.payload is None
                &&& asked->Ok_0.args.len() == 6
                &&& asked->Ok_0.args[4] == "DELETE"@
                &&& asked->Ok_0.args[5] == changes::without_slashes(path->0)
            }
        }),
{
    let asked = changes::label_question(pr, name, true)->Ok_0;
    assert(asked.args =~= seq![
        "api"@,
        "--hostname"@,
        "github.com"@,
        "--method"@,
        "POST"@,
        "repos/"@ + pr.repo + "/issues/"@ + text::decimal_of(pr.number as nat) + "/labels"@,
        "--input"@,
        "-"@,
    ]);
}

// ---------------------------------------------------------------- what comes back

/// Whether GitHub says that there were too many requests: by the status, by a wait that it asks
/// for, by what its CLI prints, or in the answer itself.
pub open spec fn is_limited(reply: ReplyView) -> bool {
    ||| reply.status == 429
    ||| reply.status == 403 && reply.headers.contains_key("retry-after"@)
    ||| reply.failure == FailureKind::RateLimit
    ||| reply.parsed is Some && speaks_of_limit(reply.parsed->0.at("message"@))
    ||| reply.parsed is Some && reply.parsed->0.at("errors"@) is List && exists|i: int|
        0 <= i < reply.parsed->0.at("errors"@)->List_0.len() && is_limit(
            #[trigger] reply.parsed->0.at("errors"@)->List_0[i],
        )
}

/// Whether an error of an answer is a limit.
pub open spec fn is_limit(error: JsonView) -> bool {
    error.at("type"@) == JsonView::Text("RATE_LIMITED"@) || speaks_of_limit(error.at("message"@))
}

/// Whether a text speaks of a limit.
pub open spec fn speaks_of_limit(value: JsonView) -> bool {
    value is Text && (text::occurs(text::ascii_lowercase(value->Text_0), "rate limit"@) || text::occurs(
        text::ascii_lowercase(value->Text_0),
        "abuse detection"@,
    ))
}

/// A limit is told by its signs, and by no others.
proof fn limits_are_told(reply: ReplyView)
    ensures
        reply.limited() == is_limited(reply),
{
    if reply.parsed is Some {
        let answer = reply.parsed->0;
        let errors = answer.at("errors"@);
        if errors is List {
            let list = errors->List_0;
            assert(answer.at("errors"@).list() == Some(list));
            assert forall|i: int| 0 <= i < list.len() implies exchange::error_limited(#[trigger] list[i]) == is_limit(
                list[i],
            ) by {}
            if exists|i: int| 0 <= i < list.len() && exchange::error_limited(#[trigger] list[i]) {
                let i = choose|i: int| 0 <= i < list.len() && exchange::error_limited(#[trigger] list[i]);
                assert(is_limit(reply.parsed->0.at("errors"@)->List_0[i]));
            }
            if exists|i: int| 0 <= i < list.len() && is_limit(#[trigger] list[i]) {
                let i = choose|i: int| 0 <= i < list.len() && is_limit(#[trigger] list[i]);
                assert(exchange::error_limited(answer.at("errors"@).list()->0[i]));
            }
        }
    }
}

/// A limit is an error. So is a failure, unless only nodes are missing and may be. What succeeded
/// with a document is that document, and what GitHub calls unchanged is what was remembered of it,
/// as long as that still is.
pub proof fn answers_are_what_came_back(
    api: ApiStateView,
    made: ExchangeView,
    policy: ResponsePolicy,
    reply: ReplyView,
)
    ensures
        ({
            let answer = exchange::answer_of(api, made, policy, reply);
            let partly = policy == ResponsePolicy::MissingNodes && reply.parsed is Some && exchange::only_missing_nodes(
                reply.parsed->0,
            );
            &&& is_limited(reply) ==> answer is Err
            &&& !is_limited(reply) && reply.status == 304 && made.cached is Some && made.key is Some && api.found(
                made.key->0,
            ) is Some && json::json_document(made.cached->0.body) is Some ==> answer == Ok::<JsonView, Seq<char>>(
                json::json_document(made.cached->0.body)->0,
            )
            &&& !is_limited(reply) && reply.status == 304 && (made.cached is None || made.key is None || api.found(
                made.key->0,
            ) is None) ==> answer is Err
            &&& !is_limited(reply) && reply.status != 304 && partly ==> answer == Ok::<JsonView, Seq<char>>(reply.parsed->0)
            &&& !is_limited(reply) && reply.status != 304 && !partly && (!reply.succeeded || reply.status >= 400)
                ==> answer is Err
            &&& !is_limited(reply) && reply.status != 304 && reply.succeeded && reply.status < 400 && reply.parsed is Some
                ==> answer == Ok::<JsonView, Seq<char>>(reply.parsed->0)
            &&& !is_limited(reply) && reply.status != 304 && reply.parsed is None ==> answer is Err
        }),
{
    limits_are_told(reply);
}

/// Errors of an answer are only about missing nodes where each names a node that is null by its
/// place in the list, and there is one.
pub proof fn missing_nodes_are_named(answer: JsonView, k: int)
    requires
        exchange::only_missing_nodes(answer),
    ensures
        ({
            let errors = answer.at("errors"@)->List_0;
            let nodes = answer.at("data"@).at("nodes"@)->List_0;
            &&& answer.at("errors"@) is List
            &&& answer.at("data"@).at("nodes"@) is List
            &&& errors.len() > 0
            &&& 0 <= k < errors.len() ==> {
                let path = errors[k].at("path"@);
                let place = path->List_0[1].whole();
                &&& errors[k].at("type"@) == JsonView::Text("NOT_FOUND"@)
                &&& path is List
                &&& path->List_0.len() == 2
                &&& path->List_0[0] == JsonView::Text("nodes"@)
                &&& place is Some
                &&& place->0 < nodes.len()
                &&& nodes[place->0 as int] is Null
            }
        }),
{
    if 0 <= k < answer.at("errors"@)->List_0.len() {
        assert(exchange::missing_node(answer.at("errors"@)->List_0[k], answer.at("data"@).at("nodes"@)->List_0));
    }
}

/// What was read completely is remembered under its key, with its tag; what failed, what was
/// limited and what has errors is not. A change that was made forgets everything.
pub proof fn complete_readings_are_remembered(
    api: ApiStateView,
    made: ExchangeView,
    policy: ResponsePolicy,
    reply: ReplyView,
)
    ensures
        ({
            let next = exchange::remembered(api, made, policy, reply);
            let fine = !is_limited(reply) && reply.succeeded && reply.status < 400 && reply.status != 304 && reply.parsed
                is Some;
            &&& !fine ==> next == api
            &&& fine && policy == ResponsePolicy::Mutation ==> next.cached == Map::<Seq<char>, CachedView>::empty()
                && next.account == api.account && next.blocked == api.blocked
            &&& fine && policy == ResponsePolicy::Strict && reply.status == 200 && reply.parsed->0.find("errors"@) is None
                && made.key is Some && api.accepts(made.key->0) && reply.headers.contains_key("etag"@) && reply.body.len()
                <= 1_048_576 && vstd::utf8::encode_utf8(reply.headers["etag"@]).len() <= 1024 ==> next.cached.contains_key(
                made.key->0.endpoint,
            ) && next.cached[made.key->0.endpoint] == (CachedView { etag: reply.headers["etag"@], body: reply.body })
            &&& policy != ResponsePolicy::Mutation && fine && reply.parsed->0.find("errors"@) is Some ==> next == api
        }),
{
    limits_are_told(reply);
}

/// What is remembered keeps within its bounds: 256 replies, 16 MiB together, 1 MiB for each, and
/// tags of 1 KiB.
pub proof fn memory_is_bounded(api: ApiStateView, key: CacheKeyView, tag: Option<Seq<char>>, body: Seq<u8>)
    requires
        api.bounded(),
    ensures
        api.cached.dom().len() <= 256,
        cache::total_bytes(api.cached) <= 16_777_216,
        body.len() > 1_048_576 ==> !api.accepts(key) || !api.stored(key, tag, body).cached.contains_key(key.endpoint),
        tag is Some && vstd::utf8::encode_utf8(tag->0).len() > 1024 ==> !api.accepts(key) || !api.stored(
            key,
            tag,
            body,
        ).cached.contains_key(key.endpoint),
        !api.accepts(key) ==> api.stored(key, tag, body) == api,
        api.accepts(key) <==> api.account == Some(key.account) && api.generation == key.generation,
{
}

// ---------------------------------------------------------------- waiting

/// When GitHub asks to wait, all requests wait for as long, a second at least and a year at most,
/// or longer where they did anyway.
pub proof fn asked_waits_are_kept(
    api: ApiStateView,
    headers: Map<Seq<char>, Seq<char>>,
    resource: Seq<char>,
    seconds: u64,
    now: u64,
    unix: i64,
)
    requires
        seconds <= 31_536_000,
        now + 31_536_000_000 <= u64::MAX,
    ensures
        ({
            let next = api.observed(headers, resource, true, Some(seconds), now, unix);
            let least = now + 1000 * (if seconds < 1 {
                1
            } else {
                seconds as int
            });
            &&& next.blocked.contains_key("secondary"@)
            &&& next.blocked["secondary"@] >= least
            &&& next.blocked["secondary"@] == least || api.blocked.contains_key("secondary"@) && next.blocked["secondary"@]
                == api.blocked["secondary"@] || cache::header_number(headers, "x-ratelimit-remaining"@) == Some(0u64)
        }),
{
}

/// A quota that is used up blocks its resource until it is renewed, and no other.
pub proof fn used_quotas_wait_for_their_renewal(
    api: ApiStateView,
    headers: Map<Seq<char>, Seq<char>>,
    resource: Seq<char>,
    reset: u64,
    now: u64,
    unix: i64,
    other: Seq<char>,
)
    requires
        cache::header_number(headers, "x-ratelimit-remaining"@) == Some(0u64),
        cache::header_number(headers, "x-ratelimit-reset"@) == Some(reset),
        !headers.contains_key("x-ratelimit-resource"@),
        unix >= 0,
        unix <= reset <= unix + 31_535_999,
        now + 31_536_000_000 <= u64::MAX,
        other != resource,
    ensures
        ({
            let next = api.observed(headers, resource, false, None, now, unix);
            let least = now + 1000 * (reset - unix + 1);
            &&& next.blocked.contains_key(resource)
            &&& next.blocked[resource] >= least
            &&& !api.blocked.contains_key(resource) ==> next.blocked[resource] == least
            &&& next.blocked.contains_key(other) == api.blocked.contains_key(other)
            &&& api.blocked.contains_key(other) ==> next.blocked[other] == api.blocked[other]
        }),
{
}

/// Where a quota is left and nothing is limited, nothing waits that did not before.
pub proof fn nothing_waits_without_a_reason(
    api: ApiStateView,
    headers: Map<Seq<char>, Seq<char>>,
    resource: Seq<char>,
    retry: Option<u64>,
    now: u64,
    unix: i64,
)
    requires
        cache::header_number(headers, "x-ratelimit-remaining"@) != Some(0u64),
    ensures
        api.observed(headers, resource, false, retry, now, unix).blocked == api.blocked,
        api.observed(headers, resource, false, retry, now, unix).cached == api.cached,
{
}

/// What a wait is: the number that a header has, or the time until the moment that it names.
pub proof fn waits_are_numbers_or_moments(headers: Map<Seq<char>, Seq<char>>, unix: i64, moment: i64)
    ensures
        !headers.contains_key("retry-after"@) ==> cache::retry_after(headers, unix) is None,
        headers.contains_key("retry-after"@) && text::number_of(headers["retry-after"@]) is Some ==> cache::retry_after(
            headers,
            unix,
        ) == text::number_of(headers["retry-after"@]),
        headers.contains_key("retry-after"@) && text::number_of(headers["retry-after"@]) is None
            && cache::rfc2822_timestamp(headers["retry-after"@]) == Some(moment) && 0 <= unix <= moment
            ==> cache::retry_after(headers, unix) == Some((moment - unix + 1) as u64),
{
}

// ---------------------------------------------------------------- failures

/// What is printed tells the class of a failure: credentials first, then limits, then access, then
/// the server.
pub proof fn failures_are_told_by_status(status: u16, lower: Seq<char>)
    requires
        !text::occurs(lower, "bad credentials"@),
        !text::occurs(lower, "gh auth login"@),
        !text::occurs(lower, "authentication"@),
    ensures
        failure::kind_of(Some(401u16), lower) == FailureKind::Authentication,
        failure::kind_of(Some(429u16), lower) == FailureKind::RateLimit,
        status != 401 && text::occurs(lower, "rate limit"@) ==> failure::kind_of(Some(status), lower)
            == FailureKind::RateLimit,
        !text::occurs(lower, "rate limit"@) ==> failure::kind_of(Some(403u16), lower) == FailureKind::Access,
        !text::occurs(lower, "rate limit"@) ==> failure::kind_of(Some(404u16), lower) == FailureKind::Access,
        !text::occurs(lower, "rate limit"@) && status >= 500 ==> failure::kind_of(Some(status), lower)
            == FailureKind::Server,
{
}

// ---------------------------------------------------------------- credentials

/// A credential is what the CLI prints, without the white space around it, where it is one: not
/// empty, without white space in it, and of 16 KiB at most.
pub proof fn credentials_are_read(printed: Seq<u8>)
    ensures
        credentials::credential_of(false, printed) is Err,
        credentials::credential_of(true, printed) is Ok ==> {
            let token = credentials::credential_of(true, printed)->Ok_0;
            &&& vstd::utf8::valid_utf8(printed)
            &&& token == text::trimmed(vstd::utf8::decode_utf8(printed))
            &&& token.len() > 0
            &&& vstd::utf8::encode_utf8(token).len() <= 16_384
            &&& forall|i: int| 0 <= i < token.len() ==> !text::is_space(#[trigger] token[i])
        },
{
}

/// A credential that comes into use is the active one, by its digest alone; what was known of it
/// stays known.
pub proof fn credentials_in_use_are_active(s: SessionsView, token: Seq<char>)
    ensures
        ({
            let key = evidence::hash_of(vstd::utf8::encode_utf8(token));
            &&& s.using(token).active == Some(key)
            &&& s.using(token).states.contains_key(key)
            &&& s.states.contains_key(key) ==> s.using(token).states == s.states
            &&& !s.states.contains_key(key) ==> s.using(token).states[key] == ApiStateView::fresh()
        }),
{
}

} // verus!
