//! What holds of answers, of what is said of failures, and of what follows for later requests.

use crate::github::cache;
use crate::github::cache::ApiStateView;
use crate::github::exchange;
use crate::github::exchange::{ExchangeView, ReplyView, ResponsePolicy};
use crate::github::failure;
use crate::github::failure::FailureKind;
use crate::github::request_laws;
use crate::github::response;
use crate::json;
use crate::json::JsonView;
use crate::text;
use vstd::prelude::*;

verus! {

broadcast use vstd::seq_lib::group_seq_properties;

/// A message is shown without control characters, and only its first four hundred other ones.
pub proof fn messages_are_cut(message: Seq<char>)
    ensures
        exchange::shown_characters(message).len() <= 400,
        forall|i: int|
            0 <= i < exchange::shown_characters(message).len() ==> !text::control(#[trigger] exchange::shown_characters(message)[i]),
        message.len() <= 400 && (forall|i: int| 0 <= i < message.len() ==> !text::control(#[trigger] message[i]))
            ==> exchange::shown_characters(message) == message,
        message.len() > 400 && (forall|i: int| 0 <= i < message.len() ==> !text::control(#[trigger] message[i]))
            ==> exchange::shown_characters(message) == message.take(400),
    decreases message.len(),
{
    if message.len() > 0 {
        let rest = message.drop_last();
        messages_are_cut(rest);
        if forall|i: int| 0 <= i < message.len() ==> !text::control(#[trigger] message[i]) {
            assert forall|i: int| 0 <= i < rest.len() implies !text::control(#[trigger] rest[i]) by {
                assert(rest[i] == message[i]);
            }
            assert(!text::control(message[message.len() - 1]));
            assert(rest.push(message.last()) =~= message);
            if message.len() > 400 {
                if rest.len() > 400 {
                    assert(rest.take(400) =~= message.take(400));
                } else {
                    assert(rest =~= message.take(400));
                }
            }
        }
    } else {
        assert(exchange::shown_characters(message) =~= message);
    }
}

/// A change that GitHub rejects is refused with what GitHub says of it; every other failure is
/// refused with a text of its class, and a limit, a reply without a document and one that is no
/// longer remembered with theirs.
pub proof fn refusals_say_why(api: ApiStateView, made: ExchangeView, policy: ResponsePolicy, reply: ReplyView)
    requires
        policy != ResponsePolicy::MissingNodes,
    ensures
        ({
            let answer = exchange::answer_of(api, made, policy, reply);
            let limited = request_laws::is_limited(reply);
            let failed = !limited && reply.status != 304 && (!reply.succeeded || reply.status >= 400);
            &&& limited ==> answer == Err::<JsonView, Seq<char>>(
                "GitHub rate limit reached; requests paused until the quota cooldown ends"@,
            )
            &&& failed && policy == ResponsePolicy::Mutation && reply.parsed is Some && reply.parsed->0.at("message"@).str()
                is Some ==> answer == Err::<JsonView, Seq<char>>(
                "GitHub: "@ + exchange::shown_characters(reply.parsed->0.at("message"@).str()->0),
            )
            &&& failed && (policy != ResponsePolicy::Mutation || reply.parsed is None) ==> answer == Err::<JsonView, Seq<char>>(
                reply.failure.message_text(),
            )
            &&& !limited && reply.status == 304 && made.cached is None ==> answer == Err::<JsonView, Seq<char>>(
                "GitHub returned 304 without a cached response"@,
            )
            &&& !limited && reply.status != 304 && reply.succeeded && reply.status < 400 && reply.parsed is None
                ==> answer == Err::<JsonView, Seq<char>>("GitHub CLI returned invalid JSON"@)
        }),
{
    request_laws::answers_are_what_came_back(api, made, policy, reply);
    if request_laws::is_limited(reply) {
        assert(reply.limited());
    }
}

/// An output of more than 32 MiB is refused and changes nothing; a smaller one is a reply whose
/// document is its body, or nothing at all where GitHub says that there is none.
pub proof fn outputs_are_read(
    api: ApiStateView,
    made: ExchangeView,
    policy: ResponsePolicy,
    succeeded: bool,
    output: Seq<u8>,
    printed: Seq<u8>,
    now: u64,
    unix: i64,
)
    ensures
        ({
            let (answer, next) = exchange::interpreted(api, made, policy, succeeded, output, printed, now, unix);
            &&& output.len() > 33_554_432 ==> answer == Err::<JsonView, Seq<char>>("GitHub response exceeded 32 MiB"@) && next
                == api
            &&& output.len() <= 33_554_432 && response::response_of(output) is Err ==> answer is Err && next == api
            &&& output.len() <= 33_554_432 && response::response_of(output) is Ok ==> {
                let read = response::response_of(output)->Ok_0;
                let reply = exchange::reply_of(read, printed, succeeded);
                &&& reply.status == read.status && reply.body == read.body && reply.headers == read.headers
                &&& reply.succeeded == succeeded
                &&& read.status == 204 ==> reply.parsed == Some(JsonView::Null)
                &&& read.status != 204 ==> reply.parsed == json::json_document(read.body)
            }
        }),
{
}

/// A service that is not available and asks to wait makes every request wait; without such a wish
/// nothing waits for it.
pub proof fn unavailable_services_are_waited_for(
    api: ApiStateView,
    resource: Seq<char>,
    reply: ReplyView,
    seconds: u64,
    now: u64,
    unix: i64,
)
    requires
        reply.status == 503,
        1 <= seconds <= 31_536_000,
        now + 31_536_000_000 <= u64::MAX,
    ensures
        ({
            let next = exchange::noted(api, resource, reply, Some(seconds), now, unix);
            &&& next.blocked.contains_key("secondary"@)
            &&& next.blocked["secondary"@] >= now + 1000 * seconds
        }),
        !request_laws::is_limited(reply) && cache::header_number(reply.headers, "x-ratelimit-remaining"@) != Some(0u64)
            ==> exchange::noted(api, resource, reply, None, now, unix).blocked == api.blocked,
{
    request_laws::answers_are_what_came_back(
        api,
        ExchangeView { resource, key: None, cached: None, args: Seq::empty() },
        ResponsePolicy::Strict,
        reply,
    );
    if !request_laws::is_limited(reply) {
        limited_by_its_signs(reply);
    }
}

/// Without a sign of a limit there is none.
proof fn limited_by_its_signs(reply: ReplyView)
    requires
        !request_laws::is_limited(reply),
    ensures
        !reply.limited(),
{
    if reply.parsed is Some {
        let answer = reply.parsed->0;
        if answer.at("errors"@) is List {
            let list = answer.at("errors"@)->List_0;
            assert(answer.at("errors"@).list() == Some(list));
            if exists|i: int| 0 <= i < list.len() && exchange::error_limited(#[trigger] list[i]) {
                let i = choose|i: int| 0 <= i < list.len() && exchange::error_limited(#[trigger] list[i]);
                assert(request_laws::is_limit(answer.at("errors"@)->List_0[i]));
            }
        }
    }
}

/// Limits that name no wait are waited for longer each time: a minute first, then twice as long,
/// up to sixteen minutes.
pub proof fn cooldowns_double_up_to_sixteen_minutes(failures: u32)
    ensures
        cache::cooldown_seconds(1) == 60,
        1 <= failures < 5 ==> cache::cooldown_seconds((failures + 1) as u32) == 2 * cache::cooldown_seconds(failures),
        failures >= 5 ==> cache::cooldown_seconds(failures) == 960,
{
}

/// What is known of a quota is what the headers say of it, where they say how much there is and
/// how much is left.
pub proof fn quotas_are_read_from_headers(headers: Map<Seq<char>, Seq<char>>)
    ensures
        ({
            let quota = exchange::quota_of(headers);
            let limit = cache::header_number(headers, "x-ratelimit-limit"@);
            let left = cache::header_number(headers, "x-ratelimit-remaining"@);
            &&& quota is Some <==> limit is Some && left is Some
            &&& quota is Some ==> {
                &&& quota->0.limit == limit->0
                &&& quota->0.remaining == left->0
                &&& quota->0.used == cache::header_number(headers, "x-ratelimit-used"@)
                &&& quota->0.reset == cache::header_number(headers, "x-ratelimit-reset"@)
            }
        }),
{
}

/// Without a status, what is printed tells the class of a failure: names that are not found first,
/// then handshakes, certificates, other waits, other faults of the secure connection, and the
/// connection itself.
pub proof fn failures_are_told_by_their_words(lower: Seq<char>)
    requires
        !text::occurs(lower, "bad credentials"@),
        !text::occurs(lower, "gh auth login"@),
        !text::occurs(lower, "authentication"@),
        !text::occurs(lower, "rate limit"@),
    ensures
        ({
            let kind = failure::kind_of(None, lower);
            let dns = text::occurs(lower, "could not resolve"@) || text::occurs(lower, "no such host"@) || text::occurs(
                lower,
                "lookup "@,
            );
            let handshake = text::occurs(lower, "tls handshake timeout"@) || text::occurs(lower, "tls handshake timed out"@);
            let certificate = text::occurs(lower, "x509"@) || text::occurs(lower, "certificate"@);
            let late = text::occurs(lower, "timeout"@) || text::occurs(lower, "timed out"@) || text::occurs(
                lower,
                "deadline exceeded"@,
            );
            let tls = text::occurs(lower, "tls"@);
            let connection = text::occurs(lower, "connection reset"@) || text::occurs(lower, "connection refused"@)
                || text::occurs(lower, "network is unreachable"@) || text::occurs(lower, "unexpected eof"@) || text::occurs(
                lower,
                "broken pipe"@,
            );
            &&& kind == FailureKind::Dns <==> dns
            &&& kind == FailureKind::HandshakeTimeout <==> handshake && !dns
            &&& kind == FailureKind::Certificate <==> certificate && !dns && !handshake
            &&& kind == FailureKind::Timeout <==> late && !dns && !handshake && !certificate
            &&& kind == FailureKind::Tls <==> tls && !dns && !handshake && !certificate && !late
            &&& kind == FailureKind::Connection <==> connection && !dns && !handshake && !certificate && !late && !tls
            &&& kind == FailureKind::Unclassified <==> !dns && !handshake && !certificate && !late && !tls && !connection
        }),
{
}

/// A message about credentials is one about authentication, whatever the status.
pub proof fn credentials_are_told_by_words(status: Option<u16>, lower: Seq<char>)
    ensures
        text::occurs(lower, "bad credentials"@) || text::occurs(lower, "gh auth login"@) || text::occurs(
            lower,
            "authentication"@,
        ) ==> failure::kind_of(status, lower) == FailureKind::Authentication,
        FailureKind::Authentication.message_text()
            == "GitHub authentication failed. Run gh auth login --hostname github.com."@,
        FailureKind::RateLimit.message_text() == "GitHub rate limit reached; polling will back off."@,
        FailureKind::Server.message_text() == "GitHub reported a server error; polling will retry automatically."@,
{
}

} // verus!
