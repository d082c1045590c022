//! What is remembered about requests of one account: replies that may be reused, and
//! pauses that GitHub asked for. Reply bodies are bounded and never logged.

use crate::text;
use crate::text_map::{self, TextMap};
use vstd::prelude::*;

verus! {

/// A reply that may be reused while GitHub says that it has not changed.
pub struct Cached {
    pub etag: String,
    pub body: Vec<u8>,
}

/// The contents of a [`Cached`].
#[verifier::ext_equal]
pub struct CachedView {
    pub etag: Seq<char>,
    pub body: Seq<u8>,
}

impl View for Cached {
    type V = CachedView;

    open spec fn view(&self) -> CachedView {
        CachedView { etag: self.etag@, body: self.body@ }
    }
}

impl DeepView for Cached {
    type V = CachedView;

    open spec fn deep_view(&self) -> CachedView {
        self@
    }
}

impl Clone for Cached {
    fn clone(&self) -> (r: Self)
        ensures
            r@ == self@,
    {
        let r = Cached { etag: self.etag.clone(), body: self.body.clone() };
        assert(r.body@ =~= self.body@);
        r
    }
}

/// The right to read and to write the remembered reply of an endpoint. It is lost when the
/// account or what it may see changes.
pub struct CacheKey {
    endpoint: String,
    account: String,
    generation: u64,
}

/// The contents of a [`CacheKey`].
#[verifier::ext_equal]
pub struct CacheKeyView {
    pub endpoint: Seq<char>,
    pub account: Seq<char>,
    pub generation: u64,
}

impl View for CacheKey {
    type V = CacheKeyView;

    closed spec fn view(&self) -> CacheKeyView {
        CacheKeyView { endpoint: self.endpoint@, account: self.account@, generation: self.generation }
    }
}

impl DeepView for CacheKey {
    type V = CacheKeyView;

    open spec fn deep_view(&self) -> CacheKeyView {
        self@
    }
}

/// The greatest length of a body that is remembered.
pub const MAX_BODY: usize = 1024 * 1024;

/// The greatest length of an entity tag that is remembered.
pub const MAX_ETAG: usize = 1024;

/// The greatest length of all remembered bodies together.
pub const MAX_BYTES: usize = 16 * 1024 * 1024;

/// The greatest number of remembered replies.
pub const MAX_ENTRIES: usize = 256;

/// The longest pause in seconds.
pub const MAX_PAUSE: u64 = 31_536_000;

/// The length of the bodies of replies together.
pub open spec fn total_bytes(cached: Map<Seq<char>, CachedView>) -> nat
    decreases cached.dom().len(),
    when cached.dom().finite()
{
    if cached.dom().is_empty() {
        0
    } else {
        let endpoint = cached.dom().choose();
        cached[endpoint].body.len() + total_bytes(cached.remove(endpoint))
    }
}

/// The length of the bodies does not depend on the order in which they are counted.
proof fn total_bytes_of(cached: Map<Seq<char>, CachedView>, endpoint: Seq<char>)
    requires
        cached.dom().finite(),
        cached.contains_key(endpoint),
    ensures
        total_bytes(cached) == cached[endpoint].body.len() + total_bytes(cached.remove(endpoint)),
    decreases cached.dom().len(),
{
    let first = cached.dom().choose();
    assert(cached.dom().contains(first));
    if first != endpoint {
        let rest = cached.remove(first);
        assert(rest.dom() =~= cached.dom().remove(first));
        total_bytes_of(rest, endpoint);
        let other = cached.remove(endpoint);
        assert(other.dom() =~= cached.dom().remove(endpoint));
        total_bytes_of(other, first);
        assert(rest.remove(endpoint) =~= other.remove(first));
    }
}

/// The length of the bodies after one is added.
proof fn total_bytes_with(cached: Map<Seq<char>, CachedView>, endpoint: Seq<char>, value: CachedView)
    requires
        cached.dom().finite(),
        !cached.contains_key(endpoint),
    ensures
        total_bytes(cached.insert(endpoint, value)) == total_bytes(cached) + value.body.len(),
{
    let more = cached.insert(endpoint, value);
    assert(more.dom() =~= cached.dom().insert(endpoint));
    total_bytes_of(more, endpoint);
    assert(more.remove(endpoint) =~= cached);
}

/// What is remembered about the requests of one account.
pub struct ApiState {
    account: Option<String>,
    generation: u64,
    cached: TextMap<Cached>,
    bytes: usize,
    blocked: TextMap<u64>,
    secondary_failures: u32,
}

/// The contents of an [`ApiState`]. A resource is blocked until a moment, in
/// milliseconds of a clock that never goes back.
#[verifier::ext_equal]
pub struct ApiStateView {
    pub account: Option<Seq<char>>,
    pub generation: u64,
    pub cached: Map<Seq<char>, CachedView>,
    pub blocked: Map<Seq<char>, u64>,
    pub secondary_failures: u32,
}

impl View for ApiState {
    type V = ApiStateView;

    closed spec fn view(&self) -> ApiStateView {
        ApiStateView {
            account: self.account.deep_view(),
            generation: self.generation,
            cached: self.cached@,
            blocked: self.blocked@,
            secondary_failures: self.secondary_failures,
        }
    }
}

impl DeepView for ApiState {
    type V = ApiStateView;

    open spec fn deep_view(&self) -> ApiStateView {
        self@
    }
}

impl ApiStateView {
    /// Whether what is remembered keeps within its bounds.
    pub open spec fn bounded(self) -> bool {
        &&& self.cached.dom().finite()
        &&& self.cached.dom().len() <= MAX_ENTRIES
        &&& total_bytes(self.cached) <= MAX_BYTES
        &&& forall|endpoint: Seq<char>| #[trigger]
            self.cached.contains_key(endpoint) ==> self.cached[endpoint].body.len() <= MAX_BODY
    }

    /// Nothing is remembered.
    pub open spec fn fresh() -> ApiStateView {
        ApiStateView {
            account: None,
            generation: 0,
            cached: Map::empty(),
            blocked: Map::empty(),
            secondary_failures: 0,
        }
    }

    /// All replies are forgotten, and every key is lost.
    pub open spec fn invalidated(self) -> ApiStateView {
        ApiStateView { generation: next_generation(self.generation), cached: Map::empty(), ..self }
    }

    /// The account is known. Replies to another account are forgotten.
    pub open spec fn identified(self, account: Seq<char>) -> ApiStateView {
        if self.account == Some(account) {
            self
        } else {
            ApiStateView { account: Some(account), ..self.invalidated() }
        }
    }

    /// Whether a key still gives access.
    pub open spec fn accepts(self, key: CacheKeyView) -> bool {
        self.account == Some(key.account) && self.generation == key.generation
    }

    /// The key of an endpoint for an account: none unless the account is the known one.
    pub open spec fn key_for(self, endpoint: Seq<char>, account: Option<Seq<char>>) -> Option<CacheKeyView> {
        if account is Some && self.account == account {
            Some(CacheKeyView { endpoint, account: account->0, generation: self.generation })
        } else {
            None
        }
    }

    /// The reply that a key gives access to.
    pub open spec fn found(self, key: CacheKeyView) -> Option<CachedView> {
        if self.accepts(key) && self.cached.contains_key(key.endpoint) {
            Some(self.cached[key.endpoint])
        } else {
            None
        }
    }

    /// A reply has come under a key. One without an entity tag, or one that is too long,
    /// only displaces what was remembered; where there is no room, all else is forgotten.
    pub open spec fn stored(self, key: CacheKeyView, etag: Option<Seq<char>>, body: Seq<u8>) -> ApiStateView {
        if !self.accepts(key) {
            self
        } else {
            let without = self.cached.remove(key.endpoint);
            if etag is None || body.len() > MAX_BODY || vstd::utf8::encode_utf8(etag->0).len() > MAX_ETAG {
                ApiStateView { cached: without, ..self }
            } else {
                let room = total_bytes(without) + body.len() <= MAX_BYTES && without.dom().len() < MAX_ENTRIES;
                let kept = if room {
                    without
                } else {
                    Map::empty()
                };
                ApiStateView { cached: kept.insert(key.endpoint, CachedView { etag: etag->0, body }), ..self }
            }
        }
    }

    /// Whether a block concerns a resource. A secondary limit concerns all of them.
    pub open spec fn concerns(blocked: Seq<char>, resource: Option<Seq<char>>) -> bool {
        resource is None || blocked == resource->0 || blocked == "secondary"@
    }

    /// Whether requests to a resource have to wait at a moment.
    pub open spec fn paused(self, resource: Option<Seq<char>>, now: u64) -> bool {
        exists|name: Seq<char>|
            #[trigger] self.blocked.contains_key(name) && Self::concerns(name, resource) && self.blocked[name] > now
    }

    /// Whether `delay` is how long requests to a resource have to wait at a moment.
    pub open spec fn waits(self, resource: Option<Seq<char>>, now: u64, delay: u64) -> bool {
        &&& forall|name: Seq<char>|
            #[trigger] self.blocked.contains_key(name) && Self::concerns(name, resource) ==> self.blocked[name] <= now
                + delay
        &&& delay > 0 ==> exists|name: Seq<char>|
            #[trigger] self.blocked.contains_key(name) && Self::concerns(name, resource) && self.blocked[name] == now + delay
    }

    /// A resource is blocked for some seconds. A block is never shortened.
    pub open spec fn blocking(self, resource: Seq<char>, seconds: u64, now: u64) -> ApiStateView {
        let until = block_end(seconds, now);
        let later = if self.blocked.contains_key(resource) && self.blocked[resource] > until {
            self.blocked[resource]
        } else {
            until
        };
        ApiStateView { blocked: self.blocked.insert(resource, later), ..self }
    }
}

/// The generation after another.
pub open spec fn next_generation(generation: u64) -> u64 {
    if generation == u64::MAX {
        0
    } else {
        (generation + 1) as u64
    }
}

/// When a block of some seconds ends.
pub open spec fn block_end(seconds: u64, now: u64) -> u64 {
    let bounded = if seconds > MAX_PAUSE {
        MAX_PAUSE
    } else {
        seconds
    };
    let end = now + bounded * 1000;
    if end > u64::MAX {
        u64::MAX
    } else {
        end as u64
    }
}

impl ApiState {
    #[verifier::type_invariant]
    spec fn consistent(&self) -> bool {
        &&& self.cached@.dom().finite()
        &&& self.cached@.dom().len() <= MAX_ENTRIES
        &&& self.bytes == total_bytes(self.cached@)
        &&& self.bytes <= MAX_BYTES
        &&& forall|endpoint: Seq<char>| #[trigger]
            self.cached@.contains_key(endpoint) ==> self.cached@[endpoint].body.len() <= MAX_BODY
    }

    /// Nothing is remembered yet.
    pub fn new() -> (r: ApiState)
        ensures
            r@ == ApiStateView::fresh(),
            r@.bounded(),
    {
        ApiState {
            account: None,
            generation: 0,
            cached: TextMap::new(),
            bytes: 0,
            blocked: TextMap::new(),
            secondary_failures: 0,
        }
    }

    /// How many replies are remembered.
    pub fn cached_count(&self) -> (r: usize)
        ensures
            r == self@.cached.dom().len(),
    {
        self.cached.len()
    }

    /// The length of the remembered bodies together.
    pub fn cached_bytes(&self) -> (r: usize)
        ensures
            r == total_bytes(self@.cached),
    {
        proof {
            use_type_invariant(self);
        }
        self.bytes
    }

    /// How many limits without a stated end came in a row.
    pub fn failures(&self) -> (r: u32)
        ensures
            r == self@.secondary_failures,
    {
        self.secondary_failures
    }

    /// Takes everything out, leaving nothing remembered.
    fn take_all(&mut self) -> (r: ApiState)
        ensures
            r == *old(self),
    {
        let mut taken = ApiState::new();
        std::mem::swap(self, &mut taken);
        taken
    }

    /// The account is known. Replies to another account are forgotten.
    pub fn identify(&mut self, account: &str)
        ensures
            final(self)@ == old(self)@.identified(account@),
            final(self)@.bounded(),
    {
        proof {
            use_type_invariant(&*self);
        }
        let same = match &self.account {
            Some(known) => text::same(known, account),
            None => false,
        };
        if !same {
            let was = self.take_all();
            *self =
            ApiState {
                account: Some(account.to_owned()),
                generation: was.generation.wrapping_add(1),
                cached: TextMap::new(),
                bytes: 0,
                blocked: was.blocked,
                secondary_failures: was.secondary_failures,
            };
        }
    }

    /// The key of an endpoint for an account.
    pub fn key(&self, endpoint: &str, account: Option<&str>) -> (r: Option<CacheKey>)
        ensures
            r.deep_view() == self@.key_for(
                endpoint@,
                match account {
                    Some(a) => Some(a@),
                    None => None,
                },
            ),
    {
        match (account, &self.account) {
            (Some(account), Some(known)) => if text::same(known, account) {
                Some(
                    CacheKey {
                        endpoint: endpoint.to_owned(),
                        account: account.to_owned(),
                        generation: self.generation,
                    },
                )
            } else {
                None
            },
            _ => None,
        }
    }

    /// Whether a key still gives access.
    fn valid(&self, key: &CacheKey) -> (r: bool)
        ensures
            r == self@.accepts(key@),
    {
        match &self.account {
            Some(account) => text::same(account, &key.account) && self.generation == key.generation,
            None => false,
        }
    }

    /// The reply that a key gives access to.
    pub fn get(&self, key: &CacheKey) -> (r: Option<Cached>)
        ensures
            r.deep_view() == self@.found(key@),
    {
        if self.valid(key) {
            match self.cached.get(&key.endpoint) {
                Some(cached) => Some(cached.clone()),
                None => None,
            }
        } else {
            None
        }
    }

    /// A reply has come under a key.
    pub fn put(&mut self, key: &CacheKey, etag: Option<&str>, body: &[u8])
        ensures
            final(self)@ == old(self)@.stored(
                key@,
                match etag {
                    Some(e) => Some(e@),
                    None => None,
                },
                body@,
            ),
            final(self)@.bounded(),
    {
        proof {
            use_type_invariant(&*self);
        }
        if !self.valid(key) {
            return ;
        }
        let ghost before = self@;
        let ghost endpoint = key@.endpoint;
        let ghost without = before.cached.remove(endpoint);
        let was = self.take_all();
        let mut cached = was.cached;
        let mut bytes: usize = was.bytes;
        proof {
            assert(without.dom() =~= before.cached.dom().remove(endpoint));
            if before.cached.contains_key(endpoint) {
                total_bytes_of(before.cached, endpoint);
            } else {
                assert(without =~= before.cached);
            }
        }
        if let Some(old_reply) = cached.remove(&key.endpoint) {
            assert(old_reply.body@.len() == before.cached[endpoint].body.len());
            bytes = bytes - old_reply.body.len();
        }
        assert(cached@ == without);
        assert(bytes == total_bytes(without));
        if let Some(etag) = etag {
            if body.len() <= MAX_BODY && etag.as_bytes().len() <= MAX_ETAG {
                if bytes + body.len() > MAX_BYTES || cached.len() >= MAX_ENTRIES {
                    cached = TextMap::new();
                    bytes = 0;
                    assert(total_bytes(Map::<Seq<char>, CachedView>::empty()) == 0);
                }
                proof {
                    assert(!cached@.contains_key(endpoint));
                    total_bytes_with(cached@, endpoint, CachedView { etag: etag@, body: body@ });
                    assert(cached@.insert(endpoint, CachedView { etag: etag@, body: body@ }).dom() =~= cached@.dom().insert(
                        endpoint,
                    ));
                }
                bytes = bytes + body.len();
                let copy = vstd::slice::slice_to_vec(body);
                assert(copy@ =~= body@);
                cached.insert(key.endpoint.clone(), Cached { etag: etag.to_owned(), body: copy });
            }
        }
        *self =
        ApiState {
            account: was.account,
            generation: was.generation,
            cached,
            bytes,
            blocked: was.blocked,
            secondary_failures: was.secondary_failures,
        };
    }

    /// Something was changed on GitHub: an older reply that is still on its way must not be
    /// remembered.
    pub fn invalidate(&mut self)
        ensures
            final(self)@ == old(self)@.invalidated(),
            final(self)@.bounded(),
    {
        let was = self.take_all();
        *self =
        ApiState {
            account: was.account,
            generation: was.generation.wrapping_add(1),
            cached: TextMap::new(),
            bytes: 0,
            blocked: was.blocked,
            secondary_failures: was.secondary_failures,
        };
    }

    /// How long requests to a resource have to wait, in milliseconds.
    pub fn delay(&self, resource: Option<&str>, now: u64) -> (r: u64)
        ensures
            self@.waits(
                match resource {
                    Some(name) => Some(name@),
                    None => None,
                },
                now,
                r,
            ),
            (r > 0) == self@.paused(
                match resource {
                    Some(name) => Some(name@),
                    None => None,
                },
                now,
            ),
    {
        let ghost wanted: Option<Seq<char>> = match resource {
            Some(name) => Some(name@),
            None => None,
        };
        let ghost keys = text_map::sorted_keys(self.blocked@.dom());
        let count: usize = self.blocked.len();
        let mut r: u64 = 0;
        let mut i: usize = 0;
        while i < count
            invariant
                wanted == (match resource {
                    Some(name) => Some(name@),
                    None => None,
                }),
                keys == text_map::sorted_keys(self.blocked@.dom()),
                count == keys.len(),
                i <= count,
                forall|k: int|
                    0 <= k < i && ApiStateView::concerns(#[trigger] keys[k], wanted) ==> self.blocked@[keys[k]] <= now + r,
                r > 0 ==> exists|name: Seq<char>|
                    #[trigger] self.blocked@.contains_key(name) && ApiStateView::concerns(name, wanted)
                        && self.blocked@[name] == now + r,
            decreases count - i,
        {
            let name = self.blocked.key_at(i);
            let until: u64 = *self.blocked.value_at(i);
            let concerned = match resource {
                Some(wanted_name) => text::same(name, wanted_name) || text::same(name, "secondary"),
                None => true,
            };
            assert(concerned == ApiStateView::concerns(keys[i as int], wanted));
            if concerned && until > now && until - now > r {
                r = until - now;
                assert(self.blocked@.contains_key(keys[i as int]));
            }
            i += 1;
        }
        assert forall|name: Seq<char>| #[trigger]
            self.blocked@.contains_key(name) && ApiStateView::concerns(name, wanted) implies self.blocked@[name] <= now + r by {
            self.blocked.key_is_listed(name);
            let k = choose|k: int| 0 <= k < keys.len() && keys[k] == name;
            assert(ApiStateView::concerns(keys[k], wanted));
        }
        proof {
            let state = self@;
            assert(state.blocked == self.blocked@);
            if r > 0 {
                let name = choose|name: Seq<char>| #[trigger]
                    self.blocked@.contains_key(name) && ApiStateView::concerns(name, wanted) && self.blocked@[name] == now + r;
                assert(state.blocked.contains_key(name) && state.blocked[name] > now);
            }
            assert(state.waits(wanted, now, r));
        }
        r
    }

    /// A resource is blocked for some seconds.
    fn block(&mut self, resource: &str, seconds: u64, now: u64)
        ensures
            final(self)@ == old(self)@.blocking(resource@, seconds, now),
    {
        let bounded: u64 = if seconds > MAX_PAUSE {
            MAX_PAUSE
        } else {
            seconds
        };
        let until: u64 = now.saturating_add(bounded * 1000);
        let later: u64 = match self.blocked.get(resource) {
            Some(known) => if *known > until {
                *known
            } else {
                until
            },
            None => until,
        };
        proof {
            use_type_invariant(&*self);
        }
        let was = self.take_all();
        let mut blocked = was.blocked;
        blocked.insert(resource.to_owned(), later);
        *self =
        ApiState {
            account: was.account,
            generation: was.generation,
            cached: was.cached,
            bytes: was.bytes,
            blocked,
            secondary_failures: was.secondary_failures,
        };
    }

    /// Sets how many limits without a stated end came in a row.
    fn set_failures(&mut self, failures: u32)
        ensures
            final(self)@ == (ApiStateView { secondary_failures: failures, ..old(self)@ }),
    {
        proof {
            use_type_invariant(&*self);
        }
        let was = self.take_all();
        *self =
        ApiState {
            account: was.account,
            generation: was.generation,
            cached: was.cached,
            bytes: was.bytes,
            blocked: was.blocked,
            secondary_failures: failures,
        };
    }
}

/// The number that a header gives, where it gives one.
pub open spec fn header_number(headers: Map<Seq<char>, Seq<char>>, name: Seq<char>) -> Option<u64> {
    if headers.contains_key(name) {
        text::number_of(headers[name])
    } else {
        None
    }
}

/// The seconds from one moment to another, and one more; nothing for a moment in the past
/// but that one.
pub open spec fn seconds_until(moment: u64, now: u64) -> u64 {
    let left = if moment > now {
        moment - now
    } else {
        0
    };
    if left >= u64::MAX {
        u64::MAX
    } else {
        (left + 1) as u64
    }
}

/// A moment as seconds since the epoch, none of them negative.
pub open spec fn since_epoch(moment: i64) -> u64 {
    if moment < 0 {
        0
    } else {
        moment as u64
    }
}

/// The moment that `chrono::DateTime::parse_from_rfc2822` reads, in seconds since the
/// epoch.
pub uninterp spec fn rfc2822_timestamp(t: Seq<char>) -> Option<i64>;

/// Trusted: `chrono::DateTime::parse_from_rfc2822` and `DateTime::timestamp`. The moment
/// that a text gives is a function of the text alone.
#[verifier::external_body]
fn parse_rfc2822(t: &str) -> (r: Option<i64>)
    ensures
        r == rfc2822_timestamp(t@),
{
    chrono::DateTime::parse_from_rfc2822(t).ok().map(|moment| moment.timestamp())
}

/// The seconds to wait that a header asks for, by a number or by a moment.
pub open spec fn wait_of(number: Option<u64>, moment: Option<i64>, unix: i64) -> Option<u64> {
    match number {
        Some(seconds) => Some(seconds),
        None => match moment {
            Some(moment) => Some(seconds_until(since_epoch(moment), since_epoch(unix))),
            None => None,
        },
    }
}

/// The seconds to wait that the headers of a reply ask for.
pub open spec fn retry_after(headers: Map<Seq<char>, Seq<char>>, unix: i64) -> Option<u64> {
    wait_of(
        header_number(headers, "retry-after"@),
        if headers.contains_key("retry-after"@) {
            rfc2822_timestamp(headers["retry-after"@])
        } else {
            None
        },
        unix,
    )
}

/// The seconds of the pause after limits without a stated end: a minute for the first, and
/// twice as long for each that follows, up to the fifth.
pub open spec fn cooldown_seconds(failures: u32) -> u64 {
    if failures <= 1 {
        60
    } else if failures == 2 {
        120
    } else if failures == 3 {
        240
    } else if failures == 4 {
        480
    } else {
        960
    }
}

/// The greater of a number and one.
pub open spec fn at_least_one(n: u64) -> u64 {
    if n < 1 {
        1
    } else {
        n
    }
}

impl ApiStateView {
    /// A reply has come with headers that ask to wait for some seconds or do not. A quota
    /// that is used up blocks its resource until it is renewed. A limit blocks everything
    /// for the time that is asked for, or else for a time that grows.
    pub open spec fn observed(
        self,
        headers: Map<Seq<char>, Seq<char>>,
        resource: Seq<char>,
        limited: bool,
        retry: Option<u64>,
        now: u64,
        unix: i64,
    ) -> ApiStateView {
        let actual = if headers.contains_key("x-ratelimit-resource"@) {
            headers["x-ratelimit-resource"@]
        } else {
            resource
        };
        let exhausted = header_number(headers, "x-ratelimit-remaining"@) == Some(0u64);
        let renewal = match header_number(headers, "x-ratelimit-reset"@) {
            Some(moment) => seconds_until(moment, since_epoch(unix)),
            None => 60,
        };
        let quota = if exhausted {
            self.blocking(actual, at_least_one(renewal), now)
        } else {
            self
        };
        let counted = if !limited && !quota.paused(None, now) {
            ApiStateView { secondary_failures: 0, ..quota }
        } else {
            quota
        };
        if !limited {
            counted
        } else if retry is Some {
            counted.blocking("secondary"@, at_least_one(retry->0), now)
        } else if !exhausted {
            let failures = if counted.secondary_failures == u32::MAX {
                u32::MAX
            } else {
                (counted.secondary_failures + 1) as u32
            };
            ApiStateView { secondary_failures: failures, ..counted }.blocking("secondary"@, cooldown_seconds(failures), now)
        } else {
            counted
        }
    }

    /// The service is not available and may ask to wait.
    pub open spec fn service_retry(self, retry: Option<u64>, now: u64) -> ApiStateView {
        match retry {
            Some(seconds) => self.blocking("secondary"@, at_least_one(seconds), now),
            None => self,
        }
    }
}

/// The number that a header gives, where it gives one.
pub fn number(headers: &TextMap<String>, name: &str) -> (r: Option<u64>)
    ensures
        r == header_number(headers@, name@),
{
    match headers.get(name) {
        Some(value) => text::parse_u64(value),
        None => None,
    }
}

/// The seconds from one moment to another, and one more.
fn until_moment(moment: u64, now: u64) -> (r: u64)
    ensures
        r == seconds_until(moment, now),
{
    moment.saturating_sub(now).saturating_add(1)
}

/// A moment as seconds since the epoch.
fn epoch_seconds(moment: i64) -> (r: u64)
    ensures
        r == since_epoch(moment),
{
    if moment < 0 {
        0
    } else {
        moment as u64
    }
}

/// The greater of a number and one.
fn one_or_more(n: u64) -> (r: u64)
    ensures
        r == at_least_one(n),
{
    if n < 1 {
        1
    } else {
        n
    }
}

/// The seconds to wait that a header asks for, by a number or by a moment.
pub fn wait(number: Option<u64>, moment: Option<i64>, unix: i64) -> (r: Option<u64>)
    ensures
        r == wait_of(number, moment, unix),
{
    match number {
        Some(seconds) => Some(seconds),
        None => match moment {
            Some(moment) => Some(until_moment(epoch_seconds(moment), epoch_seconds(unix))),
            None => None,
        },
    }
}

/// The seconds to wait that the headers of a reply ask for.
pub fn retry_seconds(headers: &TextMap<String>, unix: i64) -> (r: Option<u64>)
    ensures
        r == retry_after(headers@, unix),
{
    let moment: Option<i64> = match headers.get("retry-after") {
        Some(value) => parse_rfc2822(value),
        None => None,
    };
    wait(number(headers, "retry-after"), moment, unix)
}

/// The seconds of the pause after limits without a stated end.
fn cooldown(failures: u32) -> (r: u64)
    ensures
        r == cooldown_seconds(failures),
{
    if failures <= 1 {
        60
    } else if failures == 2 {
        120
    } else if failures == 3 {
        240
    } else if failures == 4 {
        480
    } else {
        960
    }
}

impl ApiState {
    /// A reply has come with headers, and with what they ask for.
    pub fn observe_wait(
        &mut self,
        headers: &TextMap<String>,
        resource: &str,
        limited: bool,
        retry: Option<u64>,
        now: u64,
        unix: i64,
    )
        ensures
            final(self)@ == old(self)@.observed(headers@, resource@, limited, retry, now, unix),
    {
        let exhausted = match number(headers, "x-ratelimit-remaining") {
            Some(left) => left == 0,
            None => false,
        };
        if exhausted {
            let renewal: u64 = match number(headers, "x-ratelimit-reset") {
                Some(moment) => until_moment(moment, epoch_seconds(unix)),
                None => 60,
            };
            match headers.get("x-ratelimit-resource") {
                Some(actual) => self.block(actual, one_or_more(renewal), now),
                None => self.block(resource, one_or_more(renewal), now),
            }
        }
        if !limited {
            if self.delay(None, now) == 0 {
                self.set_failures(0);
            }
            return ;
        }
        match retry {
            Some(seconds) => self.block("secondary", one_or_more(seconds), now),
            None => if !exhausted {
                let failures: u32 = self.secondary_failures.saturating_add(1);
                self.set_failures(failures);
                self.block("secondary", cooldown(failures), now);
            },
        }
    }

    /// A reply has come with headers.
    pub fn observe(&mut self, headers: &TextMap<String>, resource: &str, limited: bool, now: u64, unix: i64)
        ensures
            final(self)@ == old(self)@.observed(
                headers@,
                resource@,
                limited,
                retry_after(headers@, unix),
                now,
                unix,
            ),
    {
        let retry = retry_seconds(headers, unix);
        self.observe_wait(headers, resource, limited, retry, now, unix)
    }

    /// The service is not available, and asks for a wait or does not.
    pub fn wait_for_service(&mut self, retry: Option<u64>, now: u64)
        ensures
            final(self)@ == old(self)@.service_retry(retry, now),
    {
        if let Some(seconds) = retry {
            self.block("secondary", one_or_more(seconds), now);
        }
    }

    /// The service is not available. It may ask all requests to wait.
    pub fn observe_service_retry(&mut self, headers: &TextMap<String>, now: u64, unix: i64)
        ensures
            final(self)@ == old(self)@.service_retry(retry_after(headers@, unix), now),
    {
        let retry = retry_seconds(headers, unix);
        self.wait_for_service(retry, now)
    }
}

// ---------------------------------------------------------------- laws

/// After a change on GitHub, every key that was given out before is lost: a reply that is
/// still on its way is not remembered, and nothing is read by it.
pub proof fn invalidation_loses_keys(
    state: ApiStateView,
    endpoint: Seq<char>,
    account: Option<Seq<char>>,
    etag: Option<Seq<char>>,
    body: Seq<u8>,
)
    requires
        state.key_for(endpoint, account) is Some,
    ensures
        ({
            let key = state.key_for(endpoint, account)->0;
            let after = state.invalidated();
            after.stored(key, etag, body) == after && after.found(key) is None
        }),
{
}

/// Keys that were given out are never newer than what is remembered: a key that is given out
/// belongs to the present generation, and whatever happens, generations only grow, as long as
/// they can be counted.
pub proof fn generations_only_grow(
    state: ApiStateView,
    endpoint: Seq<char>,
    account: Seq<char>,
    key: CacheKeyView,
    etag: Option<Seq<char>>,
    body: Seq<u8>,
    headers: Map<Seq<char>, Seq<char>>,
    resource: Seq<char>,
    limited: bool,
    retry: Option<u64>,
    now: u64,
    unix: i64,
)
    requires
        state.generation < u64::MAX,
    ensures
        state.key_for(endpoint, Some(account)) is Some ==> state.key_for(endpoint, Some(account))->0.generation
            == state.generation,
        state.generation < state.invalidated().generation,
        state.generation <= state.identified(account).generation,
        state.generation == state.stored(key, etag, body).generation,
        state.generation == state.observed(headers, resource, limited, retry, now, unix).generation,
        state.generation == state.service_retry(retry, now).generation,
{
}

/// A change on GitHub takes every key away that was ever given out before, not only the newest:
/// nothing is read by such a key, and a reply that comes under it is not remembered. The account
/// stays the known one and gets new keys, and what has to be waited for is as it was.
pub proof fn invalidation_keeps_the_account(
    state: ApiStateView,
    key: CacheKeyView,
    etag: Option<Seq<char>>,
    body: Seq<u8>,
    endpoint: Seq<char>,
    resource: Option<Seq<char>>,
    now: u64,
    delay: u64,
)
    requires
        state.generation < u64::MAX,
        key.generation <= state.generation,
    ensures
        state.invalidated().found(key) is None,
        state.invalidated().stored(key, etag, body) == state.invalidated(),
        state.invalidated().key_for(endpoint, state.account) is Some <==> state.account is Some,
        state.invalidated().blocked == state.blocked,
        state.invalidated().waits(resource, now, delay) == state.waits(resource, now, delay),
{
}

/// When the account changes, nothing remembered for the one before can be read, and its
/// keys are lost.
pub proof fn account_change_forgets(state: ApiStateView, account: Seq<char>, key: CacheKeyView)
    requires
        state.account != Some(account),
        state.accepts(key),
    ensures
        state.identified(account).cached == Map::<Seq<char>, CachedView>::empty(),
        state.identified(account).found(key) is None,
        !state.identified(account).accepts(key),
{
}

/// A reply that was remembered is read back under the same key.
pub proof fn stored_reply_is_found(state: ApiStateView, key: CacheKeyView, etag: Seq<char>, body: Seq<u8>)
    requires
        state.accepts(key),
        body.len() <= MAX_BODY,
        vstd::utf8::encode_utf8(etag).len() <= MAX_ETAG,
    ensures
        state.stored(key, Some(etag), body).found(key) == Some(CachedView { etag, body }),
{
}

/// A reply without an entity tag is not remembered, and displaces what was.
pub proof fn reply_without_tag_is_forgotten(state: ApiStateView, key: CacheKeyView, body: Seq<u8>)
    ensures
        state.stored(key, None, body).found(key) is None,
{
}

/// A block is never shortened by a later one.
pub proof fn blocks_only_grow(state: ApiStateView, resource: Seq<char>, seconds: u64, now: u64, name: Seq<char>)
    requires
        state.blocked.contains_key(name),
    ensures
        state.blocking(resource, seconds, now).blocked.contains_key(name),
        state.blocking(resource, seconds, now).blocked[name] >= state.blocked[name],
{
}

/// A limit pauses requests to every resource.
pub proof fn limits_pause_everything(
    state: ApiStateView,
    headers: Map<Seq<char>, Seq<char>>,
    resource: Seq<char>,
    retry: Option<u64>,
    now: u64,
    unix: i64,
    other: Option<Seq<char>>,
)
    requires
        now < u64::MAX,
        retry is Some || header_number(headers, "x-ratelimit-remaining"@) != Some(0u64),
    ensures
        state.observed(headers, resource, true, retry, now, unix).paused(other, now),
{
    let after = state.observed(headers, resource, true, retry, now, unix);
    assert(after.blocked.contains_key("secondary"@));
    assert(after.blocked["secondary"@] > now);
}

/// What is remembered after a number of limits without a stated end, all at one moment.
pub open spec fn limited_often(count: nat, resource: Seq<char>, now: u64, unix: i64) -> ApiStateView
    decreases count,
{
    if count == 0 {
        ApiStateView::fresh()
    } else {
        limited_often((count - 1) as nat, resource, now, unix).observed(
            Map::empty(),
            resource,
            true,
            retry_after(Map::empty(), unix),
            now,
            unix,
        )
    }
}

/// The seconds of the pause after a number of limits without a stated end: a minute, twice as
/// long after each more, and not longer after the fifth.
pub open spec fn pause_after(count: nat) -> nat
    recommends
        count >= 1,
{
    60 * vstd::arithmetic::power2::pow2(
        ((if count < 5 {
            count
        } else {
            5
        }) - 1) as nat,
    )
}

/// What is remembered after a number of limits without a stated end.
proof fn limits_are_counted(count: nat, resource: Seq<char>, now: u64, unix: i64)
    requires
        count >= 1,
        now + 960_000 <= u64::MAX,
    ensures
        ({
            let state = limited_often(count, resource, now, unix);
            &&& state.secondary_failures == (if count <= u32::MAX {
                count
            } else {
                u32::MAX as nat
            })
            &&& state.blocked == Map::<Seq<char>, u64>::empty().insert(
                "secondary"@,
                (now + pause_after(count) * 1000) as u64,
            )
        }),
        60 <= pause_after(count) <= 960,
        pause_after(count) == cooldown_seconds(limited_often(count, resource, now, unix).secondary_failures),
    decreases count,
{
    vstd::arithmetic::power2::lemma2_to64();
    let before = limited_often((count - 1) as nat, resource, now, unix);
    let after = limited_often(count, resource, now, unix);
    if count > 1 {
        limits_are_counted((count - 1) as nat, resource, now, unix);
    } else {
        assert(before == ApiStateView::fresh());
    }
    assert(retry_after(Map::empty(), unix) is None);
    assert(after.secondary_failures == (if before.secondary_failures == u32::MAX {
        u32::MAX as int
    } else {
        before.secondary_failures + 1
    }));
    assert(cooldown_seconds(after.secondary_failures) == pause_after(count));
    assert(block_end(cooldown_seconds(after.secondary_failures), now) == now + pause_after(count) * 1000);
    assert(after.blocked =~= Map::<Seq<char>, u64>::empty().insert(
        "secondary"@,
        (now + pause_after(count) * 1000) as u64,
    ));
}

/// Limits without a stated end, one after the other, pause requests to every resource for
/// longer and longer: for 60, 120, 240, 480 and then always 960 seconds. The pause is never
/// shorter than the one before.
pub proof fn cooldowns_double(
    count: nat,
    resource: Seq<char>,
    now: u64,
    unix: i64,
    other: Option<Seq<char>>,
    delay: u64,
)
    requires
        count >= 1,
        now + 960_000 <= u64::MAX,
    ensures
        limited_often(count, resource, now, unix).waits(other, now, delay) <==> delay == pause_after(count) * 1000,
        pause_after(count) <= pause_after(count + 1),
{
    vstd::arithmetic::power2::lemma2_to64();
    limits_are_counted(count, resource, now, unix);
    let state = limited_often(count, resource, now, unix);
    assert(state.blocked.contains_key("secondary"@));
    assert(ApiStateView::concerns("secondary"@, other));
    limits_are_counted(count + 1, resource, now, unix);
}

/// A quota that is used up pauses requests to its own resource only, where nothing else is
/// blocked.
pub proof fn quotas_pause_their_resource(state: ApiStateView, resource: Seq<char>, other: Seq<char>, seconds: u64, now: u64)
    requires
        now < u64::MAX,
        seconds >= 1,
        other != resource,
        resource != "secondary"@,
        !state.paused(Some(other), now),
    ensures
        state.blocking(resource, seconds, now).paused(Some(resource), now),
        !state.blocking(resource, seconds, now).paused(Some(other), now),
{
    let after = state.blocking(resource, seconds, now);
    assert(after.blocked.contains_key(resource));
    assert forall|name: Seq<char>| #[trigger] after.blocked.contains_key(name) implies !(ApiStateView::concerns(
        name,
        Some(other),
    ) && after.blocked[name] > now) by {
        if name != resource {
            assert(state.blocked.contains_key(name));
        }
    }
}

impl Default for ApiState {
    fn default() -> (r: Self)
        ensures
            r@ == ApiStateView::fresh(),
    {
        ApiState::new()
    }
}

} // verus!
