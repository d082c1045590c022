//! The identity of an update: a digest of the evidence that it rests on.

use crate::model::{AgentResult, AgentResultView, Snapshot, SnapshotView, State, ThreadView};
use crate::text;
use sha2::Digest;
use vstd::prelude::*;

verus! {

broadcast use vstd::seq_lib::group_seq_properties;

/// What `Sha256::digest` returns: the SHA-256 digest of bytes.
pub uninterp spec fn sha256_digest(bytes: Seq<u8>) -> Seq<u8>;

/// Trusted: `sha2::Sha256::digest`, the 32 bytes of the SHA-256 digest.
#[verifier::external_body]
fn sha256(bytes: &[u8]) -> (r: Vec<u8>)
    ensures
        r@ == sha256_digest(bytes@),
        r@.len() == 32,
{
    sha2::Sha256::digest(bytes).to_vec()
}

/// The digest of bytes in hexadecimal.
pub open spec fn hash_of(bytes: Seq<u8>) -> Seq<char> {
    text::hex_of(sha256_digest(bytes))
}

/// The SHA-256 digest of bytes in hexadecimal.
pub fn hash(value: &[u8]) -> (r: String)
    ensures
        r@ == hash_of(value@),
{
    text::hex(&sha256(value))
}

/// What identifies the discussion in a thread: the thread, its last comment, the time
/// of that comment and a digest of its body.
pub type ThreadKey = (Seq<char>, Seq<char>, Seq<char>, Seq<char>);

/// What identifies an agent's run: the agent, its verdict and the run.
pub type RunKey = (Seq<char>, Seq<char>, Seq<char>);

/// The key of a thread.
pub open spec fn thread_key(thread: ThreadView) -> ThreadKey {
    (thread.id, thread.last_comment_id, thread.updated_at, thread.body_hash)
}

/// The key of an agent's result.
pub open spec fn run_key(result: AgentResultView) -> RunKey {
    (result.agent.key(), result.verdict.key(), result.run_id)
}

/// The keys of the threads that are not resolved, in the order of the threads.
pub open spec fn open_threads(threads: Seq<ThreadView>) -> Seq<ThreadKey>
    decreases threads.len(),
{
    if threads.len() == 0 {
        Seq::empty()
    } else if threads.last().resolved {
        open_threads(threads.drop_last())
    } else {
        open_threads(threads.drop_last()).push(thread_key(threads.last()))
    }
}

/// The order of thread keys by their first differing part.
pub open spec fn key_le(a: ThreadKey, b: ThreadKey) -> bool {
    if a.0 != b.0 {
        text::text_lt(a.0, b.0)
    } else if a.1 != b.1 {
        text::text_lt(a.1, b.1)
    } else if a.2 != b.2 {
        text::text_lt(a.2, b.2)
    } else {
        !text::text_lt(b.3, a.3)
    }
}

/// The order of thread keys as a relation.
pub open spec fn key_order() -> spec_fn(ThreadKey, ThreadKey) -> bool {
    |a: ThreadKey, b: ThreadKey| key_le(a, b)
}

/// Thread keys in order.
pub open spec fn ordered_keys(keys: Seq<ThreadKey>) -> Seq<ThreadKey> {
    keys.sort_by(key_order())
}

/// What `serde_json::to_vec` writes for a tuple of a text, a text, a list of text
/// triples and a list of text quadruples.
pub uninterp spec fn fingerprint_json(head: Seq<char>, state: Seq<char>, runs: Seq<RunKey>, threads: Seq<ThreadKey>) -> Seq<u8>;

/// Trusted: `serde_json::to_vec` on a tuple of texts and lists of texts. Such a value
/// is always serializable, and the bytes are a function of it alone.
#[verifier::external_body]
fn write_fingerprint(
    head: &str,
    state: &str,
    runs: &Vec<(String, String, String)>,
    threads: &Vec<(String, String, String, String)>,
) -> (r: Vec<u8>)
    ensures
        r@ == fingerprint_json(head@, state@, runs.deep_view(), threads.deep_view()),
{
    serde_json::to_vec(&(head, state, runs, threads)).expect("serializable fingerprint")
}

/// The identity of an update.
pub open spec fn fingerprint_of(snapshot: SnapshotView, agents: Seq<AgentResultView>, state: State) -> Seq<char> {
    hash_of(
        fingerprint_json(
            snapshot.head,
            state.key(),
            agents.map_values(|a: AgentResultView| run_key(a)),
            ordered_keys(open_threads(snapshot.threads)),
        ),
    )
}

/// The order of thread keys is a total order.
proof fn key_order_is_total()
    ensures
        vstd::relations::total_ordering(key_order()),
{
    let order = key_order();
    assert forall|a: ThreadKey| #[trigger] order(a, a) by {
        text::text_lt_irreflexive(a.3);
    }
    assert forall|a: ThreadKey, b: ThreadKey| #[trigger] order(a, b) && #[trigger] order(b, a) implies a == b by {
        text::text_lt_total(a.0, b.0);
        text::text_lt_total(a.1, b.1);
        text::text_lt_total(a.2, b.2);
        text::text_lt_total(a.3, b.3);
    }
    assert forall|a: ThreadKey, b: ThreadKey, c: ThreadKey| #[trigger] order(a, b) && #[trigger] order(b, c) implies order(
        a,
        c,
    ) by {
        key_le_transitive(a, b, c);
    }
    assert forall|a: ThreadKey, b: ThreadKey| #[trigger] order(a, b) || #[trigger] order(b, a) by {
        text::text_lt_total(a.0, b.0);
        text::text_lt_total(a.1, b.1);
        text::text_lt_total(a.2, b.2);
        text::text_lt_total(a.3, b.3);
    }
}

/// The order of thread keys is transitive.
proof fn key_le_transitive(a: ThreadKey, b: ThreadKey, c: ThreadKey)
    requires
        key_le(a, b),
        key_le(b, c),
    ensures
        key_le(a, c),
{
    if text::text_lt(a.0, b.0) && text::text_lt(b.0, c.0) {
        text::text_lt_transitive(a.0, b.0, c.0);
    }
    if text::text_lt(a.1, b.1) && text::text_lt(b.1, c.1) {
        text::text_lt_transitive(a.1, b.1, c.1);
    }
    if text::text_lt(a.2, b.2) && text::text_lt(b.2, c.2) {
        text::text_lt_transitive(a.2, b.2, c.2);
    }
    text::text_lt_total(a.0, c.0);
    text::text_lt_total(a.0, b.0);
    text::text_lt_total(b.0, c.0);
    text::text_lt_total(a.1, c.1);
    text::text_lt_total(a.1, b.1);
    text::text_lt_total(b.1, c.1);
    text::text_lt_total(a.2, c.2);
    text::text_lt_total(a.2, b.2);
    text::text_lt_total(b.2, c.2);
    text::text_lt_total(a.3, b.3);
    text::text_lt_total(b.3, c.3);
    text::text_lt_total(a.3, c.3);
    if text::text_lt(c.3, a.3) {
        if text::text_lt(a.3, b.3) {
            text::text_lt_transitive(c.3, a.3, b.3);
        }
        if text::text_lt(b.3, c.3) {
            text::text_lt_transitive(b.3, c.3, a.3);
        }
    }
}

/// Whether a thread key stands before or equals another.
fn not_after(a: &(String, String, String, String), b: &(String, String, String, String)) -> (r: bool)
    ensures
        r == key_le(a.deep_view(), b.deep_view()),
{
    if !text::same(&a.0, &b.0) {
        text::less(&a.0, &b.0)
    } else if !text::same(&a.1, &b.1) {
        text::less(&a.1, &b.1)
    } else if !text::same(&a.2, &b.2) {
        text::less(&a.2, &b.2)
    } else {
        !text::less(&b.3, &a.3)
    }
}

/// Puts a key into its place among keys in order.
fn insert_key(keys: &mut Vec<(String, String, String, String)>, key: (String, String, String, String))
    requires
        vstd::relations::sorted_by(old(keys).deep_view(), key_order()),
    ensures
        vstd::relations::sorted_by(final(keys).deep_view(), key_order()),
        final(keys).deep_view().to_multiset() == old(keys).deep_view().to_multiset().insert(key.deep_view()),
{
    proof {
        key_order_is_total();
    }
    let ghost before = keys.deep_view();
    let ghost new = key.deep_view();
    let ghost order = key_order();
    let mut i: usize = 0;
    while i < keys.len() && not_after(&keys[i], &key)
        invariant
            before == keys.deep_view(),
            new == key.deep_view(),
            i <= keys@.len(),
            forall|j: int| 0 <= j < i ==> key_le(#[trigger] before[j], new),
        decreases keys.len() - i,
    {
        assert(before[i as int] == keys@[i as int].deep_view());
        i += 1;
    }
    proof {
        if i < keys@.len() {
            assert(before[i as int] == keys@[i as int].deep_view());
            assert(order(before[i as int], new) || order(new, before[i as int]));
        }
    }
    keys.insert(i, key);
    assert(keys.deep_view() =~= before.insert(i as int, new));
    proof {
        let after = keys.deep_view();
        assert forall|a: int, b: int| 0 <= a < b < after.len() implies #[trigger] order(after[a], after[b]) by {
            if a < i && b < i {
                assert(order(before[a], before[b]));
            } else if a < i && b == i {
                assert(key_le(before[a], new));
            } else if a < i {
                assert(order(before[a], before[b - 1]));
            } else if a == i {
                assert(key_le(new, before[i as int]));
                if b - 1 > i {
                    assert(order(before[i as int], before[b - 1]));
                    key_le_transitive(new, before[i as int], before[b - 1]);
                }
            } else {
                assert(order(before[a - 1], before[b - 1]));
            }
        }
        vstd::seq_lib::to_multiset_insert(before, i as int, new);
    }
}

/// The identity of an update, from the evidence that it rests on.
pub fn fingerprint(snapshot: &Snapshot, agents: &Vec<AgentResult>, state: State) -> (r: String)
    ensures
        r@ == fingerprint_of(snapshot@, agents.deep_view(), state),
{
    let mut keys: Vec<(String, String, String, String)> = Vec::new();
    let ghost threads = snapshot.threads.deep_view();
    let mut i: usize = 0;
    assert(keys.deep_view() =~= Seq::empty());
    while i < snapshot.threads.len()
        invariant
            threads == snapshot.threads.deep_view(),
            i <= snapshot.threads@.len(),
            vstd::relations::sorted_by(keys.deep_view(), key_order()),
            keys.deep_view().to_multiset() == open_threads(threads.take(i as int)).to_multiset(),
        decreases snapshot.threads.len() - i,
    {
        let thread = &snapshot.threads[i];
        let ghost next = threads.take(i + 1);
        assert(next.drop_last() =~= threads.take(i as int));
        assert(next.last() == thread@);
        if !thread.resolved {
            let key = (
                thread.id.clone(),
                thread.last_comment_id.clone(),
                thread.updated_at.clone(),
                thread.body_hash.clone(),
            );
            assert(key.deep_view() == thread_key(thread@));
            proof {
                vstd::seq_lib::to_multiset_build(open_threads(threads.take(i as int)), thread_key(thread@));
            }
            insert_key(&mut keys, key);
        }
        i += 1;
    }
    assert(threads.take(i as int) =~= threads);
    proof {
        key_order_is_total();
        let wanted = open_threads(threads);
        wanted.lemma_sort_by_ensures(key_order());
        vstd::seq_lib::lemma_sorted_unique(keys.deep_view(), ordered_keys(wanted), key_order());
    }
    let mut runs: Vec<(String, String, String)> = Vec::new();
    let ghost results = agents.deep_view();
    let mut j: usize = 0;
    while j < agents.len()
        invariant
            results == agents.deep_view(),
            j <= agents@.len(),
            runs.deep_view() == results.take(j as int).map_values(|a: AgentResultView| run_key(a)),
        decreases agents.len() - j,
    {
        let agent = &agents[j];
        let ghost done = runs.deep_view();
        let run = (agent.agent.name().to_owned(), agent.verdict.name().to_owned(), agent.run_id.clone());
        assert(run.deep_view() == run_key(results[j as int]));
        runs.push(run);
        assert(runs.deep_view() =~= done.push(run_key(results[j as int])));
        assert(runs.deep_view() =~= results.take(j + 1).map_values(|a: AgentResultView| run_key(a)));
        j += 1;
    }
    assert(results.take(j as int) =~= results);
    hash(&write_fingerprint(&snapshot.head, state.name(), &runs, &keys))
}

/// The identity of an update rests on the commit, the state, the agents' runs and
/// the open threads, in any order, and on nothing else: a new title does not change it.
pub proof fn fingerprint_rests_on_evidence(
    a: SnapshotView,
    b: SnapshotView,
    agents: Seq<AgentResultView>,
    other: Seq<AgentResultView>,
    state: State,
)
    requires
        a.head == b.head,
        open_threads(a.threads).to_multiset() == open_threads(b.threads).to_multiset(),
        agents.map_values(|r: AgentResultView| run_key(r)) == other.map_values(|r: AgentResultView| run_key(r)),
    ensures
        fingerprint_of(a, agents, state) == fingerprint_of(b, other, state),
{
    key_order_is_total();
    let left = open_threads(a.threads);
    let right = open_threads(b.threads);
    left.lemma_sort_by_ensures(key_order());
    right.lemma_sort_by_ensures(key_order());
    vstd::seq_lib::lemma_sorted_unique(ordered_keys(left), ordered_keys(right), key_order());
}

/// To put the open threads in order neither adds nor loses one.
pub proof fn threads_keep_their_keys(threads: Seq<ThreadView>)
    ensures
        ordered_keys(open_threads(threads)).to_multiset() == open_threads(threads).to_multiset(),
{
    key_order_is_total();
    open_threads(threads).lemma_sort_by_ensures(key_order());
}

} // verus!
