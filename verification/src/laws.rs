//! What holds of the parts that everything else rests on.

use crate::config::ConfigView;
use crate::evidence;
use crate::hotkeys;
use crate::hotkeys::{HotkeyAction, NavigationView, PreferencesView};
use crate::installer;
use crate::installer::{Plan, Stage, Version};
use crate::json::JsonView;
use crate::lifecycle;
use crate::logging;
use crate::model::{Agent, AgentResultView, CheckState, PullRequestView, SnapshotView, State, ThreadView, Verdict};
use crate::store;
use crate::store::{ChangeView, TablesView};
use crate::text;
use crate::text_map;
use crate::worker::monitor;
use vstd::prelude::*;

verus! {

broadcast use vstd::seq_lib::group_seq_properties;

// ---------------------------------------------------------------- texts

/// Of two texts that start alike, the one comes first that ends there, or whose next character
/// does.
pub proof fn the_first_difference_decides(a: Seq<char>, b: Seq<char>, i: int)
    requires
        0 <= i <= a.len(),
        i <= b.len(),
        a.take(i) == b.take(i),
    ensures
        i == a.len() && i < b.len() ==> text::text_lt(a, b) && !text::text_lt(b, a),
        i < a.len() && i < b.len() && a[i] < b[i] ==> text::text_lt(a, b) && !text::text_lt(b, a),
    decreases i,
{
    if i > 0 {
        assert(a[0] == a.take(i)[0] && b[0] == b.take(i)[0]);
        let x = a.drop_first();
        let y = b.drop_first();
        assert(x.take(i - 1) =~= y.take(i - 1)) by {
            assert forall|k: int| 0 <= k < i - 1 implies #[trigger] x.take(i - 1)[k] == y.take(i - 1)[k] by {
                assert(a.take(i)[k + 1] == a[k + 1]);
                assert(b.take(i)[k + 1] == b[k + 1]);
                assert(x[k] == a[k + 1] && y[k] == b[k + 1]);
            }
        }
        the_first_difference_decides(x, y, i - 1);
    }
}

/// The decimal digits of a number write that number, and nothing else is before them.
pub proof fn digits_write_their_number(n: u64)
    ensures
        text::number_of(text::decimal_of(n as nat)) == Some(n),
        n > 0 ==> text::decimal_of(n as nat)[0] != '0',
        n == 0 ==> text::decimal_of(n as nat) == seq!['0'],
{
    digits_have_value(n as nat);
}

/// The value of the digits of a number.
proof fn digits_have_value(n: nat)
    ensures
        text::decimal_of(n).len() > 0,
        text::all_digits(text::decimal_of(n)),
        text::digits_value(text::decimal_of(n)) == n,
        n > 0 ==> text::decimal_of(n)[0] != '0',
        text::decimal_of(n)[0] != '+',
    decreases n,
{
    let d = text::decimal_of(n);
    if n < 10 {
        assert(d.drop_last() =~= Seq::empty());
        assert(d.last() as nat == '0' as nat + n);
        assert(text::digits_value(d.drop_last()) == 0);
    } else {
        digits_have_value(n / 10);
        let before = text::decimal_of(n / 10);
        assert(d.drop_last() =~= before);
        assert(d.last() as nat == '0' as nat + n % 10);
        assert forall|k: int| 0 <= k < d.len() implies text::digit(#[trigger] d[k]) by {
            if k < before.len() {
                assert(d[k] == before[k]);
            }
        }
        assert(d[0] == before[0]);
        assert(10 * (n / 10) + n % 10 == n);
    }
}

/// What is trimmed off a text is white space at its ends, and all of that.
pub proof fn trimming_takes_white_space(t: Seq<char>)
    ensures
        ({
            let r = text::trimmed(t);
            &&& r.len() > 0 ==> !text::is_space(r[0]) && !text::is_space(r.last())
            &&& exists|i: int|
                0 <= i && i + r.len() <= t.len() && #[trigger] t.subrange(i, i + r.len()) == r && (forall|k: int|
                    0 <= k < i ==> text::is_space(#[trigger] t[k])) && forall|k: int|
                    i + r.len() <= k < t.len() ==> text::is_space(#[trigger] t[k])
        }),
{
    let s = text::trimmed_start(t);
    starts_are_trimmed(t);
    ends_are_trimmed(s);
    let r = text::trimmed(t);
    let i = t.len() - s.len();
    assert(t.subrange(i, i + r.len()) =~= r) by {
        assert(t.skip(i) == s);
        assert forall|k: int| 0 <= k < r.len() implies #[trigger] t.subrange(i, i + r.len())[k] == r[k] by {
            assert(t.skip(i)[k] == s[k]);
            assert(s.take(r.len() as int)[k] == r[k]);
        }
    }
    assert forall|k: int| i + r.len() <= k < t.len() implies text::is_space(#[trigger] t[k]) by {
        assert(t.skip(i)[k - i] == t[k]);
    }
    if r.len() > 0 {
        assert(r[0] == s.take(r.len() as int)[0]);
        assert(s[0] == r[0]);
    }
}

/// What is trimmed off the start.
proof fn starts_are_trimmed(t: Seq<char>)
    ensures
        ({
            let s = text::trimmed_start(t);
            &&& s.len() <= t.len()
            &&& t.skip(t.len() - s.len()) == s
            &&& s.len() > 0 ==> !text::is_space(s[0])
            &&& forall|k: int| 0 <= k < t.len() - s.len() ==> text::is_space(#[trigger] t[k])
        }),
    decreases t.len(),
{
    if t.len() > 0 && text::is_space(t[0]) {
        let rest = t.drop_first();
        starts_are_trimmed(rest);
        let s = text::trimmed_start(t);
        assert(t.skip(t.len() - s.len()) =~= rest.skip(rest.len() - s.len()));
        assert forall|k: int| 0 <= k < t.len() - s.len() implies text::is_space(#[trigger] t[k]) by {
            if k > 0 {
                assert(rest[k - 1] == t[k]);
            }
        }
    } else {
        assert(t.skip(0) =~= t);
    }
}

/// What is trimmed off the end.
proof fn ends_are_trimmed(t: Seq<char>)
    ensures
        ({
            let s = text::trimmed_end(t);
            &&& s.len() <= t.len()
            &&& t.take(s.len() as int) == s
            &&& s.len() > 0 ==> !text::is_space(s.last())
            &&& forall|k: int| s.len() <= k < t.len() ==> text::is_space(#[trigger] t[k])
        }),
    decreases t.len(),
{
    if t.len() > 0 && text::is_space(t.last()) {
        let rest = t.drop_last();
        ends_are_trimmed(rest);
        let s = text::trimmed_end(t);
        assert(t.take(s.len() as int) =~= rest.take(s.len() as int));
        assert forall|k: int| s.len() <= k < t.len() implies text::is_space(#[trigger] t[k]) by {
            if k < rest.len() {
                assert(rest[k] == t[k]);
            }
        }
    } else {
        assert(t.take(t.len() as int) =~= t);
    }
}

/// The parts between separators, put together with these, are the text again, and no part has
/// one.
pub proof fn parts_make_the_text(t: Seq<char>, separator: char, k: int)
    ensures
        text::joined(text::split_on(t, separator), seq![separator]) == t,
        0 <= k < text::split_on(t, separator).len() ==> !text::split_on(t, separator)[k].contains(separator),
    decreases t.len(),
{
    text::split_on_not_empty(t, separator);
    let parts = text::split_on(t, separator);
    let sep = seq![separator];
    if t.len() == 0 {
        assert(text::joined(parts, sep) =~= t);
    } else {
        let rest = t.drop_last();
        let before = text::split_on(rest, separator);
        text::split_on_not_empty(rest, separator);
        parts_make_the_text(rest, separator, k);
        if t.last() == separator {
            assert(parts.drop_last() =~= before);
            assert(text::joined(parts, sep) =~= text::joined(before, sep) + sep + Seq::<char>::empty());
            assert(text::joined(parts, sep) =~= t);
        } else {
            let last = before.last().push(t.last());
            assert(parts.last() == last);
            if 0 <= k < parts.len() {
                if k == parts.len() - 1 {
                    parts_make_the_text(rest, separator, before.len() - 1);
                    if last.contains(separator) {
                        let j = choose|j: int| 0 <= j < last.len() && last[j] == separator;
                        assert(before.last()[j] == separator);
                        assert(before[before.len() - 1].contains(separator));
                    }
                } else {
                    assert(parts[k] == before[k]);
                }
            }
            if parts.len() == 1 {
                assert(text::joined(before, sep) == before[0]);
                assert(text::joined(parts, sep) == parts[0]);
                assert(parts[0] =~= t);
            } else {
                assert(parts.drop_last() =~= before.drop_last());
                assert(text::joined(parts, sep) =~= text::joined(before, sep).push(t.last()));
                assert(text::joined(parts, sep) =~= t);
            }
        }
    }
}

// ---------------------------------------------------------------- evidence

/// The identity of an update is the digest of its evidence: the commit, the state by its name, of
/// each agent its name, its verdict and its run, and of each open thread what was last said in it;
/// the threads in one order, however they came.
pub proof fn updates_are_told_by_their_evidence(s: SnapshotView, agents: Seq<AgentResultView>, state: State)
    ensures
        exists|runs: Seq<evidence::RunKey>, threads: Seq<evidence::ThreadKey>|
            {
                &&& evidence::fingerprint_of(s, agents, state) == evidence::hash_of(
                    #[trigger] evidence::fingerprint_json(s.head, state_name(state), runs, threads),
                )
                &&& runs.len() == agents.len()
                &&& forall|k: int| 0 <= k < runs.len() ==> is_run_of(#[trigger] runs[k], agents[k])
                &&& threads.to_multiset() == evidence::open_threads(s.threads).to_multiset()
            },
{
    let runs = agents.map_values(|a: AgentResultView| evidence::run_key(a));
    let threads = evidence::ordered_keys(evidence::open_threads(s.threads));
    evidence::threads_keep_their_keys(s.threads);
    assert forall|k: int| 0 <= k < runs.len() implies is_run_of(#[trigger] runs[k], agents[k]) by {}
    assert(state_name(state) == state.key());
    assert(evidence::fingerprint_of(s, agents, state) == evidence::hash_of(
        evidence::fingerprint_json(s.head, state_name(state), runs, threads),
    ));
}

/// The name of a state.
pub open spec fn state_name(state: State) -> Seq<char> {
    match state {
        State::Unknown => "unknown"@,
        State::Reviewing => "reviewing"@,
        State::Comments => "comments"@,
        State::Approved => "approved"@,
    }
}

/// Whether a key is that of a result.
pub open spec fn is_run_of(key: evidence::RunKey, result: AgentResultView) -> bool {
    &&& key.0 == (match result.agent {
        Agent::Codex => "codex"@,
        Agent::Cubic => "cubic"@,
        Agent::CodeRabbit => "coderabbit"@,
    })
    &&& key.1 == (match result.verdict {
        Verdict::Unknown => "unknown"@,
        Verdict::Running => "running"@,
        Verdict::Clean => "clean"@,
        Verdict::Findings => "findings"@,
        Verdict::Skipped => "skipped"@,
    })
    &&& key.2 == result.run_id
}

/// Every thread that is not resolved is evidence, by what was last said in it, and no other is.
pub proof fn open_threads_are_evidence(threads: Seq<ThreadView>, i: int, key: evidence::ThreadKey)
    ensures
        0 <= i < threads.len() && !threads[i].resolved ==> evidence::open_threads(threads).contains(
            (threads[i].id, threads[i].last_comment_id, threads[i].updated_at, threads[i].body_hash),
        ),
        evidence::open_threads(threads).contains(key) ==> exists|j: int|
            0 <= j < threads.len() && !(#[trigger] threads[j]).resolved && key == (
                threads[j].id,
                threads[j].last_comment_id,
                threads[j].updated_at,
                threads[j].body_hash,
            ),
    decreases threads.len(),
{
    let open = evidence::open_threads(threads);
    if threads.len() > 0 {
        let rest = threads.drop_last();
        let before = evidence::open_threads(rest);
        open_threads_are_evidence(rest, i, key);
        if 0 <= i < rest.len() && !threads[i].resolved {
            assert(rest[i] == threads[i]);
            let t = (threads[i].id, threads[i].last_comment_id, threads[i].updated_at, threads[i].body_hash);
            let k = choose|k: int| 0 <= k < before.len() && before[k] == t;
            assert(open[k] == t);
        } else if i == rest.len() && !threads[i].resolved {
            assert(open[open.len() - 1] == (
                threads[i].id,
                threads[i].last_comment_id,
                threads[i].updated_at,
                threads[i].body_hash,
            ));
        }
        if open.contains(key) {
            if before.contains(key) {
                let j = choose|j: int|
                    0 <= j < rest.len() && !(#[trigger] rest[j]).resolved && key == (
                        rest[j].id,
                        rest[j].last_comment_id,
                        rest[j].updated_at,
                        rest[j].body_hash,
                    );
                assert(threads[j] == rest[j]);
            } else {
                let k = choose|k: int| 0 <= k < open.len() && open[k] == key;
                if k < before.len() {
                    assert(before[k] == key);
                }
                assert(threads[threads.len() - 1] == threads.last());
            }
        }
    }
}

// ---------------------------------------------------------------- settings

/// Settings are sound exactly where a poll comes after five seconds at least, a discovery not more
/// often than a poll, a request has one to 120 seconds, evidence settles within ten minutes, and
/// the level of the log is a known one.
pub proof fn sound_settings(c: ConfigView, known: bool)
    ensures
        c.fault(known) is None <==> {
            &&& c.poll_seconds >= 5
            &&& c.discovery_seconds >= c.poll_seconds
            &&& 1 <= c.request_timeout_seconds <= 120
            &&& c.settle_seconds <= 600
            &&& known
        },
{
}

/// Where nothing is set: a poll each half minute, a discovery each two minutes, 20 seconds for a
/// request, half a minute to settle, and notifications.
pub proof fn settings_where_nothing_is_set()
    ensures
        ConfigView::initial().poll_seconds == 30,
        ConfigView::initial().discovery_seconds == 120,
        ConfigView::initial().request_timeout_seconds == 20,
        ConfigView::initial().settle_seconds == 30,
        ConfigView::initial().notifications,
        ConfigView::initial().gh_path is None,
        ConfigView::initial().log_level == "info"@,
        forall|repo: Seq<char>| !#[trigger] ConfigView::initial().ignores(repo),
        forall|repo: Seq<char>| #[trigger] ConfigView::initial().expected_in(repo) is None,
{
}

/// What is set for a repository holds for that repository, and for no other.
pub proof fn repositories_have_their_settings(c: ConfigView, repo: Seq<char>)
    ensures
        c.ignores(repo) <==> c.repositories.contains_key(repo) && c.repositories[repo].ignore,
        c.repositories.contains_key(repo) ==> c.expected_in(repo) == c.repositories[repo].reviewers,
        !c.repositories.contains_key(repo) ==> c.expected_in(repo) is None,
{
}

// ---------------------------------------------------------------- what is kept

/// What is ignored keeps what was known of it aside, until it is ignored no longer.
pub proof fn ignored_prs_are_kept_aside(tables: TablesView, id: Seq<char>)
    ensures
        tables.prs.contains_key(id) ==> tables.with_ignored(id).details.contains_key(id) && tables.with_ignored(id).details[id]
            == tables.prs[id],
        tables.with_ignored(id).ignored.contains_key(id),
        !tables.with_ignored(id).prs.contains_key(id),
        !tables.with_restored(id).ignored.contains_key(id),
        !tables.with_restored(id).details.contains_key(id),
        tables.with_restored(id).prs == tables.prs,
{
}

/// Of the ignored pull requests those are shown that are not known to be closed, none of them as
/// current.
pub proof fn closed_ignored_prs_are_not_shown(ids: Seq<Seq<char>>, details: Map<Seq<char>, PullRequestView>, i: int)
    requires
        0 <= i < ids.len(),
        details.contains_key(ids[i]),
        details[ids[i]].snapshot.number != 0,
        forall|j: int| 0 <= j < ids.len() && j != i ==> #[trigger] ids[j] != ids[i],
    ensures
        details[ids[i]].snapshot.open ==> store::shown_ignored(ids, details).contains(
            PullRequestView { stale: true, ..details[ids[i]] },
        ),
        forall|k: int|
            0 <= k < store::shown_ignored(ids, details).len() ==> {
                let pr = #[trigger] store::shown_ignored(ids, details)[k];
                pr.stale && (pr.snapshot.open || pr.snapshot.number == 0)
            },
    decreases ids.len(),
{
    shown_are_open(ids, details);
    if details[ids[i]].snapshot.open {
        open_are_shown(ids, details, i);
    }
}

/// What is shown is not closed.
proof fn shown_are_open(ids: Seq<Seq<char>>, details: Map<Seq<char>, PullRequestView>)
    ensures
        forall|k: int|
            0 <= k < store::shown_ignored(ids, details).len() ==> {
                let pr = #[trigger] store::shown_ignored(ids, details)[k];
                pr.stale && (pr.snapshot.open || pr.snapshot.number == 0)
            },
    decreases ids.len(),
{
    if ids.len() > 0 {
        shown_are_open(ids.drop_last(), details);
        let before = store::shown_ignored(ids.drop_last(), details);
        let all = store::shown_ignored(ids, details);
        assert forall|k: int| 0 <= k < all.len() implies ({
            let pr = #[trigger] all[k];
            pr.stale && (pr.snapshot.open || pr.snapshot.number == 0)
        }) by {
            if k < before.len() {
                assert(all[k] == before[k]);
            }
        }
    }
}

/// What is open is shown.
proof fn open_are_shown(ids: Seq<Seq<char>>, details: Map<Seq<char>, PullRequestView>, i: int)
    requires
        0 <= i < ids.len(),
        details.contains_key(ids[i]),
        details[ids[i]].snapshot.open,
    ensures
        store::shown_ignored(ids, details).contains(PullRequestView { stale: true, ..details[ids[i]] }),
    decreases ids.len(),
{
    let all = store::shown_ignored(ids, details);
    let wanted = PullRequestView { stale: true, ..details[ids[i]] };
    if i < ids.len() - 1 {
        let rest = ids.drop_last();
        assert(rest[i] == ids[i]);
        open_are_shown(rest, details, i);
        let before = store::shown_ignored(rest, details);
        let k = choose|k: int| 0 <= k < before.len() && before[k] == wanted;
        assert(all[k] == wanted);
    } else {
        assert(all[all.len() - 1] == wanted);
    }
}

/// A lookup of an ignored pull request brings its identity and its lifecycle up to date, and
/// leaves its evidence as it was, never as current.
pub proof fn lookups_update_the_lifecycle(known: PullRequestView, s: SnapshotView)
    ensures
        ({
            let pr = store::with_status(Some(known), s);
            &&& pr.snapshot.open == s.open
            &&& pr.snapshot.draft == s.draft
            &&& pr.snapshot.title == s.title
            &&& pr.snapshot.number == s.number
            &&& pr.snapshot.repo == s.repo
            &&& pr.snapshot.url == s.url
            &&& pr.snapshot.head == known.snapshot.head
            &&& pr.snapshot.reviews == known.snapshot.reviews
            &&& pr.agents == known.agents
            &&& pr.state == known.state
            &&& pr.acknowledged == known.acknowledged
            &&& pr.stale
        }),
        store::with_status(None, s).snapshot.open == s.open,
        store::with_status(None, s).stale,
        store::with_status(None, s).state == State::Unknown,
{
}

/// Only the newest notifications stay, in their order, ten thousand at most.
pub proof fn the_newest_notifications_stay(notices: Seq<store::NoticeView>)
    ensures
        store::newest(notices).len() <= 10_000,
        store::newest(notices).is_suffix_of(notices),
        notices.len() <= 10_000 ==> store::newest(notices) == notices,
        notices.len() > 10_000 ==> store::newest(notices).len() == 10_000,
{
    let kept = store::newest(notices);
    assert(notices.subrange(notices.len() - kept.len(), notices.len() as int) =~= kept);
}

/// After a start every pull request that was kept and is not ignored is known again, as it was,
/// but not as current.
pub proof fn kept_prs_are_taken_up(tables: TablesView, dev: bool, config: ConfigView, interval: u64, clock: u64, id: Seq<char>)
    requires
        tables.prs.dom().finite(),
        tables.prs.contains_key(id),
        !tables.ignored.contains_key(id),
        forall|k: Seq<char>| #[trigger] tables.prs.contains_key(k) ==> tables.prs[k].snapshot.id == k,
    ensures
        ({
            let m = monitor::MonitorView::taking_up(dev, config, tables, interval, clock);
            &&& m.prs.contains_key(id)
            &&& m.prs[id] == PullRequestView { stale: true, ..tables.prs[id] }
            &&& !m.prs[id].wants_attention()
            &&& m.viewer == tables.viewer
            &&& m.discovered_at is None
            &&& m.deadline == clock
            &&& !m.polling
        }),
{
    let keys = text_map::sorted_keys(tables.prs.dom());
    text_map::sorted_keys_exist(tables.prs.dom());
    let list = text_map::values_in_order(tables.prs).map_values(|pr: PullRequestView| store::as_stale(pr));
    assert(keys.to_set().contains(id));
    let k = choose|k: int| 0 <= k < keys.len() && keys[k] == id;
    assert(list[k] == store::as_stale(tables.prs[id]));
    assert forall|j: int| 0 <= j < list.len() && j != k implies (#[trigger] list[j]).snapshot.id != id by {
        assert(keys.to_set().contains(keys[j]));
        assert(tables.prs.contains_key(keys[j]));
        if keys[j] == id {
            text_map::strictly_sorted_unique(keys, j, k);
        }
    }
    identities_are_found(list, tables.ignored, k);
}

/// The only pull request of an identity is found by it.
proof fn identities_are_found(prs: Seq<PullRequestView>, ignored: Map<Seq<char>, ()>, k: int)
    requires
        0 <= k < prs.len(),
        !ignored.contains_key(prs[k].snapshot.id),
        forall|j: int| 0 <= j < prs.len() && j != k ==> (#[trigger] prs[j]).snapshot.id != prs[k].snapshot.id,
    ensures
        monitor::by_identity(prs, ignored).contains_key(prs[k].snapshot.id),
        monitor::by_identity(prs, ignored)[prs[k].snapshot.id] == prs[k],
    decreases prs.len(),
{
    if k < prs.len() - 1 {
        let rest = prs.drop_last();
        assert forall|j: int| 0 <= j < rest.len() && j != k implies (#[trigger] rest[j]).snapshot.id
            != rest[k].snapshot.id by {
            assert(rest[j] == prs[j]);
        }
        assert(rest[k] == prs[k]);
        identities_are_found(rest, ignored, k);
        assert(prs[prs.len() - 1].snapshot.id != prs[k].snapshot.id);
    }
}

// ---------------------------------------------------------------- shortcuts

/// The shortcut of an action is the one that the user chose, or none where the user took it away,
/// and its own one where the user chose nothing.
pub proof fn choices_come_first(chosen: PreferencesView, action: HotkeyAction)
    requires
        chosen.len() == 8,
    ensures
        ({
            let place = match action {
                HotkeyAction::OpenGopher => 0int,
                HotkeyAction::Next => 1,
                HotkeyAction::Previous => 2,
                HotkeyAction::Acknowledge => 3,
                HotkeyAction::OpenPr => 4,
                HotkeyAction::Details => 5,
                HotkeyAction::Actions => 6,
                HotkeyAction::Refresh => 7,
            };
            &&& chosen[place] is Some ==> hotkeys::binding_of(chosen, action) == chosen[place]->0
            &&& chosen[place] is None ==> hotkeys::binding_of(chosen, action) == action.initial()
        }),
        HotkeyAction::OpenGopher.initial() is None,
        HotkeyAction::Next.initial()->0.key == 38,
        HotkeyAction::Previous.initial()->0.key == 40,
        HotkeyAction::Acknowledge.initial()->0.key == 49,
        HotkeyAction::OpenPr.initial()->0.key == 31,
        HotkeyAction::Details.initial()->0.key == 2,
        HotkeyAction::Actions.initial()->0.key == 0,
        HotkeyAction::Refresh.initial()->0.key == 15,
        action != HotkeyAction::OpenGopher ==> action.initial() is Some && action.initial()->0.modifiers == 0,
{
}

/// Shortcuts without a fault use keys that have names, and the four modifiers alone; none is that
/// of the settings, and the one for the whole system holds back ordinary typing.
pub proof fn sound_shortcuts_are_possible(chosen: PreferencesView, dev: bool, i: int)
    requires
        hotkeys::fault_of(chosen, dev) is None,
        0 <= i < 8,
        hotkeys::binding_of(chosen, hotkeys::all_actions()[i]) is Some,
    ensures
        ({
            let binding = hotkeys::binding_of(chosen, hotkeys::all_actions()[i])->0;
            &&& hotkeys::key_name(binding.key) is Some
            &&& binding.modifiers & !15u8 == 0
            &&& !(binding.key == 43 && binding.modifiers == 1)
            &&& binding.label.len() > 0
            &&& i == 0 ==> binding.modifiers & 7u8 != 0
        }),
{
    no_place_has_a_fault(chosen, 8, dev, i);
    assert(1u8 | 2u8 | 4u8 == 7u8) by (bit_vector);
}

/// Without a fault no place has one.
proof fn no_place_has_a_fault(chosen: PreferencesView, count: nat, dev: bool, i: int)
    requires
        hotkeys::fault_up_to(chosen, count, dev) is None,
        0 <= i < count,
    ensures
        hotkeys::place_fault(chosen, i, dev) is None,
    decreases count,
{
    if i < count - 1 {
        no_place_has_a_fault(chosen, (count - 1) as nat, dev, i);
    }
}

/// The selection moves on to the next item, and back to the one before; beyond the ends nothing is
/// selected, and from nothing it moves to the nearer end.
pub proof fn selections_move_by_one(nav: NavigationView, i: int)
    requires
        nav.order.no_duplicates(),
    ensures
        nav.selected is None && nav.order.len() > 0 ==> nav.stepped(true).selected == Some(nav.order[0]) && nav.stepped(
            false,
        ).selected == Some(nav.order.last()),
        nav.order.len() == 0 ==> nav.stepped(true).selected is None && nav.stepped(false).selected is None,
        0 <= i < nav.order.len() && nav.selected == Some(nav.order[i]) ==> {
            &&& i + 1 < nav.order.len() ==> nav.stepped(true).selected == Some(nav.order[i + 1])
            &&& i + 1 == nav.order.len() ==> nav.stepped(true).selected is None
            &&& i > 0 ==> nav.stepped(false).selected == Some(nav.order[i - 1])
            &&& i == 0 ==> nav.stepped(false).selected is None
        },
        nav.stepped(true).order == nav.order,
{
    if 0 <= i < nav.order.len() && nav.selected == Some(nav.order[i]) {
        places_are_found(nav.order, i);
    }
    if nav.order.len() == 0 && nav.selected is Some {
        assert(hotkeys::position(nav.order, nav.selected->0) is None);
    }
}

/// An item that is listed once is found at its place.
proof fn places_are_found(order: Seq<Seq<char>>, i: int)
    requires
        0 <= i < order.len(),
        order.no_duplicates(),
    ensures
        hotkeys::position(order, order[i]) == Some(i),
    decreases order.len(),
{
    if i > 0 {
        let rest = order.drop_first();
        assert(rest[i - 1] == order[i]);
        assert(order[0] != order[i]);
        places_are_found(rest, i - 1);
    }
}

// ---------------------------------------------------------------- the log

/// Of the lines of a log the last ones stay, in their order.
pub proof fn the_last_lines_stay(lines: Seq<Seq<u8>>, count: nat)
    ensures
        logging::last_lines(lines, count).is_suffix_of(lines),
        logging::last_lines(lines, count).len() == (if lines.len() < count {
            lines.len()
        } else {
            count
        }),
        logging::MAX_LINES == 10_000,
        logging::KEPT_LINES == 9_000,
        logging::MAX_BYTES == 16_384,
{
    let kept = logging::last_lines(lines, count);
    assert(lines.subrange(lines.len() - kept.len(), lines.len() as int) =~= kept);
}

/// A line of a log is kept where it is a document and no longer than 16 KiB, and ends with its end.
pub proof fn lines_are_documents(line: Seq<u8>)
    ensures
        logging::is_record(line) <==> line.len() <= 16_384 && crate::json::json_document(line) is Some,
        logging::ended(line).len() > 0,
        logging::ended(line).last() == 10,
        line.len() > 0 && line.last() == 10 ==> logging::ended(line) == line,
        !(line.len() > 0 && line.last() == 10) ==> logging::ended(line) == line.push(10),
{
}

// ---------------------------------------------------------------- installing

/// Whether a text has digits alone, and no needless zeros.
pub open spec fn is_plain(part: Seq<char>) -> bool {
    &&& part.len() > 0
    &&& forall|i: int| 0 <= i < part.len() ==> '0' <= #[trigger] part[i] <= '9'
    &&& part.len() == 1 || part[0] != '0'
}

/// Parts of versions have digits alone.
proof fn plain_parts_are_told(part: Seq<char>)
    ensures
        installer::plain_number(part) == is_plain(part),
{
    if is_plain(part) {
        assert forall|i: int| 0 <= i < part.len() implies text::digit(#[trigger] part[i]) by {}
    }
    if installer::plain_number(part) {
        assert forall|i: int| 0 <= i < part.len() implies '0' <= #[trigger] part[i] <= '9' by {
            assert(text::digit(part[i]));
        }
    }
}

/// A version has three numbers between two dots, each without needless zeros and small enough.
pub proof fn versions_have_three_numbers(value: Seq<char>)
    ensures
        ({
            let parts = text::split_on(value, '.');
            let read = installer::version_of(value);
            &&& parts.len() != 3 ==> read is Err
            &&& parts.len() == 3 && (!is_plain(parts[0]) || !is_plain(parts[1]) || !is_plain(parts[2])) ==> read == Err::<
                Version,
                Seq<char>,
            >("Unsupported installed version: "@ + value)
            &&& read is Ok ==> {
                &&& text::number_of(parts[0]) == Some(read->Ok_0.major as u64)
                &&& text::number_of(parts[1]) == Some(read->Ok_0.minor as u64)
                &&& text::number_of(parts[2]) == Some(read->Ok_0.patch as u64)
            }
            &&& parts.len() == 3 && is_plain(parts[0]) && is_plain(parts[1]) && is_plain(parts[2]) ==> (read is Ok <==> {
                &&& text::number_of(parts[0]) is Some && text::number_of(parts[0])->0 <= 4_294_967_295
                &&& text::number_of(parts[1]) is Some && text::number_of(parts[1])->0 <= 4_294_967_295
                &&& text::number_of(parts[2]) is Some && text::number_of(parts[2])->0 <= 4_294_967_295
            })
        }),
{
    let parts = text::split_on(value, '.');
    if parts.len() == 3 {
        plain_parts_are_told(parts[0]);
        plain_parts_are_told(parts[1]);
        plain_parts_are_told(parts[2]);
    }
}

/// Versions are ordered by their first number that differs.
pub proof fn versions_are_ordered(a: Version, b: Version)
    ensures
        installer::is_older(a, b) ==> !installer::is_older(b, a),
        a == b || installer::is_older(a, b) || installer::is_older(b, a),
        a.major < b.major ==> installer::is_older(a, b),
        a.major == b.major && a.minor < b.minor ==> installer::is_older(a, b),
        a.major == b.major && a.minor == b.minor && a.patch < b.patch ==> installer::is_older(a, b),
{
}

/// Something is installed where nothing is there or where it is older, nothing where it is the
/// same, and a newer one is never replaced.
pub proof fn only_older_versions_are_replaced(there: Seq<char>, own: Seq<char>)
    ensures
        installer::planned(None, own) == Ok::<Plan, Seq<char>>(Plan::Install),
        installer::version_of(there) is Ok && installer::version_of(own) is Ok ==> {
            let a = installer::version_of(there)->Ok_0;
            let b = installer::version_of(own)->Ok_0;
            let plan = installer::planned(Some(there), own);
            &&& installer::is_older(a, b) ==> plan == Ok::<Plan, Seq<char>>(Plan::Install)
            &&& a == b ==> plan == Ok::<Plan, Seq<char>>(Plan::AlreadyCurrent)
            &&& installer::is_older(b, a) ==> plan is Err
        },
        installer::version_of(there) is Err ==> installer::planned(Some(there), own) is Err,
{
}

/// A replacement that succeeds in each step ends with the new application in place; one that fails
/// never does, and puts the old one back where it can.
pub proof fn replacements_end(existed: bool)
    ensures
        installer::next_stage(Stage::Backup, existed, true) == Stage::Install,
        installer::next_stage(Stage::Install, existed, true) == Stage::Done,
        installer::next_stage(Stage::Backup, existed, false) == Stage::Failed,
        existed ==> installer::next_stage(Stage::Install, existed, false) == Stage::Rollback,
        !existed ==> installer::next_stage(Stage::Install, existed, false) == Stage::Failed,
        installer::next_stage(Stage::Rollback, existed, true) == Stage::Failed,
        installer::next_stage(Stage::Rollback, existed, false) == Stage::Stranded,
        installer::next_stage(Stage::Done, existed, true) == Stage::Done,
        installer::next_stage(Stage::Failed, existed, true) == Stage::Failed,
{
}

/// A process is the one that the record of a run names, where it can be one.
pub proof fn processes_are_named(session: JsonView)
    ensures
        installer::recorded_pid(session) is Some <==> session.at("pid"@).whole() is Some && 1 < session.at(
            "pid"@,
        ).whole()->0 <= u32::MAX,
        installer::recorded_pid(session) is Some ==> installer::recorded_pid(session)->0 == session.at("pid"@).whole()->0,
{
}

/// A text without white space at its ends is trimmed already.
proof fn trimmed_texts_stay(t: Seq<char>)
    requires
        t.len() > 0,
        !text::is_space(t[0]),
        !text::is_space(t.last()),
    ensures
        text::trimmed(t) == t,
{
}

/// The first white space stands behind what has none.
proof fn words_end_at_the_first_space(word: Seq<char>, rest: Seq<char>)
    requires
        forall|i: int| 0 <= i < word.len() ==> !text::is_space(#[trigger] word[i]),
    ensures
        installer::first_space(word + seq![' '] + rest) == Some(word.len() as int),
    decreases word.len(),
{
    let t = word + seq![' '] + rest;
    if word.len() == 0 {
        assert(t[0] == ' ');
    } else {
        let shorter = word.drop_first();
        assert forall|i: int| 0 <= i < shorter.len() implies !text::is_space(#[trigger] shorter[i]) by {
            assert(shorter[i] == word[i + 1]);
        }
        words_end_at_the_first_space(shorter, rest);
        assert(t.drop_first() =~= shorter + seq![' '] + rest);
        assert(t[0] == word[0]);
    }
}

/// A process is the application of a user exactly where it is the user's and runs what is
/// installed.
pub proof fn applications_are_told_by_user_and_path(owner: Seq<char>, path: Seq<char>, uid: Seq<char>, target: Seq<char>)
    requires
        owner.len() > 0,
        forall|i: int| 0 <= i < owner.len() ==> !text::is_space(#[trigger] owner[i]),
        path.len() > 0,
        !text::is_space(path[0]),
        !text::is_space(path.last()),
        target.len() > 0,
        target.last() != '/',
    ensures
        installer::is_application(owner + seq![' '] + path, uid, target) <==> owner == uid && path == target + "/"@
            + "Contents/MacOS/gopher"@,
{
    let line = owner + seq![' '] + path;
    assert(line[0] == owner[0]);
    assert(line.last() == path.last());
    trimmed_texts_stay(line);
    trimmed_texts_stay(path);
    words_end_at_the_first_space(owner, path);
    assert(line.take(owner.len() as int) =~= owner);
    assert(line.skip((owner.len() + 1) as int) =~= path);
}

// ---------------------------------------------------------------- runs

/// A run that was not completed is reported with its process, its start and its version, and so is
/// a record that cannot be read; a completed run is not.
pub proof fn unfinished_runs_are_reported(previous: lifecycle::Previous)
    ensures
        previous is Missing ==> lifecycle::finding(previous) is None,
        previous matches lifecycle::Previous::Found(marker) ==> {
            let found = lifecycle::finding(previous);
            &&& found is None <==> marker@.ended_at is Some
            &&& found is Some ==> {
                &&& found->0["event"@] == JsonView::Text("previous_session_unclean"@)
                &&& found->0["previous_started_at"@] == JsonView::Text(marker@.started_at)
                &&& found->0["previous_version"@] == JsonView::Text(marker@.version)
                &&& found->0["previous_pid"@] == JsonView::Number(Some(marker@.pid as u64), text::decimal_of(marker@.pid as nat))
            }
        },
        previous matches lifecycle::Previous::Invalid(error) ==> {
            let found = lifecycle::finding(previous);
            &&& found is Some
            &&& found->0["event"@] == JsonView::Text("session_marker_invalid"@)
            &&& found->0["error"@] == JsonView::Text(error@)
        },
{
    reveal_strlit("event");
    reveal_strlit("error");
    reveal_strlit("message");
    reveal_strlit("previous_pid");
    reveal_strlit("previous_started_at");
    reveal_strlit("previous_version");
    assert("event"@.len() == 5 && "event"@[1] == 'v' && "error"@.len() == 5 && "error"@[1] == 'r' && "message"@.len() == 7);
    assert("previous_pid"@.len() == 12 && "previous_started_at"@.len() == 19 && "previous_version"@.len() == 16);
}

/// An event of a run is told with the process and the start of the run; what else is told of it
/// stays.
pub proof fn events_name_their_run(
    marker: lifecycle::MarkerView,
    event: Seq<char>,
    values: Map<Seq<char>, JsonView>,
    name: Seq<char>,
)
    ensures
        ({
            let told = lifecycle::event_values(marker, event, values);
            &&& told.contains_key("event"@) && told["event"@] == JsonView::Text(event)
            &&& told.contains_key("pid"@) && told["pid"@] == JsonView::Number(
                Some(marker.pid as u64),
                text::decimal_of(marker.pid as nat),
            )
            &&& told.contains_key("session_started_at"@) && told["session_started_at"@] == JsonView::Text(marker.started_at)
            &&& name != "event"@ && name != "pid"@ && name != "session_started_at"@ ==> {
                &&& told.contains_key(name) == values.contains_key(name)
                &&& values.contains_key(name) ==> told[name] == values[name]
            }
        }),
{
    reveal_strlit("event");
    reveal_strlit("pid");
    reveal_strlit("session_started_at");
    assert("event"@.len() == 5 && "pid"@.len() == 3 && "session_started_at"@.len() == 18);
}

/// The first line ends behind the first end of a line; without one there is no line.
pub proof fn lines_end_at_their_ends(bytes: Seq<u8>)
    ensures
        logging::line_end(bytes) matches Some(end) ==> {
            &&& 0 < end <= bytes.len()
            &&& bytes[end - 1] == 10
            &&& forall|i: int| 0 <= i < end - 1 ==> #[trigger] bytes[i] != 10
        },
        logging::line_end(bytes) is None <==> forall|i: int| 0 <= i < bytes.len() ==> #[trigger] bytes[i] != 10,
    decreases bytes.len(),
{
    if bytes.len() > 0 && bytes[0] != 10 {
        let rest = bytes.drop_first();
        lines_end_at_their_ends(rest);
        assert forall|i: int| 0 < i < bytes.len() implies #[trigger] bytes[i] == rest[i - 1] by {}
        if let Some(end) = logging::line_end(rest) {
            assert(bytes[end] == rest[end - 1]);
        } else {
            assert forall|i: int| 0 <= i < bytes.len() implies #[trigger] bytes[i] != 10 by {
                if i > 0 {
                    assert(rest[i - 1] != 10);
                }
            }
        }
    }
}

// ---------------------------------------------------------------- what is kept

/// What is kept of one thing by a change is kept, and no change touches anything else.
pub proof fn changes_keep_what_they_name(tables: TablesView, pr: PullRequestView, id: Seq<char>, viewer: Seq<char>)
    requires
        id != pr.snapshot.id,
    ensures
        ({
            let saved = tables.after(ChangeView::SavePr(pr));
            let dropped = saved.after(ChangeView::DropPr(pr.snapshot.id));
            &&& saved.prs.contains_key(pr.snapshot.id) && saved.prs[pr.snapshot.id] == pr
            &&& saved.prs.contains_key(id) == tables.prs.contains_key(id)
            &&& tables.prs.contains_key(id) ==> saved.prs[id] == tables.prs[id] && dropped.prs[id] == tables.prs[id]
            &&& !dropped.prs.contains_key(pr.snapshot.id)
            &&& saved.notices == tables.notices && saved.ignored == tables.ignored && saved.viewer == tables.viewer
            &&& tables.after(ChangeView::SetViewer(viewer)).viewer == Some(viewer)
            &&& tables.after(ChangeView::SetViewer(viewer)).prs == tables.prs
            &&& tables.after(ChangeView::ClearPrs).prs == Map::<Seq<char>, PullRequestView>::empty()
            &&& tables.after(ChangeView::ClearPrs).ignored == tables.ignored
            &&& tables.after(ChangeView::ClearNotices).notices.len() == 0
            &&& tables.after(ChangeView::ClearNotices).prs == tables.prs
            &&& tables.after(ChangeView::Ignore(id)).ignored.contains_key(id)
            &&& tables.after(ChangeView::Ignore(id)).prs == tables.prs
            &&& !tables.after(ChangeView::Unignore(id)).ignored.contains_key(id)
        }),
{
}

// ---------------------------------------------------------------- diagnostics

/// A diagnostic that fits into 16 KiB is written whole, with the end of its line; one that does not
/// is marked as cut, or refused.
pub proof fn short_diagnostics_are_whole(timestamp: Seq<char>, level: Seq<char>, values: Map<Seq<char>, JsonView>)
    ensures
        ({
            let whole = logging::record_bytes(timestamp, level, values);
            let written = logging::diagnostic_of(timestamp, level, values);
            &&& whole.len() < 16_384 ==> written == Ok::<Seq<u8>, Seq<char>>(whole.push(10))
            &&& written matches Ok(line) ==> line.len() <= 16_384 && line.len() > 0 && line.last() == 10
            &&& written matches Err(message) ==> message == "Diagnostic metadata exceeds log size limit"@
        }),
{
    if logging::record_bytes(timestamp, level, values).len() >= 16_384 {
        refused_diagnostics_say_why(timestamp, level, values, 2048);
    }
    if logging::diagnostic_of(timestamp, level, values) is Ok {
        logging::diagnostics_fit(timestamp, level, values);
    }
}

/// What cannot be cut short enough is refused.
proof fn refused_diagnostics_say_why(
    timestamp: Seq<char>,
    level: Seq<char>,
    values: Map<Seq<char>, JsonView>,
    limit: nat,
)
    ensures
        logging::cut_record(timestamp, level, values, limit) matches Err(message) ==> message
            == "Diagnostic metadata exceeds log size limit"@,
    decreases limit,
{
    if limit > 0 {
        refused_diagnostics_say_why(timestamp, level, logging::cut_fields(values, limit), limit / 2);
    }
}

/// A text is cut as late as its bytes allow: with one letter more it would be too long.
pub proof fn cuts_are_as_long_as_they_can_be(t: Seq<char>, limit: nat)
    ensures
        ({
            let kept = logging::cut(t, limit);
            &&& kept.is_prefix_of(t)
            &&& vstd::utf8::encode_utf8(kept).len() <= limit
            &&& kept.len() < t.len() ==> vstd::utf8::encode_utf8(t.take((kept.len() + 1) as int)).len() > limit
        }),
    decreases t.len(),
{
    logging::cuts_are_starts(t, limit);
    reveal_with_fuel(vstd::utf8::encode_utf8, 2);
    let kept = logging::cut(t, limit);
    assert(t.subrange(0, kept.len() as int) =~= kept);
    if t.len() > 0 {
        vstd::utf8::char_is_scalar(t[0]);
        if logging::width(t[0]) <= limit {
            let rest = t.drop_first();
            let left = (limit - logging::width(t[0])) as nat;
            cuts_are_as_long_as_they_can_be(rest, left);
            let shorter = logging::cut(rest, left);
            assert(kept.len() == shorter.len() + 1);
            if kept.len() < t.len() {
                let more = t.take((kept.len() + 1) as int);
                assert(more.drop_first() =~= rest.take((shorter.len() + 1) as int));
                assert(more[0] == t[0]);
            }
        } else {
            let more = t.take(1);
            assert(kept.len() == 0);
            assert(more.drop_first() =~= Seq::empty());
            assert(more[0] == t[0]);
        }
    }
}

/// A record of a run has its level, its time and what it says.
pub proof fn records_have_level_and_time(timestamp: Seq<char>, level: Seq<char>, values: Map<Seq<char>, JsonView>)
    ensures
        logging::record_of(timestamp, level, values) == JsonView::Object(
            seq![
                (
                    "fields"@,
                    JsonView::Object(
                        text_map::sorted_keys(values.dom()).map_values(|name: Seq<char>| (name, values[name])),
                    ),
                ),
                ("level"@, JsonView::Text(level)),
                ("target"@, JsonView::Text("gopher::lifecycle"@)),
                ("timestamp"@, JsonView::Text(timestamp)),
            ],
        ),
{
}

/// A diagnostic is kept up to one byte more than a line may have.
pub proof fn kept_bytes_are_the_first_ones(kept: Seq<u8>, bytes: Seq<u8>)
    requires
        kept.len() <= 16_385,
    ensures
        logging::kept_part(kept, bytes).is_prefix_of(bytes),
        kept.len() + bytes.len() <= 16_385 ==> logging::kept_part(kept, bytes) == bytes,
        kept.len() + bytes.len() > 16_385 ==> kept.len() + logging::kept_part(kept, bytes).len() == 16_385,
{
    let part = logging::kept_part(kept, bytes);
    assert(bytes.subrange(0, part.len() as int) =~= part);
}

// ---------------------------------------------------------------- documents

/// The first member of a name is the one that is found; without one, and in what is no object,
/// there is nothing, and its text is empty.
pub proof fn members_are_found_by_name(members: Seq<(Seq<char>, JsonView)>, name: Seq<char>, i: int)
    ensures
        0 <= i < members.len() && members[i].0 == name && (forall|j: int| 0 <= j < i ==> (#[trigger] members[j]).0 != name)
            ==> JsonView::Object(members).find(name) == Some(members[i].1) && JsonView::Object(members).at(name) == members[i].1,
        (forall|j: int| 0 <= j < members.len() ==> (#[trigger] members[j]).0 != name) ==> JsonView::Object(members).find(name)
            is None && JsonView::Object(members).at(name) is Null && JsonView::Object(members).string(name)
            == Seq::<char>::empty(),
        JsonView::Null.find(name) is None,
        JsonView::Null.at(name) is Null,
    decreases members.len(),
{
    if members.len() > 0 {
        let rest = members.drop_first();
        members_are_found_by_name(rest, name, i - 1);
        if 0 < i < members.len() && (forall|j: int| 0 <= j < i ==> (#[trigger] members[j]).0 != name) {
            assert(members[0].0 != name);
            assert(rest[i - 1] == members[i]);
            assert forall|j: int| 0 <= j < i - 1 implies (#[trigger] rest[j]).0 != name by {
                assert(rest[j] == members[j + 1]);
            }
        }
        if forall|j: int| 0 <= j < members.len() ==> (#[trigger] members[j]).0 != name {
            assert(members[0].0 != name);
            assert forall|j: int| 0 <= j < rest.len() implies (#[trigger] rest[j]).0 != name by {
                assert(rest[j] == members[j + 1]);
            }
        }
    }
}

// ---------------------------------------------------------------- names

/// Agents, states, verdicts and the states of checks are shown by their names.
pub proof fn names_are_shown()
    ensures
        Agent::Codex.label_text() == "Codex"@,
        Agent::Cubic.label_text() == "Cubic"@,
        Agent::CodeRabbit.label_text() == "CodeRabbit"@,
        State::Unknown.label_text() == "Unknown"@,
        State::Reviewing.label_text() == "Reviewing"@,
        State::Comments.label_text() == "Comments"@,
        State::Approved.label_text() == "Approved"@,
        Verdict::Unknown.label_text() == "Unknown"@,
        Verdict::Running.label_text() == "Running"@,
        Verdict::Clean.label_text() == "Clean"@,
        Verdict::Findings.label_text() == "Findings"@,
        Verdict::Skipped.label_text() == "Skipped"@,
        CheckState::Running.label_text() == "Checks running..."@,
        CheckState::Failed.label_text() == "Checks failed"@,
        CheckState::Green.label_text() == "Checks green"@,
        CheckState::Conflicts.label_text() == "Merge conflicts"@,
{
}

/// Only comments and approvals ask something of the user, and only while they are current and were
/// not acknowledged.
pub proof fn attention_is_asked_for_by_conclusions(pr: PullRequestView)
    ensures
        pr.wants_attention() <==> !pr.stale && (pr.state == State::Comments || pr.state == State::Approved)
            && pr.acknowledged != Some(pr.update_id),
{
}

} // verus!
