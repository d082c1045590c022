//! Which pull requests a poll fetches, and which results of it count.

use crate::config::{Config, ConfigView};
use crate::github::discovery::{FinalHead, FinalHeadView};
use crate::github::{fields, PrRef, PrRefView};
use crate::model::{PrLabel, PrLabelView, Snapshot};
use crate::text;
use crate::text_map;
use crate::text_map::{Duplicate, TextMap};
use crate::worker::events::{results_view, PollResult};
use vstd::prelude::*;

verus! {

broadcast use vstd::seq_lib::group_seq_properties;

impl Duplicate for PrRef {
    fn duplicate(&self) -> (r: PrRef) {
        self.clone()
    }
}

/// Whether a poll discovers pull requests anew: because it is wanted, or because the account
/// is not the one that they were discovered for.
pub open spec fn discovers(discover: bool, known_viewer: Option<Seq<char>>, viewer: Seq<char>) -> bool {
    discover || known_viewer != Some(viewer)
}

/// Discovered pull requests by their identities.
pub open spec fn found_by_id(found: Seq<PrRefView>) -> Map<Seq<char>, PrRefView>
    decreases found.len(),
{
    if found.len() == 0 {
        Map::empty()
    } else {
        found_by_id(found.drop_last()).insert(found.last().id, found.last())
    }
}

/// Known pull requests are kept beside those that were discovered.
pub open spec fn with_known(found: Map<Seq<char>, PrRefView>, known: Seq<PrRefView>) -> Map<Seq<char>, PrRefView>
    decreases known.len(),
{
    if known.len() == 0 {
        found
    } else {
        let before = with_known(found, known.drop_last());
        if before.contains_key(known.last().id) {
            before
        } else {
            before.insert(known.last().id, known.last())
        }
    }
}

/// The pull requests that the user and the settings do not ignore.
pub open spec fn not_ignored(references: Seq<PrRefView>, ignored: Seq<Seq<char>>, config: ConfigView) -> Seq<PrRefView>
    decreases references.len(),
{
    if references.len() == 0 {
        Seq::empty()
    } else {
        let before = not_ignored(references.drop_last(), ignored, config);
        let last = references.last();
        if ignored.contains(last.id) || config.ignores(last.repo) {
            before
        } else {
            before.push(last)
        }
    }
}

/// The pull requests that a poll fetches. That a discovery does not find a pull request is no
/// evidence that it was closed: for the same account the known ones are still fetched, until
/// a snapshot of their own says so.
pub open spec fn selected(
    found: Option<Seq<PrRefView>>,
    known: Seq<PrRefView>,
    same_account: bool,
    ignored: Seq<Seq<char>>,
    config: ConfigView,
) -> Seq<PrRefView> {
    let references = match found {
        None => known,
        Some(found) => text_map::values_in_order(
            if same_account {
                with_known(found_by_id(found), known)
            } else {
                found_by_id(found)
            },
        ),
    };
    not_ignored(references, ignored, config)
}

/// Whether a poll discovers pull requests anew.
pub fn needs_discovery(discover: bool, known_viewer: Option<&str>, viewer: &str) -> (r: bool)
    ensures
        r == discovers(
            discover,
            match known_viewer {
                Some(known) => Some(known@),
                None => None,
            },
            viewer@,
        ),
{
    match known_viewer {
        Some(known) => discover || !text::same(known, viewer),
        None => true,
    }
}

/// Whether a list has a text.
fn lists(texts: &Vec<String>, wanted: &str) -> (r: bool)
    ensures
        r == texts.deep_view().contains(wanted@),
{
    let ghost v = texts.deep_view();
    let mut i: usize = 0;
    while i < texts.len()
        invariant
            v == texts.deep_view(),
            i <= texts@.len(),
            forall|k: int| 0 <= k < i ==> #[trigger] v[k] != wanted@,
        decreases texts.len() - i,
    {
        if text::same(&texts[i], wanted) {
            assert(v[i as int] == wanted@);
            return true;
        }
        i += 1;
    }
    false
}

/// The pull requests that the user and the settings do not ignore.
fn drop_ignored(references: &Vec<PrRef>, ignored: &Vec<String>, config: &Config) -> (r: Vec<PrRef>)
    ensures
        r.deep_view() == not_ignored(references.deep_view(), ignored.deep_view(), config@),
{
    let ghost v = references.deep_view();
    let mut r: Vec<PrRef> = Vec::new();
    let mut i: usize = 0;
    assert(v.take(0) =~= Seq::empty());
    assert(r.deep_view() =~= Seq::empty());
    while i < references.len()
        invariant
            v == references.deep_view(),
            i <= references@.len(),
            r.deep_view() == not_ignored(v.take(i as int), ignored.deep_view(), config@),
        decreases references.len() - i,
    {
        assert(v.take(i + 1).drop_last() =~= v.take(i as int));
        assert(v.take(i + 1).last() == references@[i as int]@);
        if !lists(ignored, &references[i].id) && !config.ignores(&references[i].repo) {
            let ghost before = r.deep_view();
            r.push(references[i].clone());
            assert(r.deep_view() =~= before.push(v[i as int]));
        }
        i += 1;
    }
    assert(v.take(i as int) =~= v);
    r
}

/// The pull requests that a poll fetches, given those that were discovered, if any were
/// looked for.
pub fn select(
    found: Option<Vec<PrRef>>,
    known: Vec<PrRef>,
    same_account: bool,
    ignored: &Vec<String>,
    config: &Config,
) -> (r: Vec<PrRef>)
    ensures
        r.deep_view() == selected(found.deep_view(), known.deep_view(), same_account, ignored.deep_view(), config@),
{
    let found = match found {
        Some(found) => found,
        None => {
            return drop_ignored(&known, ignored, config);
        },
    };
    let ghost v = found.deep_view();
    let ghost k = known.deep_view();
    let mut map: TextMap<PrRef> = TextMap::new();
    let mut i: usize = 0;
    assert(v.take(0) =~= Seq::empty());
    while i < found.len()
        invariant
            v == found.deep_view(),
            i <= found@.len(),
            map@ == found_by_id(v.take(i as int)),
        decreases found.len() - i,
    {
        assert(v.take(i + 1).drop_last() =~= v.take(i as int));
        assert(v.take(i + 1).last() == found@[i as int]@);
        map.insert(found[i].id.clone(), found[i].clone());
        i += 1;
    }
    assert(v.take(i as int) =~= v);
    if same_account {
        let ghost start = map@;
        let mut j: usize = 0;
        assert(k.take(0) =~= Seq::empty());
        while j < known.len()
            invariant
                k == known.deep_view(),
                j <= known@.len(),
                map@ == with_known(start, k.take(j as int)),
            decreases known.len() - j,
        {
            assert(k.take(j + 1).drop_last() =~= k.take(j as int));
            assert(k.take(j + 1).last() == known@[j as int]@);
            if !map.contains_key(&known[j].id) {
                map.insert(known[j].id.clone(), known[j].clone());
            }
            j += 1;
        }
        assert(k.take(j as int) =~= k);
    }
    let references = map.value_list();
    drop_ignored(&references, ignored, config)
}

// ---------------------------------------------------------------- the end of a poll

/// The identities of the open pull requests that were fetched, which are asked for once more.
pub open spec fn unconfirmed(results: Seq<PollResult>) -> Seq<Seq<char>>
    decreases results.len(),
{
    if results.len() == 0 {
        Seq::empty()
    } else {
        let before = unconfirmed(results.drop_last());
        match results.last().1 {
            Ok(snapshot) => if snapshot.open {
                before.push(results.last().0)
            } else {
                before
            },
            Err(_) => before,
        }
    }
}

/// Whether a pull request still is what a snapshot shows: open, at the same commit.
pub open spec fn still_at(heads: Seq<FinalHeadView>, id: Seq<char>, head: Seq<char>) -> bool {
    heads.contains(FinalHeadView { id, head, open: true })
}

/// A result of a poll, given what the pull requests were at its end. That of an open pull
/// request counts only where nothing has changed meanwhile.
pub open spec fn confirmed(result: PollResult, heads: Seq<FinalHeadView>) -> PollResult {
    match result.1 {
        Ok(snapshot) => if snapshot.open && !still_at(heads, result.0, snapshot.head) {
            (result.0, Err("PR changed while fetching checks; retrying next poll"@))
        } else {
            result
        },
        Err(_) => result,
    }
}

/// The identities of the open pull requests that were fetched.
pub fn to_confirm(results: &Vec<(String, Result<Snapshot, String>)>) -> (r: Vec<String>)
    ensures
        r.deep_view() == unconfirmed(results_view(results@)),
{
    let ghost v = results_view(results@);
    let mut r: Vec<String> = Vec::new();
    let mut i: usize = 0;
    assert(v.take(0) =~= Seq::empty());
    assert(r.deep_view() =~= Seq::empty());
    while i < results.len()
        invariant
            v == results_view(results@),
            i <= results@.len(),
            r.deep_view() == unconfirmed(v.take(i as int)),
        decreases results.len() - i,
    {
        assert(v.take(i + 1).drop_last() =~= v.take(i as int));
        assert(v.take(i + 1).last() == v[i as int]);
        if let Ok(snapshot) = &results[i].1 {
            if snapshot.open {
                let ghost before = r.deep_view();
                r.push(results[i].0.clone());
                assert(r.deep_view() =~= before.push(v[i as int].0));
            }
        }
        i += 1;
    }
    assert(v.take(i as int) =~= v);
    r
}

/// Whether a pull request still is open at a commit.
fn is_still_at(heads: &Vec<FinalHead>, id: &str, head: &str) -> (r: bool)
    ensures
        r == still_at(heads.deep_view(), id@, head@),
{
    let ghost v = heads.deep_view();
    let ghost wanted = FinalHeadView { id: id@, head: head@, open: true };
    let mut i: usize = 0;
    while i < heads.len()
        invariant
            v == heads.deep_view(),
            wanted == (FinalHeadView { id: id@, head: head@, open: true }),
            i <= heads@.len(),
            forall|k: int| 0 <= k < i ==> #[trigger] v[k] != wanted,
        decreases heads.len() - i,
    {
        assert(v[i as int] == heads@[i as int]@);
        if heads[i].open && text::same(&heads[i].id, id) && text::same(&heads[i].head, head) {
            assert(v[i as int] =~= wanted);
            return true;
        }
        i += 1;
    }
    false
}

/// The results of a poll, given what the pull requests were at its end.
pub fn confirm(results: Vec<(String, Result<Snapshot, String>)>, heads: &Vec<FinalHead>) -> (r: Vec<
    (String, Result<Snapshot, String>),
>)
    ensures
        results_view(r@) == results_view(results@).map_values(|result: PollResult| confirmed(result, heads.deep_view())),
{
    let ghost v = results_view(results@);
    let ghost known = heads.deep_view();
    let ghost all = v.map_values(|result: PollResult| confirmed(result, known));
    let mut rest = results;
    let mut r: Vec<(String, Result<Snapshot, String>)> = Vec::new();
    assert(v.skip(0) =~= v);
    while rest.len() > 0
        invariant
            known == heads.deep_view(),
            all == v.map_values(|result: PollResult| confirmed(result, known)),
            r@.len() + rest@.len() == v.len(),
            results_view(rest@) == v.skip(r@.len() as int),
            results_view(r@) == all.take(r@.len() as int),
        decreases rest.len(),
    {
        let ghost before = results_view(r@);
        let ghost left = results_view(rest@);
        let ghost at = r@.len() as int;
        let (id, outcome) = rest.remove(0);
        assert(results_view(rest@) =~= left.drop_first());
        assert(results_view(rest@) =~= v.skip(at + 1));
        let outcome = match outcome {
            Ok(snapshot) => if snapshot.open && !is_still_at(heads, &id, &snapshot.head) {
                Err("PR changed while fetching checks; retrying next poll".to_owned())
            } else {
                Ok(snapshot)
            },
            Err(message) => Err(message),
        };
        r.push((id, outcome));
        assert(left[0] == v[at]);
        assert(results_view(r@) =~= before.push(confirmed(v[at], known)));
        assert(all.take(at + 1) =~= all.take(at).push(all[at]));
    }
    assert(all.take(r@.len() as int) =~= all);
    r
}

// ---------------------------------------------------------------- accounts

/// Whether work may count that was done for an account: the account in use is the same one.
/// Otherwise the result says why it may not.
pub open spec fn account_fault(account: Result<Seq<char>, Seq<char>>, viewer: Seq<char>, changed: Seq<char>) -> Result<
    (),
    Seq<char>,
> {
    match account {
        Ok(own) => if own == viewer {
            Ok(())
        } else {
            Err(changed)
        },
        Err(message) => Err(message),
    }
}

/// Whether work may count that was done for an account.
pub fn check_account(account: Result<String, String>, viewer: &str, changed: &str) -> (r: Result<(), String>)
    ensures
        fields::result_view(r) == account_fault(fields::result_view(account), viewer@, changed@),
{
    match account {
        Ok(own) => if text::same(&own, viewer) {
            Ok(())
        } else {
            Err(changed.to_owned())
        },
        Err(message) => Err(message),
    }
}

/// What counts of the labels that were fetched for an account: nothing, unless the account was
/// the same one before and after.
pub open spec fn counted_labels(
    before: Result<(), Seq<char>>,
    after: Result<(), Seq<char>>,
    labels: Result<Seq<PrLabelView>, Seq<char>>,
) -> Result<Seq<PrLabelView>, Seq<char>> {
    match (before, after) {
        (Err(message), _) => Err(message),
        (Ok(()), Err(message)) => Err(message),
        (Ok(()), Ok(())) => labels,
    }
}

/// What counts of the labels that were fetched for an account.
pub fn count_labels(
    before: &Result<(), String>,
    after: &Result<(), String>,
    labels: Result<Vec<PrLabel>, String>,
) -> (r: Result<Vec<PrLabel>, String>)
    ensures
        fields::result_view(r) == counted_labels(
            fields::result_view(*before),
            fields::result_view(*after),
            fields::result_view(labels),
        ),
{
    match before {
        Err(message) => Err(message.clone()),
        Ok(_) => match after {
            Err(message) => Err(message.clone()),
            Ok(_) => labels,
        },
    }
}

// ---------------------------------------------------------------- laws

/// What counts of a poll was true at its end: an open pull request was still open, at the
/// commit that its snapshot shows.
pub proof fn results_are_current(results: Seq<PollResult>, heads: Seq<FinalHeadView>, i: int)
    requires
        0 <= i < results.len(),
        confirmed(results[i], heads).1 is Ok,
        confirmed(results[i], heads).1->Ok_0.open,
    ensures
        confirmed(results[i], heads) == results[i],
        heads.contains(FinalHeadView { id: results[i].0, head: results[i].1->Ok_0.head, open: true }),
{
}

/// A known pull request that a discovery did not find is still fetched, for the same account.
pub proof fn omissions_are_kept(found: Seq<PrRefView>, known: Seq<PrRefView>, i: int)
    requires
        0 <= i < known.len(),
    ensures
        with_known(found_by_id(found), known).contains_key(known[i].id),
    decreases known.len(),
{
    if i < known.len() - 1 {
        assert(known.drop_last()[i] == known[i]);
        omissions_are_kept(found, known.drop_last(), i);
    }
}

/// Nothing that is ignored is fetched.
pub proof fn ignored_are_not_fetched(references: Seq<PrRefView>, ignored: Seq<Seq<char>>, config: ConfigView, i: int)
    requires
        0 <= i < not_ignored(references, ignored, config).len(),
    ensures
        !ignored.contains(not_ignored(references, ignored, config)[i].id),
        !config.ignores(not_ignored(references, ignored, config)[i].repo),
        references.contains(not_ignored(references, ignored, config)[i]),
    decreases references.len(),
{
    let before = not_ignored(references.drop_last(), ignored, config);
    if i < before.len() {
        ignored_are_not_fetched(references.drop_last(), ignored, config, i);
        let k = choose|k: int| 0 <= k < references.len() - 1 && references.drop_last()[k] == before[i];
        assert(references[k] == before[i]);
    } else {
        assert(references[references.len() - 1] == not_ignored(references, ignored, config)[i]);
    }
}

/// Another account's pull requests are those that were discovered for it, and no others.
pub proof fn accounts_are_discovered_anew(
    found: Seq<PrRefView>,
    known: Seq<PrRefView>,
    ignored: Seq<Seq<char>>,
    config: ConfigView,
    known_viewer: Option<Seq<char>>,
    viewer: Seq<char>,
)
    requires
        known_viewer != Some(viewer),
    ensures
        discovers(false, known_viewer, viewer),
        selected(Some(found), known, false, ignored, config) == selected(Some(found), Seq::empty(), false, ignored, config),
{
}

} // verus!
