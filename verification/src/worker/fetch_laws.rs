//! What holds of what a poll fetches, and of what counts of it.

use crate::config::ConfigView;
use crate::github::discovery::FinalHeadView;
use crate::github::PrRefView;
use crate::model::SnapshotView;
use crate::text_map;
use crate::worker::events::PollResult;
use crate::worker::fetch;
use vstd::prelude::*;

verus! {

broadcast use vstd::seq_lib::group_seq_properties;

/// Whether a pull request is fetched at all: neither the user nor the settings ignore it.
pub open spec fn is_wanted(reference: PrRefView, ignored: Seq<Seq<char>>, config: ConfigView) -> bool {
    &&& !ignored.contains(reference.id)
    &&& !(config.repositories.contains_key(reference.repo) && config.repositories[reference.repo].ignore)
}

/// A discovery is made when it is wanted, and whenever the account is another one or none was
/// known.
pub proof fn other_accounts_are_discovered(discover: bool, known: Option<Seq<char>>, viewer: Seq<char>)
    ensures
        discover ==> fetch::discovers(discover, known, viewer),
        known is None ==> fetch::discovers(discover, known, viewer),
        known is Some && known->0 != viewer ==> fetch::discovers(discover, known, viewer),
        !discover && known == Some(viewer) ==> !fetch::discovers(discover, known, viewer),
{
}

/// What is wanted stays, and nothing else.
proof fn wanted_stay(references: Seq<PrRefView>, ignored: Seq<Seq<char>>, config: ConfigView, reference: PrRefView)
    ensures
        fetch::not_ignored(references, ignored, config).contains(reference) <==> references.contains(reference) && is_wanted(
            reference,
            ignored,
            config,
        ),
    decreases references.len(),
{
    if references.len() > 0 {
        let rest = references.drop_last();
        wanted_stay(rest, ignored, config, reference);
        let before = fetch::not_ignored(rest, ignored, config);
        let kept = fetch::not_ignored(references, ignored, config);
        let last = references.last();
        assert(references[references.len() - 1] == last);
        if rest.contains(reference) {
            let k = choose|k: int| 0 <= k < rest.len() && rest[k] == reference;
            assert(references[k] == reference);
        }
        if references.contains(reference) && reference != last {
            let k = choose|k: int| 0 <= k < references.len() && references[k] == reference;
            assert(rest[k] == reference);
        }
        if before.contains(reference) {
            let k = choose|k: int| 0 <= k < before.len() && before[k] == reference;
            assert(kept[k] == reference);
        }
        if kept.contains(reference) {
            let k = choose|k: int| 0 <= k < kept.len() && kept[k] == reference;
            if k < before.len() {
                assert(before[k] == reference);
            } else {
                assert(reference == last);
            }
        }
        if reference == last && is_wanted(reference, ignored, config) {
            assert(kept[kept.len() - 1] == reference);
        }
    } else {
        assert(!references.contains(reference));
        assert(!fetch::not_ignored(references, ignored, config).contains(reference));
    }
}

/// Without a discovery all pull requests are fetched that are known and wanted, and no others.
pub proof fn known_prs_are_fetched(
    known: Seq<PrRefView>,
    same_account: bool,
    ignored: Seq<Seq<char>>,
    config: ConfigView,
    reference: PrRefView,
)
    ensures
        fetch::selected(None, known, same_account, ignored, config).contains(reference) <==> known.contains(reference)
            && is_wanted(reference, ignored, config),
{
    wanted_stay(known, ignored, config, reference);
}

/// Whether some references have one of a pull request.
pub open spec fn lists(references: Seq<PrRefView>, id: Seq<char>) -> bool {
    exists|k: int| 0 <= k < references.len() && (#[trigger] references[k]).id == id
}

/// What was found is known by its identity, and by the last word on it.
proof fn found_is_known(found: Seq<PrRefView>, id: Seq<char>)
    ensures
        fetch::found_by_id(found).dom().finite(),
        fetch::found_by_id(found).contains_key(id) == lists(found, id),
        fetch::found_by_id(found).contains_key(id) ==> fetch::found_by_id(found)[id].id == id && found.contains(
            fetch::found_by_id(found)[id],
        ),
    decreases found.len(),
{
    if found.len() > 0 {
        let rest = found.drop_last();
        found_is_known(rest, id);
        assert(found[found.len() - 1] == found.last());
        if lists(found, id) && found.last().id != id {
            let k = choose|k: int| 0 <= k < found.len() && (#[trigger] found[k]).id == id;
            assert(rest[k].id == id);
        }
        if lists(rest, id) {
            let k = choose|k: int| 0 <= k < rest.len() && (#[trigger] rest[k]).id == id;
            assert(found[k].id == id);
            let r = fetch::found_by_id(rest)[id];
            let j = choose|j: int| 0 <= j < rest.len() && rest[j] == r;
            assert(found[j] == r);
        }
    } else {
        assert(!lists(found, id));
    }
}

/// Known ones are kept beside those found, and change nothing of these.
proof fn known_is_added(found: Map<Seq<char>, PrRefView>, known: Seq<PrRefView>, id: Seq<char>)
    requires
        found.dom().finite(),
        found.contains_key(id) ==> found[id].id == id,
    ensures
        fetch::with_known(found, known).dom().finite(),
        fetch::with_known(found, known).contains_key(id) == (found.contains_key(id) || lists(known, id)),
        found.contains_key(id) ==> fetch::with_known(found, known)[id] == found[id],
        fetch::with_known(found, known).contains_key(id) ==> fetch::with_known(found, known)[id].id == id,
        fetch::with_known(found, known).contains_key(id) && !found.contains_key(id) ==> known.contains(
            fetch::with_known(found, known)[id],
        ),
    decreases known.len(),
{
    if known.len() > 0 {
        let rest = known.drop_last();
        known_is_added(found, rest, id);
        assert(known[known.len() - 1] == known.last());
        if lists(known, id) && known.last().id != id {
            let k = choose|k: int| 0 <= k < known.len() && (#[trigger] known[k]).id == id;
            assert(rest[k].id == id);
        }
        if lists(rest, id) {
            let k = choose|k: int| 0 <= k < rest.len() && (#[trigger] rest[k]).id == id;
            assert(known[k].id == id);
        }
        if fetch::with_known(found, rest).contains_key(id) && !found.contains_key(id) {
            let r = fetch::with_known(found, rest)[id];
            let j = choose|j: int| 0 <= j < rest.len() && rest[j] == r;
            assert(known[j] == r);
        }
    } else {
        assert(!lists(known, id));
    }
}

/// With a discovery each pull request that it found is fetched, if it is wanted, once; for the
/// same account those that were known are fetched too, although it did not find them; and no
/// others.
pub proof fn found_and_known_prs_are_fetched(
    found: Seq<PrRefView>,
    known: Seq<PrRefView>,
    same_account: bool,
    ignored: Seq<Seq<char>>,
    config: ConfigView,
    id: Seq<char>,
)
    requires
        forall|k: int| 0 <= k < found.len() && (#[trigger] found[k]).id == id ==> is_wanted(found[k], ignored, config),
        forall|k: int| 0 <= k < known.len() && (#[trigger] known[k]).id == id ==> is_wanted(known[k], ignored, config),
    ensures
        lists(fetch::selected(Some(found), known, same_account, ignored, config), id) <==> lists(found, id) || same_account
            && lists(known, id),
{
    let map = if same_account {
        fetch::with_known(fetch::found_by_id(found), known)
    } else {
        fetch::found_by_id(found)
    };
    found_is_known(found, id);
    known_is_added(fetch::found_by_id(found), known, id);
    let listed = text_map::values_in_order(map);
    let keys = text_map::sorted_keys(map.dom());
    text_map::sorted_keys_exist(map.dom());
    let picked = fetch::selected(Some(found), known, same_account, ignored, config);
    if map.contains_key(id) {
        assert(keys.to_set().contains(id));
        let k = choose|k: int| 0 <= k < keys.len() && keys[k] == id;
        assert(listed[k] == map[id]);
        assert(listed.contains(map[id]));
        if fetch::found_by_id(found).contains_key(id) {
            let j = choose|j: int| 0 <= j < found.len() && found[j] == map[id];
            assert(is_wanted(found[j], ignored, config));
        } else {
            let j = choose|j: int| 0 <= j < known.len() && known[j] == map[id];
            assert(is_wanted(known[j], ignored, config));
        }
        wanted_stay(listed, ignored, config, map[id]);
        let n = choose|n: int| 0 <= n < picked.len() && picked[n] == map[id];
        assert(picked[n].id == id);
    }
    if lists(picked, id) {
        let n = choose|n: int| 0 <= n < picked.len() && (#[trigger] picked[n]).id == id;
        wanted_stay(listed, ignored, config, picked[n]);
        assert(picked.contains(picked[n]));
        let k = choose|k: int| 0 <= k < listed.len() && listed[k] == picked[n];
        assert(keys.to_set().contains(keys[k]));
        assert(listed[k] == map[keys[k]]);
        found_is_known(found, keys[k]);
        known_is_added(fetch::found_by_id(found), known, keys[k]);
        assert(keys[k] == id);
    }
}

/// What is ignored is never fetched, whoever found it.
pub proof fn unwanted_prs_are_not_fetched(
    found: Option<Seq<PrRefView>>,
    known: Seq<PrRefView>,
    same_account: bool,
    ignored: Seq<Seq<char>>,
    config: ConfigView,
    reference: PrRefView,
)
    requires
        !is_wanted(reference, ignored, config),
    ensures
        !fetch::selected(found, known, same_account, ignored, config).contains(reference),
{
    let references = match found {
        None => known,
        Some(found) => text_map::values_in_order(
            if same_account {
                fetch::with_known(fetch::found_by_id(found), known)
            } else {
                fetch::found_by_id(found)
            },
        ),
    };
    wanted_stay(references, ignored, config, reference);
}

/// The end of a poll is asked about each open pull request that was fetched, and about no other.
pub proof fn open_prs_are_confirmed(results: Seq<PollResult>, id: Seq<char>)
    ensures
        fetch::unconfirmed(results).contains(id) <==> exists|k: int|
            0 <= k < results.len() && (#[trigger] results[k]).0 == id && results[k].1 is Ok && results[k].1->Ok_0.open,
    decreases results.len(),
{
    let all = fetch::unconfirmed(results);
    if results.len() > 0 {
        let rest = results.drop_last();
        open_prs_are_confirmed(rest, id);
        let before = fetch::unconfirmed(rest);
        assert(results[results.len() - 1] == results.last());
        if before.contains(id) {
            let n = choose|n: int| 0 <= n < before.len() && before[n] == id;
            assert(all[n] == id);
            let k = choose|k: int|
                0 <= k < rest.len() && (#[trigger] rest[k]).0 == id && rest[k].1 is Ok && rest[k].1->Ok_0.open;
            assert(results[k] == rest[k]);
        }
        if exists|k: int|
            0 <= k < results.len() && (#[trigger] results[k]).0 == id && results[k].1 is Ok && results[k].1->Ok_0.open {
            let k = choose|k: int|
                0 <= k < results.len() && (#[trigger] results[k]).0 == id && results[k].1 is Ok && results[k].1->Ok_0.open;
            if k < rest.len() {
                assert(rest[k] == results[k]);
            } else {
                assert(all[all.len() - 1] == id);
            }
        }
        if all.contains(id) && !before.contains(id) {
            let n = choose|n: int| 0 <= n < all.len() && all[n] == id;
            if n < before.len() {
                assert(before[n] == id);
            }
        }
    } else {
        assert(!all.contains(id));
    }
}

/// A snapshot of an open pull request counts where it still is open at the same commit at the end
/// of the poll. Otherwise it has changed, which is an error of its own kind. All else counts as it
/// came.
pub proof fn only_unchanged_prs_count(id: Seq<char>, snapshot: SnapshotView, heads: Seq<FinalHeadView>, message: Seq<char>)
    ensures
        ({
            let result = fetch::confirmed((id, Ok(snapshot)), heads);
            let same = exists|k: int|
                0 <= k < heads.len() && (#[trigger] heads[k]).id == id && heads[k].head == snapshot.head && heads[k].open;
            &&& result.0 == id
            &&& !snapshot.open || same ==> result.1 == Ok::<SnapshotView, Seq<char>>(snapshot)
            &&& snapshot.open && !same ==> result.1 is Err && "PR changed"@.is_prefix_of(result.1->Err_0)
        }),
        fetch::confirmed((id, Err(message)), heads) == (id, Err::<SnapshotView, Seq<char>>(message)),
{
    let wanted = FinalHeadView { id, head: snapshot.head, open: true };
    if heads.contains(wanted) {
        let k = choose|k: int| 0 <= k < heads.len() && heads[k] == wanted;
        assert(heads[k].id == id);
    }
    if exists|k: int| 0 <= k < heads.len() && (#[trigger] heads[k]).id == id && heads[k].head == snapshot.head && heads[k].open {
        let k = choose|k: int|
            0 <= k < heads.len() && (#[trigger] heads[k]).id == id && heads[k].head == snapshot.head && heads[k].open;
        assert(heads[k] =~= wanted);
    }
    reveal_strlit("PR changed");
    reveal_strlit("PR changed while fetching checks; retrying next poll");
    assert("PR changed while fetching checks; retrying next poll"@.subrange(0, 10) =~= "PR changed"@);
}

} // verus!
