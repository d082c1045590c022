//! The labels that are offered for a pull request.

use crate::actions::{Label, LabelCatalogue, LabelCatalogueView, LabelView, Labels, LabelsView};
use crate::model::{PrLabel, PrLabelView};
use crate::order;
use crate::text;
use crate::text_map;
use crate::text_map::{Duplicate, TextMap};
use vstd::prelude::*;

verus! {

broadcast use vstd::seq_lib::group_seq_properties;

/// Labels by name.
pub type Offer = Map<Seq<char>, LabelView>;

/// Labels are added to an offer. Of two labels with one name the later one counts.
pub open spec fn with_labels(offer: Offer, labels: Seq<PrLabelView>, selected: bool) -> Offer
    decreases labels.len(),
{
    if labels.len() == 0 {
        offer
    } else {
        with_labels(offer, labels.drop_last(), selected).insert(
            labels.last().name,
            LabelView { name: labels.last().name, color: labels.last().color, selected },
        )
    }
}

/// Labels that were offered before.
pub open spec fn offered_before(items: Seq<LabelView>) -> Offer
    decreases items.len(),
{
    if items.len() == 0 {
        Map::empty()
    } else {
        offered_before(items.drop_last()).insert(items.last().name, items.last())
    }
}

/// Labels whose change is under way, or was made after the snapshot, are added to an offer
/// as they were offered before.
pub open spec fn with_changes(
    offer: Offer,
    items: Seq<LabelView>,
    pending: Set<Seq<char>>,
    completed: Map<Seq<char>, bool>,
) -> Offer
    decreases items.len(),
{
    if items.len() == 0 {
        offer
    } else {
        let before = with_changes(offer, items.drop_last(), pending, completed);
        let name = items.last().name;
        if pending.contains(name) || completed.contains_key(name) {
            before.insert(name, items.last())
        } else {
            before
        }
    }
}

/// Whether a pull request has a label.
pub open spec fn is_applied(applied: Seq<PrLabelView>, name: Seq<char>) -> bool {
    exists|i: int| 0 <= i < applied.len() && (#[trigger] applied[i]).name == name
}

/// A label of an offer, chosen as the newest evidence says: a change under way, a change
/// that was made, or the snapshot.
pub open spec fn settled(
    label: LabelView,
    applied: Seq<PrLabelView>,
    pending: Set<Seq<char>>,
    completed: Map<Seq<char>, bool>,
) -> LabelView {
    if pending.contains(label.name) {
        label
    } else {
        LabelView {
            selected: if completed.contains_key(label.name) {
                completed[label.name]
            } else {
                is_applied(applied, label.name)
            },
            ..label
        }
    }
}

/// Labels in the order of their names in lower case.
pub open spec fn by_name(labels: Seq<LabelView>) -> Seq<LabelView> {
    order::ordered(
        labels,
        labels.map_values(|l: LabelView| text::unicode_lowercase(l.name)),
        order::text_order(),
    )
}

/// All labels that are offered, by name, before it is settled which are chosen.
pub open spec fn offer_of(
    known: LabelsView,
    applied: Seq<PrLabelView>,
    catalogue: Option<LabelCatalogueView>,
    completed: Map<Seq<char>, bool>,
) -> Offer {
    let start = match catalogue {
        Some(catalogue) => with_labels(Map::empty(), catalogue.labels, false),
        None => offered_before(known.items),
    };
    with_changes(with_labels(start, applied, true), known.items, known.pending, completed)
}

/// The labels of a pull request, given what was offered before, the labels that the
/// snapshot has, the catalogue of the repository, the changes that were made after the
/// snapshot, and how the load of the catalogue stands.
pub open spec fn synced(
    known: LabelsView,
    applied: Seq<PrLabelView>,
    catalogue: Option<LabelCatalogueView>,
    completed: Map<Seq<char>, bool>,
    loading: bool,
    fault: Option<Seq<char>>,
) -> LabelsView {
    let offer = offer_of(known, applied, catalogue, completed);
    LabelsView {
        items: by_name(
            text_map::values_in_order(offer).map_values(
                |l: LabelView| settled(l, applied, known.pending, completed),
            ),
        ),
        loading,
        catalogue_ready: catalogue is Some,
        catalogue_error: fault,
        ..known
    }
}

/// Adds labels to an offer.
fn add_labels(offer: &mut TextMap<Label>, labels: &Vec<PrLabel>, selected: bool)
    ensures
        final(offer)@ == with_labels(old(offer)@, labels.deep_view(), selected),
{
    let ghost v = labels.deep_view();
    let ghost start = offer@;
    let mut i: usize = 0;
    assert(v.take(0) =~= Seq::empty());
    while i < labels.len()
        invariant
            v == labels.deep_view(),
            i <= labels@.len(),
            offer@ == with_labels(start, v.take(i as int), selected),
        decreases labels.len() - i,
    {
        assert(v.take(i + 1).drop_last() =~= v.take(i as int));
        assert(v.take(i + 1).last() == labels@[i as int]@);
        let label = &labels[i];
        offer.insert(label.name.clone(), Label { name: label.name.clone(), color: label.color.clone(), selected });
        i += 1;
    }
    assert(v.take(i as int) =~= v);
}

/// Whether a pull request has a label.
fn has_label(applied: &Vec<PrLabel>, name: &str) -> (r: bool)
    ensures
        r == is_applied(applied.deep_view(), name@),
{
    let ghost v = applied.deep_view();
    let mut i: usize = 0;
    while i < applied.len()
        invariant
            v == applied.deep_view(),
            i <= applied@.len(),
            forall|k: int| 0 <= k < i ==> (#[trigger] v[k]).name != name@,
        decreases applied.len() - i,
    {
        if text::same(&applied[i].name, name) {
            assert(v[i as int].name == name@);
            return true;
        }
        i += 1;
    }
    false
}

/// Orders labels by their names in lower case.
fn sort_labels(labels: &Vec<Label>) -> (r: Vec<Label>)
    ensures
        r.deep_view() == by_name(labels.deep_view()),
{
    let ghost v = labels.deep_view();
    let mut keys: Vec<String> = Vec::new();
    let mut i: usize = 0;
    while i < labels.len()
        invariant
            v == labels.deep_view(),
            i <= labels@.len(),
            keys@.len() == i,
            forall|k: int| 0 <= k < i ==> (#[trigger] keys@[k])@ == text::unicode_lowercase(v[k].name),
        decreases labels.len() - i,
    {
        keys.push(text::lowercase(&labels[i].name));
        i += 1;
    }
    assert(keys.deep_view() =~= v.map_values(|l: LabelView| text::unicode_lowercase(l.name)));
    order::order(labels, &keys)
}

/// The labels of a pull request.
pub fn sync(
    known: &Labels,
    applied: &Vec<PrLabel>,
    catalogue: Option<&LabelCatalogue>,
    completed: &TextMap<bool>,
    loading: bool,
    fault: Option<String>,
) -> (r: Labels)
    ensures
        r@ == synced(
            known@,
            applied.deep_view(),
            match catalogue {
                Some(catalogue) => Some(catalogue@),
                None => None,
            },
            completed@,
            loading,
            fault.deep_view(),
        ),
{
    let ghost before = known.items.deep_view();
    let ghost pending = known.pending@.dom();
    let ghost a = applied.deep_view();
    let mut offer: TextMap<Label> = TextMap::new();
    match catalogue {
        Some(catalogue) => {
            add_labels(&mut offer, &catalogue.labels, false);
        },
        None => {
            let mut i: usize = 0;
            assert(before.take(0) =~= Seq::empty());
            while i < known.items.len()
                invariant
                    before == known.items.deep_view(),
                    i <= known.items@.len(),
                    offer@ == offered_before(before.take(i as int)),
                decreases known.items.len() - i,
            {
                assert(before.take(i + 1).drop_last() =~= before.take(i as int));
                assert(before.take(i + 1).last() == known.items@[i as int]@);
                offer.insert(known.items[i].name.clone(), known.items[i].clone());
                i += 1;
            }
            assert(before.take(i as int) =~= before);
        },
    }
    add_labels(&mut offer, applied, true);
    let ghost start = offer@;
    let mut i: usize = 0;
    assert(before.take(0) =~= Seq::empty());
    while i < known.items.len()
        invariant
            before == known.items.deep_view(),
            pending == known.pending@.dom(),
            i <= known.items@.len(),
            offer@ == with_changes(start, before.take(i as int), pending, completed@),
        decreases known.items.len() - i,
    {
        assert(before.take(i + 1).drop_last() =~= before.take(i as int));
        assert(before.take(i + 1).last() == known.items@[i as int]@);
        let label = &known.items[i];
        if known.pending.contains_key(&label.name) || completed.contains_key(&label.name) {
            offer.insert(label.name.clone(), label.clone());
        }
        i += 1;
    }
    assert(before.take(i as int) =~= before);
    let mut labels = offer.value_list();
    let ghost listed = labels.deep_view();
    let ghost choice = |l: LabelView| settled(l, a, pending, completed@);
    let mut k: usize = 0;
    while k < labels.len()
        invariant
            k <= labels@.len() == listed.len(),
            a == applied.deep_view(),
            pending == known.pending@.dom(),
            choice == (|l: LabelView| settled(l, a, pending, completed@)),
            forall|j: int| 0 <= j < k ==> (#[trigger] labels@[j])@ == choice(listed[j]),
            forall|j: int| k <= j < labels@.len() ==> (#[trigger] labels@[j])@ == listed[j],
        decreases labels.len() - k,
    {
        let mut label = labels[k].duplicate();
        assert(label@ == listed[k as int]);
        if !known.pending.contains_key(&label.name) {
            label.selected = match completed.get(&label.name) {
                Some(selected) => *selected,
                None => has_label(applied, &label.name),
            };
        }
        assert(label@ == choice(listed[k as int]));
        labels.set(k, label);
        k += 1;
    }
    assert(labels.deep_view() =~= listed.map_values(choice));
    Labels {
        items: sort_labels(&labels),
        loading,
        catalogue_ready: catalogue.is_some(),
        catalogue_error: fault,
        pending: known.pending.copy(),
        error: text::copy_option(&known.error),
    }
}

// ---------------------------------------------------------------- laws

/// Names in an offer are those of its labels.
pub open spec fn named(offer: Offer) -> bool {
    forall|name: Seq<char>| #[trigger] offer.contains_key(name) ==> offer[name].name == name
}

/// An offer names its labels, and has every label that the pull request has.
proof fn labels_are_offered(offer: Offer, labels: Seq<PrLabelView>, selected: bool)
    requires
        named(offer),
    ensures
        named(with_labels(offer, labels, selected)),
        forall|name: Seq<char>| #[trigger] offer.contains_key(name) ==> with_labels(offer, labels, selected).contains_key(name),
        forall|i: int| 0 <= i < labels.len() ==> with_labels(offer, labels, selected).contains_key((#[trigger] labels[i]).name),
    decreases labels.len(),
{
    if labels.len() > 0 {
        labels_are_offered(offer, labels.drop_last(), selected);
        assert forall|i: int| 0 <= i < labels.len() implies with_labels(offer, labels, selected).contains_key(
            (#[trigger] labels[i]).name,
        ) by {
            if i < labels.len() - 1 {
                assert(labels.drop_last()[i] == labels[i]);
            }
        }
    }
}

/// Labels offered before are named.
proof fn before_is_named(items: Seq<LabelView>)
    ensures
        named(offered_before(items)),
    decreases items.len(),
{
    if items.len() > 0 {
        before_is_named(items.drop_last());
    }
}

/// Changes keep an offer named, and everything in it.
proof fn changes_are_offered(
    offer: Offer,
    items: Seq<LabelView>,
    pending: Set<Seq<char>>,
    completed: Map<Seq<char>, bool>,
)
    requires
        named(offer),
    ensures
        named(with_changes(offer, items, pending, completed)),
        forall|name: Seq<char>| #[trigger]
            offer.contains_key(name) ==> with_changes(offer, items, pending, completed).contains_key(name),
    decreases items.len(),
{
    if items.len() > 0 {
        changes_are_offered(offer, items.drop_last(), pending, completed);
    }
}

/// Every label that the pull request has is offered, also one that the catalogue does not
/// have yet.
pub proof fn applied_labels_are_offered(
    known: LabelsView,
    applied: Seq<PrLabelView>,
    catalogue: Option<LabelCatalogueView>,
    completed: Map<Seq<char>, bool>,
    i: int,
)
    requires
        0 <= i < applied.len(),
    ensures
        offer_of(known, applied, catalogue, completed).contains_key(applied[i].name),
        offer_of(known, applied, catalogue, completed)[applied[i].name].name == applied[i].name,
{
    let start = match catalogue {
        Some(catalogue) => with_labels(Map::empty(), catalogue.labels, false),
        None => offered_before(known.items),
    };
    match catalogue {
        Some(catalogue) => {
            labels_are_offered(Map::empty(), catalogue.labels, false);
        },
        None => {
            before_is_named(known.items);
        },
    }
    labels_are_offered(start, applied, true);
    assert(with_labels(start, applied, true).contains_key(applied[i].name));
    changes_are_offered(with_labels(start, applied, true), known.items, known.pending, completed);
}

/// A change under way outlives new catalogues and new snapshots: the label is still offered,
/// chosen as the user chose it.
pub proof fn pending_changes_survive(
    known: LabelsView,
    applied: Seq<PrLabelView>,
    catalogue: Option<LabelCatalogueView>,
    completed: Map<Seq<char>, bool>,
    i: int,
)
    requires
        0 <= i < known.items.len(),
        known.pending.contains(known.items[i].name),
        forall|j: int| i < j < known.items.len() ==> (#[trigger] known.items[j]).name != known.items[i].name,
    ensures
        offer_of(known, applied, catalogue, completed).contains_key(known.items[i].name),
        settled(
            offer_of(known, applied, catalogue, completed)[known.items[i].name],
            applied,
            known.pending,
            completed,
        ) == known.items[i],
{
    let start = match catalogue {
        Some(catalogue) => with_labels(Map::empty(), catalogue.labels, false),
        None => offered_before(known.items),
    };
    change_is_offered(with_labels(start, applied, true), known.items, known.pending, completed, i);
}

/// The last label of a name whose change is under way is offered as it was.
proof fn change_is_offered(
    offer: Offer,
    items: Seq<LabelView>,
    pending: Set<Seq<char>>,
    completed: Map<Seq<char>, bool>,
    i: int,
)
    requires
        0 <= i < items.len(),
        pending.contains(items[i].name),
        forall|j: int| i < j < items.len() ==> (#[trigger] items[j]).name != items[i].name,
    ensures
        with_changes(offer, items, pending, completed).contains_key(items[i].name),
        with_changes(offer, items, pending, completed)[items[i].name] == items[i],
    decreases items.len(),
{
    if i < items.len() - 1 {
        assert(items.drop_last()[i] == items[i]);
        assert forall|j: int| i < j < items.drop_last().len() implies (#[trigger] items.drop_last()[j]).name
            != items.drop_last()[i].name by {
            assert(items.drop_last()[j] == items[j]);
        }
        change_is_offered(offer, items.drop_last(), pending, completed, i);
        assert(items[items.len() - 1].name != items[i].name);
    }
}

/// Once nothing is under way, the snapshot decides which labels are chosen.
pub proof fn snapshots_decide(label: LabelView, applied: Seq<PrLabelView>)
    ensures
        settled(label, applied, Set::empty(), Map::empty()).selected == is_applied(applied, label.name),
{
}

/// Offers are finite.
proof fn offers_are_finite(
    known: LabelsView,
    applied: Seq<PrLabelView>,
    catalogue: Option<LabelCatalogueView>,
    completed: Map<Seq<char>, bool>,
)
    ensures
        offer_of(known, applied, catalogue, completed).dom().finite(),
        named(offer_of(known, applied, catalogue, completed)),
{
    let start = match catalogue {
        Some(catalogue) => with_labels(Map::empty(), catalogue.labels, false),
        None => offered_before(known.items),
    };
    match catalogue {
        Some(catalogue) => {
            labels_stay_finite(Map::empty(), catalogue.labels, false);
            labels_are_offered(Map::empty(), catalogue.labels, false);
        },
        None => {
            before_is_finite(known.items);
            before_is_named(known.items);
        },
    }
    labels_stay_finite(start, applied, true);
    labels_are_offered(start, applied, true);
    changes_stay_finite(with_labels(start, applied, true), known.items, known.pending, completed);
    changes_are_offered(with_labels(start, applied, true), known.items, known.pending, completed);
}

/// Labels are finitely many.
proof fn labels_stay_finite(offer: Offer, labels: Seq<PrLabelView>, selected: bool)
    requires
        offer.dom().finite(),
    ensures
        with_labels(offer, labels, selected).dom().finite(),
    decreases labels.len(),
{
    if labels.len() > 0 {
        labels_stay_finite(offer, labels.drop_last(), selected);
    }
}

/// Labels offered before are finitely many.
proof fn before_is_finite(items: Seq<LabelView>)
    ensures
        offered_before(items).dom().finite(),
    decreases items.len(),
{
    if items.len() > 0 {
        before_is_finite(items.drop_last());
    }
}

/// Changes are finitely many.
proof fn changes_stay_finite(
    offer: Offer,
    items: Seq<LabelView>,
    pending: Set<Seq<char>>,
    completed: Map<Seq<char>, bool>,
)
    requires
        offer.dom().finite(),
    ensures
        with_changes(offer, items, pending, completed).dom().finite(),
    decreases items.len(),
{
    if items.len() > 0 {
        changes_stay_finite(offer, items.drop_last(), pending, completed);
    }
}

/// Whether a list of labels has one of a name.
pub open spec fn has_item(items: Seq<LabelView>, name: Seq<char>) -> bool {
    exists|k: int| 0 <= k < items.len() && (#[trigger] items[k]).name == name
}

/// Each label of the repository stands in the list, and so does each one that the pull request
/// has.
pub proof fn known_labels_stand_in_the_list(
    known: LabelsView,
    applied: Seq<PrLabelView>,
    catalogue: LabelCatalogueView,
    completed: Map<Seq<char>, bool>,
    loading: bool,
    fault: Option<Seq<char>>,
    i: int,
)
    ensures
        ({
            let shown = synced(known, applied, Some(catalogue), completed, loading, fault);
            &&& 0 <= i < catalogue.labels.len() ==> has_item(shown.items, catalogue.labels[i].name)
            &&& 0 <= i < applied.len() ==> has_item(shown.items, applied[i].name)
        }),
{
    let start = with_labels(Map::empty(), catalogue.labels, false);
    labels_are_offered(Map::empty(), catalogue.labels, false);
    labels_are_offered(start, applied, true);
    changes_are_offered(with_labels(start, applied, true), known.items, known.pending, completed);
    let offer = offer_of(known, applied, Some(catalogue), completed);
    if 0 <= i < catalogue.labels.len() {
        let name = catalogue.labels[i].name;
        assert(start.contains_key(name));
        assert(with_labels(start, applied, true).contains_key(name));
        assert(offer.contains_key(name));
        offered_labels_are_listed(known, applied, Some(catalogue), completed, loading, fault, name);
    }
    if 0 <= i < applied.len() {
        let name = applied[i].name;
        assert(with_labels(start, applied, true).contains_key(name));
        assert(offer.contains_key(name));
        offered_labels_are_listed(known, applied, Some(catalogue), completed, loading, fault, name);
    }
}

/// What is offered stands in the list.
proof fn offered_labels_are_listed(
    known: LabelsView,
    applied: Seq<PrLabelView>,
    catalogue: Option<LabelCatalogueView>,
    completed: Map<Seq<char>, bool>,
    loading: bool,
    fault: Option<Seq<char>>,
    name: Seq<char>,
)
    requires
        offer_of(known, applied, catalogue, completed).contains_key(name),
    ensures
        has_item(synced(known, applied, catalogue, completed, loading, fault).items, name),
{
    let offer = offer_of(known, applied, catalogue, completed);
    offers_are_finite(known, applied, catalogue, completed);
    text_map::sorted_keys_exist(offer.dom());
    let keys = text_map::sorted_keys(offer.dom());
    assert(keys.to_set().contains(name));
    let k = choose|k: int| 0 <= k < keys.len() && keys[k] == name;
    let choice = |l: LabelView| settled(l, applied, known.pending, completed);
    let listed = text_map::values_in_order(offer).map_values(choice);
    assert(listed[k].name == name);
    let names = listed.map_values(|l: LabelView| text::unicode_lowercase(l.name));
    let items = by_name(listed);
    order::ordering_rearranges(listed, names, order::text_order());
    listed.to_multiset_ensures();
    items.to_multiset_ensures();
    assert(listed.contains(listed[k]));
    assert(items.to_multiset().contains(listed[k]));
    let j = choose|j: int| 0 <= j < items.len() && items[j] == listed[k];
    assert(items[j].name == name);
    assert(synced(known, applied, catalogue, completed, loading, fault).items == items);
}

/// A label in the list whose change is not under way is chosen as the change that was made last
/// says, or else exactly where the pull request has it. How the catalogue stands is shown beside.
pub proof fn listed_labels_are_chosen_by_evidence(
    known: LabelsView,
    applied: Seq<PrLabelView>,
    catalogue: Option<LabelCatalogueView>,
    completed: Map<Seq<char>, bool>,
    loading: bool,
    fault: Option<Seq<char>>,
    k: int,
)
    ensures
        ({
            let shown = synced(known, applied, catalogue, completed, loading, fault);
            let item = shown.items[k];
            &&& 0 <= k < shown.items.len() && !known.pending.contains(item.name) ==> {
                &&& completed.contains_key(item.name) ==> item.selected == completed[item.name]
                &&& !completed.contains_key(item.name) ==> (item.selected <==> exists|j: int|
                    0 <= j < applied.len() && (#[trigger] applied[j]).name == item.name)
            }
            &&& shown.loading == loading && shown.catalogue_error == fault && shown.catalogue_ready == catalogue is Some
            &&& shown.pending == known.pending && shown.error == known.error
        }),
{
    let shown = synced(known, applied, catalogue, completed, loading, fault);
    let offer = offer_of(known, applied, catalogue, completed);
    let choice = |l: LabelView| settled(l, applied, known.pending, completed);
    let values = text_map::values_in_order(offer);
    let listed = values.map_values(choice);
    let names = listed.map_values(|l: LabelView| text::unicode_lowercase(l.name));
    let items = by_name(listed);
    assert(shown.items == items);
    if 0 <= k < items.len() {
        order::ordering_rearranges(listed, names, order::text_order());
        listed.to_multiset_ensures();
        items.to_multiset_ensures();
        assert(items.contains(items[k]));
        assert(listed.to_multiset().contains(items[k]));
        let j = choose|j: int| 0 <= j < listed.len() && listed[j] == items[k];
        assert(items[k] == settled(values[j], applied, known.pending, completed));
        assert(is_applied(applied, items[k].name) == exists|j: int|
            0 <= j < applied.len() && (#[trigger] applied[j]).name == items[k].name);
    }
}

} // verus!
