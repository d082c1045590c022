//! JSON documents.

use crate::text;
use crate::text_map;
use crate::text_map::{Duplicate, TextMap};
use vstd::prelude::*;

verus! {

broadcast use vstd::seq_lib::group_seq_properties;

/// A JSON value. The members of an object stand in the order of their names.
#[derive(Debug)]
pub enum Json {
    Null,
    Bool(bool),
    /// A number: its value where it is a whole one that fits, and its text.
    Number(Option<u64>, String),
    Text(String),
    List(Vec<Json>),
    Object(Vec<(String, Json)>),
}

/// The contents of a [`Json`].
pub enum JsonView {
    Null,
    Bool(bool),
    Number(Option<u64>, Seq<char>),
    Text(Seq<char>),
    List(Seq<JsonView>),
    Object(Seq<(Seq<char>, JsonView)>),
}

impl Json {
    /// The contents of a value.
    pub open spec fn contents(&self) -> JsonView
        decreases self,
    {
        match self {
            Json::Null => JsonView::Null,
            Json::Bool(b) => JsonView::Bool(*b),
            Json::Number(whole, digits) => JsonView::Number(*whole, digits@),
            Json::Text(t) => JsonView::Text(t@),
            Json::List(items) => JsonView::List(
                Seq::new(
                    items@.len(),
                    |i: int|
                        if 0 <= i < items@.len() {
                            items@[i].contents()
                        } else {
                            JsonView::Null
                        },
                ),
            ),
            Json::Object(members) => JsonView::Object(
                Seq::new(
                    members@.len(),
                    |i: int|
                        if 0 <= i < members@.len() {
                            (members@[i].0@, members@[i].1.contents())
                        } else {
                            (Seq::empty(), JsonView::Null)
                        },
                ),
            ),
        }
    }
}

impl View for Json {
    type V = JsonView;

    open spec fn view(&self) -> JsonView {
        self.contents()
    }
}

impl DeepView for Json {
    type V = JsonView;

    open spec fn deep_view(&self) -> JsonView {
        self.contents()
    }
}

/// The value of the first member with a name.
pub open spec fn member_of(members: Seq<(Seq<char>, JsonView)>, name: Seq<char>) -> Option<JsonView>
    decreases members.len(),
{
    if members.len() == 0 {
        None
    } else if members[0].0 == name {
        Some(members[0].1)
    } else {
        member_of(members.drop_first(), name)
    }
}

impl JsonView {
    /// The member of an object with a name, if there is one.
    pub open spec fn find(self, name: Seq<char>) -> Option<JsonView> {
        match self {
            JsonView::Object(members) => member_of(members, name),
            _ => None,
        }
    }

    /// The member of an object with a name, or null.
    pub open spec fn at(self, name: Seq<char>) -> JsonView {
        match self.find(name) {
            Some(value) => value,
            None => JsonView::Null,
        }
    }

    /// The item of a list at an index, or null.
    pub open spec fn item(self, i: int) -> JsonView {
        match self {
            JsonView::List(items) => if 0 <= i < items.len() {
                items[i]
            } else {
                JsonView::Null
            },
            _ => JsonView::Null,
        }
    }

    /// The text, where the value is one.
    pub open spec fn str(self) -> Option<Seq<char>> {
        match self {
            JsonView::Text(t) => Some(t),
            _ => None,
        }
    }

    /// The number, where the value is a whole one that fits.
    pub open spec fn whole(self) -> Option<u64> {
        match self {
            JsonView::Number(whole, _) => whole,
            _ => None,
        }
    }

    /// The truth value, where the value is one.
    pub open spec fn truth(self) -> Option<bool> {
        match self {
            JsonView::Bool(b) => Some(b),
            _ => None,
        }
    }

    /// The items, where the value is a list.
    pub open spec fn list(self) -> Option<Seq<JsonView>> {
        match self {
            JsonView::List(items) => Some(items),
            _ => None,
        }
    }

    /// The text of a member, empty where it has none.
    pub open spec fn string(self, name: Seq<char>) -> Seq<char> {
        match self.at(name).str() {
            Some(t) => t,
            None => Seq::empty(),
        }
    }
}

impl Json {
    /// The member of an object with a name, if there is one.
    pub fn get(&self, name: &str) -> (r: Option<&Json>)
        ensures
            match r {
                Some(value) => self@.find(name@) == Some(value@),
                None => self@.find(name@) is None,
            },
    {
        match self {
            Json::Object(members) => {
                let ghost v = self@->Object_0;
                let mut i: usize = 0;
                assert(v.skip(0) =~= v);
                while i < members.len()
                    invariant
                        self@ == JsonView::Object(v),
                        *self == Json::Object(*members),
                        v.len() == members@.len(),
                        i <= members@.len(),
                        member_of(v, name@) == member_of(v.skip(i as int), name@),
                    decreases members.len() - i,
                {
                    assert(v[i as int] == (members@[i as int].0@, members@[i as int].1@));
                    assert(v.skip(i as int)[0] == v[i as int]);
                    assert(v.skip(i as int).drop_first() =~= v.skip(i + 1));
                    if text::same(&members[i].0, name) {
                        return Some(&members[i].1);
                    }
                    i += 1;
                }
                None
            },
            _ => None,
        }
    }

    /// The member of an object with a name, or null.
    pub fn at(&self, name: &str) -> (r: &Json)
        ensures
            r@ == self@.at(name@),
    {
        match self.get(name) {
            Some(value) => value,
            None => &Json::Null,
        }
    }

    /// The item of a list at an index, or null.
    pub fn item(&self, i: usize) -> (r: &Json)
        ensures
            r@ == self@.item(i as int),
    {
        match self {
            Json::List(items) => if i < items.len() {
                &items[i]
            } else {
                &Json::Null
            },
            _ => &Json::Null,
        }
    }

    /// The text, where the value is one.
    pub fn as_str(&self) -> (r: Option<&str>)
        ensures
            match r {
                Some(t) => self@.str() == Some(t@),
                None => self@.str() is None,
            },
    {
        match self {
            Json::Text(t) => Some(t.as_str()),
            _ => None,
        }
    }

    /// Whether the value is the given text.
    pub fn is(&self, t: &str) -> (r: bool)
        ensures
            r == (self@.str() == Some(t@)),
    {
        match self {
            Json::Text(own) => text::same(own, t),
            _ => false,
        }
    }

    /// The number, where the value is a whole one that fits.
    pub fn as_u64(&self) -> (r: Option<u64>)
        ensures
            r == self@.whole(),
    {
        match self {
            Json::Number(whole, _) => *whole,
            _ => None,
        }
    }

    /// The truth value, where the value is one.
    pub fn as_bool(&self) -> (r: Option<bool>)
        ensures
            r == self@.truth(),
    {
        match self {
            Json::Bool(b) => Some(*b),
            _ => None,
        }
    }

    /// Whether the value is null.
    pub fn is_null(&self) -> (r: bool)
        ensures
            r == (self@ is Null),
    {
        match self {
            Json::Null => true,
            _ => false,
        }
    }

    /// The items, where the value is a list.
    pub fn as_array(&self) -> (r: Option<&Vec<Json>>)
        ensures
            match r {
                Some(items) => self@ == JsonView::List(items.deep_view()),
                None => self@.list() is None,
            },
    {
        match self {
            Json::List(items) => {
                assert(self@->List_0 =~= items.deep_view());
                Some(items)
            },
            _ => None,
        }
    }

    /// The text of a member, empty where it has none.
    pub fn string(&self, name: &str) -> (r: String)
        ensures
            r@ == self@.string(name@),
    {
        match self.at(name).as_str() {
            Some(t) => t.to_owned(),
            None => String::new(),
        }
    }

    /// A text.
    pub fn text(t: &str) -> (r: Json)
        ensures
            r@ == JsonView::Text(t@),
    {
        Json::Text(t.to_owned())
    }

    /// A truth value.
    pub fn boolean(b: bool) -> (r: Json)
        ensures
            r@ == JsonView::Bool(b),
    {
        Json::Bool(b)
    }

    /// A whole number.
    pub fn number(n: u64) -> (r: Json)
        ensures
            r@ == JsonView::Number(Some(n), text::decimal_of(n as nat)),
    {
        Json::Number(Some(n), text::decimal(n))
    }

    /// A text, or null where there is none.
    pub fn optional(t: &Option<String>) -> (r: Json)
        ensures
            r@ == optional_text(t.deep_view()),
    {
        match t {
            Some(t) => Json::Text(t.clone()),
            None => Json::Null,
        }
    }
}

/// A text, or null where there is none.
pub open spec fn optional_text(t: Option<Seq<char>>) -> JsonView {
    match t {
        Some(t) => JsonView::Text(t),
        None => JsonView::Null,
    }
}

// ---------------------------------------------------------------- reading

/// A value as `serde_json` holds it.
#[verifier::external_type_specification]
#[verifier::external_body]
pub struct ExValue(serde_json::Value);

/// What a value of `serde_json` holds.
pub uninterp spec fn value_contents(value: serde_json::Value) -> JsonView;

/// What `serde_json::from_slice` reads from bytes: nothing where they are no document.
pub uninterp spec fn json_document(bytes: Seq<u8>) -> Option<JsonView>;

/// One layer of a value of `serde_json`.
enum Layer {
    Null,
    Bool(bool),
    Number(Option<u64>, String),
    Text(String),
    List(Vec<serde_json::Value>),
    Object(Vec<(String, serde_json::Value)>),
}

impl Layer {
    /// What one layer holds, and below it what the values in it hold.
    spec fn contents(&self) -> JsonView {
        match self {
            Layer::Null => JsonView::Null,
            Layer::Bool(b) => JsonView::Bool(*b),
            Layer::Number(whole, digits) => JsonView::Number(*whole, digits@),
            Layer::Text(t) => JsonView::Text(t@),
            Layer::List(items) => JsonView::List(Seq::new(items@.len(), |i: int| value_contents(items@[i]))),
            Layer::Object(members) => JsonView::Object(
                Seq::new(members@.len(), |i: int| (members@[i].0@, value_contents(members@[i].1))),
            ),
        }
    }
}

/// Trusted: `serde_json::from_slice`. It reads a document or fails, by the bytes alone.
#[verifier::external_body]
fn read_value(bytes: &[u8]) -> (r: Option<serde_json::Value>)
    ensures
        match r {
            Some(value) => json_document(bytes@) == Some(value_contents(value)),
            None => json_document(bytes@) is None,
        },
{
    serde_json::from_slice(bytes).ok()
}

/// Trusted: the variants of `serde_json::Value`. A value is one of the six kinds, and a
/// list and an object hold the values that stand in them; `Number::as_u64` gives a whole
/// number that fits, and the text of a number is its `Display`.
#[verifier::external_body]
fn unwrap_layer(value: serde_json::Value) -> (r: Layer)
    ensures
        r.contents() == value_contents(value),
{
    match value {
        serde_json::Value::Null => Layer::Null,
        serde_json::Value::Bool(b) => Layer::Bool(b),
        serde_json::Value::Number(n) => Layer::Number(n.as_u64(), n.to_string()),
        serde_json::Value::String(t) => Layer::Text(t),
        serde_json::Value::Array(items) => Layer::List(items),
        serde_json::Value::Object(members) => Layer::Object(members.into_iter().collect()),
    }
}

/// The value that a value of `serde_json` holds.
fn from_value(value: serde_json::Value) -> (r: Json)
    ensures
        r@ == value_contents(value),
    decreases value_contents(value),
{
    let ghost whole = value_contents(value);
    match unwrap_layer(value) {
        Layer::Null => Json::Null,
        Layer::Bool(b) => Json::Bool(b),
        Layer::Number(whole, digits) => Json::Number(whole, digits),
        Layer::Text(t) => Json::Text(t),
        Layer::List(items) => {
            let mut rest = items;
            let mut done: Vec<Json> = Vec::new();
            let ghost all = whole->List_0;
            assert(all.skip(0) =~= all);
            while rest.len() > 0
                invariant
                    whole == value_contents(value),
                    whole == JsonView::List(all),
                    done@.len() + rest@.len() == all.len(),
                    forall|i: int| 0 <= i < done@.len() ==> (#[trigger] done@[i])@ == all[i],
                    forall|i: int|
                        0 <= i < rest@.len() ==> value_contents(#[trigger] rest@[i]) == all[done@.len() + i],
                decreases rest.len(),
            {
                let next = rest.remove(0);
                assert(value_contents(next) == all[done@.len() as int]);
                assert(decreases_to!(whole => whole->List_0));
                assert(decreases_to!(all => all[done@.len() as int]));
                done.push(from_value(next));
            }
            let r = Json::List(done);
            assert(r@->List_0 =~= all);
            r
        },
        Layer::Object(members) => {
            let mut rest = members;
            let mut done: Vec<(String, Json)> = Vec::new();
            let ghost all = whole->Object_0;
            while rest.len() > 0
                invariant
                    whole == value_contents(value),
                    whole == JsonView::Object(all),
                    done@.len() + rest@.len() == all.len(),
                    forall|i: int|
                        0 <= i < done@.len() ==> (#[trigger] done@[i]).0@ == all[i].0 && done@[i].1@ == all[i].1,
                    forall|i: int|
                        0 <= i < rest@.len() ==> (#[trigger] rest@[i]).0@ == all[done@.len() + i].0 && value_contents(
                            rest@[i].1,
                        ) == all[done@.len() + i].1,
                decreases rest.len(),
            {
                let (name, next) = rest.remove(0);
                let ghost at = done@.len() as int;
                assert(value_contents(next) == all[at].1);
                assert(decreases_to!(whole => whole->Object_0));
                assert(decreases_to!(all => all[at]));
                assert(decreases_to!(all[at] => all[at].1));
                done.push((name, from_value(next)));
            }
            let r = Json::Object(done);
            assert(r@->Object_0 =~= all);
            r
        },
    }
}

/// Reads a JSON document.
pub fn parse(bytes: &[u8]) -> (r: Option<Json>)
    ensures
        r.deep_view() == json_document(bytes@),
{
    match read_value(bytes) {
        Some(value) => Some(from_value(value)),
        None => None,
    }
}

// ---------------------------------------------------------------- writing

/// What `serde_json` makes of the text of a number.
pub uninterp spec fn number_read(digits: Seq<char>) -> JsonView;

/// What `serde_json::to_string` writes for a value, by what the value holds.
pub uninterp spec fn value_text(contents: JsonView) -> Seq<char>;

/// What a value of `serde_json` is made of.
enum Part {
    Null,
    Bool(bool),
    Whole(u64),
    Number(String),
    Text(String),
    List(Vec<serde_json::Value>),
    Object(Vec<(String, serde_json::Value)>),
}

impl Part {
    /// What the value holds that is made of a part, but for a number that is given by its text.
    spec fn contents(&self) -> JsonView {
        match self {
            Part::Null => JsonView::Null,
            Part::Bool(b) => JsonView::Bool(*b),
            Part::Whole(n) => JsonView::Number(Some(*n), text::decimal_of(*n as nat)),
            Part::Number(digits) => number_read(digits@),
            Part::Text(t) => JsonView::Text(t@),
            Part::List(items) => JsonView::List(Seq::new(items@.len(), |i: int| value_contents(items@[i]))),
            Part::Object(members) => JsonView::Object(
                Seq::new(members@.len(), |i: int| (members@[i].0@, value_contents(members@[i].1))),
            ),
        }
    }

    /// Whether the names in an object stand in ascending order, each once.
    spec fn sorted(&self) -> bool {
        match self {
            Part::Object(members) => text_map::strictly_sorted(Seq::new(members@.len(), |i: int| members@[i].0@)),
            _ => true,
        }
    }
}

/// Trusted: the variants of `serde_json::Value`, with `Value::from` on a whole number, the
/// `FromStr` of `Number`, and `Map::from_iter`. A value holds what it is made of, a whole number
/// with its decimal digits, and an object holds members that come in ascending order, each name
/// once, in that order. What becomes of the text of a number depends on the text alone; it is
/// null where there is no such number.
#[verifier::external_body]
fn assemble(part: Part) -> (r: serde_json::Value)
    requires
        part.sorted(),
    ensures
        part matches Part::Number(digits) ==> value_contents(r) == number_read(digits@),
        value_contents(r) == part.contents(),
{
    match part {
        Part::Null => serde_json::Value::Null,
        Part::Bool(b) => serde_json::Value::Bool(b),
        Part::Whole(n) => serde_json::Value::from(n),
        Part::Number(digits) => digits.parse().map_or(serde_json::Value::Null, serde_json::Value::Number),
        Part::Text(t) => serde_json::Value::String(t),
        Part::List(items) => serde_json::Value::Array(items),
        Part::Object(members) => serde_json::Value::Object(members.into_iter().collect()),
    }
}

/// Trusted: `serde_json::to_string` on a value. It does not fail, and what it writes depends on
/// what the value holds alone.
#[verifier::external_body]
fn write_value(value: &serde_json::Value) -> (r: String)
    ensures
        r@ == value_text(value_contents(*value)),
{
    serde_json::to_string(value).expect("serializable value")
}

/// What a value holds once `serde_json` has it: the members of an object in the order of their
/// names, the last one of each name, and numbers as they are read again.
pub open spec fn held(value: JsonView) -> JsonView
    decreases value, 1int,
{
    match value {
        JsonView::Number(whole, digits) => match whole {
            Some(n) => JsonView::Number(Some(n), text::decimal_of(n as nat)),
            None => number_read(digits),
        },
        JsonView::List(items) => JsonView::List(held_items(items, items.len())),
        JsonView::Object(members) => object_of(held_members(members, members.len())),
        other => other,
    }
}

/// What the first `count` items of a list hold.
pub open spec fn held_items(items: Seq<JsonView>, count: nat) -> Seq<JsonView>
    decreases items, 0int, count,
{
    if count == 0 || count > items.len() {
        Seq::empty()
    } else {
        held_items(items, (count - 1) as nat).push(held(items[count - 1]))
    }
}

/// What the first `count` members of an object hold, by their names.
pub open spec fn held_members(members: Seq<(Seq<char>, JsonView)>, count: nat) -> Map<Seq<char>, JsonView>
    decreases members, 0int, count,
{
    if count == 0 || count > members.len() {
        Map::empty()
    } else {
        held_members(members, (count - 1) as nat).insert(members[count - 1].0, held(members[count - 1].1))
    }
}

/// The compact text of a value. That of a number by itself is the text that the number has.
pub open spec fn written(value: JsonView) -> Seq<char> {
    match value {
        JsonView::Number(_, digits) => digits,
        other => value_text(held(other)),
    }
}

/// A value of `serde_json` under a name.
struct Held {
    value: serde_json::Value,
}

impl DeepView for Held {
    type V = JsonView;

    closed spec fn deep_view(&self) -> JsonView {
        value_contents(self.value)
    }
}

/// The members of an object, in the order of their names.
fn listed(members: TextMap<Held>) -> (r: Vec<(String, serde_json::Value)>)
    ensures
        text_map::strictly_sorted(Seq::new(r@.len(), |i: int| r@[i].0@)),
        object_of(members@) == JsonView::Object(Seq::new(r@.len(), |i: int| (r@[i].0@, value_contents(r@[i].1)))),
{
    let ghost all = members@;
    let (keys, values) = members.into_parts();
    let ghost names = keys.deep_view();
    let ghost held = values@;
    let count: usize = keys.len();
    let mut keys = keys;
    let mut values = values;
    let mut r: Vec<(String, serde_json::Value)> = Vec::new();
    while keys.len() > 0 && values.len() > 0
        invariant
            names.len() == count,
            held.len() == count,
            keys@.len() == values@.len(),
            r@.len() + keys@.len() == count,
            forall|i: int| 0 <= i < r@.len() ==> (#[trigger] r@[i]).0@ == names[i] && r@[i].1 == held[i].value,
            forall|i: int| 0 <= i < keys@.len() ==> (#[trigger] keys@[i])@ == names[r@.len() + i],
            forall|i: int| 0 <= i < values@.len() ==> #[trigger] values@[i] == held[r@.len() + i],
        decreases keys.len(),
    {
        let name = keys.remove(0);
        let next = values.remove(0);
        r.push((name, next.value));
    }
    assert(Seq::new(r@.len(), |i: int| r@[i].0@) =~= names);
    assert forall|i: int| 0 <= i < count implies value_contents(#[trigger] r@[i].1) == all[names[i]] by {
        assert(held[i].deep_view() == all[names[i]]);
    }
    assert(object_of(all)->Object_0 =~= Seq::new(r@.len(), |i: int| (r@[i].0@, value_contents(r@[i].1))));
    r
}

/// A value as `serde_json` has it.
fn to_value(json: &Json) -> (r: serde_json::Value)
    ensures
        value_contents(r) == held(json@),
    decreases json,
{
    match json {
        Json::Null => assemble(Part::Null),
        Json::Bool(b) => assemble(Part::Bool(*b)),
        Json::Number(whole, digits) => match whole {
            Some(n) => assemble(Part::Whole(*n)),
            None => assemble(Part::Number(digits.clone())),
        },
        Json::Text(t) => assemble(Part::Text(t.clone())),
        Json::List(items) => {
            let ghost all = json@->List_0;
            let mut done: Vec<serde_json::Value> = Vec::new();
            let mut i: usize = 0;
            while i < items.len()
                invariant
                    *json == Json::List(*items),
                    json@ == JsonView::List(all),
                    all.len() == items@.len(),
                    i <= items@.len(),
                    done@.len() == i,
                    held_items(all, i as nat).len() == i,
                    forall|k: int| 0 <= k < i ==> value_contents(#[trigger] done@[k]) == held_items(all, i as nat)[k],
                decreases items.len() - i,
            {
                assert(all[i as int] == items@[i as int]@);
                done.push(to_value(&items[i]));
                i += 1;
            }
            assert(Seq::new(done@.len(), |k: int| value_contents(done@[k])) =~= held_items(all, all.len()));
            assemble(Part::List(done))
        },
        Json::Object(members) => {
            let ghost all = json@->Object_0;
            let mut named: TextMap<Held> = TextMap::new();
            let mut i: usize = 0;
            while i < members.len()
                invariant
                    *json == Json::Object(*members),
                    json@ == JsonView::Object(all),
                    all.len() == members@.len(),
                    i <= members@.len(),
                    named@ == held_members(all, i as nat),
                decreases members.len() - i,
            {
                assert(all[i as int] == (members@[i as int].0@, members@[i as int].1@));
                let value = to_value(&members[i].1);
                named.insert(members[i].0.clone(), Held { value });
                i += 1;
            }
            assemble(Part::Object(listed(named)))
        },
    }
}

impl Json {
    /// Writes the compact text of a value.
    pub fn write(&self) -> (r: String)
        ensures
            r@ == written(self@),
    {
        match self {
            Json::Number(_, digits) => digits.clone(),
            _ => write_value(&to_value(self)),
        }
    }
}

impl Json {
    /// A copy of a value.
    pub fn copy(&self) -> (r: Json)
        ensures
            r@ == self@,
        decreases self@,
    {
        match self {
            Json::Null => Json::Null,
            Json::Bool(b) => Json::Bool(*b),
            Json::Number(whole, digits) => Json::Number(*whole, digits.clone()),
            Json::Text(t) => Json::Text(t.clone()),
            Json::List(items) => {
                let mut done: Vec<Json> = Vec::new();
                let mut i: usize = 0;
                while i < items.len()
                    invariant
                        *self == Json::List(*items),
                        i <= items@.len(),
                        done@.len() == i,
                        forall|k: int| 0 <= k < i ==> (#[trigger] done@[k])@ == items@[k]@,
                    decreases items.len() - i,
                {
                    assert(decreases_to!(self@ => self@->List_0));
                    assert(decreases_to!(self@->List_0 => self@->List_0[i as int]));
                    done.push(items[i].copy());
                    i += 1;
                }
                let r = Json::List(done);
                assert(r@->List_0 =~= self@->List_0);
                r
            },
            Json::Object(members) => {
                let mut done: Vec<(String, Json)> = Vec::new();
                let mut i: usize = 0;
                while i < members.len()
                    invariant
                        *self == Json::Object(*members),
                        i <= members@.len(),
                        done@.len() == i,
                        forall|k: int|
                            0 <= k < i ==> (#[trigger] done@[k]).0@ == members@[k].0@ && done@[k].1@ == members@[k].1@,
                    decreases members.len() - i,
                {
                    assert(decreases_to!(self@ => self@->Object_0));
                    assert(decreases_to!(self@->Object_0 => self@->Object_0[i as int]));
                    assert(decreases_to!(self@->Object_0[i as int] => self@->Object_0[i as int].1));
                    done.push((members[i].0.clone(), members[i].1.copy()));
                    i += 1;
                }
                let r = Json::Object(done);
                assert(r@->Object_0 =~= self@->Object_0);
                r
            },
        }
    }
}

impl Clone for Json {
    fn clone(&self) -> (r: Self)
        ensures
            r@ == self@,
    {
        self.copy()
    }
}

impl Duplicate for Json {
    fn duplicate(&self) -> (r: Json) {
        self.copy()
    }
}

/// An object with members, in the order of their names.
pub open spec fn object_of(members: Map<Seq<char>, JsonView>) -> JsonView {
    JsonView::Object(text_map::sorted_keys(members.dom()).map_values(|name: Seq<char>| (name, members[name])))
}

impl Json {
    /// An object with members.
    pub fn object(members: &TextMap<Json>) -> (r: Json)
        ensures
            r@ == object_of(members@),
    {
        let ghost names = text_map::sorted_keys(members@.dom());
        let mut listed: Vec<(String, Json)> = Vec::new();
        let count: usize = members.len();
        let mut i: usize = 0;
        while i < count
            invariant
                names == text_map::sorted_keys(members@.dom()),
                count == names.len(),
                i <= count,
                listed@.len() == i,
                forall|k: int|
                    0 <= k < i ==> (#[trigger] listed@[k]).0@ == names[k] && listed@[k].1@ == members@[names[k]],
            decreases count - i,
        {
            listed.push((members.key_at(i).clone(), members.value_at(i).copy()));
            i += 1;
        }
        let r = Json::Object(listed);
        assert(r@->Object_0 =~= object_of(members@)->Object_0);
        r
    }
}

// ---------------------------------------------------------------- laws

/// Whether a value is tidy: the members of its objects stand in the order of their names, each
/// name once, and its numbers are whole ones with their decimal digits.
pub open spec fn tidy(value: JsonView) -> bool
    decreases value,
{
    match value {
        JsonView::Number(whole, digits) => whole is Some && digits == text::decimal_of(whole->0 as nat),
        JsonView::List(items) => forall|i: int| 0 <= i < items.len() ==> tidy(#[trigger] items[i]),
        JsonView::Object(members) => {
            &&& text_map::strictly_sorted(members.map_values(|m: (Seq<char>, JsonView)| m.0))
            &&& forall|i: int| 0 <= i < members.len() ==> tidy((#[trigger] members[i]).1)
        },
        _ => true,
    }
}

/// A tidy value is written as it is: on its way nothing is reordered, dropped or changed.
pub proof fn tidy_values_are_kept(value: JsonView)
    requires
        tidy(value),
    ensures
        held(value) == value,
        !(value is Number) ==> written(value) == value_text(value),
    decreases value,
{
    match value {
        JsonView::List(items) => {
            assert forall|i: int| 0 <= i < items.len() implies held(#[trigger] items[i]) == items[i] by {
                assert(decreases_to!(value => value->List_0));
                assert(decreases_to!(items => items[i]));
                tidy_values_are_kept(items[i]);
            }
            items_are_kept(items, items.len());
            assert(items.take(items.len() as int) =~= items);
        },
        JsonView::Object(members) => {
            let names = members.map_values(|m: (Seq<char>, JsonView)| m.0);
            assert forall|i: int| 0 <= i < members.len() implies held((#[trigger] members[i]).1) == members[i].1 by {
                assert(decreases_to!(value => value->Object_0));
                assert(decreases_to!(members => members[i]));
                assert(decreases_to!(members[i] => members[i].1));
                tidy_values_are_kept(members[i].1);
            }
            members_are_kept(members, names, members.len());
            let all = held_members(members, members.len());
            assert(all.dom() =~= names.to_set()) by {
                assert forall|name: Seq<char>| names.to_set().contains(name) implies all.contains_key(name) by {
                    let i = choose|i: int| 0 <= i < names.len() && names[i] == name;
                    assert(all[names[i]] == members[i].1);
                }
            }
            text_map::sorted_keys_are(names);
            assert(object_of(all)->Object_0 =~= members);
        },
        _ => {},
    }
}

/// Items that are kept are kept together.
proof fn items_are_kept(items: Seq<JsonView>, count: nat)
    requires
        count <= items.len(),
        forall|i: int| 0 <= i < items.len() ==> held(#[trigger] items[i]) == items[i],
    ensures
        held_items(items, count) == items.take(count as int),
    decreases count,
{
    if count > 0 {
        items_are_kept(items, (count - 1) as nat);
        assert(held(items[count - 1]) == items[count - 1]);
        assert(items.take(count as int) =~= items.take(count - 1).push(items[count - 1]));
    }
}

/// Members that are kept are kept together, under their names.
proof fn members_are_kept(members: Seq<(Seq<char>, JsonView)>, names: Seq<Seq<char>>, count: nat)
    requires
        count <= members.len(),
        names == members.map_values(|m: (Seq<char>, JsonView)| m.0),
        text_map::strictly_sorted(names),
        forall|i: int| 0 <= i < members.len() ==> held((#[trigger] members[i]).1) == members[i].1,
    ensures
        forall|i: int|
            0 <= i < count ==> held_members(members, count).contains_key(#[trigger] names[i]) && held_members(
                members,
                count,
            )[names[i]] == members[i].1,
        forall|name: Seq<char>| #[trigger]
            held_members(members, count).contains_key(name) ==> names.contains(name),
    decreases count,
{
    if count > 0 {
        members_are_kept(members, names, (count - 1) as nat);
        let last = count - 1;
        assert(names[last] == members[last].0);
        assert(held(members[last].1) == members[last].1);
        assert forall|i: int| 0 <= i < count implies held_members(members, count).contains_key(#[trigger] names[i])
            && held_members(members, count)[names[i]] == members[i].1 by {
            if i < last && names[i] == names[last] {
                text_map::strictly_sorted_unique(names, i, last);
            }
        }
        assert forall|name: Seq<char>| #[trigger] held_members(members, count).contains_key(name) implies names.contains(
            name,
        ) by {
            if name != names[last] {
                assert(held_members(members, (count - 1) as nat).contains_key(name));
            }
        }
    }
}

} // verus!
