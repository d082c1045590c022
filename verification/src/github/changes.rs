//! Changes on GitHub: merging pull requests and setting labels.

use crate::actions::MergeMethod;
use crate::github::exchange::{self, ApiRequest, ApiRequestView, ResponsePolicy};
use crate::github::fields;
use crate::github::{PrRef, PrRefView};
use crate::json::{Json, JsonView};
use crate::model::{PrLabel, PrLabelView};
use crate::order;
use crate::text;
use vstd::prelude::*;

verus! {

broadcast use vstd::seq_lib::group_seq_properties;

/// A request that changes something.
pub open spec fn mutation_view(endpoint: Seq<char>, method: Seq<char>, payload: Option<JsonView>) -> ApiRequestView {
    let plain = seq!["api"@, "--hostname"@, "github.com"@, "--method"@, method, endpoint];
    ApiRequestView {
        args: if payload is Some {
            plain.push("--input"@).push("-"@)
        } else {
            plain
        },
        payload,
        policy: ResponsePolicy::Mutation,
    }
}

/// A request that changes something.
fn mutation(endpoint: &str, method: &str, payload: Option<Json>) -> (r: ApiRequest)
    ensures
        r@ == mutation_view(endpoint@, method@, payload.deep_view()),
{
    let mut args = vec![
        "api".to_owned(),
        "--hostname".to_owned(),
        "github.com".to_owned(),
        "--method".to_owned(),
        method.to_owned(),
        endpoint.to_owned(),
    ];
    let ghost plain = seq!["api"@, "--hostname"@, "github.com"@, "--method"@, method@, endpoint@];
    assert(args.deep_view() =~= plain);
    if payload.is_some() {
        args.push("--input".to_owned());
        args.push("-".to_owned());
        assert(args.deep_view() =~= plain.push("--input"@).push("-"@));
    }
    ApiRequest { args, payload, policy: ResponsePolicy::Mutation }
}

// ---------------------------------------------------------------- merging

/// The endpoint that merges a pull request.
pub open spec fn merge_endpoint(pr: PrRefView) -> Seq<char> {
    "repos/"@ + pr.repo + "/pulls/"@ + text::decimal_of(pr.number as nat) + "/merge"@
}

/// The request that merges a pull request at a commit.
pub open spec fn merge_question(pr: PrRefView, head: Seq<char>, method: MergeMethod) -> Result<ApiRequestView, Seq<char>> {
    if head.len() == 0 {
        Err("Cannot merge without a known commit"@)
    } else {
        Ok(
            mutation_view(
                merge_endpoint(pr),
                "PUT"@,
                Some(
                    JsonView::Object(
                        seq![("merge_method"@, JsonView::Text(method.api_text())), ("sha"@, JsonView::Text(head))],
                    ),
                ),
            ),
        )
    }
}

/// Whether an answer says that a pull request was merged.
pub open spec fn merge_answer(answer: JsonView) -> Result<(), Seq<char>> {
    if answer.at("merged"@).truth() == Some(true) {
        Ok(())
    } else {
        Err("GitHub: "@ + exchange::message_of(answer, "Merge was blocked"@))
    }
}

/// The request that merges a pull request at a commit.
pub fn merge_request(pr: &PrRef, head: &str, method: MergeMethod) -> (r: Result<ApiRequest, String>)
    ensures
        fields::result_view(r) == merge_question(pr@, head@, method),
{
    if head.is_empty() {
        return Err("Cannot merge without a known commit".to_owned());
    }
    let start = text::concat3("repos/", &pr.repo, "/pulls/");
    let endpoint = text::concat3(&start, &text::decimal(pr.number), "/merge");
    let payload = Json::Object(
        vec![("merge_method".to_owned(), Json::text(method.api_name())), ("sha".to_owned(), Json::text(head))],
    );
    assert(payload@->Object_0 =~= seq![
        ("merge_method"@, JsonView::Text(method.api_text())),
        ("sha"@, JsonView::Text(head@)),
    ]);
    Ok(mutation(&endpoint, "PUT", Some(payload)))
}

/// Whether an answer says that a pull request was merged.
pub fn read_merge(answer: &Json) -> (r: Result<(), String>)
    ensures
        fields::result_view(r) == merge_answer(answer@),
{
    match answer.at("merged").as_bool() {
        Some(true) => Ok(()),
        _ => Err(text::concat("GitHub: ", &exchange::message(answer, "Merge was blocked"))),
    }
}

// ---------------------------------------------------------------- setting labels

/// The endpoint of the labels of a pull request.
pub open spec fn labels_endpoint(pr: PrRefView) -> Seq<char> {
    "repos/"@ + pr.repo + "/issues/"@ + text::decimal_of(pr.number as nat) + "/labels"@
}

/// What `Url::path` is once `Url::parse` has read an address and `PathSegmentsMut::push` has
/// added a segment to it, where the address has a path that can be added to.
pub uninterp spec fn url_path_with(address: Seq<char>, segment: Seq<char>) -> Option<Seq<char>>;

/// Trusted: `url::Url::parse`, `Url::path_segments_mut`, `PathSegmentsMut::push` and
/// `Url::path`. The path with a segment added, escaped as one segment, is a function of the
/// address and the segment alone.
#[verifier::external_body]
fn path_with(address: &str, segment: &str) -> (r: Option<String>)
    ensures
        r.deep_view() == url_path_with(address@, segment@),
{
    let mut url = url::Url::parse(address).ok()?;
    url.path_segments_mut().ok()?.push(segment);
    Some(url.path().to_owned())
}

/// A text without the slashes at its start.
pub open spec fn without_slashes(t: Seq<char>) -> Seq<char>
    decreases t.len(),
{
    if t.len() > 0 && t[0] == '/' {
        without_slashes(t.drop_first())
    } else {
        t
    }
}

/// A text without the slashes at its start.
fn strip_slashes(t: &str) -> (r: String)
    ensures
        r@ == without_slashes(t@),
{
    let letters = text::chars(t);
    let mut i: usize = 0;
    assert(t@.skip(0) =~= t@);
    while i < letters.len() && letters[i] == '/'
        invariant
            letters@ == t@,
            i <= letters@.len(),
            without_slashes(t@) == without_slashes(t@.skip(i as int)),
        decreases letters.len() - i,
    {
        assert(t@.skip(i as int).drop_first() =~= t@.skip(i + 1));
        i += 1;
    }
    assert(letters@.subrange(i as int, letters@.len() as int) =~= t@.skip(i as int));
    slice_from(&letters, i)
}

/// The text from an index on.
fn slice_from(letters: &Vec<char>, from: usize) -> (r: String)
    requires
        from <= letters@.len(),
    ensures
        r@ == letters@.subrange(from as int, letters@.len() as int),
{
    text::slice(letters, from, letters.len())
}

/// The request that takes a label off, given the escaped path of the label.
pub open spec fn removal_question(path: Option<Seq<char>>) -> Result<ApiRequestView, Seq<char>> {
    match path {
        Some(path) => Ok(mutation_view(without_slashes(path), "DELETE"@, None)),
        None => Err("Invalid label URL"@),
    }
}

/// The request that puts a label on a pull request or takes it off. Only that label is
/// named, so others keep what they are.
pub open spec fn label_question(pr: PrRefView, name: Seq<char>, selected: bool) -> Result<ApiRequestView, Seq<char>> {
    if selected {
        Ok(
            mutation_view(
                labels_endpoint(pr),
                "POST"@,
                Some(JsonView::Object(seq![("labels"@, JsonView::List(seq![JsonView::Text(name)]))])),
            ),
        )
    } else {
        removal_question(url_path_with("https://github.com/"@ + labels_endpoint(pr), name))
    }
}

/// The request that takes a label off, given the escaped path of the label.
pub fn removal_request(path: &Option<String>) -> (r: Result<ApiRequest, String>)
    ensures
        fields::result_view(r) == removal_question(path.deep_view()),
{
    match path {
        Some(path) => Ok(mutation(&strip_slashes(path), "DELETE", None)),
        None => Err("Invalid label URL".to_owned()),
    }
}

/// The request that puts a label on a pull request or takes it off.
pub fn label_request(pr: &PrRef, name: &str, selected: bool) -> (r: Result<ApiRequest, String>)
    ensures
        fields::result_view(r) == label_question(pr@, name@, selected),
{
    let start = text::concat3("repos/", &pr.repo, "/issues/");
    let endpoint = text::concat3(&start, &text::decimal(pr.number), "/labels");
    if selected {
        let list = Json::List(vec![Json::text(name)]);
        assert(list@->List_0 =~= seq![JsonView::Text(name@)]);
        let payload = Json::Object(vec![("labels".to_owned(), list)]);
        assert(payload@->Object_0 =~= seq![("labels"@, JsonView::List(seq![JsonView::Text(name@)]))]);
        Ok(mutation(&endpoint, "POST", Some(payload)))
    } else {
        removal_request(&path_with(&text::concat("https://github.com/", &endpoint), name))
    }
}

// ---------------------------------------------------------------- the labels of a repository

/// The color of a label that has none.
pub const DEFAULT_COLOR: &'static str = "808080";

/// The label that an entry describes.
pub open spec fn entry_label(entry: JsonView) -> Result<PrLabelView, Seq<char>> {
    match entry.at("name"@).str() {
        None => Err("Missing label name"@),
        Some(name) => Ok(
            PrLabelView {
                name,
                color: match entry.at("color"@).str() {
                    Some(color) => color,
                    None => DEFAULT_COLOR@,
                },
            },
        ),
    }
}

/// The labels that entries describe, or the first fault.
pub open spec fn entry_labels(entries: Seq<JsonView>) -> Result<Seq<PrLabelView>, Seq<char>>
    decreases entries.len(),
{
    if entries.len() == 0 {
        Ok(Seq::empty())
    } else {
        match entry_labels(entries.drop_last()) {
            Err(message) => Err(message),
            Ok(before) => match entry_label(entries.last()) {
                Err(message) => Err(message),
                Ok(label) => Ok(before.push(label)),
            },
        }
    }
}

/// The keys by which labels are ordered: their names in lower case.
pub open spec fn label_keys(labels: Seq<PrLabelView>) -> Seq<Seq<char>> {
    labels.map_values(|l: PrLabelView| text::unicode_lowercase(l.name))
}

/// The labels of a repository in the order in which they are offered.
pub open spec fn catalogue_of(entries: Seq<JsonView>) -> Result<Seq<PrLabelView>, Seq<char>> {
    match entry_labels(entries) {
        Err(message) => Err(message),
        Ok(labels) => Ok(order::ordered(labels, label_keys(labels), order::text_order())),
    }
}

/// The contents of a [`LabelFetch`].
#[verifier::ext_equal]
pub struct LabelFetchView {
    pub repo: Seq<char>,
    pub page: u64,
    pub entries: Seq<JsonView>,
    pub done: bool,
}

impl LabelFetchView {
    /// The next question, unless everything has been read.
    pub open spec fn question(self) -> Option<ApiRequestView> {
        if self.done {
            None
        } else {
            Some(
                fields::rest_view(
                    "repos/"@ + self.repo + "/labels?per_page=100&page="@ + text::decimal_of(self.page as nat),
                ),
            )
        }
    }

    /// A page of labels has come.
    pub open spec fn after(self, answer: JsonView) -> Result<LabelFetchView, Seq<char>> {
        match answer.list() {
            None => Err("GitHub returned invalid labels"@),
            Some(labels) => Ok(
                LabelFetchView {
                    entries: self.entries + labels,
                    done: labels.len() < 100,
                    page: crate::github::details::next_page(self.page),
                    ..self
                },
            ),
        }
    }
}

/// A fetch of the labels that a repository has.
pub struct LabelFetch {
    repo: String,
    page: u64,
    entries: Vec<Json>,
    done: bool,
}

impl View for LabelFetch {
    type V = LabelFetchView;

    closed spec fn view(&self) -> LabelFetchView {
        LabelFetchView { repo: self.repo@, page: self.page, entries: self.entries.deep_view(), done: self.done }
    }
}

impl DeepView for LabelFetch {
    type V = LabelFetchView;

    open spec fn deep_view(&self) -> LabelFetchView {
        self@
    }
}

impl LabelFetch {
    /// Starts a fetch.
    pub fn new(repo: &str) -> (r: LabelFetch)
        ensures
            r@ == (LabelFetchView { repo: repo@, page: 1, entries: Seq::empty(), done: false }),
    {
        let r = LabelFetch { repo: repo.to_owned(), page: 1, entries: Vec::new(), done: false };
        assert(r.entries.deep_view() =~= Seq::empty());
        r
    }

    /// The next question, unless everything has been read.
    pub fn request(&self) -> (r: Option<ApiRequest>)
        ensures
            r.deep_view() == self@.question(),
    {
        if self.done {
            return None;
        }
        let start = text::concat3("repos/", &self.repo, "/labels?per_page=100&page=");
        Some(fields::rest(&text::concat(&start, &text::decimal(self.page))))
    }

    /// A page of labels has come.
    pub fn accept(self, answer: &Json) -> (r: Result<LabelFetch, String>)
        ensures
            fields::result_view(r) == self@.after(answer@),
    {
        let values = match answer.as_array() {
            Some(values) => values,
            None => {
                return Err("GitHub returned invalid labels".to_owned());
            },
        };
        let ghost v = values.deep_view();
        let ghost was = self@;
        let mut entries = self.entries;
        let mut i: usize = 0;
        while i < values.len()
            invariant
                v == values.deep_view(),
                i <= values@.len(),
                entries.deep_view() =~= was.entries + v.take(i as int),
            decreases values.len() - i,
        {
            let ghost done = entries.deep_view();
            entries.push(values[i].clone());
            assert(v[i as int] == values@[i as int]@);
            assert(entries.deep_view() =~= done.push(v[i as int]));
            i += 1;
        }
        assert(v.take(i as int) =~= v);
        Ok(
            LabelFetch {
                repo: self.repo,
                page: self.page.saturating_add(1),
                entries,
                done: values.len() < 100,
            },
        )
    }

    /// The labels that were read, in the order in which they are offered.
    pub fn finish(self) -> (r: Result<Vec<PrLabel>, String>)
        ensures
            fields::result_view(r) == catalogue_of(self@.entries),
    {
        read_catalogue(&self.entries)
    }
}

/// A fault in some entries is the fault of all of them.
proof fn entry_faults_stay(entries: Seq<JsonView>, i: int)
    requires
        0 <= i <= entries.len(),
        entry_labels(entries.take(i)) is Err,
    ensures
        entry_labels(entries) == entry_labels(entries.take(i)),
    decreases entries.len() - i,
{
    if i < entries.len() {
        assert(entries.take(i + 1).drop_last() =~= entries.take(i));
        entry_faults_stay(entries, i + 1);
    } else {
        assert(entries.take(i) =~= entries);
    }
}

/// The labels that entries describe, in the order in which they are offered.
pub fn read_catalogue(entries: &Vec<Json>) -> (r: Result<Vec<PrLabel>, String>)
    ensures
        fields::result_view(r) == catalogue_of(entries.deep_view()),
{
    let ghost v = entries.deep_view();
    let mut labels: Vec<PrLabel> = Vec::new();
    let mut keys: Vec<String> = Vec::new();
    let mut i: usize = 0;
    assert(labels.deep_view() =~= Seq::empty());
    while i < entries.len()
        invariant
            v == entries.deep_view(),
            i <= entries@.len(),
            entry_labels(v.take(i as int)) == Ok::<Seq<PrLabelView>, Seq<char>>(labels.deep_view()),
            keys.deep_view() =~= label_keys(labels.deep_view()),
            keys@.len() == labels@.len(),
        decreases entries.len() - i,
    {
        let entry = &entries[i];
        assert(v.take(i + 1).drop_last() =~= v.take(i as int));
        assert(v.take(i + 1).last() == entry@);
        let name = match entry.at("name").as_str() {
            Some(name) => name,
            None => {
                proof {
                    entry_faults_stay(v, i + 1);
                }
                return Err("Missing label name".to_owned());
            },
        };
        let color = match entry.at("color").as_str() {
            Some(color) => color,
            None => DEFAULT_COLOR,
        };
        let ghost listed = labels.deep_view();
        let ghost named = keys.deep_view();
        let label = PrLabel { name: name.to_owned(), color: color.to_owned() };
        let ghost new = label@;
        let key = text::lowercase(name);
        let ghost small = key@;
        labels.push(label);
        keys.push(key);
        assert(labels.deep_view() =~= listed.push(new));
        assert(keys.deep_view() =~= named.push(small));
        i += 1;
    }
    assert(v.take(i as int) =~= v);
    Ok(order::order(&labels, &keys))
}

// ---------------------------------------------------------------- laws

/// A merge names the commit that it is about, and none is made without one.
pub proof fn merges_name_their_commit(pr: PrRefView, head: Seq<char>, method: MergeMethod)
    ensures
        merge_question(pr, head, method) is Ok <==> head.len() > 0,
        merge_question(pr, head, method) is Ok ==> merge_question(pr, head, method)->Ok_0.payload is Some && merge_question(
            pr,
            head,
            method,
        )->Ok_0.payload->0.at("sha"@).str() == Some(head),
{
    reveal_with_fuel(crate::json::member_of, 3);
    reveal_strlit("merge_method");
    reveal_strlit("sha");
    if head.len() > 0 {
        let members = seq![("merge_method"@, JsonView::Text(method.api_text())), ("sha"@, JsonView::Text(head))];
        assert("merge_method"@.len() != "sha"@.len());
        assert(members.drop_first() =~= seq![("sha"@, JsonView::Text(head))]);
        assert(members.drop_first()[0].0 == "sha"@);
    }
}

} // verus!
