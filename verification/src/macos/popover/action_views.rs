//! The actions of a pull request, and the panels that are shown in place of the list.

use crate::actions;
use crate::actions::{
    ActionState, ActionStateView, Condition, Kind, Label, LabelView, Labels, LabelsView, MergeMethod, MergeProgress,
    Preferences, Request, RequestView, Setting,
};
use crate::macos;
use crate::macos::keyboard;
use crate::macos::popover::settings::{SettingsEditor, SettingsEditorView};
use crate::macos::popover::{Press, PressView};
use crate::macos::updates;
use crate::macos::{repo_heading, Action, ActionView};
use crate::model::{PullRequest, PullRequestView};
use crate::text;
use crate::text_map::Duplicate;
use vstd::prelude::*;

verus! {

// ---------------------------------------------------------------- actions

/// The actions of a pull request: a menu, or a button that cancels a merge.
#[derive(Debug)]
pub struct PrActions {
    /// Whether the menu is open.
    pub tracking: bool,
    pub menu_hidden: bool,
    pub cancel_hidden: bool,
    pub cancel_enabled: bool,
    pub cancel_title: String,
    pub merge_hidden: bool,
    pub merge_enabled: bool,
    pub labels_hidden: bool,
    pub labels_enabled: bool,
    pub separator_hidden: bool,
    pub configure: Press,
    pub merge: Press,
    pub labels: Press,
    pub ignore: Press,
    pub cancel: Press,
}

/// The contents of [`PrActions`].
#[verifier::ext_equal]
pub struct PrActionsView {
    pub tracking: bool,
    pub menu_hidden: bool,
    pub cancel_hidden: bool,
    pub cancel_enabled: bool,
    pub cancel_title: Seq<char>,
    pub merge_hidden: bool,
    pub merge_enabled: bool,
    pub labels_hidden: bool,
    pub labels_enabled: bool,
    pub separator_hidden: bool,
    pub configure: PressView,
    pub merge: PressView,
    pub labels: PressView,
    pub ignore: PressView,
    pub cancel: PressView,
}

impl View for PrActions {
    type V = PrActionsView;

    open spec fn view(&self) -> PrActionsView {
        PrActionsView {
            tracking: self.tracking,
            menu_hidden: self.menu_hidden,
            cancel_hidden: self.cancel_hidden,
            cancel_enabled: self.cancel_enabled,
            cancel_title: self.cancel_title@,
            merge_hidden: self.merge_hidden,
            merge_enabled: self.merge_enabled,
            labels_hidden: self.labels_hidden,
            labels_enabled: self.labels_enabled,
            separator_hidden: self.separator_hidden,
            configure: self.configure@,
            merge: self.merge@,
            labels: self.labels@,
            ignore: self.ignore@,
            cancel: self.cancel@,
        }
    }
}

impl DeepView for PrActions {
    type V = PrActionsView;

    open spec fn deep_view(&self) -> PrActionsView {
        self@
    }
}

impl Clone for PrActions {
    fn clone(&self) -> (r: Self)
        ensures
            r@ == self@,
    {
        PrActions {
            tracking: self.tracking,
            menu_hidden: self.menu_hidden,
            cancel_hidden: self.cancel_hidden,
            cancel_enabled: self.cancel_enabled,
            cancel_title: self.cancel_title.clone(),
            merge_hidden: self.merge_hidden,
            merge_enabled: self.merge_enabled,
            labels_hidden: self.labels_hidden,
            labels_enabled: self.labels_enabled,
            separator_hidden: self.separator_hidden,
            configure: self.configure.clone(),
            merge: self.merge.clone(),
            labels: self.labels.clone(),
            ignore: self.ignore.clone(),
            cancel: self.cancel.clone(),
        }
    }
}

impl Duplicate for PrActions {
    fn duplicate(&self) -> (r: PrActions) {
        self.clone()
    }
}

/// What merges a pull request: exactly the commit and the update that are shown.
pub open spec fn merge_press(pr: PullRequestView) -> PressView {
    PressView::PrAction(
        RequestView::Merge { pr: pr.snapshot.id, head: pr.snapshot.head, update: pr.update_id },
    )
}

/// Whether a merge is under way or done.
pub open spec fn occupied(state: ActionStateView, id: Seq<char>) -> bool {
    state.merges.contains_key(id) && (state.merges[id].is_busy() || state.merges[id] is Complete)
}

/// The title of the button that cancels a merge.
pub open spec fn cancel_title_of(state: ActionStateView, id: Seq<char>) -> Seq<char> {
    if !state.merges.contains_key(id) {
        "Cancel (5s)"@
    } else if state.merges[id] is Checking {
        "Cancel (checking…)"@
    } else {
        state.merges[id].shown()
    }
}

impl PrActionsView {
    /// The actions of a pull request that is shown for the first time.
    pub open spec fn initial(pr: PullRequestView) -> PrActionsView {
        PrActionsView {
            tracking: false,
            menu_hidden: false,
            cancel_hidden: true,
            cancel_enabled: true,
            cancel_title: "Cancel (5s)"@,
            merge_hidden: false,
            merge_enabled: true,
            labels_hidden: false,
            labels_enabled: true,
            separator_hidden: false,
            configure: PressView::PopoverAction(ActionView::ConfigureRepo(pr.snapshot.repo)),
            merge: merge_press(pr),
            labels: PressView::PopoverAction(ActionView::Labels(pr.snapshot.id)),
            ignore: PressView::PopoverAction(ActionView::Ignore(pr.snapshot.id)),
            cancel: PressView::PrAction(RequestView::CancelMerge(pr.snapshot.id)),
        }
    }

    /// The actions after something has changed. While the menu is open they stay as the user
    /// sees them.
    pub open spec fn updated(self, pr: PullRequestView, ignored: bool, state: ActionStateView) -> PrActionsView {
        if self.tracking {
            self
        } else {
            let id = pr.snapshot.id;
            let busy = occupied(state, id);
            let preferences = state.preferences_of(pr.snapshot.repo);
            PrActionsView {
                menu_hidden: ignored || busy,
                cancel_hidden: ignored || !busy,
                cancel_enabled: state.merges.contains_key(id) && (state.merges[id] is Countdown
                    || state.merges[id] is Checking),
                cancel_title: cancel_title_of(state, id),
                merge_hidden: !preferences.merge.enabled,
                merge_enabled: preferences.allowed(Kind::Merge, pr) && !busy,
                labels_hidden: !preferences.label.enabled,
                labels_enabled: preferences.allowed(Kind::Label, pr),
                separator_hidden: !preferences.merge.enabled && !preferences.label.enabled,
                configure: PressView::PopoverAction(ActionView::ConfigureRepo(pr.snapshot.repo)),
                merge: merge_press(pr),
                ..self
            }
        }
    }
}

/// What merges a pull request.
fn merge_request(pr: &PullRequest) -> (r: Press)
    ensures
        r@ == merge_press(pr@),
{
    Press::PrAction(
        Request::Merge {
            pr: pr.snapshot.id.clone(),
            head: pr.snapshot.head.clone(),
            update: pr.update_id.clone(),
        },
    )
}

impl PrActions {
    /// The actions of a pull request that is shown for the first time.
    pub fn new(pr: &PullRequest) -> (r: Self)
        ensures
            r@ == PrActionsView::initial(pr@),
    {
        PrActions {
            tracking: false,
            menu_hidden: false,
            cancel_hidden: true,
            cancel_enabled: true,
            cancel_title: "Cancel (5s)".to_owned(),
            merge_hidden: false,
            merge_enabled: true,
            labels_hidden: false,
            labels_enabled: true,
            separator_hidden: false,
            configure: Press::PopoverAction(Action::ConfigureRepo(pr.snapshot.repo.clone())),
            merge: merge_request(pr),
            labels: Press::PopoverAction(Action::Labels(pr.snapshot.id.clone())),
            ignore: Press::PopoverAction(Action::Ignore(pr.snapshot.id.clone())),
            cancel: Press::PrAction(Request::CancelMerge(pr.snapshot.id.clone())),
        }
    }

    /// Something has changed.
    pub fn update(&mut self, pr: &PullRequest, ignored: bool, state: &ActionState)
        ensures
            final(self)@ == old(self)@.updated(pr@, ignored, state@),
    {
        if self.is_tracking() {
            return;
        }
        let progress = state.merges.get(&pr.snapshot.id);
        let busy = match progress {
            Some(progress) => progress.busy() || matches!(progress, MergeProgress::Complete),
            None => false,
        };
        self.menu_hidden = ignored || busy;
        self.cancel_hidden = ignored || !busy;
        self.cancel_enabled = match progress {
            Some(MergeProgress::Countdown(_)) | Some(MergeProgress::Checking) => true,
            _ => false,
        };
        self.cancel_title = match progress {
            None => "Cancel (5s)".to_owned(),
            Some(MergeProgress::Checking) => "Cancel (checking…)".to_owned(),
            Some(progress) => progress.text(),
        };
        let preferences = state.preferences(&pr.snapshot.repo);
        self.merge_hidden = !preferences.merge.enabled;
        self.labels_hidden = !preferences.label.enabled;
        self.separator_hidden = !preferences.merge.enabled && !preferences.label.enabled;
        self.merge_enabled = preferences.allows(Kind::Merge, pr) && !busy;
        self.labels_enabled = preferences.allows(Kind::Label, pr);
        self.configure = Press::PopoverAction(Action::ConfigureRepo(pr.snapshot.repo.clone()));
        self.merge = merge_request(pr);
    }

    /// Whether the menu is open.
    pub fn is_tracking(&self) -> (r: bool)
        ensures
            r == self@.tracking,
    {
        self.tracking
    }
}

// ---------------------------------------------------------------- configuration

/// A choice of a list.
#[derive(Debug)]
pub struct Choice {
    pub title: String,
    pub press: Press,
}

/// The contents of a [`Choice`].
#[verifier::ext_equal]
pub struct ChoiceView {
    pub title: Seq<char>,
    pub press: PressView,
}

impl View for Choice {
    type V = ChoiceView;

    open spec fn view(&self) -> ChoiceView {
        ChoiceView {
            title: self.title@,
            press: self.press@,
        }
    }
}

impl DeepView for Choice {
    type V = ChoiceView;

    open spec fn deep_view(&self) -> ChoiceView {
        self@
    }
}

/// The settings of one action.
#[derive(Debug)]
pub struct ConfigRow {
    pub kind: Kind,
    pub enabled: bool,
    /// The place of the chosen condition.
    pub condition: usize,
    /// The place of the chosen merge method, where there is a choice.
    pub method: Option<usize>,
}

/// The contents of a [`ConfigRow`].
#[verifier::ext_equal]
pub struct ConfigRowView {
    pub kind: Kind,
    pub enabled: bool,
    pub condition: usize,
    pub method: Option<usize>,
}

impl View for ConfigRow {
    type V = ConfigRowView;

    open spec fn view(&self) -> ConfigRowView {
        ConfigRowView {
            kind: self.kind,
            enabled: self.enabled,
            condition: self.condition,
            method: self.method,
        }
    }
}

impl DeepView for ConfigRow {
    type V = ConfigRowView;

    open spec fn deep_view(&self) -> ConfigRowView {
        self@
    }
}

/// The panel that configures the actions of a repository.
#[derive(Debug)]
pub struct ConfigEditor {
    pub repo: String,
    pub rows: Vec<ConfigRow>,
}

/// The contents of a [`ConfigEditor`].
#[verifier::ext_equal]
pub struct ConfigEditorView {
    pub repo: Seq<char>,
    pub rows: Seq<ConfigRowView>,
}

impl View for ConfigEditor {
    type V = ConfigEditorView;

    open spec fn view(&self) -> ConfigEditorView {
        ConfigEditorView {
            repo: self.repo@,
            rows: self.rows.deep_view(),
        }
    }
}

impl DeepView for ConfigEditor {
    type V = ConfigEditorView;

    open spec fn deep_view(&self) -> ConfigEditorView {
        self@
    }
}

/// The place of a condition in the list.
pub open spec fn condition_place(condition: Condition) -> usize {
    match condition {
        Condition::Always => 0,
        Condition::Reviewing => 1,
        Condition::Comments => 2,
        Condition::Approved => 3,
    }
}

/// The place of a merge method in the list.
pub open spec fn method_place(method: MergeMethod) -> usize {
    match method {
        MergeMethod::Merge => 0,
        MergeMethod::Squash => 1,
        MergeMethod::Rebase => 2,
    }
}

/// The settings of an action.
pub open spec fn config_row(kind: Kind, preferences: Preferences) -> ConfigRowView {
    ConfigRowView {
        kind,
        enabled: preferences.rule_of(kind).enabled,
        condition: condition_place(preferences.rule_of(kind).condition),
        method: if kind == Kind::Merge {
            Some(method_place(preferences.merge_method))
        } else {
            None
        },
    }
}

/// What changes a setting of a repository.
pub open spec fn configure_press(repo: Seq<char>, change: Setting) -> PressView {
    PressView::PrAction(RequestView::Configure { repo, change })
}

impl ConfigEditorView {
    /// The panel of a repository with its preferences.
    pub open spec fn showing(repo: Seq<char>, preferences: Preferences) -> ConfigEditorView {
        ConfigEditorView {
            repo,
            rows: seq![config_row(Kind::Merge, preferences), config_row(Kind::Label, preferences)],
        }
    }

    /// The choices of a condition.
    pub open spec fn conditions(self, kind: Kind) -> Seq<ChoiceView> {
        Condition::ALL@.map_values(
            |condition: Condition|
                ChoiceView {
                    title: condition.label_text(),
                    press: configure_press(self.repo, Setting::Condition(kind, condition)),
                },
        )
    }

    /// The choices of a merge method.
    pub open spec fn methods(self) -> Seq<ChoiceView> {
        MergeMethod::ALL@.map_values(
            |method: MergeMethod|
                ChoiceView {
                    title: method.label_text(),
                    press: configure_press(self.repo, Setting::MergeMethod(method)),
                },
        )
    }
}

/// The settings of an action.
fn make_row(kind: Kind, preferences: &Preferences) -> (r: ConfigRow)
    ensures
        r@ == config_row(kind, *preferences),
{
    let rule = preferences.rule(kind);
    let condition: usize = match rule.condition {
        Condition::Always => 0,
        Condition::Reviewing => 1,
        Condition::Comments => 2,
        Condition::Approved => 3,
    };
    let method: usize = match preferences.merge_method {
        MergeMethod::Merge => 0,
        MergeMethod::Squash => 1,
        MergeMethod::Rebase => 2,
    };
    ConfigRow {
        kind,
        enabled: rule.enabled,
        condition,
        method: if kind == Kind::Merge {
            Some(method)
        } else {
            None
        },
    }
}

/// The settings of both actions.
fn make_rows(preferences: &Preferences) -> (r: Vec<ConfigRow>)
    ensures
        r.deep_view() == seq![config_row(Kind::Merge, *preferences), config_row(Kind::Label, *preferences)],
{
    let mut rows: Vec<ConfigRow> = Vec::new();
    rows.push(make_row(Kind::Merge, preferences));
    rows.push(make_row(Kind::Label, preferences));
    assert(rows.deep_view() =~= seq![config_row(Kind::Merge, *preferences), config_row(Kind::Label, *preferences)]);
    rows
}

impl ConfigEditor {
    /// The panel of a repository.
    pub fn new(repo: &str) -> (r: Self)
        ensures
            r@ == ConfigEditorView::showing(repo@, Preferences::initial()),
    {
        ConfigEditor { repo: repo.to_owned(), rows: make_rows(&Preferences::default()) }
    }

    /// Something has changed.
    pub fn update(&mut self, state: &ActionState)
        ensures
            final(self)@ == ConfigEditorView::showing(old(self)@.repo, state@.preferences_of(old(self)@.repo)),
    {
        let preferences = state.preferences(&self.repo);
        self.rows = make_rows(&preferences);
    }

    /// What switches an action on or off; which of the two, the control says.
    pub fn switch(&self, kind: Kind) -> (r: Press)
        ensures
            r@ == configure_press(self@.repo, Setting::Enabled(kind, false)),
    {
        Press::PrAction(Request::Configure { repo: self.repo.clone(), change: Setting::Enabled(kind, false) })
    }

    /// The choices of a condition.
    pub fn condition_choices(&self, kind: Kind) -> (r: Vec<Choice>)
        ensures
            r.deep_view() == self@.conditions(kind),
    {
        let all = Condition::ALL;
        let mut choices: Vec<Choice> = Vec::new();
        let mut i: usize = 0;
        while i < 4
            invariant
                i <= 4,
                all@ == Condition::ALL@,
                choices@.len() == i,
                forall|k: int| 0 <= k < i ==> (#[trigger] choices@[k])@ == self@.conditions(kind)[k],
            decreases 4 - i,
        {
            let condition = all[i];
            choices.push(
                Choice {
                    title: condition.label().to_owned(),
                    press: Press::PrAction(
                        Request::Configure { repo: self.repo.clone(), change: Setting::Condition(kind, condition) },
                    ),
                },
            );
            i += 1;
        }
        assert(choices.deep_view() =~= self@.conditions(kind));
        choices
    }

    /// The choices of a merge method.
    pub fn method_choices(&self) -> (r: Vec<Choice>)
        ensures
            r.deep_view() == self@.methods(),
    {
        let all = MergeMethod::ALL;
        let mut choices: Vec<Choice> = Vec::new();
        let mut i: usize = 0;
        while i < 3
            invariant
                i <= 3,
                all@ == MergeMethod::ALL@,
                choices@.len() == i,
                forall|k: int| 0 <= k < i ==> (#[trigger] choices@[k])@ == self@.methods()[k],
            decreases 3 - i,
        {
            let method = all[i];
            choices.push(
                Choice {
                    title: method.label().to_owned(),
                    press: Press::PrAction(
                        Request::Configure { repo: self.repo.clone(), change: Setting::MergeMethod(method) },
                    ),
                },
            );
            i += 1;
        }
        assert(choices.deep_view() =~= self@.methods());
        choices
    }
}

// ---------------------------------------------------------------- labels

/// The color where a label has none that can be shown.
pub const GREY: u32 = 0x808080;

/// The color of a label.
pub open spec fn color_of(hex: Seq<char>) -> u32 {
    match text::hex_number_of(hex) {
        Some(color) => if hex.len() == 6 {
            color
        } else {
            GREY
        },
        None => GREY,
    }
}

/// The color of a label: six hexadecimal digits.
pub fn label_color(hex: &str) -> (r: u32)
    ensures
        r == color_of(hex@),
{
    let letters = text::chars(hex);
    match text::parse_hex(hex) {
        Some(color) => if letters.len() == 6 {
            color
        } else {
            GREY
        },
        None => GREY,
    }
}

/// A label that may be chosen.
#[derive(Debug)]
pub struct LabelRow {
    pub name: String,
    pub color: u32,
    pub selected: bool,
    pub enabled: bool,
    pub press: Press,
}

/// The contents of a [`LabelRow`].
#[verifier::ext_equal]
pub struct LabelRowView {
    pub name: Seq<char>,
    pub color: u32,
    pub selected: bool,
    pub enabled: bool,
    pub press: PressView,
}

impl View for LabelRow {
    type V = LabelRowView;

    open spec fn view(&self) -> LabelRowView {
        LabelRowView {
            name: self.name@,
            color: self.color,
            selected: self.selected,
            enabled: self.enabled,
            press: self.press@,
        }
    }
}

impl DeepView for LabelRow {
    type V = LabelRowView;

    open spec fn deep_view(&self) -> LabelRowView {
        self@
    }
}

/// The panel that chooses the labels of a pull request.
#[derive(Debug)]
pub struct LabelPicker {
    pub id: String,
    pub title: String,
    pub message: String,
    pub refresh_enabled: bool,
    pub rows: Vec<LabelRow>,
}

/// The contents of a [`LabelPicker`].
#[verifier::ext_equal]
pub struct LabelPickerView {
    pub id: Seq<char>,
    pub title: Seq<char>,
    pub message: Seq<char>,
    pub refresh_enabled: bool,
    pub rows: Seq<LabelRowView>,
}

impl View for LabelPicker {
    type V = LabelPickerView;

    open spec fn view(&self) -> LabelPickerView {
        LabelPickerView {
            id: self.id@,
            title: self.title@,
            message: self.message@,
            refresh_enabled: self.refresh_enabled,
            rows: self.rows.deep_view(),
        }
    }
}

impl DeepView for LabelPicker {
    type V = LabelPickerView;

    open spec fn deep_view(&self) -> LabelPickerView {
        self@
    }
}

/// The first pull request with an identity.
pub open spec fn found(prs: Seq<PullRequestView>, id: Seq<char>) -> Option<PullRequestView>
    decreases prs.len(),
{
    if prs.len() == 0 {
        None
    } else if prs[0].snapshot.id == id {
        Some(prs[0])
    } else {
        found(prs.drop_first(), id)
    }
}

/// The first pull request with an identity.
pub fn find<'a>(prs: &'a Vec<PullRequest>, id: &str) -> (r: Option<&'a PullRequest>)
    ensures
        match r {
            Some(pr) => found(prs.deep_view(), id@) == Some(pr@),
            None => found(prs.deep_view(), id@) is None,
        },
{
    let ghost v = prs.deep_view();
    let mut i: usize = 0;
    assert(v.skip(0) =~= v);
    while i < prs.len()
        invariant
            v == prs.deep_view(),
            i <= prs@.len(),
            found(v, id@) == found(v.skip(i as int), id@),
        decreases prs.len() - i,
    {
        assert(v.skip(i as int)[0] == prs@[i as int]@);
        assert(v.skip(i as int).drop_first() =~= v.skip(i + 1));
        if text::same(&prs[i].snapshot.id, id) {
            return Some(&prs[i]);
        }
        i += 1;
    }
    None
}

/// The labels of a pull request as far as they are known.
pub open spec fn labels_of(state: ActionStateView, id: Seq<char>) -> LabelsView {
    if state.labels.contains_key(id) {
        state.labels[id]
    } else {
        LabelsView::blank()
    }
}

/// Whether labels may be changed.
pub open spec fn labels_allowed(prs: Seq<PullRequestView>, state: ActionStateView, id: Seq<char>) -> bool {
    match found(prs, id) {
        Some(pr) => state.preferences_of(pr.snapshot.repo).allowed(Kind::Label, pr),
        None => false,
    }
}

/// What the panel says of labels.
pub open spec fn labels_message(labels: LabelsView, allowed: bool) -> Seq<char> {
    match labels.error {
        Some(message) => message,
        None => if !allowed {
            "Label action unavailable for this PR's current state."@
        } else if labels.loading {
            "Loading labels…"@
        } else if labels.pending.len() != 0 {
            "Saving label changes…"@
        } else if labels.items.len() == 0 {
            "This repository has no labels."@
        } else {
            "Toggle labels to add or remove them."@
        },
    }
}

/// A label that may be chosen.
pub open spec fn label_row(id: Seq<char>, item: LabelView, labels: LabelsView, allowed: bool) -> LabelRowView {
    LabelRowView {
        name: item.name,
        color: color_of(item.color),
        selected: item.selected,
        enabled: allowed && !labels.loading && !labels.pending.contains(item.name),
        press: PressView::PrAction(RequestView::Label { pr: id, name: item.name, selected: !item.selected }),
    }
}

impl LabelPickerView {
    /// The panel after something has changed.
    pub open spec fn updated(self, prs: Seq<PullRequestView>, state: ActionStateView) -> LabelPickerView {
        let labels = labels_of(state, self.id);
        let allowed = labels_allowed(prs, state, self.id);
        LabelPickerView {
            message: labels_message(labels, allowed),
            refresh_enabled: allowed && !labels.loading && labels.pending.len() == 0,
            rows: labels.items.map_values(|item: LabelView| label_row(self.id, item, labels, allowed)),
            ..self
        }
    }
}

impl LabelPicker {
    /// The panel of a pull request.
    pub fn new(pr: &PullRequest) -> (r: Self)
        ensures
            r@ == (LabelPickerView {
                id: pr@.snapshot.id,
                title: "Labels #"@ + text::decimal_of(pr@.snapshot.number as nat) + " · "@ + macos::heading_of(
                    pr@.snapshot.repo,
                ),
                message: "Loading labels…"@,
                refresh_enabled: true,
                rows: Seq::empty(),
            }),
    {
        let rows: Vec<LabelRow> = Vec::new();
        assert(rows.deep_view() =~= Seq::empty());
        let number = text::concat3("Labels #", &text::decimal(pr.snapshot.number), " · ");
        LabelPicker {
            id: pr.snapshot.id.clone(),
            title: text::concat(&number, &repo_heading(&pr.snapshot.repo)),
            message: "Loading labels…".to_owned(),
            refresh_enabled: true,
            rows,
        }
    }

    /// What reloads the labels.
    pub fn refresh(&self) -> (r: Press)
        ensures
            r@ == PressView::PrAction(RequestView::LoadLabels(self@.id)),
    {
        Press::PrAction(Request::LoadLabels(self.id.clone()))
    }

    /// Something has changed.
    pub fn update(&mut self, prs: &Vec<PullRequest>, state: &ActionState)
        ensures
            final(self)@ == old(self)@.updated(prs.deep_view(), state@),
    {
        let labels = match state.labels.get(&self.id) {
            Some(labels) => labels.clone(),
            None => Labels::default(),
        };
        let allowed = match find(prs, &self.id) {
            Some(pr) => state.preferences(&pr.snapshot.repo).allows(Kind::Label, pr),
            None => false,
        };
        let idle = labels.pending.len() == 0;
        self.refresh_enabled = allowed && !labels.loading && idle;
        self.message = match &labels.error {
            Some(message) => message.clone(),
            None => if !allowed {
                "Label action unavailable for this PR's current state.".to_owned()
            } else if labels.loading {
                "Loading labels…".to_owned()
            } else if !idle {
                "Saving label changes…".to_owned()
            } else if labels.items.len() == 0 {
                "This repository has no labels.".to_owned()
            } else {
                "Toggle labels to add or remove them.".to_owned()
            },
        };
        let mut rows: Vec<LabelRow> = Vec::new();
        let ghost all = labels@.items.map_values(|item: LabelView| label_row(self@.id, item, labels@, allowed));
        let mut i: usize = 0;
        while i < labels.items.len()
            invariant
                i <= labels.items@.len(),
                rows@.len() == i,
                all == labels@.items.map_values(|item: LabelView| label_row(self@.id, item, labels@, allowed)),
                forall|k: int| 0 <= k < i ==> (#[trigger] rows@[k])@ == all[k],
            decreases labels.items.len() - i,
        {
            let item = &labels.items[i];
            assert(labels@.items[i as int] == item@);
            rows.push(
                LabelRow {
                    name: item.name.clone(),
                    color: label_color(&item.color),
                    selected: item.selected,
                    enabled: allowed && !labels.loading && !labels.pending.contains_key(&item.name),
                    press: Press::PrAction(
                        Request::Label {
                            pr: self.id.clone(),
                            name: item.name.clone(),
                            selected: !item.selected,
                        },
                    ),
                },
            );
            i += 1;
        }
        assert(rows.deep_view() =~= all);
        self.rows = rows;
    }
}

// ---------------------------------------------------------------- panels

/// A panel that is shown in place of the list.
#[derive(Debug)]
pub enum DetailPanel {
    Configuration(ConfigEditor),
    Labels(LabelPicker),
    Settings(SettingsEditor),
}

/// The contents of a [`DetailPanel`].
pub enum DetailPanelView {
    Configuration(ConfigEditorView),
    Labels(LabelPickerView),
    Settings(SettingsEditorView),
}

impl View for DetailPanel {
    type V = DetailPanelView;

    open spec fn view(&self) -> DetailPanelView {
        match self {
            DetailPanel::Configuration(editor) => DetailPanelView::Configuration(editor@),
            DetailPanel::Labels(picker) => DetailPanelView::Labels(picker@),
            DetailPanel::Settings(editor) => DetailPanelView::Settings(editor@),
        }
    }
}

impl DeepView for DetailPanel {
    type V = DetailPanelView;

    open spec fn deep_view(&self) -> DetailPanelView {
        self@
    }
}

impl DetailPanelView {
    /// The title of a panel.
    pub open spec fn title_text(self) -> Seq<char> {
        match self {
            DetailPanelView::Configuration(editor) => "Configure "@ + macos::heading_of(editor.repo),
            DetailPanelView::Labels(picker) => picker.title,
            DetailPanelView::Settings(_) => "Settings"@,
        }
    }

    /// What stands below the title of a panel.
    pub open spec fn subtitle_text(self) -> Seq<char> {
        match self {
            DetailPanelView::Configuration(_) => "Changes save automatically for this repository."@,
            DetailPanelView::Labels(_) => "Changes apply to this pull request."@,
            DetailPanelView::Settings(_) => ""@,
        }
    }

    /// Whether changes of labels are being saved.
    pub open spec fn saving(self, state: ActionStateView) -> bool {
        match self {
            DetailPanelView::Labels(picker) => labels_of(state, picker.id).pending.len() != 0,
            _ => false,
        }
    }

    /// Whether a change of labels has failed.
    pub open spec fn failed(self, state: ActionStateView) -> bool {
        match self {
            DetailPanelView::Labels(picker) => labels_of(state, picker.id).error is Some,
            _ => false,
        }
    }

    /// A panel after something has changed.
    pub open spec fn updated(
        self,
        prs: Seq<PullRequestView>,
        state: ActionStateView,
        keyboard: keyboard::StateView,
        updates: updates::StateView,
    ) -> DetailPanelView {
        match self {
            DetailPanelView::Configuration(editor) => DetailPanelView::Configuration(
                ConfigEditorView::showing(editor.repo, state.preferences_of(editor.repo)),
            ),
            DetailPanelView::Labels(picker) => DetailPanelView::Labels(picker.updated(prs, state)),
            DetailPanelView::Settings(editor) => DetailPanelView::Settings(editor.updated(keyboard, updates)),
        }
    }
}

impl DetailPanel {
    /// The panel that configures a repository.
    pub fn configuration(repo: &str) -> (r: Self)
        ensures
            r@ == DetailPanelView::Configuration(ConfigEditorView::showing(repo@, Preferences::initial())),
    {
        DetailPanel::Configuration(ConfigEditor::new(repo))
    }

    /// The panel that chooses labels.
    pub fn labels(pr: &PullRequest) -> (r: Self)
        ensures
            r@ is Labels,
            (r@->Labels_0).id == pr@.snapshot.id,
            (r@->Labels_0).rows == Seq::<LabelRowView>::empty(),
            (r@->Labels_0).message == "Loading labels…"@,
            (r@->Labels_0).refresh_enabled,
            r@.title_text() == "Labels #"@ + text::decimal_of(pr@.snapshot.number as nat) + " · "@ + macos::heading_of(
                pr@.snapshot.repo,
            ),
    {
        DetailPanel::Labels(LabelPicker::new(pr))
    }

    /// The settings.
    pub fn settings(heading: String) -> (r: Self)
        ensures
            r@ == DetailPanelView::Settings(SettingsEditorView::initial(heading@)),
    {
        DetailPanel::Settings(SettingsEditor::new(heading))
    }

    /// The title of a panel.
    pub fn title(&self) -> (r: String)
        ensures
            r@ == self@.title_text(),
    {
        match self {
            DetailPanel::Configuration(editor) => text::concat("Configure ", &repo_heading(&editor.repo)),
            DetailPanel::Labels(picker) => picker.title.clone(),
            DetailPanel::Settings(_) => "Settings".to_owned(),
        }
    }

    /// What stands below the title of a panel.
    pub fn subtitle(&self) -> (r: &'static str)
        ensures
            r@ == self@.subtitle_text(),
    {
        match self {
            DetailPanel::Configuration(_) => "Changes save automatically for this repository.",
            DetailPanel::Labels(_) => "Changes apply to this pull request.",
            DetailPanel::Settings(_) => "",
        }
    }

    /// Whether changes of labels are being saved.
    pub fn labels_saving(&self, state: &ActionState) -> (r: bool)
        ensures
            r == self@.saving(state@),
    {
        match self {
            DetailPanel::Labels(picker) => match state.labels.get(&picker.id) {
                Some(labels) => labels.pending.len() != 0,
                None => false,
            },
            _ => false,
        }
    }

    /// Whether a change of labels has failed.
    pub fn label_error(&self, state: &ActionState) -> (r: bool)
        ensures
            r == self@.failed(state@),
    {
        match self {
            DetailPanel::Labels(picker) => match state.labels.get(&picker.id) {
                Some(labels) => labels.error.is_some(),
                None => false,
            },
            _ => false,
        }
    }

    /// Something has changed.
    pub fn update(
        &mut self,
        prs: &Vec<PullRequest>,
        state: &ActionState,
        keyboard: &keyboard::State,
        updates: &updates::State,
    )
        ensures
            final(self)@ == old(self)@.updated(prs.deep_view(), state@, keyboard@, updates@),
    {
        match self {
            DetailPanel::Configuration(editor) => {
                editor.update(state);
            },
            DetailPanel::Labels(picker) => {
                picker.update(prs, state);
            },
            DetailPanel::Settings(editor) => {
                editor.update(keyboard, updates);
            },
        }
    }
}

// ---------------------------------------------------------------- laws

/// While the menu of a pull request is open, nothing in it changes: what the user chooses is
/// what was shown, for the commit that was shown.
pub proof fn open_actions_are_frozen(
    actions: PrActionsView,
    pr: PullRequestView,
    ignored: bool,
    state: ActionStateView,
)
    requires
        actions.tracking,
    ensures
        actions.updated(pr, ignored, state) == actions,
{
}

/// Of the menu and the button that cancels a merge exactly one is shown, unless the pull
/// request is ignored: then neither is.
pub proof fn merges_replace_the_menu(
    actions: PrActionsView,
    pr: PullRequestView,
    ignored: bool,
    state: ActionStateView,
)
    requires
        !actions.tracking,
    ensures
        ({
            let shown = actions.updated(pr, ignored, state);
            if ignored {
                shown.menu_hidden && shown.cancel_hidden
            } else {
                shown.menu_hidden == !shown.cancel_hidden
            }
        }),
{
}

/// An action that is enabled for a repository stays visible, even when its condition is not
/// met; one that is not enabled is never offered.
pub proof fn enabled_actions_stay_visible(
    actions: PrActionsView,
    pr: PullRequestView,
    ignored: bool,
    state: ActionStateView,
)
    requires
        !actions.tracking,
    ensures
        ({
            let shown = actions.updated(pr, ignored, state);
            let preferences = state.preferences_of(pr.snapshot.repo);
            &&& shown.merge_hidden == !preferences.merge.enabled
            &&& shown.labels_hidden == !preferences.label.enabled
            &&& shown.merge_enabled ==> !shown.merge_hidden && !pr.stale && !pr.snapshot.draft
            &&& shown.labels_enabled ==> !shown.labels_hidden && !pr.stale
        }),
{
}

} // verus!
