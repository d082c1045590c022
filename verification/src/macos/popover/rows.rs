//! A pull request in the list.

use crate::actions::{ActionState, ActionStateView, MergeProgress, MergeProgressView};
use crate::macos::popover::action_views::{PrActions, PrActionsView};
use crate::macos::popover::{Press, PressView};
use crate::macos::{Action, ActionView};
use crate::model;
use crate::model::{
    AgentResult, AgentResultView, CheckState, PrLabel, PrLabelView, PullRequest, PullRequestView, SnapshotView, State,
};
use crate::text;
use crate::text_map::Duplicate;
use vstd::prelude::*;

verus! {

/// The title of a pull request. One of which nothing is known has only its identity.
pub open spec fn title_of(pr: PullRequestView) -> Seq<char> {
    if pr.snapshot.number == 0 {
        "Unavailable PR · "@ + pr.snapshot.id
    } else {
        "#"@ + text::decimal_of(pr.snapshot.number as nat) + "  "@ + text::spaced(pr.snapshot.title)
    }
}

/// The title of a pull request.
pub fn display_title(pr: &PullRequest) -> (r: String)
    ensures
        r@ == title_of(pr@),
{
    if pr.snapshot.number == 0 {
        return text::concat("Unavailable PR · ", &pr.snapshot.id);
    }
    let number = text::concat3("#", &text::decimal(pr.snapshot.number), "  ");
    text::concat(&number, &text::without_controls(&pr.snapshot.title))
}

/// The branches of a pull request: where it comes from, with the owner where that is another
/// repository, and where it goes.
pub open spec fn branches_of(snapshot: SnapshotView) -> Seq<Seq<char>> {
    match (snapshot.head_branch, snapshot.base_branch) {
        (Some(head), Some(base)) => seq![
            (match snapshot.source_owner {
                Some(owner) => owner + ":"@ + head,
                None => head,
            }) + " → "@ + base,
        ],
        _ => Seq::empty(),
    }
}

/// What is said of an agent in the details.
pub open spec fn agent_text(agent: AgentResultView) -> Seq<char> {
    agent.agent.label_text() + " · "@ + agent.verdict.label_text() + "\n"@ + agent.reason
}

/// The parts of the details.
pub open spec fn detail_parts(pr: PullRequestView, fetched: Option<Seq<char>>) -> Seq<Seq<char>> {
    branches_of(pr.snapshot) + pr.agents.map_values(|agent: AgentResultView| agent_text(agent)) + (if pr.agents.len()
        == 0 {
        seq!["No agent review activity detected."@]
    } else {
        Seq::empty()
    }) + (match pr.error {
        Some(message) => seq![message],
        None => Seq::empty(),
    }) + (match fetched {
        Some(time) => if pr.fetched_at > 0 {
            seq!["Last checked "@ + time]
        } else {
            Seq::empty()
        },
        None => Seq::empty(),
    })
}

/// The details of a pull request.
pub open spec fn details_of(pr: PullRequestView, fetched: Option<Seq<char>>) -> Seq<char> {
    text::joined(detail_parts(pr, fetched), "\n\n"@)
}

/// Adds a part.
fn add_part(parts: &mut Vec<String>, part: String)
    ensures
        final(parts).deep_view() == old(parts).deep_view().push(part@),
{
    let ghost before = parts.deep_view();
    parts.push(part);
    assert(parts.deep_view() =~= before.push(part@));
}

/// What is said of an agent in the details.
fn agent_part(agent: &AgentResult) -> (r: String)
    ensures
        r@ == agent_text(agent@),
{
    let verdict = text::concat3(agent.agent.label(), " · ", agent.verdict.label());
    text::concat3(&verdict, "\n", &agent.reason)
}

/// The details of a pull request.
pub fn details(pr: &PullRequest, fetched: Option<&String>) -> (r: String)
    ensures
        r@ == details_of(pr@, fetched.deep_view()),
{
    let mut parts: Vec<String> = Vec::new();
    assert(parts.deep_view() =~= Seq::empty());
    if let (Some(head), Some(base)) = (&pr.snapshot.head_branch, &pr.snapshot.base_branch) {
        let source = match &pr.snapshot.source_owner {
            Some(owner) => text::concat3(owner, ":", head),
            None => head.clone(),
        };
        add_part(&mut parts, text::concat3(&source, " → ", base));
    }
    assert(parts.deep_view() =~= branches_of(pr@.snapshot));
    let ghost opening = parts.deep_view();
    let ghost v = pr.agents.deep_view();
    let ghost texts = v.map_values(|agent: AgentResultView| agent_text(agent));
    let mut i: usize = 0;
    while i < pr.agents.len()
        invariant
            v == pr.agents.deep_view(),
            texts == v.map_values(|agent: AgentResultView| agent_text(agent)),
            i <= pr.agents@.len(),
            parts.deep_view() =~= opening + texts.take(i as int),
        decreases pr.agents.len() - i,
    {
        assert(v[i as int] == pr.agents@[i as int]@);
        add_part(&mut parts, agent_part(&pr.agents[i]));
        assert(texts.take(i + 1) =~= texts.take(i as int).push(texts[i as int]));
        i += 1;
    }
    assert(texts.take(i as int) =~= texts);
    if pr.agents.len() == 0 {
        add_part(&mut parts, "No agent review activity detected.".to_owned());
    }
    if let Some(message) = &pr.error {
        add_part(&mut parts, message.clone());
    }
    if let Some(time) = fetched {
        if pr.fetched_at > 0 {
            add_part(&mut parts, text::concat("Last checked ", time));
        }
    }
    assert(parts.deep_view() =~= detail_parts(pr@, fetched.deep_view()));
    text::join(&parts, "\n\n")
}

/// A pull request in the list.
#[derive(Debug)]
pub struct Row {
    pub title: String,
    pub tooltip: String,
    /// Whether the title is bold and blue.
    pub attention: bool,
    /// The state whose symbol is shown.
    pub state: State,
    pub status: String,
    /// The state of checks that the status ends with.
    pub check: Option<CheckState>,
    pub labels: Vec<PrLabel>,
    pub title_enabled: bool,
    pub open_enabled: bool,
    pub ignore_title: String,
    pub ignore_hidden: bool,
    pub disclosure_title: String,
    /// The details, where they are shown.
    pub details: Option<String>,
    /// Why a merge has failed.
    pub message: Option<String>,
    pub actions: PrActions,
    pub acknowledge: Press,
    pub open: Press,
    pub ignore: Press,
    pub disclosure: Press,
}

/// The contents of a [`Row`].
#[verifier::ext_equal]
pub struct RowView {
    pub title: Seq<char>,
    pub tooltip: Seq<char>,
    pub attention: bool,
    pub state: State,
    pub status: Seq<char>,
    pub check: Option<CheckState>,
    pub labels: Seq<PrLabelView>,
    pub title_enabled: bool,
    pub open_enabled: bool,
    pub ignore_title: Seq<char>,
    pub ignore_hidden: bool,
    pub disclosure_title: Seq<char>,
    pub details: Option<Seq<char>>,
    pub message: Option<Seq<char>>,
    pub actions: PrActionsView,
    pub acknowledge: PressView,
    pub open: PressView,
    pub ignore: PressView,
    pub disclosure: PressView,
}

impl View for Row {
    type V = RowView;

    open spec fn view(&self) -> RowView {
        RowView {
            title: self.title@,
            tooltip: self.tooltip@,
            attention: self.attention,
            state: self.state,
            status: self.status@,
            check: self.check,
            labels: self.labels.deep_view(),
            title_enabled: self.title_enabled,
            open_enabled: self.open_enabled,
            ignore_title: self.ignore_title@,
            ignore_hidden: self.ignore_hidden,
            disclosure_title: self.disclosure_title@,
            details: self.details.deep_view(),
            message: self.message.deep_view(),
            actions: self.actions@,
            acknowledge: self.acknowledge@,
            open: self.open@,
            ignore: self.ignore@,
            disclosure: self.disclosure@,
        }
    }
}

impl DeepView for Row {
    type V = RowView;

    open spec fn deep_view(&self) -> RowView {
        self@
    }
}

impl Clone for Row {
    fn clone(&self) -> (r: Self)
        ensures
            r@ == self@,
    {
        Row {
            title: self.title.clone(),
            tooltip: self.tooltip.clone(),
            attention: self.attention,
            state: self.state,
            status: self.status.clone(),
            check: self.check,
            labels: self.labels.duplicate(),
            title_enabled: self.title_enabled,
            open_enabled: self.open_enabled,
            ignore_title: self.ignore_title.clone(),
            ignore_hidden: self.ignore_hidden,
            disclosure_title: self.disclosure_title.clone(),
            details: text::copy_option(&self.details),
            message: text::copy_option(&self.message),
            actions: self.actions.clone(),
            acknowledge: self.acknowledge.clone(),
            open: self.open.clone(),
            ignore: self.ignore.clone(),
            disclosure: self.disclosure.clone(),
        }
    }
}

impl Duplicate for Row {
    fn duplicate(&self) -> (r: Row) {
        self.clone()
    }
}

/// The state of checks that is shown.
pub open spec fn shown_check(pr: PullRequestView, ignored: bool) -> Option<CheckState> {
    if ignored || pr.stale {
        None
    } else {
        pr.snapshot.check_state
    }
}

/// What is said of a pull request below its title.
pub open spec fn status_of(pr: PullRequestView, ignored: bool, now: i64) -> Seq<char> {
    (if ignored {
        "Ignored · not monitored"@
    } else {
        pr.status_text(now) + (if pr.stale {
            " · cached"@
        } else {
            Seq::empty()
        }) + (if pr.snapshot.draft {
            " · draft"@
        } else {
            Seq::empty()
        }) + " · "@ + text::decimal_of(model::unresolved(pr.snapshot.threads)) + " unresolved threads"@
    }) + (match shown_check(pr, ignored) {
        Some(check) => " · "@ + check.label_text(),
        None => Seq::empty(),
    })
}

/// What is said of a pull request below its title.
fn status_text(pr: &PullRequest, ignored: bool, now: i64) -> (r: String)
    ensures
        r@ == status_of(pr@, ignored, now),
{
    let mut r = if ignored {
        "Ignored · not monitored".to_owned()
    } else {
        let cached = if pr.stale {
            text::concat(&pr.status_label(now), " · cached")
        } else {
            pr.status_label(now)
        };
        let draft = if pr.snapshot.draft {
            text::concat(&cached, " · draft")
        } else {
            cached
        };
        let threads = text::concat3(" · ", &text::decimal(pr.unresolved_threads()), " unresolved threads");
        text::concat(&draft, &threads)
    };
    if !ignored && !pr.stale {
        if let Some(check) = pr.snapshot.check_state {
            r = text::concat3(&r, " · ", check.label());
        }
    }
    assert(r@ =~= status_of(pr@, ignored, now));
    r
}

/// Why a merge has failed.
pub open spec fn merge_message(state: ActionStateView, id: Seq<char>, ignored: bool) -> Option<Seq<char>> {
    if !ignored && state.merges.contains_key(id) {
        match state.merges[id] {
            MergeProgressView::Failed(message) => Some(message),
            _ => None,
        }
    } else {
        None
    }
}

/// A pull request in the list. What its controls do is bound to the update that is shown.
pub open spec fn row_of(
    pr: PullRequestView,
    expanded: bool,
    ignored: bool,
    state: ActionStateView,
    now: i64,
    fetched: Option<Seq<char>>,
) -> RowView {
    let id = pr.snapshot.id;
    RowView {
        title: title_of(pr),
        tooltip: if ignored {
            pr.snapshot.title
        } else {
            pr.snapshot.title + "\nClick to acknowledge this update"@
        },
        attention: !ignored && pr.wants_attention(),
        state: if pr.stale && !ignored {
            State::Unknown
        } else {
            pr.state
        },
        status: status_of(pr, ignored, now),
        check: shown_check(pr, ignored),
        labels: pr.snapshot.labels,
        title_enabled: !pr.stale && !ignored,
        open_enabled: pr.snapshot.url.len() != 0,
        ignore_title: if ignored {
            "Restore"@
        } else {
            "Ignore"@
        },
        ignore_hidden: !ignored,
        disclosure_title: if expanded {
            "Hide details"@
        } else {
            "Details"@
        },
        details: if expanded {
            Some(details_of(pr, fetched))
        } else {
            None
        },
        message: merge_message(state, id, ignored),
        actions: PrActionsView::initial(pr).updated(pr, ignored, state),
        acknowledge: PressView::PopoverAction(ActionView::Ack { pr: id, update: pr.update_id, checked: true }),
        open: PressView::PopoverAction(ActionView::Open { url: pr.snapshot.url, pr: id, update: pr.update_id }),
        ignore: PressView::PopoverAction(
            if ignored {
                ActionView::Restore(id)
            } else {
                ActionView::Ignore(id)
            },
        ),
        disclosure: PressView::ToggleDetails(id),
    }
}

/// A pull request in the list.
pub fn make_row(
    pr: &PullRequest,
    expanded: bool,
    ignored: bool,
    state: &ActionState,
    now: i64,
    fetched: Option<&String>,
) -> (r: Row)
    ensures
        r@ == row_of(pr@, expanded, ignored, state@, now, fetched.deep_view()),
{
    let id = &pr.snapshot.id;
    let mut actions = PrActions::new(pr);
    actions.update(pr, ignored, state);
    let message = if ignored {
        None
    } else {
        match state.merges.get(id) {
            Some(MergeProgress::Failed(message)) => Some(message.clone()),
            _ => None,
        }
    };
    Row {
        title: display_title(pr),
        tooltip: if ignored {
            pr.snapshot.title.clone()
        } else {
            text::concat(&pr.snapshot.title, "\nClick to acknowledge this update")
        },
        attention: !ignored && pr.needs_attention(),
        state: if pr.stale && !ignored {
            State::Unknown
        } else {
            pr.state
        },
        status: status_text(pr, ignored, now),
        check: if ignored || pr.stale {
            None
        } else {
            pr.snapshot.check_state
        },
        labels: pr.snapshot.labels.duplicate(),
        title_enabled: !pr.stale && !ignored,
        open_enabled: !pr.snapshot.url.as_str().is_empty(),
        ignore_title: if ignored {
            "Restore".to_owned()
        } else {
            "Ignore".to_owned()
        },
        ignore_hidden: !ignored,
        disclosure_title: if expanded {
            "Hide details".to_owned()
        } else {
            "Details".to_owned()
        },
        details: if expanded {
            Some(details(pr, fetched))
        } else {
            None
        },
        message,
        actions,
        acknowledge: Press::PopoverAction(
            Action::Ack { pr: id.clone(), update: pr.update_id.clone(), checked: true },
        ),
        open: Press::PopoverAction(
            Action::Open { url: pr.snapshot.url.clone(), pr: id.clone(), update: pr.update_id.clone() },
        ),
        ignore: Press::PopoverAction(
            if ignored {
                Action::Restore(id.clone())
            } else {
                Action::Ignore(id.clone())
            },
        ),
        disclosure: Press::ToggleDetails(id.clone()),
    }
}

// ---------------------------------------------------------------- laws

/// An ignored pull request asks for nothing: it is neither highlighted nor acknowledged, and
/// what it offers is to be restored.
pub proof fn ignored_rows_ask_for_nothing(
    pr: PullRequestView,
    expanded: bool,
    state: ActionStateView,
    now: i64,
    fetched: Option<Seq<char>>,
)
    ensures
        ({
            let row = row_of(pr, expanded, true, state, now, fetched);
            &&& !row.attention
            &&& !row.title_enabled
            &&& row.check is None
            &&& row.message is None
            &&& row.actions.menu_hidden
            &&& row.actions.cancel_hidden
            &&& !row.ignore_hidden
            &&& row.ignore == PressView::PopoverAction(ActionView::Restore(pr.snapshot.id))
        }),
{
}

/// A row is highlighted exactly while its update wants attention, and its title acknowledges
/// that update and no other.
pub proof fn titles_acknowledge_what_is_shown(
    pr: PullRequestView,
    expanded: bool,
    state: ActionStateView,
    now: i64,
    fetched: Option<Seq<char>>,
)
    ensures
        ({
            let row = row_of(pr, expanded, false, state, now, fetched);
            &&& row.attention == pr.wants_attention()
            &&& row.attention ==> row.title_enabled
            &&& row.acknowledge == PressView::PopoverAction(
                ActionView::Ack { pr: pr.snapshot.id, update: pr.update_id, checked: true },
            )
        }),
{
}

} // verus!
