//! Pull requests, their agents and what is known of both.

use crate::text;
use crate::text_map::Duplicate;
use vstd::prelude::*;

verus! {

/// A coding agent that reviews pull requests.
#[derive(Clone, Copy, Debug, PartialEq, Eq, Structural, PartialOrd, Ord)]
pub enum Agent {
    Codex,
    Cubic,
    CodeRabbit,
}

impl DeepView for Agent {
    type V = Agent;

    open spec fn deep_view(&self) -> Agent {
        *self
    }
}

/// The agents in their order.
pub open spec fn all_agents() -> Seq<Agent> {
    seq![Agent::Codex, Agent::Cubic, Agent::CodeRabbit]
}

/// The agent that an app's slug names.
pub open spec fn agent_of_app(slug: Seq<char>) -> Option<Agent> {
    if slug == "chatgpt-codex-connector"@ {
        Some(Agent::Codex)
    } else if slug == "cubic-dev-ai"@ {
        Some(Agent::Cubic)
    } else if slug == "coderabbitai"@ {
        Some(Agent::CodeRabbit)
    } else {
        None
    }
}

/// The agent that an account's login names, with or without the suffix of a bot.
pub open spec fn agent_of_login(login: Seq<char>) -> Option<Agent> {
    agent_of_app(text::strip_suffixes(login, "[bot]"@))
}

impl Agent {
    /// The agents in their order.
    pub const ALL: [Agent; 3] = [Agent::Codex, Agent::Cubic, Agent::CodeRabbit];

    /// The name shown for an agent.
    pub open spec fn label_text(self) -> Seq<char> {
        match self {
            Agent::Codex => "Codex"@,
            Agent::Cubic => "Cubic"@,
            Agent::CodeRabbit => "CodeRabbit"@,
        }
    }

    /// The name that stands for an agent in stored records.
    pub open spec fn key(self) -> Seq<char> {
        match self {
            Agent::Codex => "codex"@,
            Agent::Cubic => "cubic"@,
            Agent::CodeRabbit => "coderabbit"@,
        }
    }

    /// The name shown for an agent.
    pub fn label(self) -> (r: &'static str)
        ensures
            r@ == self.label_text(),
    {
        match self {
            Agent::Codex => "Codex",
            Agent::Cubic => "Cubic",
            Agent::CodeRabbit => "CodeRabbit",
        }
    }

    /// The name that stands for an agent in stored records.
    pub fn name(self) -> (r: &'static str)
        ensures
            r@ == self.key(),
    {
        match self {
            Agent::Codex => "codex",
            Agent::Cubic => "cubic",
            Agent::CodeRabbit => "coderabbit",
        }
    }

    /// The agent that an account's login names.
    pub fn from_login(login: &str) -> (r: Option<Agent>)
        ensures
            r == agent_of_login(login@),
    {
        let slug = text::trim_end_matches(login, "[bot]");
        Agent::from_app(&slug)
    }

    /// The agent that an app's slug names.
    pub fn from_app(slug: &str) -> (r: Option<Agent>)
        ensures
            r == agent_of_app(slug@),
    {
        if text::same(slug, "chatgpt-codex-connector") {
            Some(Agent::Codex)
        } else if text::same(slug, "cubic-dev-ai") {
            Some(Agent::Cubic)
        } else if text::same(slug, "coderabbitai") {
            Some(Agent::CodeRabbit)
        } else {
            None
        }
    }
}

/// The state of a pull request's reviews taken together.
#[derive(Clone, Copy, Debug, PartialEq, Eq, Structural)]
pub enum State {
    Unknown,
    Reviewing,
    Comments,
    Approved,
}

impl State {
    /// Whether a state asks something of the user.
    pub open spec fn is_actionable(self) -> bool {
        self == State::Comments || self == State::Approved
    }

    /// The name shown for a state.
    pub open spec fn label_text(self) -> Seq<char> {
        match self {
            State::Unknown => "Unknown"@,
            State::Reviewing => "Reviewing"@,
            State::Comments => "Comments"@,
            State::Approved => "Approved"@,
        }
    }

    /// The name that stands for a state in stored records.
    pub open spec fn key(self) -> Seq<char> {
        match self {
            State::Unknown => "unknown"@,
            State::Reviewing => "reviewing"@,
            State::Comments => "comments"@,
            State::Approved => "approved"@,
        }
    }

    /// Whether a state asks something of the user.
    pub fn actionable(self) -> (r: bool)
        ensures
            r == self.is_actionable(),
    {
        matches!(self, State::Comments | State::Approved)
    }

    /// The name shown for a state.
    pub fn label(self) -> (r: &'static str)
        ensures
            r@ == self.label_text(),
    {
        match self {
            State::Unknown => "Unknown",
            State::Reviewing => "Reviewing",
            State::Comments => "Comments",
            State::Approved => "Approved",
        }
    }

    /// The name that stands for a state in stored records.
    pub fn name(self) -> (r: &'static str)
        ensures
            r@ == self.key(),
    {
        match self {
            State::Unknown => "unknown",
            State::Reviewing => "reviewing",
            State::Comments => "comments",
            State::Approved => "approved",
        }
    }
}

/// What one agent concluded.
#[derive(Clone, Copy, Debug, PartialEq, Eq, Structural)]
pub enum Verdict {
    Unknown,
    Running,
    Clean,
    Findings,
    Skipped,
}

impl Verdict {
    /// The name that stands for a verdict in stored records.
    pub open spec fn key(self) -> Seq<char> {
        match self {
            Verdict::Unknown => "unknown"@,
            Verdict::Running => "running"@,
            Verdict::Clean => "clean"@,
            Verdict::Findings => "findings"@,
            Verdict::Skipped => "skipped"@,
        }
    }

    /// The name that stands for a verdict in stored records.
    pub fn name(self) -> (r: &'static str)
        ensures
            r@ == self.key(),
    {
        match self {
            Verdict::Unknown => "unknown",
            Verdict::Running => "running",
            Verdict::Clean => "clean",
            Verdict::Findings => "findings",
            Verdict::Skipped => "skipped",
        }
    }

    /// The name shown for a verdict.
    pub open spec fn label_text(self) -> Seq<char> {
        match self {
            Verdict::Unknown => "Unknown"@,
            Verdict::Running => "Running"@,
            Verdict::Clean => "Clean"@,
            Verdict::Findings => "Findings"@,
            Verdict::Skipped => "Skipped"@,
        }
    }

    /// The name shown for a verdict.
    pub fn label(self) -> (r: &'static str)
        ensures
            r@ == self.label_text(),
    {
        match self {
            Verdict::Unknown => "Unknown",
            Verdict::Running => "Running",
            Verdict::Clean => "Clean",
            Verdict::Findings => "Findings",
            Verdict::Skipped => "Skipped",
        }
    }
}

/// Aggregate check severity, independent of agent review verdicts. The least severe
/// stands first.
#[derive(Clone, Copy, Debug, PartialEq, Eq, Structural, PartialOrd, Ord)]
pub enum CheckState {
    Green,
    Running,
    Failed,
    Conflicts,
}

impl Default for CheckState {
    fn default() -> (r: Self)
        ensures
            r == CheckState::Green,
    {
        CheckState::Green
    }
}

impl CheckState {
    /// The place of a state in the order of severity.
    pub open spec fn severity(self) -> int {
        match self {
            CheckState::Green => 0,
            CheckState::Running => 1,
            CheckState::Failed => 2,
            CheckState::Conflicts => 3,
        }
    }

    /// The more severe of two states.
    pub open spec fn worse_of(self, other: CheckState) -> CheckState {
        if self.severity() < other.severity() {
            other
        } else {
            self
        }
    }

    /// The more severe of two states.
    pub fn worse(self, other: CheckState) -> (r: CheckState)
        ensures
            r == self.worse_of(other),
    {
        match (self, other) {
            (CheckState::Conflicts, _) | (_, CheckState::Conflicts) => CheckState::Conflicts,
            (CheckState::Failed, _) | (_, CheckState::Failed) => CheckState::Failed,
            (CheckState::Running, _) | (_, CheckState::Running) => CheckState::Running,
            _ => CheckState::Green,
        }
    }

    /// The text shown for a state.
    pub open spec fn label_text(self) -> Seq<char> {
        match self {
            CheckState::Running => "Checks running..."@,
            CheckState::Failed => "Checks failed"@,
            CheckState::Green => "Checks green"@,
            CheckState::Conflicts => "Merge conflicts"@,
        }
    }

    /// The text shown for a state.
    pub fn label(self) -> (r: &'static str)
        ensures
            r@ == self.label_text(),
    {
        match self {
            CheckState::Running => "Checks running...",
            CheckState::Failed => "Checks failed",
            CheckState::Green => "Checks green",
            CheckState::Conflicts => "Merge conflicts",
        }
    }
}

/// What one agent concluded.
#[derive(Debug, PartialEq)]
pub struct AgentResult {
    pub agent: Agent,
    pub verdict: Verdict,
    pub run_id: String,
    pub reason: String,
}

/// The contents of a [`AgentResult`].
#[verifier::ext_equal]
pub struct AgentResultView {
    pub agent: Agent,
    pub verdict: Verdict,
    pub run_id: Seq<char>,
    pub reason: Seq<char>,
}

impl View for AgentResult {
    type V = AgentResultView;

    open spec fn view(&self) -> AgentResultView {
        AgentResultView {
            agent: self.agent,
            verdict: self.verdict,
            run_id: self.run_id@,
            reason: self.reason@,
        }
    }
}

impl DeepView for AgentResult {
    type V = AgentResultView;

    open spec fn deep_view(&self) -> AgentResultView {
        self@
    }
}

impl Clone for AgentResult {
    fn clone(&self) -> (r: Self)
        ensures
            r@ == self@,
    {
        let r = AgentResult {
            agent: self.agent,
            verdict: self.verdict,
            run_id: self.run_id.clone(),
            reason: self.reason.clone(),
        };
        r
    }
}

/// A submitted review.
#[derive(Debug)]
pub struct Review {
    pub id: String,
    pub author: String,
    pub body: String,
    pub state: String,
    pub commit: String,
    pub submitted_at: String,
}

/// The contents of a [`Review`].
#[verifier::ext_equal]
pub struct ReviewView {
    pub id: Seq<char>,
    pub author: Seq<char>,
    pub body: Seq<char>,
    pub state: Seq<char>,
    pub commit: Seq<char>,
    pub submitted_at: Seq<char>,
}

impl View for Review {
    type V = ReviewView;

    open spec fn view(&self) -> ReviewView {
        ReviewView {
            id: self.id@,
            author: self.author@,
            body: self.body@,
            state: self.state@,
            commit: self.commit@,
            submitted_at: self.submitted_at@,
        }
    }
}

impl DeepView for Review {
    type V = ReviewView;

    open spec fn deep_view(&self) -> ReviewView {
        self@
    }
}

impl Clone for Review {
    fn clone(&self) -> (r: Self)
        ensures
            r@ == self@,
    {
        let r = Review {
            id: self.id.clone(),
            author: self.author.clone(),
            body: self.body.clone(),
            state: self.state.clone(),
            commit: self.commit.clone(),
            submitted_at: self.submitted_at.clone(),
        };
        r
    }
}

impl Default for Review {
    fn default() -> (r: Self)
        ensures
            r@ == (ReviewView {
                id: Seq::empty(),
                author: Seq::empty(),
                body: Seq::empty(),
                state: Seq::empty(),
                commit: Seq::empty(),
                submitted_at: Seq::empty(),
            }),
    {
        let r = Review {
            id: String::new(),
            author: String::new(),
            body: String::new(),
            state: String::new(),
            commit: String::new(),
            submitted_at: String::new(),
        };
        r
    }
}

/// A comment on a pull request.
#[derive(Debug)]
pub struct Comment {
    pub id: String,
    pub author: String,
    pub body: String,
    pub updated_at: String,
}

/// The contents of a [`Comment`].
#[verifier::ext_equal]
pub struct CommentView {
    pub id: Seq<char>,
    pub author: Seq<char>,
    pub body: Seq<char>,
    pub updated_at: Seq<char>,
}

impl View for Comment {
    type V = CommentView;

    open spec fn view(&self) -> CommentView {
        CommentView {
            id: self.id@,
            author: self.author@,
            body: self.body@,
            updated_at: self.updated_at@,
        }
    }
}

impl DeepView for Comment {
    type V = CommentView;

    open spec fn deep_view(&self) -> CommentView {
        self@
    }
}

impl Clone for Comment {
    fn clone(&self) -> (r: Self)
        ensures
            r@ == self@,
    {
        let r = Comment {
            id: self.id.clone(),
            author: self.author.clone(),
            body: self.body.clone(),
            updated_at: self.updated_at.clone(),
        };
        r
    }
}

impl Default for Comment {
    fn default() -> (r: Self)
        ensures
            r@ == (CommentView {
                id: Seq::empty(),
                author: Seq::empty(),
                body: Seq::empty(),
                updated_at: Seq::empty(),
            }),
    {
        let r = Comment {
            id: String::new(),
            author: String::new(),
            body: String::new(),
            updated_at: String::new(),
        };
        r
    }
}

/// A reaction to a pull request.
#[derive(Debug)]
pub struct Reaction {
    pub id: String,
    pub author: String,
    pub content: String,
    pub created_at: String,
}

/// The contents of a [`Reaction`].
#[verifier::ext_equal]
pub struct ReactionView {
    pub id: Seq<char>,
    pub author: Seq<char>,
    pub content: Seq<char>,
    pub created_at: Seq<char>,
}

impl View for Reaction {
    type V = ReactionView;

    open spec fn view(&self) -> ReactionView {
        ReactionView {
            id: self.id@,
            author: self.author@,
            content: self.content@,
            created_at: self.created_at@,
        }
    }
}

impl DeepView for Reaction {
    type V = ReactionView;

    open spec fn deep_view(&self) -> ReactionView {
        self@
    }
}

impl Clone for Reaction {
    fn clone(&self) -> (r: Self)
        ensures
            r@ == self@,
    {
        let r = Reaction {
            id: self.id.clone(),
            author: self.author.clone(),
            content: self.content.clone(),
            created_at: self.created_at.clone(),
        };
        r
    }
}

impl Default for Reaction {
    fn default() -> (r: Self)
        ensures
            r@ == (ReactionView {
                id: Seq::empty(),
                author: Seq::empty(),
                content: Seq::empty(),
                created_at: Seq::empty(),
            }),
    {
        let r = Reaction {
            id: String::new(),
            author: String::new(),
            content: String::new(),
            created_at: String::new(),
        };
        r
    }
}

/// A review thread.
#[derive(Debug)]
pub struct Thread {
    pub id: String,
    pub resolved: bool,
    pub author: String,
    pub last_comment_id: String,
    pub updated_at: String,
    pub body_hash: String,
}

/// The contents of a [`Thread`].
#[verifier::ext_equal]
pub struct ThreadView {
    pub id: Seq<char>,
    pub resolved: bool,
    pub author: Seq<char>,
    pub last_comment_id: Seq<char>,
    pub updated_at: Seq<char>,
    pub body_hash: Seq<char>,
}

impl View for Thread {
    type V = ThreadView;

    open spec fn view(&self) -> ThreadView {
        ThreadView {
            id: self.id@,
            resolved: self.resolved,
            author: self.author@,
            last_comment_id: self.last_comment_id@,
            updated_at: self.updated_at@,
            body_hash: self.body_hash@,
        }
    }
}

impl DeepView for Thread {
    type V = ThreadView;

    open spec fn deep_view(&self) -> ThreadView {
        self@
    }
}

impl Clone for Thread {
    fn clone(&self) -> (r: Self)
        ensures
            r@ == self@,
    {
        let r = Thread {
            id: self.id.clone(),
            resolved: self.resolved,
            author: self.author.clone(),
            last_comment_id: self.last_comment_id.clone(),
            updated_at: self.updated_at.clone(),
            body_hash: self.body_hash.clone(),
        };
        r
    }
}

impl Default for Thread {
    fn default() -> (r: Self)
        ensures
            r@ == (ThreadView {
                id: Seq::empty(),
                resolved: false,
                author: Seq::empty(),
                last_comment_id: Seq::empty(),
                updated_at: Seq::empty(),
                body_hash: Seq::empty(),
            }),
    {
        let r = Thread {
            id: String::new(),
            resolved: false,
            author: String::new(),
            last_comment_id: String::new(),
            updated_at: String::new(),
            body_hash: String::new(),
        };
        r
    }
}

/// A check run of an app on a commit.
#[derive(Debug)]
pub struct Check {
    pub id: String,
    pub app: String,
    pub name: String,
    pub status: String,
    pub conclusion: String,
    pub started_at: String,
    pub completed_at: String,
    pub summary: String,
}

/// The contents of a [`Check`].
#[verifier::ext_equal]
pub struct CheckView {
    pub id: Seq<char>,
    pub app: Seq<char>,
    pub name: Seq<char>,
    pub status: Seq<char>,
    pub conclusion: Seq<char>,
    pub started_at: Seq<char>,
    pub completed_at: Seq<char>,
    pub summary: Seq<char>,
}

impl View for Check {
    type V = CheckView;

    open spec fn view(&self) -> CheckView {
        CheckView {
            id: self.id@,
            app: self.app@,
            name: self.name@,
            status: self.status@,
            conclusion: self.conclusion@,
            started_at: self.started_at@,
            completed_at: self.completed_at@,
            summary: self.summary@,
        }
    }
}

impl DeepView for Check {
    type V = CheckView;

    open spec fn deep_view(&self) -> CheckView {
        self@
    }
}

impl Clone for Check {
    fn clone(&self) -> (r: Self)
        ensures
            r@ == self@,
    {
        let r = Check {
            id: self.id.clone(),
            app: self.app.clone(),
            name: self.name.clone(),
            status: self.status.clone(),
            conclusion: self.conclusion.clone(),
            started_at: self.started_at.clone(),
            completed_at: self.completed_at.clone(),
            summary: self.summary.clone(),
        };
        r
    }
}

impl Default for Check {
    fn default() -> (r: Self)
        ensures
            r@ == (CheckView {
                id: Seq::empty(),
                app: Seq::empty(),
                name: Seq::empty(),
                status: Seq::empty(),
                conclusion: Seq::empty(),
                started_at: Seq::empty(),
                completed_at: Seq::empty(),
                summary: Seq::empty(),
            }),
    {
        let r = Check {
            id: String::new(),
            app: String::new(),
            name: String::new(),
            status: String::new(),
            conclusion: String::new(),
            started_at: String::new(),
            completed_at: String::new(),
            summary: String::new(),
        };
        r
    }
}

/// A label of a pull request.
#[derive(Debug, PartialEq, Eq)]
pub struct PrLabel {
    pub name: String,
    pub color: String,
}

/// The contents of a [`PrLabel`].
#[verifier::ext_equal]
pub struct PrLabelView {
    pub name: Seq<char>,
    pub color: Seq<char>,
}

impl View for PrLabel {
    type V = PrLabelView;

    open spec fn view(&self) -> PrLabelView {
        PrLabelView {
            name: self.name@,
            color: self.color@,
        }
    }
}

impl DeepView for PrLabel {
    type V = PrLabelView;

    open spec fn deep_view(&self) -> PrLabelView {
        self@
    }
}

impl Clone for PrLabel {
    fn clone(&self) -> (r: Self)
        ensures
            r@ == self@,
    {
        let r = PrLabel {
            name: self.name.clone(),
            color: self.color.clone(),
        };
        r
    }
}

/// What GitHub says of a pull request at one moment.
#[derive(Debug)]
pub struct Snapshot {
    pub id: String,
    pub repo: String,
    pub number: u64,
    pub title: String,
    pub url: String,
    pub head: String,
    pub head_branch: Option<String>,
    pub base_branch: Option<String>,
    /// The owner of the source repository, where it is another one.
    pub source_owner: Option<String>,
    pub open: bool,
    pub draft: bool,
    pub reviews: Vec<Review>,
    pub comments: Vec<Comment>,
    pub reactions: Vec<Reaction>,
    pub threads: Vec<Thread>,
    pub checks: Vec<Check>,
    /// None until a full fetch succeeds.
    pub check_state: Option<CheckState>,
    pub labels: Vec<PrLabel>,
}

/// The contents of a [`Snapshot`].
#[verifier::ext_equal]
pub struct SnapshotView {
    pub id: Seq<char>,
    pub repo: Seq<char>,
    pub number: u64,
    pub title: Seq<char>,
    pub url: Seq<char>,
    pub head: Seq<char>,
    pub head_branch: Option<Seq<char>>,
    pub base_branch: Option<Seq<char>>,
    pub source_owner: Option<Seq<char>>,
    pub open: bool,
    pub draft: bool,
    pub reviews: Seq<ReviewView>,
    pub comments: Seq<CommentView>,
    pub reactions: Seq<ReactionView>,
    pub threads: Seq<ThreadView>,
    pub checks: Seq<CheckView>,
    pub check_state: Option<CheckState>,
    pub labels: Seq<PrLabelView>,
}

impl View for Snapshot {
    type V = SnapshotView;

    open spec fn view(&self) -> SnapshotView {
        SnapshotView {
            id: self.id@,
            repo: self.repo@,
            number: self.number,
            title: self.title@,
            url: self.url@,
            head: self.head@,
            head_branch: self.head_branch.deep_view(),
            base_branch: self.base_branch.deep_view(),
            source_owner: self.source_owner.deep_view(),
            open: self.open,
            draft: self.draft,
            reviews: self.reviews.deep_view(),
            comments: self.comments.deep_view(),
            reactions: self.reactions.deep_view(),
            threads: self.threads.deep_view(),
            checks: self.checks.deep_view(),
            check_state: self.check_state,
            labels: self.labels.deep_view(),
        }
    }
}

impl DeepView for Snapshot {
    type V = SnapshotView;

    open spec fn deep_view(&self) -> SnapshotView {
        self@
    }
}

impl Clone for Snapshot {
    fn clone(&self) -> (r: Self)
        ensures
            r@ == self@,
    {
        let r = Snapshot {
            id: self.id.clone(),
            repo: self.repo.clone(),
            number: self.number,
            title: self.title.clone(),
            url: self.url.clone(),
            head: self.head.clone(),
            head_branch: text::copy_option(&self.head_branch),
            base_branch: text::copy_option(&self.base_branch),
            source_owner: text::copy_option(&self.source_owner),
            open: self.open,
            draft: self.draft,
            reviews: self.reviews.clone(),
            comments: self.comments.clone(),
            reactions: self.reactions.clone(),
            threads: self.threads.clone(),
            checks: self.checks.clone(),
            check_state: self.check_state,
            labels: self.labels.clone(),
        };
        assert(r.reviews.deep_view() =~= self.reviews.deep_view());
        assert(r.comments.deep_view() =~= self.comments.deep_view());
        assert(r.reactions.deep_view() =~= self.reactions.deep_view());
        assert(r.threads.deep_view() =~= self.threads.deep_view());
        assert(r.checks.deep_view() =~= self.checks.deep_view());
        assert(r.labels.deep_view() =~= self.labels.deep_view());
        r
    }
}

impl SnapshotView {
    /// Nothing is known.
    pub open spec fn blank() -> SnapshotView {
        SnapshotView {
            id: Seq::empty(),
            repo: Seq::empty(),
            number: 0,
            title: Seq::empty(),
            url: Seq::empty(),
            head: Seq::empty(),
            head_branch: None,
            base_branch: None,
            source_owner: None,
            open: false,
            draft: false,
            reviews: Seq::empty(),
            comments: Seq::empty(),
            reactions: Seq::empty(),
            threads: Seq::empty(),
            checks: Seq::empty(),
            check_state: None,
            labels: Seq::empty(),
        }
    }
}

impl Default for Snapshot {
    fn default() -> (r: Self)
        ensures
            r@ == SnapshotView::blank(),
    {
        let r = Snapshot {
            id: String::new(),
            repo: String::new(),
            number: 0,
            title: String::new(),
            url: String::new(),
            head: String::new(),
            head_branch: None,
            base_branch: None,
            source_owner: None,
            open: false,
            draft: false,
            reviews: Vec::new(),
            comments: Vec::new(),
            reactions: Vec::new(),
            threads: Vec::new(),
            checks: Vec::new(),
            check_state: None,
            labels: Vec::new(),
        };
        assert(r.reviews.deep_view() =~= Seq::empty());
        assert(r.comments.deep_view() =~= Seq::empty());
        assert(r.reactions.deep_view() =~= Seq::empty());
        assert(r.threads.deep_view() =~= Seq::empty());
        assert(r.checks.deep_view() =~= Seq::empty());
        assert(r.labels.deep_view() =~= Seq::empty());
        r
    }
}

/// A pull request as the inbox knows it.
#[derive(Debug)]
pub struct PullRequest {
    pub snapshot: Snapshot,
    pub agents: Vec<AgentResult>,
    pub state: State,
    pub update_id: String,
    pub acknowledged: Option<String>,
    pub fetched_at: i64,
    pub stale: bool,
    pub error: Option<String>,
    pub head_since: i64,
    pub candidate_id: String,
    pub candidate_since: i64,
    /// Local observation time for the current continuous Reviewing state.
    pub reviewing_since: Option<i64>,
}

/// The contents of a [`PullRequest`].
#[verifier::ext_equal]
pub struct PullRequestView {
    pub snapshot: SnapshotView,
    pub agents: Seq<AgentResultView>,
    pub state: State,
    pub update_id: Seq<char>,
    pub acknowledged: Option<Seq<char>>,
    pub fetched_at: i64,
    pub stale: bool,
    pub error: Option<Seq<char>>,
    pub head_since: i64,
    pub candidate_id: Seq<char>,
    pub candidate_since: i64,
    pub reviewing_since: Option<i64>,
}

impl View for PullRequest {
    type V = PullRequestView;

    open spec fn view(&self) -> PullRequestView {
        PullRequestView {
            snapshot: self.snapshot@,
            agents: self.agents.deep_view(),
            state: self.state,
            update_id: self.update_id@,
            acknowledged: self.acknowledged.deep_view(),
            fetched_at: self.fetched_at,
            stale: self.stale,
            error: self.error.deep_view(),
            head_since: self.head_since,
            candidate_id: self.candidate_id@,
            candidate_since: self.candidate_since,
            reviewing_since: self.reviewing_since,
        }
    }
}

impl DeepView for PullRequest {
    type V = PullRequestView;

    open spec fn deep_view(&self) -> PullRequestView {
        self@
    }
}

impl Clone for PullRequest {
    fn clone(&self) -> (r: Self)
        ensures
            r@ == self@,
    {
        let r = PullRequest {
            snapshot: self.snapshot.clone(),
            agents: self.agents.clone(),
            state: self.state,
            update_id: self.update_id.clone(),
            acknowledged: text::copy_option(&self.acknowledged),
            fetched_at: self.fetched_at,
            stale: self.stale,
            error: text::copy_option(&self.error),
            head_since: self.head_since,
            candidate_id: self.candidate_id.clone(),
            candidate_since: self.candidate_since,
            reviewing_since: self.reviewing_since,
        };
        assert(r.agents.deep_view() =~= self.agents.deep_view());
        r
    }
}

/// How many threads are not resolved.
pub open spec fn unresolved(threads: Seq<ThreadView>) -> nat
    decreases threads.len(),
{
    if threads.len() == 0 {
        0
    } else {
        unresolved(threads.drop_last()) + if threads.last().resolved {
            0nat
        } else {
            1nat
        }
    }
}

impl PullRequestView {
    /// Whether the user has something to look at: current evidence of a state that asks
    /// for action, in an update that was not acknowledged.
    pub open spec fn wants_attention(self) -> bool {
        !self.stale && self.state.is_actionable() && self.acknowledged != Some(self.update_id)
    }

    /// The minutes for which agents have been observed at work, without regard to a
    /// clock that went back.
    pub open spec fn reviewing_minutes(self, now: i64) -> nat
        recommends
            self.reviewing_since is Some,
    {
        let seconds = now - self.reviewing_since->0;
        let bounded = if seconds < 0 {
            0
        } else if seconds > i64::MAX {
            i64::MAX as int
        } else {
            seconds
        };
        (bounded / 60) as nat
    }

    /// The text of the state that is shown at a moment.
    pub open spec fn status_text(self, now: i64) -> Seq<char> {
        if self.stale {
            State::Unknown.label_text()
        } else if self.state == State::Reviewing && self.reviewing_since is Some {
            let minutes = self.reviewing_minutes(now);
            if minutes < 60 {
                "Reviewing ("@ + text::decimal_of(minutes) + "m)"@
            } else {
                "Reviewing ("@ + text::decimal_of(minutes / 60) + "h "@ + text::decimal_of(minutes % 60) + "m)"@
            }
        } else {
            self.state.label_text()
        }
    }

    /// What is known of a pull request before any evidence of reviews.
    pub open spec fn before_review(snapshot: SnapshotView) -> PullRequestView {
        PullRequestView {
            snapshot,
            agents: Seq::empty(),
            state: State::Unknown,
            update_id: Seq::empty(),
            acknowledged: None,
            fetched_at: 0,
            stale: true,
            error: None,
            head_since: 0,
            candidate_id: Seq::empty(),
            candidate_since: 0,
            reviewing_since: None,
        }
    }
}

impl PullRequest {
    /// A pull request of which only the identity is known. Such data is never treated
    /// as current review evidence.
    pub fn unreviewed(snapshot: Snapshot) -> (r: PullRequest)
        ensures
            r@ == PullRequestView::before_review(snapshot@),
            !r@.wants_attention(),
    {
        let r = PullRequest {
            snapshot,
            agents: Vec::new(),
            state: State::Unknown,
            update_id: String::new(),
            acknowledged: None,
            fetched_at: 0,
            stale: true,
            error: None,
            head_since: 0,
            candidate_id: String::new(),
            candidate_since: 0,
            reviewing_since: None,
        };
        assert(r.agents.deep_view() =~= Seq::empty());
        r
    }

    /// How many threads are not resolved.
    pub fn unresolved_threads(&self) -> (r: u64)
        ensures
            r == unresolved(self@.snapshot.threads),
    {
        let threads = &self.snapshot.threads;
        let ghost v = threads.deep_view();
        let mut count: u64 = 0;
        let mut i: usize = 0;
        while i < threads.len()
            invariant
                v == threads.deep_view(),
                i <= threads@.len(),
                count == unresolved(v.take(i as int)),
                count <= i,
            decreases threads.len() - i,
        {
            assert(v.take(i + 1).drop_last() =~= v.take(i as int));
            assert(v.take(i + 1).last() == threads@[i as int]@);
            if !threads[i].resolved {
                count += 1;
            }
            i += 1;
        }
        assert(v.take(i as int) =~= v);
        count
    }

    /// Whether the user has something to look at.
    pub fn needs_attention(&self) -> (r: bool)
        ensures
            r == self@.wants_attention(),
    {
        if self.stale || !self.state.actionable() {
            return false;
        }
        match &self.acknowledged {
            Some(update) => !text::same(update, &self.update_id),
            None => true,
        }
    }

    /// The text of the state that is shown at a moment.
    pub fn status_label(&self, now: i64) -> (r: String)
        ensures
            r@ == self@.status_text(now),
    {
        if self.stale {
            return State::Unknown.label().to_owned();
        }
        if self.state == State::Reviewing {
            if let Some(started) = self.reviewing_since {
                let seconds: u64 = if now <= started {
                    0
                } else {
                    match now.checked_sub(started) {
                        Some(difference) => difference as u64,
                        None => i64::MAX as u64,
                    }
                };
                let minutes: u64 = seconds / 60;
                assert(minutes == self@.reviewing_minutes(now));
                return if minutes < 60 {
                    text::concat3("Reviewing (", &text::decimal(minutes), "m)")
                } else {
                    let hours = text::concat3("Reviewing (", &text::decimal(minutes / 60), "h ");
                    text::concat3(&hours, &text::decimal(minutes % 60), "m)")
                };
            }
        }
        self.state.label().to_owned()
    }
}

/// Cached evidence never asks for attention.
pub proof fn stale_needs_no_attention(pr: PullRequestView)
    ensures
        pr.stale ==> !pr.wants_attention(),
{
}

impl Duplicate for PullRequest {
    fn duplicate(&self) -> (r: PullRequest) {
        self.clone()
    }
}

impl Duplicate for PrLabel {
    fn duplicate(&self) -> (r: PrLabel) {
        self.clone()
    }
}

} // verus!
