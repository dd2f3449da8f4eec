//! The records that the workbench shows, as plain values.
//!
//! Texts that the database writes for a kind or a status (`"pull_request"`,
//! `"running"`) are carried beside the value where the workbench prints them.

use vstd::prelude::*;
use vstd::string::*;

use crate::settings::clone_text;

verus! {

/// How far a task has come.
#[derive(Clone, Copy, Debug, PartialEq, Eq, Structural)]
pub enum TaskStatus {
    Draft,
    Pending,
    Working,
    Interrupted,
    InReview,
    CiFailed,
    Conflict,
    Error,
    Done,
}

impl TaskStatus {
    /// The group of the status in the task list, first groups first: what waits for
    /// the user comes before what is queued, and what is done comes last.
    #[verifier::allow_in_spec]
    pub fn sort_priority(self) -> u8
        returns
            (match self {
                TaskStatus::InReview => 0u8,
                TaskStatus::Conflict => 1u8,
                TaskStatus::CiFailed => 2u8,
                TaskStatus::Error => 3u8,
                TaskStatus::Interrupted => 4u8,
                TaskStatus::Pending => 5u8,
                TaskStatus::Draft => 6u8,
                TaskStatus::Working => 7u8,
                TaskStatus::Done => 8u8,
            }),
    {
        match self {
            TaskStatus::InReview => 0,
            TaskStatus::Conflict => 1,
            TaskStatus::CiFailed => 2,
            TaskStatus::Error => 3,
            TaskStatus::Interrupted => 4,
            TaskStatus::Pending => 5,
            TaskStatus::Draft => 6,
            TaskStatus::Working => 7,
            TaskStatus::Done => 8,
        }
    }
}

/// How a task is worked on.
#[derive(Clone, Copy, Debug, PartialEq, Eq, Structural)]
pub enum TaskMode {
    Autonomous,
    Supervised,
    Exploration,
}

/// How finished work is delivered.
#[derive(Clone, Copy, Debug, PartialEq, Eq, Structural)]
pub enum PushMode {
    Pr,
    Push,
}

/// What the agent of a session is doing.
#[derive(Clone, Copy, Debug, PartialEq, Eq, Structural)]
pub enum ClaudeStatus {
    Idle,
    Working,
    Other,
}

/// The agent program that runs a thread.
#[derive(Clone, Copy, Debug, PartialEq, Eq, Structural)]
pub enum ProviderKind {
    Claude,
    Codex,
}

/// Issue or pull request.
#[derive(Clone, Copy, Debug, PartialEq, Eq, Structural)]
pub enum GitHubItemKind {
    Issue,
    PullRequest,
}

/// How far a workflow run has come.
#[derive(Clone, Copy, Debug, PartialEq, Eq, Structural)]
pub enum WorkflowRunStatus {
    Pending,
    Running,
    WaitingApproval,
    Completed,
    Failed,
}

/// How far a stage of a workflow has come.
#[derive(Clone, Copy, Debug, PartialEq, Eq, Structural)]
pub enum WorkflowStageStatus {
    Pending,
    Running,
    WaitingApproval,
    Completed,
    Failed,
}

/// A repository that the workbench manages.
pub struct Project {
    pub id: String,
    pub name: String,
    pub repo_path: String,
    pub default_branch: String,
    pub is_git_linked: bool,
}

impl Clone for Project {
    fn clone(&self) -> (r: Self)
        ensures
            r == *self,
    {
        Project {
            id: self.id.clone(),
            name: self.name.clone(),
            repo_path: self.repo_path.clone(),
            default_branch: self.default_branch.clone(),
            is_git_linked: self.is_git_linked,
        }
    }
}

/// A unit of work in a project.
pub struct Task {
    pub id: String,
    pub title: String,
    pub description: String,
    pub status: TaskStatus,
    pub mode: TaskMode,
    pub base: Option<String>,
    pub branch: Option<String>,
    pub push_mode: PushMode,
    pub review_loop: bool,
    pub session_id: Option<String>,
    pub pr_url: Option<String>,
    pub sort_order: i64,
}

impl Clone for Task {
    fn clone(&self) -> (r: Self)
        ensures
            r == *self,
    {
        Task {
            id: self.id.clone(),
            title: self.title.clone(),
            description: self.description.clone(),
            status: self.status,
            mode: self.mode,
            base: clone_text(&self.base),
            branch: clone_text(&self.branch),
            push_mode: self.push_mode,
            review_loop: self.review_loop,
            session_id: clone_text(&self.session_id),
            pr_url: clone_text(&self.pr_url),
            sort_order: self.sort_order,
        }
    }
}

/// A worktree with an agent in it. A closed session is kept for its history.
pub struct Session {
    pub id: String,
    pub worktree_path: String,
    pub claude_session_id: Option<String>,
    pub claude_status: ClaudeStatus,
    pub closed: bool,
}

impl Clone for Session {
    fn clone(&self) -> (r: Self)
        ensures
            r == *self,
    {
        Session {
            id: self.id.clone(),
            worktree_path: self.worktree_path.clone(),
            claude_session_id: clone_text(&self.claude_session_id),
            claude_status: self.claude_status,
            closed: self.closed,
        }
    }
}

/// A conversation with an agent.
pub struct Thread {
    pub id: String,
    pub project_id: String,
    pub github_item_id: Option<String>,
    pub task_id: Option<String>,
    pub session_id: Option<String>,
    pub title: String,
    pub status: String,
    pub provider_kind: ProviderKind,
    pub provider_profile: Option<String>,
    pub worktree_path: Option<String>,
    pub runtime_profile: Option<String>,
    pub workflow_run_id: Option<String>,
}

impl Clone for Thread {
    fn clone(&self) -> (r: Self)
        ensures
            r == *self,
    {
        Thread {
            id: self.id.clone(),
            project_id: self.project_id.clone(),
            github_item_id: clone_text(&self.github_item_id),
            task_id: clone_text(&self.task_id),
            session_id: clone_text(&self.session_id),
            title: self.title.clone(),
            status: self.status.clone(),
            provider_kind: self.provider_kind,
            provider_profile: clone_text(&self.provider_profile),
            worktree_path: clone_text(&self.worktree_path),
            runtime_profile: clone_text(&self.runtime_profile),
            workflow_run_id: clone_text(&self.workflow_run_id),
        }
    }
}

/// A step of a task.
pub struct Subtask {
    pub id: String,
    pub task_id: String,
    pub title: String,
    pub description: String,
}

impl Clone for Subtask {
    fn clone(&self) -> (r: Self)
        ensures
            r == *self,
    {
        Subtask {
            id: self.id.clone(),
            task_id: self.task_id.clone(),
            title: self.title.clone(),
            description: self.description.clone(),
        }
    }
}

/// A message of a thread.
pub struct ThreadMessage {
    pub role: String,
    pub content: String,
}

/// A file that is attached to a thread.
pub struct ThreadAttachment {
    pub file_name: String,
}

/// An issue or a pull request.
pub struct GitHubItem {
    pub id: String,
    pub repo_id: String,
    pub node_id: Option<String>,
    pub number: i64,
    pub kind: GitHubItemKind,
    pub kind_label: String,
    pub title: String,
    pub state: String,
    pub url: String,
    pub body_text: Option<String>,
    pub assignee_logins: Vec<String>,
    pub label_names: Vec<String>,
    pub github_updated_at: Option<String>,
}

/// What is cached of an issue.
pub struct GitHubIssueCache {
    pub body: Option<String>,
    pub body_text: Option<String>,
    pub author_login: Option<String>,
}

impl Clone for GitHubIssueCache {
    fn clone(&self) -> (r: Self)
        ensures
            r == *self,
    {
        GitHubIssueCache {
            body: clone_text(&self.body),
            body_text: clone_text(&self.body_text),
            author_login: clone_text(&self.author_login),
        }
    }
}

/// What is cached of a pull request.
pub struct GitHubPrCache {
    pub body: Option<String>,
    pub body_text: Option<String>,
    pub base_ref: Option<String>,
    pub head_ref: Option<String>,
    pub review_decision: Option<String>,
    pub json_payload: Option<String>,
}

impl Clone for GitHubPrCache {
    fn clone(&self) -> (r: Self)
        ensures
            r == *self,
    {
        GitHubPrCache {
            body: clone_text(&self.body),
            body_text: clone_text(&self.body_text),
            base_ref: clone_text(&self.base_ref),
            head_ref: clone_text(&self.head_ref),
            review_decision: clone_text(&self.review_decision),
            json_payload: clone_text(&self.json_payload),
        }
    }
}

/// A repository on GitHub.
pub struct GitHubRepo {
    pub id: String,
    pub full_name: String,
}

impl Clone for GitHubRepo {
    fn clone(&self) -> (r: Self)
        ensures
            r == *self,
    {
        GitHubRepo {
            id: self.id.clone(),
            full_name: self.full_name.clone(),
        }
    }
}

/// A comment on an issue or a pull request.
pub struct GitHubComment {
    pub author_login: Option<String>,
    pub body: Option<String>,
    pub body_text: Option<String>,
}

impl Clone for GitHubComment {
    fn clone(&self) -> (r: Self)
        ensures
            r == *self,
    {
        GitHubComment {
            author_login: clone_text(&self.author_login),
            body: clone_text(&self.body),
            body_text: clone_text(&self.body_text),
        }
    }
}

/// A review of a pull request.
pub struct GitHubReview {
    pub author_login: Option<String>,
    pub state: String,
    pub body: Option<String>,
    pub body_text: Option<String>,
}

impl Clone for GitHubReview {
    fn clone(&self) -> (r: Self)
        ensures
            r == *self,
    {
        GitHubReview {
            author_login: clone_text(&self.author_login),
            state: self.state.clone(),
            body: clone_text(&self.body),
            body_text: clone_text(&self.body_text),
        }
    }
}

/// A comment on a place in a diff.
pub struct GitHubReviewComment {
    pub author_login: Option<String>,
    pub path: Option<String>,
    pub line: Option<i64>,
    pub diff_hunk: Option<String>,
    pub body: Option<String>,
    pub body_text: Option<String>,
}

impl Clone for GitHubReviewComment {
    fn clone(&self) -> (r: Self)
        ensures
            r == *self,
    {
        GitHubReviewComment {
            author_login: clone_text(&self.author_login),
            path: clone_text(&self.path),
            line: self.line,
            diff_hunk: clone_text(&self.diff_hunk),
            body: clone_text(&self.body),
            body_text: clone_text(&self.body_text),
        }
    }
}

/// A project board on GitHub, with the label that lists show for it.
pub struct GitHubProjectV2 {
    pub id: String,
    pub project_number: i64,
    pub title: String,
    pub node_id: Option<String>,
    pub label: String,
}

impl Clone for GitHubProjectV2 {
    fn clone(&self) -> (r: Self)
        ensures
            r == *self,
    {
        GitHubProjectV2 {
            id: self.id.clone(),
            project_number: self.project_number,
            title: self.title.clone(),
            node_id: clone_text(&self.node_id),
            label: self.label.clone(),
        }
    }
}

/// An installation of the GitHub App.
pub struct GitHubInstallation {
    pub id: i64,
    pub login: String,
}

impl Clone for GitHubInstallation {
    fn clone(&self) -> (r: Self)
        ensures
            r == *self,
    {
        GitHubInstallation {
            id: self.id,
            login: self.login.clone(),
        }
    }
}

/// An entry of a session's conversation log.
pub enum ConversationEntry {
    UserMessage { timestamp: String, text: String },
    AssistantText { text: String },
    ToolUse,
    ToolResult,
    TurnEnd,
}

/// How the agent is called in messages and in commands.
pub struct AgentNames {
    /// The name that messages use.
    pub name: String,
    /// The identifier that model names and providers begin with.
    pub id: String,
}

/// A provider as forms and messages write it.
pub open spec fn provider_text(kind: ProviderKind, agent_id: Seq<char>) -> Seq<char> {
    match kind {
        ProviderKind::Claude => agent_id,
        ProviderKind::Codex => "codex"@,
    }
}

pub fn provider_name(kind: ProviderKind, agent_id: &str) -> (r: String)
    ensures
        r@ == provider_text(kind, agent_id@),
{
    match kind {
        ProviderKind::Claude => agent_id.to_owned(),
        ProviderKind::Codex => "codex".to_owned(),
    }
}

/// A text that may be absent is the given one.
pub open spec fn option_is(o: Option<String>, s: Seq<char>) -> bool {
    o matches Some(t) && t@ == s
}

pub fn text_is(o: &Option<String>, s: &str) -> (r: bool)
    ensures
        r == option_is(*o, s@),
{
    match o {
        Some(t) => crate::text::same(t.as_str(), s),
        None => false,
    }
}

/// A provider is named by the agent's identifier, or as the other one.
pub proof fn law_providers_are_named(agent_id: Seq<char>, o: Option<String>, s: Seq<char>)
    ensures
        provider_text(ProviderKind::Claude, agent_id) == agent_id,
        provider_text(ProviderKind::Codex, agent_id) == "codex"@,
        o matches Some(t) ==> (option_is(o, s) <==> t@ == s),
        o is None ==> !option_is(o, s),
{
}

} // verus!
