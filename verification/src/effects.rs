//! What the workbench asks of the world around it: reads and writes of the database,
//! calls of GitHub, keys for terminals. An effect is performed by whoever owns these;
//! where the outcome matters, it is handed back to a method of [`crate::app::App`].

use vstd::prelude::*;
use vstd::string::*;

use crate::app::{Selection, Toast};
use crate::composer::GitHubPost;
use crate::drafts::LaunchRequest;
use crate::keys::KeyBytes;
use crate::panes::SplitDirection;
use crate::settings::{settings_error_message, SettingsError};
use crate::store::{ProviderKind, Session, Thread};
use crate::task_form::TaskSubmission;
use crate::views::ToastStyle;

verus! {

/// What a thread is to be launched on.
#[derive(Clone, Copy, Debug, PartialEq, Eq, Structural)]
pub enum LaunchSource {
    Task,
    BoardIssue,
    MyTask,
    Review,
}

/// What is done with the services of a thread's runtime.
#[derive(Clone, Copy, Debug, PartialEq, Eq, Structural)]
pub enum RuntimeAction {
    Up,
    Down,
    Restart,
    Health,
}

/// A request to the terminals of the active tab.
pub enum PaneEffect {
    /// Show the live screen of the focused pane and send it these bytes.
    Send(KeyBytes),
    /// Show the live screen of the focused pane and send it this text.
    SendText(String),
    /// Send these bytes to the pane of the agent.
    SendToAgent(KeyBytes),
    /// Send these bytes to a pane.
    SendTo { pane: u32, bytes: Vec<u8> },
    /// Scroll a pane up or down.
    Scroll { pane: u32, up: bool, rows: usize },
    /// Copy the marked text.
    Copy(Selection),
    FocusPrevious,
    FocusNext,
    ScrollToBottom,
    ScrollHalfUp,
    ScrollHalfDown,
    Split(SplitDirection),
    Close,
}

/// Why an agent is started again.
#[derive(Clone, Copy, Debug, PartialEq, Eq, Structural)]
pub enum RestartCause {
    /// It had ended before the message was written.
    Ended,
    /// The message could not be handed to it.
    Unreachable,
    /// A message that waited could not be handed to it.
    QueuedUnreachable,
}

/// How a task form is submitted.
#[derive(Clone, Copy, Debug, PartialEq, Eq, Structural)]
pub enum SubmitKind {
    /// The task is to be worked on.
    Start,
    /// The task stays a draft.
    Draft,
}

pub enum Effect {
    Nothing,
    /// Load the records anew.
    Refresh,
    /// Load the records anew, then show a message.
    RefreshAndSay(Toast),
    LoadBoard,
    LoadReviewContext,
    LoadMyTaskComments,
    /// Load the issues and pull requests that may be the user's.
    LoadMyTasks,
    LoadSubtasks { task_id: String },
    LoadConfigStatus,
    /// List the skills.
    LoadSkills,
    /// List the skills, then open their panel.
    OpenSkillPanel,
    /// Read the description of a skill.
    LoadSkillDetail { path: String },
    FetchInstallations,
    ConnectGitHub,
    DisconnectGitHub { app_session: bool },
    ReadGitHubStatus,
    SyncGitHub,
    SyncProject,
    OpenInstallPage,
    /// Divide the body of the workbench with these widths.
    ResizePanes { sidebar: u16, inspector: u16 },
    /// Save the settings, then show a message.
    SaveSettings(Toast),
    /// Save the settings of the GitHub App, read its status, load the board where it
    /// is shown, then show a message.
    SaveGitHubSettings { load_board: bool, notice: Toast },
    /// Save the settings, read the status of the GitHub App, then show a message.
    SaveSettingsAndStatus(Toast),
    CreateWorkflow,
    DeleteWorkflow { name: String },
    RenameWorkflow { from: String, to: String },
    /// Load the board, then open the list of project boards.
    PickProjectBoard,
    ApplyPermissions,
    PrepareLaunch(LaunchSource),
    Launch(LaunchRequest),
    FindBoardIssueThread { github_item_id: String },
    RelaunchThread { thread_id: String },
    RestoreSession(Session),
    OpenTaskSession { task_id: String, session_id: String },
    SwitchProvider { thread: Thread, provider: ProviderKind },
    RunRuntime { thread: Thread, worktree: String, action: RuntimeAction },
    ApproveGate { run_id: String, stage: String },
    CloseThreadSession,
    /// Exchange two tasks; where that succeeds, the selection goes to `task_index`.
    SwapTasks { first: String, second: String, task_index: usize },
    /// Load the records of the project that was chosen from the list.
    SwitchProject,
    /// Load the records of the project that was chosen in the sidebar.
    SelectProject,
    CompleteTask { task_id: String, session: Option<String>, notice: Toast },
    /// Make a task pending again and tear its session down; then the task may be queued
    /// for a new launch in a project.
    ReleaseTask {
        task_id: String,
        session_id: String,
        relaunch_in: Option<String>,
        notice: Toast,
    },
    /// Create a task and its subtasks.
    CreateTask { project_id: String, task: TaskSubmission, kind: SubmitKind },
    /// Create a task from an issue of the board, then load the records anew.
    CreateIssueTask { project_id: String, task: TaskSubmission },
    /// Change a task and create the subtasks; a draft that is started becomes pending.
    UpdateTask { task_id: String, task: TaskSubmission, kind: SubmitKind },
    /// Start a task in a new session, then load the records anew.
    StartTask { task_id: String, project_id: String },
    /// Have a title made for a task, then load the records anew.
    GenerateTitle { task_id: String, description: String },
    CreateProject { name: String, path: String, git_linked: bool },
    SuggestPaths { directory: String, partial: String },
    AddSubtask { task_id: String, title: String, description: String },
    DeleteSubtask { subtask_id: String, task_id: String },
    DeleteProject { id: String },
    DeleteTask { id: String },
    CloseSession { id: String },
    /// Tear a session down in the background.
    TearDown { session_id: String },
    OpenUrl(String),
    RemoveSkill { name: String, global: bool, project_path: Option<String> },
    UpdateSkills { panel: bool },
    SearchSkills { query: String },
    InstallSkills { packages: Vec<String>, global: bool, project_path: Option<String> },
    InstallSkill { package: String, global: bool, project_path: Option<String> },
    Post(GitHubPost),
    SetIssueState { repo_path: String, number: i64, state: String },
    FindRepo { repo_id: String },
    /// Look up the node of an item, then fetch the fields of its project.
    FindItemNode { project_node_id: String, github_item_id: String },
    FetchFields { project_node_id: String, item_node_id: String },
    SetField {
        project_node_id: String,
        item_node_id: String,
        field_id: String,
        field_name: String,
        option_id: String,
        option_name: String,
    },
    Pane(PaneEffect),
    /// Interrupt the agent of the active session.
    Interrupt,
    /// Read the clipboard: a picture becomes an attachment of the thread.
    PasteInto { thread_id: String },
    /// Record a message in a thread.
    RecordMessage { thread_id: String, role: String, content: String },
    /// Hand a message to the agent of the active session, else to the one of the
    /// thread.
    SendMessage { thread: Thread, content: String },
    /// The same for a message that an interrupt sends at once.
    SendAfterInterrupt { thread_id: String, content: String },
    /// The same for a message that waited for the agent.
    SendQueued { thread_id: String, content: String },
    /// Start the agent of a thread again, with a message.
    RestartAgent { thread: Thread, content: String, cause: RestartCause },
    /// Load the records anew, then show the thread.
    RefreshAndShow { thread: Thread },
    /// List the skills for the commands that are suggested.
    LoadCommands,
    /// Look up whether a workflow waits for approval.
    FindGate { run_id: String },
}

/// A form that was filled in wrongly.
#[derive(Clone, Copy, Debug, PartialEq, Eq, Structural)]
pub enum AppError {
    EmptyThreadTitle,
    Setting(SettingsError),
}

pub open spec fn app_error_message(e: AppError, agent: Seq<char>) -> Seq<char> {
    match e {
        AppError::EmptyThreadTitle => "Thread title cannot be empty"@,
        AppError::Setting(s) => settings_error_message(s, agent),
    }
}

impl AppError {
    /// The message for the user; `agent` is the name that messages use.
    pub fn message(self, agent: &str) -> (r: String)
        ensures
            r@ == app_error_message(self, agent@),
    {
        match self {
            AppError::EmptyThreadTitle => "Thread title cannot be empty".to_owned(),
            AppError::Setting(s) => s.message(agent),
        }
    }
}

pub open spec fn notice_is(t: Toast, message: Seq<char>, style: ToastStyle) -> bool {
    t.message@ == message && t.style == style
}

/// A refusal is told in its own words.
pub proof fn law_refusals_are_told(agent: Seq<char>, t: Toast, message: Seq<char>, style: ToastStyle)
    ensures
        app_error_message(AppError::EmptyThreadTitle, agent) == "Thread title cannot be empty"@,
        app_error_message(
            AppError::Setting(crate::settings::SettingsError::IntervalZero),
            agent,
        ) == "Review loop interval must be greater than zero"@,
        notice_is(t, message, style) <==> t.message@ == message && t.style == style,
{
}

} // verus!
