//! The views, panes, tabs and modes of the workbench, with their labels.

use vstd::prelude::*;

verus! {

/// What a session tab shows.
#[derive(Clone, Copy, Debug, PartialEq, Eq, Structural)]
pub enum SessionTabView {
    Conversation,
    Terminal,
}

/// The pane that keys go to.
#[derive(Clone, Copy, Debug, PartialEq, Eq, Structural)]
pub enum Focus {
    Projects,
    Tasks,
    Inspector,
}

/// The main views of the workbench.
#[derive(Clone, Copy, Debug, PartialEq, Eq, Structural)]
pub enum WorkbenchView {
    MyTasks,
    SprintBoard,
    Threads,
    Reviews,
    Agents,
    Settings,
}

pub open spec fn workbench_view_label(v: WorkbenchView) -> Seq<char> {
    match v {
        WorkbenchView::MyTasks => "My Tasks"@,
        WorkbenchView::SprintBoard => "Sprint Board"@,
        WorkbenchView::Threads => "Threads"@,
        WorkbenchView::Reviews => "Reviews"@,
        WorkbenchView::Agents => "Agents"@,
        WorkbenchView::Settings => "Settings"@,
    }
}

impl WorkbenchView {
    pub fn label(self) -> (r: &'static str)
        ensures
            r@ == workbench_view_label(self),
    {
        match self {
            WorkbenchView::MyTasks => "My Tasks",
            WorkbenchView::SprintBoard => "Sprint Board",
            WorkbenchView::Threads => "Threads",
            WorkbenchView::Reviews => "Reviews",
            WorkbenchView::Agents => "Agents",
            WorkbenchView::Settings => "Settings",
        }
    }

    /// The views that the sidebar lists, in its order.
    pub open spec fn all() -> Seq<WorkbenchView> {
        seq![
            WorkbenchView::MyTasks,
            WorkbenchView::SprintBoard,
            WorkbenchView::Reviews,
            WorkbenchView::Agents,
            WorkbenchView::Settings,
        ]
    }

    /// The view at a place in the list.
    pub fn at(index: usize) -> (r: Option<WorkbenchView>)
        ensures
            r == if index < WorkbenchView::all().len() {
                Some(WorkbenchView::all()[index as int])
            } else {
                None
            },
    {
        match index {
            0 => Some(WorkbenchView::MyTasks),
            1 => Some(WorkbenchView::SprintBoard),
            2 => Some(WorkbenchView::Reviews),
            3 => Some(WorkbenchView::Agents),
            4 => Some(WorkbenchView::Settings),
            _ => None,
        }
    }

    /// The place of a view in the sidebar, the first one for a view that it does not
    /// list.
    pub open spec fn spec_position(self) -> usize {
        match self {
            WorkbenchView::MyTasks => 0,
            WorkbenchView::SprintBoard => 1,
            WorkbenchView::Reviews => 2,
            WorkbenchView::Agents => 3,
            WorkbenchView::Settings => 4,
            WorkbenchView::Threads => 0,
        }
    }

    pub fn position(self) -> (r: usize)
        ensures
            r == self.spec_position(),
            r < WorkbenchView::all().len(),
            self != WorkbenchView::Threads ==> WorkbenchView::all()[r as int] == self,
    {
        match self {
            WorkbenchView::MyTasks => 0,
            WorkbenchView::SprintBoard => 1,
            WorkbenchView::Reviews => 2,
            WorkbenchView::Agents => 3,
            WorkbenchView::Settings => 4,
            WorkbenchView::Threads => 0,
        }
    }
}

/// An entry of the sidebar: a view, or a repository by its place in the project list.
#[derive(Clone, Copy, Debug, PartialEq, Eq, Structural)]
pub enum SidebarItem {
    Navigation(WorkbenchView),
    Repository(usize),
}

/// The two queues of the review view.
#[derive(Clone, Copy, Debug, PartialEq, Eq, Structural)]
pub enum ReviewQueueTab {
    Authored,
    NeedsReview,
}

pub open spec fn review_queue_tab_label(v: ReviewQueueTab) -> Seq<char> {
    match v {
        ReviewQueueTab::Authored => "Authored PRs"@,
        ReviewQueueTab::NeedsReview => "Needs Review"@,
    }
}

impl ReviewQueueTab {
    pub fn label(self) -> (r: &'static str)
        ensures
            r@ == review_queue_tab_label(self),
    {
        match self {
            ReviewQueueTab::Authored => "Authored PRs",
            ReviewQueueTab::NeedsReview => "Needs Review",
        }
    }

    /// The other queue.
    #[verifier::allow_in_spec]
    pub fn other(self) -> ReviewQueueTab
        returns
            (match self {
                ReviewQueueTab::Authored => ReviewQueueTab::NeedsReview,
                ReviewQueueTab::NeedsReview => ReviewQueueTab::Authored,
            }),
    {
        match self {
            ReviewQueueTab::Authored => ReviewQueueTab::NeedsReview,
            ReviewQueueTab::NeedsReview => ReviewQueueTab::Authored,
        }
    }
}

/// The pages of the review drawer.
#[derive(Clone, Copy, Debug, PartialEq, Eq, Structural)]
pub enum ReviewDrawerTab {
    Description,
    Diff,
    Comments,
}

pub open spec fn review_drawer_tab_label(v: ReviewDrawerTab) -> Seq<char> {
    match v {
        ReviewDrawerTab::Description => "Description"@,
        ReviewDrawerTab::Diff => "Diff"@,
        ReviewDrawerTab::Comments => "Comments"@,
    }
}

impl ReviewDrawerTab {
    pub fn label(self) -> (r: &'static str)
        ensures
            r@ == review_drawer_tab_label(self),
    {
        match self {
            ReviewDrawerTab::Description => "Description",
            ReviewDrawerTab::Diff => "Diff",
            ReviewDrawerTab::Comments => "Comments",
        }
    }
}

/// Whose issues the sprint board shows.
#[derive(Clone, Copy, Debug, PartialEq, Eq, Structural)]
pub enum BoardScope {
    AssignedToMe,
    AllSprint,
}

pub open spec fn board_scope_label(v: BoardScope) -> Seq<char> {
    match v {
        BoardScope::AssignedToMe => "Assigned to me"@,
        BoardScope::AllSprint => "All sprint issues"@,
    }
}

impl BoardScope {
    pub fn label(self) -> (r: &'static str)
        ensures
            r@ == board_scope_label(self),
    {
        match self {
            BoardScope::AssignedToMe => "Assigned to me",
            BoardScope::AllSprint => "All sprint issues",
        }
    }

    /// The other scope.
    #[verifier::allow_in_spec]
    pub fn next(self) -> BoardScope
        returns
            (match self {
                BoardScope::AssignedToMe => BoardScope::AllSprint,
                BoardScope::AllSprint => BoardScope::AssignedToMe,
            }),
    {
        match self {
            BoardScope::AssignedToMe => BoardScope::AllSprint,
            BoardScope::AllSprint => BoardScope::AssignedToMe,
        }
    }
}

/// The sections of the settings view.
#[derive(Clone, Copy, Debug, PartialEq, Eq, Structural)]
pub enum SettingsSection {
    AiProviders,
    Permissions,
    GitHub,
    Layout,
    Notifications,
    ReviewLoop,
    Workflows,
    Sandbox,
    General,
}

pub open spec fn settings_section_label(v: SettingsSection) -> Seq<char> {
    match v {
        SettingsSection::AiProviders => "AI Providers"@,
        SettingsSection::Permissions => "Permissions"@,
        SettingsSection::GitHub => "GitHub"@,
        SettingsSection::Layout => "Layout"@,
        SettingsSection::Notifications => "Notifications"@,
        SettingsSection::ReviewLoop => "Review Loop"@,
        SettingsSection::Workflows => "Workflows"@,
        SettingsSection::Sandbox => "Sandbox"@,
        SettingsSection::General => "General"@,
    }
}

impl SettingsSection {
    pub fn label(self) -> (r: &'static str)
        ensures
            r@ == settings_section_label(self),
    {
        match self {
            SettingsSection::AiProviders => "AI Providers",
            SettingsSection::Permissions => "Permissions",
            SettingsSection::GitHub => "GitHub",
            SettingsSection::Layout => "Layout",
            SettingsSection::Notifications => "Notifications",
            SettingsSection::ReviewLoop => "Review Loop",
            SettingsSection::Workflows => "Workflows",
            SettingsSection::Sandbox => "Sandbox",
            SettingsSection::General => "General",
        }
    }

    /// The sections in the order of the view.
    pub open spec fn all() -> Seq<SettingsSection> {
        seq![
            SettingsSection::AiProviders,
            SettingsSection::Permissions,
            SettingsSection::GitHub,
            SettingsSection::Layout,
            SettingsSection::Notifications,
            SettingsSection::ReviewLoop,
            SettingsSection::Workflows,
            SettingsSection::Sandbox,
            SettingsSection::General,
        ]
    }

    /// The section at a place in the list.
    pub fn count() -> (r: usize)
        ensures
            r == SettingsSection::all().len(),
    {
        9
    }

    pub fn at(index: usize) -> (r: Option<SettingsSection>)
        ensures
            r == if index < SettingsSection::all().len() {
                Some(SettingsSection::all()[index as int])
            } else {
                None
            },
    {
        match index {
            0 => Some(SettingsSection::AiProviders),
            1 => Some(SettingsSection::Permissions),
            2 => Some(SettingsSection::GitHub),
            3 => Some(SettingsSection::Layout),
            4 => Some(SettingsSection::Notifications),
            5 => Some(SettingsSection::ReviewLoop),
            6 => Some(SettingsSection::Workflows),
            7 => Some(SettingsSection::Sandbox),
            8 => Some(SettingsSection::General),
            _ => None,
        }
    }
}

/// The pages of the inspector.
#[derive(Clone, Copy, Debug, PartialEq, Eq, Structural)]
pub enum InspectorTab {
    Issue,
    Diff,
    Runtime,
    Tests,
    Plan,
    Attachments,
}

pub open spec fn inspector_tab_label(v: InspectorTab) -> Seq<char> {
    match v {
        InspectorTab::Issue => "Issue"@,
        InspectorTab::Diff => "Diff"@,
        InspectorTab::Runtime => "Runtime"@,
        InspectorTab::Tests => "Tests"@,
        InspectorTab::Plan => "Plan"@,
        InspectorTab::Attachments => "Attachments"@,
    }
}

impl InspectorTab {
    pub fn label(self) -> (r: &'static str)
        ensures
            r@ == inspector_tab_label(self),
    {
        match self {
            InspectorTab::Issue => "Issue",
            InspectorTab::Diff => "Diff",
            InspectorTab::Runtime => "Runtime",
            InspectorTab::Tests => "Tests",
            InspectorTab::Plan => "Plan",
            InspectorTab::Attachments => "Attachments",
        }
    }
}

/// A divider that the mouse can drag.
#[derive(Clone, Copy, Debug, PartialEq, Eq, Structural)]
pub enum WorkbenchDragTarget {
    SidebarDivider,
    InspectorDivider,
}

/// How a toast is coloured.
#[derive(Clone, Copy, Debug, PartialEq, Eq, Structural)]
pub enum ToastStyle {
    Info,
    Success,
    Error,
}

/// Which handler the keys of the dashboard go to.
#[derive(Clone, Copy, Debug, PartialEq, Eq, Structural)]
pub enum InputMode {
    Normal,
    LaunchThread,
    ThreadCompose,
    ThreadProviderPicker,
    SettingsEdit,
    SettingsPicker,
    GitHubInstallationPicker,
    GitHubProjectPicker,
    ProjectPicker,
    NewTask,
    EditTask,
    NewProject,
    ConfirmDelete,
    CommandPalette,
    SkillPanel,
    SkillSearch,
    SkillAdd,
    HelpOverlay,
    TaskFilter,
    SubtaskPanel,
    TaskDetails,
    ConfigureWizard,
    BoardView,
    MilestoneFilter,
    BoardFilter,
    CommentCompose,
    BoardIssueDrawer,
    FieldPicker,
    CreateGitHubIssue,
    EditGitHubIssue,
    MyTaskDrawer,
    ReviewDrawer,
}

/// What a confirmed deletion removes.
#[derive(Clone, Copy, Debug, PartialEq, Eq, Structural)]
pub enum DeleteTarget {
    Project,
    Task,
    Session,
}

/// The fields of the launch form.
#[derive(Clone, Copy, Debug, PartialEq, Eq, Structural)]
pub enum LaunchThreadField {
    Provider,
    RuntimeProfile,
    Workflow,
    Title,
    ExtraContext,
}

pub open spec fn launch_thread_field_label(v: LaunchThreadField) -> Seq<char> {
    match v {
        LaunchThreadField::Provider => "Provider"@,
        LaunchThreadField::RuntimeProfile => "Runtime Profile"@,
        LaunchThreadField::Workflow => "Workflow"@,
        LaunchThreadField::Title => "Title"@,
        LaunchThreadField::ExtraContext => "Additional Context"@,
    }
}

impl LaunchThreadField {
    pub fn label(self) -> (r: &'static str)
        ensures
            r@ == launch_thread_field_label(self),
    {
        match self {
            LaunchThreadField::Provider => "Provider",
            LaunchThreadField::RuntimeProfile => "Runtime Profile",
            LaunchThreadField::Workflow => "Workflow",
            LaunchThreadField::Title => "Title",
            LaunchThreadField::ExtraContext => "Additional Context",
        }
    }

    /// The fields in the order of the form.
    pub open spec fn all() -> Seq<LaunchThreadField> {
        seq![
            LaunchThreadField::Provider,
            LaunchThreadField::RuntimeProfile,
            LaunchThreadField::Workflow,
            LaunchThreadField::Title,
            LaunchThreadField::ExtraContext,
        ]
    }

    /// The field at a place in the list.
    pub fn at(index: usize) -> (r: Option<LaunchThreadField>)
        ensures
            r == if index < LaunchThreadField::all().len() {
                Some(LaunchThreadField::all()[index as int])
            } else {
                None
            },
    {
        match index {
            0 => Some(LaunchThreadField::Provider),
            1 => Some(LaunchThreadField::RuntimeProfile),
            2 => Some(LaunchThreadField::Workflow),
            3 => Some(LaunchThreadField::Title),
            4 => Some(LaunchThreadField::ExtraContext),
            _ => None,
        }
    }

    /// The field takes typed text; the others are chosen from a list.
    #[verifier::allow_in_spec]
    pub fn is_text(self) -> bool
        returns
            self != LaunchThreadField::Provider && self != LaunchThreadField::Workflow,
    {
        self != LaunchThreadField::Provider && self != LaunchThreadField::Workflow
    }
}

/// What a thread that is launched on a pull request is for.
#[derive(Clone, Copy, Debug, PartialEq, Eq, Structural)]
pub enum PendingReviewLaunchMode {
    ContinueWork,
    Review,
}

/// What an entry of the command palette does.
#[derive(Clone, Copy, Debug, PartialEq, Eq, Structural)]
pub enum PaletteAction {
    NewTask,
    AddProject,
    RemoveProject,
    FocusProjects,
    FocusTasks,
    FindSkills,
    UpdateSkills,
    Configure,
    SprintBoard,
    Quit,
}

/// What a key of the keymap is bound to.
#[derive(Clone, Copy, Debug, PartialEq, Eq, Structural)]
pub enum Action {
    Quit,
    OpenCommandPalette,
    PrevTab,
    NextTab,
    FocusProjects,
    FocusTasks,
    ShowHelp,
    FilterTasks,
    ResizePaneNarrow,
    ResizePaneWide,
    MoveDown,
    MoveUp,
    ReorderTaskDown,
    ReorderTaskUp,
    Select,
    ViewTaskDetails,
    OpenSubtasks,
    NewTask,
    EditTask,
    MarkDone,
    KillSession,
    OpenPR,
    LaunchTask,
    DeleteItem,
    OpenSkills,
    AddProject,
    Configure,
    OpenBoard,
    ReturnToDashboard,
    FocusPrevPane,
    FocusNextPane,
    ScrollToBottom,
    ScrollPageUp,
    ScrollPageDown,
    SplitRight,
    SplitDown,
    ClosePane,
    CommentOnIssue,
    CloseIssue,
    CreateIssue,
    EditIssue,
}

/// Switching the board scope twice restores it.
pub proof fn law_board_scope_alternates(s: BoardScope)
    ensures
        s.next() != s,
        s.next().next() == s,
{
}

/// Switching the review queue twice restores it.
pub proof fn law_review_queue_alternates(t: ReviewQueueTab)
    ensures
        t.other() != t,
        t.other().other() == t,
{
}

/// The labels of the views, tabs and sections.
pub proof fn law_labels()
    ensures
        workbench_view_label(WorkbenchView::MyTasks) == "My Tasks"@,
        workbench_view_label(WorkbenchView::SprintBoard) == "Sprint Board"@,
        workbench_view_label(WorkbenchView::Threads) == "Threads"@,
        workbench_view_label(WorkbenchView::Reviews) == "Reviews"@,
        workbench_view_label(WorkbenchView::Agents) == "Agents"@,
        workbench_view_label(WorkbenchView::Settings) == "Settings"@,
        review_queue_tab_label(ReviewQueueTab::Authored) == "Authored PRs"@,
        review_queue_tab_label(ReviewQueueTab::NeedsReview) == "Needs Review"@,
        review_drawer_tab_label(ReviewDrawerTab::Description) == "Description"@,
        review_drawer_tab_label(ReviewDrawerTab::Diff) == "Diff"@,
        review_drawer_tab_label(ReviewDrawerTab::Comments) == "Comments"@,
        board_scope_label(BoardScope::AssignedToMe) == "Assigned to me"@,
        board_scope_label(BoardScope::AllSprint) == "All sprint issues"@,
        settings_section_label(SettingsSection::AiProviders) == "AI Providers"@,
        settings_section_label(SettingsSection::Permissions) == "Permissions"@,
        settings_section_label(SettingsSection::GitHub) == "GitHub"@,
        settings_section_label(SettingsSection::Layout) == "Layout"@,
        settings_section_label(SettingsSection::Notifications) == "Notifications"@,
        settings_section_label(SettingsSection::ReviewLoop) == "Review Loop"@,
        settings_section_label(SettingsSection::Workflows) == "Workflows"@,
        settings_section_label(SettingsSection::Sandbox) == "Sandbox"@,
        settings_section_label(SettingsSection::General) == "General"@,
        inspector_tab_label(InspectorTab::Issue) == "Issue"@,
        inspector_tab_label(InspectorTab::Diff) == "Diff"@,
        inspector_tab_label(InspectorTab::Runtime) == "Runtime"@,
        inspector_tab_label(InspectorTab::Tests) == "Tests"@,
        inspector_tab_label(InspectorTab::Plan) == "Plan"@,
        inspector_tab_label(InspectorTab::Attachments) == "Attachments"@,
        launch_thread_field_label(LaunchThreadField::Provider) == "Provider"@,
        launch_thread_field_label(LaunchThreadField::RuntimeProfile) == "Runtime Profile"@,
        launch_thread_field_label(LaunchThreadField::Workflow) == "Workflow"@,
        launch_thread_field_label(LaunchThreadField::Title) == "Title"@,
        launch_thread_field_label(LaunchThreadField::ExtraContext) == "Additional Context"@,
{
}

/// Every view but the threads stands in the sidebar at its own place; the threads have none
/// of their own.
pub proof fn law_places_of_the_views(v: WorkbenchView)
    ensures
        v != WorkbenchView::Threads ==> WorkbenchView::all()[v.spec_position() as int] == v,
        WorkbenchView::all().len() == 5,
        !WorkbenchView::all().contains(WorkbenchView::Threads),
        LaunchThreadField::Provider.is_text() == false,
        LaunchThreadField::Workflow.is_text() == false,
        LaunchThreadField::Title.is_text() && LaunchThreadField::ExtraContext.is_text()
            && LaunchThreadField::RuntimeProfile.is_text(),
{
}

} // verus!
