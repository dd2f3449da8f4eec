use std::cell::RefCell;

use claustre::actions::Context;
use claustre::app::{App, FieldOption, GitHubStatus, Panes, Tab};
use claustre::board::{BoardItem, FieldValue};
use claustre::composer::GitHubPost;
use claustre::effects::{AppError, Effect, LaunchSource, PaneEffect};
use claustre::event_loop::InputEvent;
use claustre::input_board::BoardSnapshot;
use claustre::input_drawers::ProjectField;
use claustre::input_mouse::{MouseContext, MouseEvent, PaneState};
use claustre::input_tasks::{status_after_edit, status_of_new, ProjectOutcome};
use claustre::keys::{
    KeyCode, KeyModifiers, MouseButton, MouseEventKind, MouseProtocolEncoding,
};
use claustre::moves::WorkbenchLayout;
use claustre::palette::PaletteItem;
use claustre::panes::{LayoutNode, Rect, SplitDirection};
use claustre::refresh::{subtask_counts, FinishedSession, Records, SubtaskCount};
use claustre::review::{review_queue_item, MyTaskItem, ReviewQueueItem};
use claustre::settings::{
    ClaudeConfig, Config, GitHubAppConfig, KeymapConfig, NotificationRules, NotificationsConfig,
    ReviewLoopConfig, RuntimeConfig, SettingsEditTarget, UiConfig,
};
use claustre::skills::SearchResult;
use claustre::startup::Startup;
use claustre::store::{
    AgentNames, ClaudeStatus, ConversationEntry, GitHubIssueCache, GitHubItem, GitHubItemKind, GitHubPrCache,
    GitHubProjectV2, GitHubRepo, Project, ProviderKind, PushMode, Session, Subtask, Task, TaskMode,
    TaskStatus, Thread, ThreadAttachment, ThreadMessage, WorkflowRunStatus, WorkflowStageStatus,
};
use claustre::task_form::TaskSubmission;
use claustre::text_input::TextInput;
use claustre::thread_context::{
    ContextCache, KnowledgeLink, RuntimeState, ServiceStatus, ThreadFacts, ThreadRun, WorkflowRun, WorkflowStage,
};
use claustre::views::{
    Action, DeleteTarget, Focus, InputMode, PaletteAction, PendingReviewLaunchMode, ReviewQueueTab,
    SessionTabView, SidebarItem, ToastStyle, WorkbenchView,
};
use claustre::workflow::{StageRun, WorkflowAction};

// ── A database in memory ──

struct TaskRow {
    project_id: String,
    task: Task,
}

#[derive(Default)]
struct Tables {
    next: usize,
    projects: Vec<Project>,
    tasks: Vec<TaskRow>,
    subtasks: Vec<Subtask>,
    sessions: Vec<Session>,
    threads: Vec<Thread>,
    /// The thread, the role and the content of each message.
    messages: Vec<(String, String, String)>,
    pull_requests: Vec<(GitHubItem, GitHubPrCache, GitHubIssueCache)>,
    login: Option<String>,
    directories: Vec<String>,
}

struct Store {
    tables: RefCell<Tables>,
}

impl Store {
    fn new() -> Store {
        Store { tables: RefCell::new(Tables::default()) }
    }

    fn fresh_id(&self, kind: &str) -> String {
        let mut t = self.tables.borrow_mut();
        t.next += 1;
        format!("{kind}-{}", t.next)
    }

    fn create_project(
        &self,
        name: &str,
        path: &str,
        branch: &str,
        linked: bool,
    ) -> Result<Project, String> {
        let project = Project {
            id: self.fresh_id("project"),
            name: name.to_string(),
            repo_path: path.to_string(),
            default_branch: branch.to_string(),
            is_git_linked: linked,
        };
        self.tables.borrow_mut().projects.push(project.clone());
        Ok(project)
    }

    #[allow(clippy::too_many_arguments)]
    fn create_task(
        &self,
        project_id: &str,
        title: &str,
        description: &str,
        mode: TaskMode,
        branch: Option<String>,
        base: Option<String>,
        push_mode: PushMode,
        review_loop: bool,
    ) -> Result<Task, String> {
        let id = self.fresh_id("task");
        let mut t = self.tables.borrow_mut();
        let sort_order = t.tasks.len() as i64;
        let task = Task {
            id,
            title: title.to_string(),
            description: description.to_string(),
            status: TaskStatus::Pending,
            mode,
            base,
            branch,
            push_mode,
            review_loop,
            session_id: None,
            pr_url: None,
            sort_order,
        };
        t.tasks.push(TaskRow { project_id: project_id.to_string(), task: task.clone() });
        Ok(task)
    }

    fn list_tasks_for_project(&self, project_id: &str) -> Result<Vec<Task>, String> {
        let t = self.tables.borrow();
        let mut tasks: Vec<Task> =
            t.tasks.iter().filter(|r| r.project_id == project_id).map(|r| r.task.clone()).collect();
        tasks.sort_by_key(|task| task.sort_order);
        Ok(tasks)
    }

    fn get_task(&self, id: &str) -> Result<Task, String> {
        let t = self.tables.borrow();
        let row = t.tasks.iter().find(|r| r.task.id == id);
        row.map(|r| r.task.clone()).ok_or_else(|| "no such task".to_string())
    }

    fn with_task(&self, id: &str, change: impl FnOnce(&mut Task)) {
        let mut t = self.tables.borrow_mut();
        change(&mut t.tasks.iter_mut().find(|r| r.task.id == id).unwrap().task);
    }

    fn update_task_status(&self, id: &str, status: TaskStatus) -> Result<(), String> {
        self.with_task(id, |task| task.status = status);
        Ok(())
    }

    fn swap_tasks(&self, first: &str, second: &str) {
        let a = self.get_task(first).unwrap().sort_order;
        let b = self.get_task(second).unwrap().sort_order;
        self.with_task(first, |task| task.sort_order = b);
        self.with_task(second, |task| task.sort_order = a);
    }

    fn create_subtask(
        &self,
        task_id: &str,
        title: &str,
        description: &str,
    ) -> Result<Subtask, String> {
        let subtask = Subtask {
            id: self.fresh_id("subtask"),
            task_id: task_id.to_string(),
            title: title.to_string(),
            description: description.to_string(),
        };
        self.tables.borrow_mut().subtasks.push(subtask.clone());
        Ok(subtask)
    }

    fn list_subtasks_for_task(&self, task_id: &str) -> Result<Vec<Subtask>, String> {
        let t = self.tables.borrow();
        Ok(t.subtasks.iter().filter(|s| s.task_id == task_id).cloned().collect())
    }

    fn save_task(&self, project_id: &str, task: &TaskSubmission, status: TaskStatus) -> String {
        let created = self
            .create_task(
                project_id,
                &task.title,
                &task.description,
                task.mode,
                task.branch.clone(),
                task.base.clone(),
                task.push_mode,
                task.review_loop,
            )
            .unwrap();
        self.update_task_status(&created.id, status).unwrap();
        for (title, text) in &task.subtasks {
            self.create_subtask(&created.id, title, text).unwrap();
        }
        created.id
    }

    fn review_items(&self) -> Vec<ReviewQueueItem> {
        let t = self.tables.borrow();
        t.pull_requests
            .iter()
            .map(|(item, pr, issue)| {
                review_queue_item(copy_item(item), pr.clone(), Some(issue.clone()), 1, 1, 1)
            })
            .collect()
    }

    fn my_items(&self) -> Vec<MyTaskItem> {
        let t = self.tables.borrow();
        t.pull_requests
            .iter()
            .map(|(item, pr, issue)| MyTaskItem {
                repo: GitHubRepo { id: "repo-1".to_string(), full_name: "acme/claustre".to_string() },
                github_item: copy_item(item),
                issue_cache: Some(issue.clone()),
                pr_cache: Some(pr.clone()),
                linked_thread: None,
                linked_pr: None,
            })
            .collect()
    }

    fn thread(&self, id: &str) -> Thread {
        self.tables.borrow().threads.iter().find(|t| t.id == id).unwrap().clone()
    }
}

fn copy_item(item: &GitHubItem) -> GitHubItem {
    GitHubItem {
        id: item.id.clone(),
        repo_id: item.repo_id.clone(),
        node_id: item.node_id.clone(),
        number: item.number,
        kind: item.kind,
        kind_label: item.kind_label.clone(),
        title: item.title.clone(),
        state: item.state.clone(),
        url: item.url.clone(),
        body_text: item.body_text.clone(),
        assignee_logins: item.assignee_logins.clone(),
        label_names: item.label_names.clone(),
        github_updated_at: item.github_updated_at.clone(),
    }
}

// ── The workbench on that database ──

struct Bench {
    a: App,
    store: Store,
    subtask_counts: Vec<SubtaskCount>,
    /// What was asked for and is not carried out here.
    asked: Vec<Effect>,
}

fn agent() -> AgentNames {
    let name = format!("{:?}", ProviderKind::Claude);
    let id = name.to_lowercase();
    AgentNames { name, id }
}

fn default_config() -> Config {
    Config {
        claude: ClaudeConfig {
            model: format!("{}-opus-4-6", agent().id),
            effort: "medium".to_string(),
        },
        ui: UiConfig {
            keymap: KeymapConfig { preset: "default".to_string(), leader: "space".to_string() },
        },
        notifications: NotificationsConfig {
            enabled: false,
            system: false,
            command: "say".to_string(),
            template: "done".to_string(),
            rules: NotificationRules {
                ask_user: true,
                approval_required: true,
                run_complete: true,
                review_requested: true,
                ci_failed: true,
            },
        },
        review_loop: ReviewLoopConfig { poll_interval_secs: 30, prompt: None },
        runtime: RuntimeConfig { default_profile: None, sandbox_path: None, attachments_dir: None },
        github_app: GitHubAppConfig {
            client_id: None,
            app_slug: None,
            install_url: None,
            relay_url: None,
            default_installation_id: None,
            default_project_id: None,
        },
        remote_enabled: false,
        auto_update: false,
        sync_auto_push: false,
        rtk_enabled: false,
    }
}

fn palette_items() -> Vec<PaletteItem> {
    [
        ("New Task", PaletteAction::NewTask),
        ("Add Project", PaletteAction::AddProject),
        ("Remove Project", PaletteAction::RemoveProject),
        ("Focus Projects", PaletteAction::FocusProjects),
        ("Focus Tasks", PaletteAction::FocusTasks),
        ("Find Skills", PaletteAction::FindSkills),
        ("Update Skills", PaletteAction::UpdateSkills),
        ("Configure", PaletteAction::Configure),
        ("Sprint Board", PaletteAction::SprintBoard),
        ("Quit", PaletteAction::Quit),
    ]
    .into_iter()
    .map(|(label, action)| PaletteItem { label: label.to_string(), action })
    .collect()
}

/// What the default keymap binds a key to.
fn bound(code: KeyCode, m: KeyModifiers) -> Option<Action> {
    if m == KeyModifiers::control() {
        return match code {
            KeyCode::Char('c') => Some(Action::Quit),
            KeyCode::Char('p') => Some(Action::OpenCommandPalette),
            KeyCode::Char('j') => Some(Action::NextTab),
            KeyCode::Char('k') => Some(Action::PrevTab),
            _ => None,
        };
    }
    if !m.is_empty() {
        return None;
    }
    match code {
        KeyCode::Char('q') => Some(Action::Quit),
        KeyCode::Char('1') => Some(Action::FocusProjects),
        KeyCode::Char('2') => Some(Action::FocusTasks),
        KeyCode::Char('?') => Some(Action::ShowHelp),
        KeyCode::Char('/') => Some(Action::FilterTasks),
        KeyCode::Char('[') => Some(Action::ResizePaneNarrow),
        KeyCode::Char(']') => Some(Action::ResizePaneWide),
        KeyCode::Char('j') | KeyCode::Down => Some(Action::MoveDown),
        KeyCode::Char('k') | KeyCode::Up => Some(Action::MoveUp),
        KeyCode::Char('J') => Some(Action::ReorderTaskDown),
        KeyCode::Char('K') => Some(Action::ReorderTaskUp),
        KeyCode::Enter => Some(Action::Select),
        KeyCode::Char('v') => Some(Action::ViewTaskDetails),
        KeyCode::Char('s') => Some(Action::OpenSubtasks),
        KeyCode::Char('n') => Some(Action::NewTask),
        KeyCode::Char('e') => Some(Action::EditTask),
        KeyCode::Char('r') => Some(Action::MarkDone),
        KeyCode::Char('x') => Some(Action::KillSession),
        KeyCode::Char('o') => Some(Action::OpenPR),
        KeyCode::Char('l') => Some(Action::LaunchTask),
        KeyCode::Char('d') => Some(Action::DeleteItem),
        KeyCode::Char('i') => Some(Action::OpenSkills),
        KeyCode::Char('a') => Some(Action::AddProject),
        KeyCode::Char('c') => Some(Action::Configure),
        _ => None,
    }
}

impl Bench {
    fn new(store: Store) -> Bench {
        let a = App::new(Startup {
            config: default_config(),
            config_warning: None,
            agent: agent(),
            palette: palette_items(),
            board_columns: vec!["Backlog".to_string(), "In Progress".to_string()],
            gh_installed: false,
            sidebar_width: 30,
            inspector_width: 44,
        });
        let mut bench = Bench { a, store, subtask_counts: Vec::new(), asked: Vec::new() };
        bench.load();
        bench
    }

    fn status(&self) -> GitHubStatus {
        GitHubStatus {
            user_login: None,
            gh_user_login: self.store.tables.borrow().login.clone(),
            authenticated: false,
            gh_authenticated: false,
            gh_has_project_scope: false,
            app_auth_available: false,
        }
    }

    fn has_repos(&self) -> bool {
        !self.store.tables.borrow().pull_requests.is_empty()
    }

    fn load(&mut self) {
        let projects = self.store.tables.borrow().projects.clone();
        let chosen = self.a.project_to_load(&projects);
        let tasks = match &chosen {
            Some(id) => self.store.list_tasks_for_project(id).unwrap(),
            None => Vec::new(),
        };
        self.subtask_counts = subtask_counts(
            tasks
                .iter()
                .map(|task| SubtaskCount {
                    task_id: task.id.clone(),
                    total: self.store.list_subtasks_for_task(&task.id).unwrap().len() as i64,
                    done: 0,
                })
                .collect(),
        );
        let records = Records {
            status: self.status(),
            projects,
            sessions: self.store.tables.borrow().sessions.clone(),
            tasks,
            threads: self.store.tables.borrow().threads.clone(),
            board_projects: Vec::new(),
            has_repos: self.has_repos(),
            my_items: self.store.my_items(),
            review_items: self.store.review_items(),
        };
        let follow_ups = self.a.refresh_data(records);
        if let Some(id) = follow_ups.subtasks_of {
            let subtasks = self.store.list_subtasks_for_task(&id).unwrap();
            self.a.subtasks_loaded(subtasks);
        }
    }

    fn inspector(&self) -> bool {
        self.a.nav.workbench_view == WorkbenchView::Threads
    }

    fn layout(&self, inspector: bool) -> WorkbenchLayout {
        let area = self.a.workbench_area();
        let height = area.height.saturating_sub(2);
        let body = Rect { x: area.x, y: area.y + 1, width: area.width, height };
        let sidebar = Rect { width: self.a.nav.sidebar_width, ..body };
        let right = if inspector { self.a.nav.inspector_width } else { 0 };
        let main = Rect {
            x: body.x + sidebar.width,
            width: body.width.saturating_sub(sidebar.width + right),
            ..body
        };
        let inspector = Rect { x: main.x + main.width, width: right, ..body };
        WorkbenchLayout { body, sidebar, main, inspector }
    }

    fn context(&self, code: KeyCode, m: KeyModifiers) -> Context {
        let stored_session = match self.a.selected_thread() {
            Some(thread) => thread.session_id.clone(),
            None => None,
        };
        Context {
            bound: bound(code, m),
            inspector: self.inspector(),
            layout: self.layout(self.inspector()),
            home: Some("/home/user".to_string()),
            stored_thread: None,
            stored_session,
            workflows: Vec::new(),
        }
    }

    fn handle_mouse(&mut self, kind: MouseEventKind, column: u16, row: u16) {
        let c = MouseContext {
            layout: self.layout(self.inspector()),
            inspector: self.inspector(),
            entries: Vec::new(),
            terminals: vec![PaneState {
                id: 1,
                forwards: false,
                encoding: MouseProtocolEncoding::Sgr,
            }],
        };
        let e = self.a.handle_mouse(&c, MouseEvent { kind, column, row });
        self.perform(e);
    }

    fn toast_message(&self) -> Option<&str> {
        self.a.toast.as_ref().map(|t| t.message.as_str())
    }

    fn prepare(&mut self, source: LaunchSource) {
        let suggested = "plan_first_tdd".to_string();
        match source {
            LaunchSource::Task => self.a.open_task_launch_modal(suggested),
            LaunchSource::BoardIssue => self.a.open_board_issue_launch_modal(&None, suggested),
            LaunchSource::MyTask => {
                let (none, no) = (Vec::new(), Vec::new());
                self.a.open_my_task_launch_modal(&None, &None, &none, &no, suggested);
            },
            LaunchSource::Review => self.a.open_review_launch_modal(suggested),
        }
    }

    fn perform(&mut self, effect: Effect) {
        match effect {
            Effect::Nothing => {},
            Effect::Refresh => self.load(),
            Effect::RefreshAndSay(notice) => {
                self.load();
                self.a.show_toast(notice.message, notice.style);
            },
            Effect::LoadBoard => {
                if self.a.begin_board_load() {
                    let projects = Vec::new();
                    let snapshot = BoardSnapshot { projects, selected: None, items: Vec::new() };
                    self.a.board_loaded(Ok(snapshot));
                }
            },
            Effect::LoadReviewContext => {
                self.a.review_context_loaded(Vec::new(), Vec::new(), Vec::new());
            },
            Effect::LoadMyTasks => {
                let items = self.store.my_items();
                let has_repos = self.has_repos();
                self.a.recompute_my_task_items(items, has_repos);
            },
            Effect::LoadSubtasks { task_id } => {
                let subtasks = self.store.list_subtasks_for_task(&task_id).unwrap();
                self.a.subtasks_loaded(subtasks);
            },
            Effect::LoadSkills => {
                let e = self.a.refresh_skills(Vec::new());
                self.perform(e);
            },
            Effect::OpenSkillPanel => {
                let e = self.a.refresh_skills(Vec::new());
                self.a.open_skill_panel();
                self.perform(e);
            },
            Effect::ResizePanes { sidebar, inspector } => self.a.set_widths(sidebar, inspector),
            Effect::PickProjectBoard => self.a.open_github_project_picker(),
            Effect::PrepareLaunch(source) => self.prepare(source),
            Effect::SwapTasks { first, second, task_index } => {
                self.store.swap_tasks(&first, &second);
                let e = self.a.tasks_swapped(task_index);
                self.perform(e);
            },
            Effect::SwitchProject => {
                self.load();
                let e = self.a.project_switched();
                self.perform(e);
            },
            Effect::SelectProject => {
                self.load();
                let e = self.a.project_selected();
                self.perform(e);
            },
            Effect::CompleteTask { task_id, notice, .. } => {
                self.store.update_task_status(&task_id, TaskStatus::Done).unwrap();
                self.load();
                self.a.show_toast(notice.message, notice.style);
            },
            Effect::CreateTask { project_id, task, kind } => {
                let id = self.store.save_task(&project_id, &task, status_of_new(kind));
                let e = self.a.task_created(id, project_id, kind);
                self.perform(e);
            },
            Effect::CreateIssueTask { project_id, task } => {
                self.store.save_task(&project_id, &task, TaskStatus::Pending);
                self.load();
            },
            Effect::UpdateTask { task_id, task, kind } => {
                let status = self.store.get_task(&task_id).unwrap().status;
                self.store.with_task(&task_id, |row| {
                    row.title = task.title.clone();
                    row.description = task.description.clone();
                    row.mode = task.mode;
                });
                if let Some(status) = status_after_edit(status, kind) {
                    self.store.update_task_status(&task_id, status).unwrap();
                }
                let e = self.a.task_updated(task_id, kind);
                self.perform(e);
            },
            Effect::StartTask { .. } | Effect::GenerateTitle { .. } => self.load(),
            Effect::CreateProject { name, path, git_linked } => {
                let known = self.store.tables.borrow().directories.contains(&path);
                let outcome = if known {
                    self.store.create_project(&name, &path, "main", git_linked).unwrap();
                    ProjectOutcome::Created
                } else {
                    ProjectOutcome::InvalidPath { path }
                };
                let e = self.a.project_created(&name, outcome);
                self.perform(e);
            },
            Effect::SuggestPaths { partial, .. } => {
                self.a.project_form.show_path_suggestions(&None, &partial);
            },
            Effect::AddSubtask { task_id, title, description } => {
                self.store.create_subtask(&task_id, &title, &description).unwrap();
                let subtasks = self.store.list_subtasks_for_task(&task_id).unwrap();
                self.a.subtask_added(subtasks);
            },
            Effect::DeleteSubtask { subtask_id, task_id } => {
                self.store.tables.borrow_mut().subtasks.retain(|s| s.id != subtask_id);
                let subtasks = self.store.list_subtasks_for_task(&task_id).unwrap();
                self.a.subtask_deleted(subtasks);
            },
            Effect::DeleteProject { id } => {
                self.store.tables.borrow_mut().projects.retain(|p| p.id != id);
                let e = self.a.deletion_done();
                self.perform(e);
            },
            Effect::DeleteTask { id } => {
                self.store.tables.borrow_mut().tasks.retain(|r| r.task.id != id);
                let e = self.a.deletion_done();
                self.perform(e);
            },
            Effect::RecordMessage { thread_id, role, content } => {
                let message = (thread_id.clone(), role, content.clone());
                self.store.tables.borrow_mut().messages.push(message);
                let thread = self.store.thread(&thread_id);
                let e = self.a.message_recorded(&thread, content, None);
                self.perform(e);
            },
            Effect::SendMessage { thread, content } => {
                let e = self.a.message_sent(&thread, content, false, "12:00".to_string());
                self.perform(e);
            },
            Effect::RestartAgent { thread, content, cause } => {
                let time = "12:00".to_string();
                let e = self.a.agent_restarted(&thread, content, cause, false, time);
                self.perform(e);
            },
            Effect::RefreshAndShow { thread } => {
                self.load();
                self.a.message_settled(&thread, &thread.session_id);
            },
            other => self.asked.push(other),
        }
    }
}

// ── Helpers ──

fn test_app() -> Bench {
    let mut app = Bench::new(Store::new());
    app.a.nav.loading = false;
    app
}

fn test_app_with_project() -> Bench {
    let store = Store::new();
    store.create_project("test-project", "/tmp/test-repo", "main", true).unwrap();
    let mut app = Bench::new(store);
    app.a.nav.loading = false;
    app
}

fn test_app_with_tasks() -> Bench {
    let store = Store::new();
    let project = store.create_project("test-project", "/tmp/test-repo", "main", true).unwrap();
    for (title, description, mode) in [
        ("Task Alpha", "First task", TaskMode::Supervised),
        ("Task Beta", "Second task", TaskMode::Autonomous),
        ("Task Gamma", "Third task", TaskMode::Supervised),
    ] {
        store
            .create_task(&project.id, title, description, mode, None, None, PushMode::Pr, false)
            .unwrap();
    }
    let mut app = Bench::new(store);
    app.a.nav.loading = false;
    app
}

fn text(s: &str) -> Option<String> {
    Some(s.to_string())
}

fn pull_request(id: &str, number: i64, title: &str, body: &str) -> GitHubItem {
    GitHubItem {
        id: id.to_string(),
        repo_id: "repo-1".to_string(),
        node_id: None,
        number,
        kind: GitHubItemKind::PullRequest,
        kind_label: "PR".to_string(),
        title: title.to_string(),
        state: "OPEN".to_string(),
        url: format!("https://github.com/acme/claustre/pull/{number}"),
        body_text: text(body),
        assignee_logins: vec!["harsha".to_string()],
        label_names: vec!["ui".to_string(), "github".to_string()],
        github_updated_at: text("2026-03-16T10:00:00Z"),
    }
}

fn pr_cache(head: &str, payload: Option<String>) -> GitHubPrCache {
    GitHubPrCache {
        body: text("PR body markdown"),
        body_text: text("PR body markdown"),
        base_ref: text("main"),
        head_ref: text(head),
        review_decision: text("review_required"),
        json_payload: payload,
    }
}

fn issue_cache(author: &str) -> GitHubIssueCache {
    GitHubIssueCache {
        body: text("Issue body markdown"),
        body_text: text("Issue body markdown"),
        author_login: text(author),
    }
}

/// The first task has a session, a thread and a pull request.
fn seed_thread_workspace(app: &mut Bench) {
    let project = app.a.projects[0].clone();
    let task = app.a.tasks[0].clone();
    {
        let mut t = app.store.tables.borrow_mut();
        t.sessions.push(Session {
            id: "session-1".to_string(),
            worktree_path: "/tmp/test-repo-worktree".to_string(),
            claude_session_id: None,
            claude_status: ClaudeStatus::Working,
            closed: false,
        });
        t.pull_requests.push((
            pull_request(
                "item-42",
                42,
                "Render issue and PR review context",
                "Need a proper diff and issue rendering surface.",
            ),
            pr_cache("task-alpha", None),
            issue_cache("octocat"),
        ));
        t.threads.push(Thread {
            id: "thread-1".to_string(),
            project_id: project.id,
            github_item_id: text("item-42"),
            task_id: Some(task.id.clone()),
            session_id: text("session-1"),
            title: task.title,
            status: "running".to_string(),
            provider_kind: ProviderKind::Claude,
            provider_profile: text("default"),
            worktree_path: text("/tmp/test-repo-worktree"),
            runtime_profile: text("default"),
            workflow_run_id: text("workflow-run-1"),
        });
    }
    app.store.with_task(&task.id, |row| {
        row.status = TaskStatus::Working;
        row.session_id = Some("session-1".to_string());
    });
    app.load();
    app.a.nav.task_index =
        app.a.visible_tasks().iter().position(|candidate| candidate.id == task.id).unwrap();
}

/// A pull request of the user, and one that waits for the user's review.
fn seed_review_queue_items(app: &mut Bench) {
    seed_thread_workspace(app);
    {
        let mut t = app.store.tables.borrow_mut();
        t.pull_requests[0].2 = issue_cache("harsha");
        let payload = concat_payload();
        t.pull_requests.push((
            pull_request("item-77", 77, "Review queue PR", "This PR needs an AI review pass."),
            pr_cache("review/pr-77", Some(payload)),
            issue_cache("octocat"),
        ));
        t.login = text("harsha");
    }
    app.load();
}

fn concat_payload() -> String {
    "{\"author\":{\"login\":\"octocat\"},\"requested_reviewers\":[{\"login\":\"harsha\"}]}"
        .to_string()
}

fn thread_facts() -> ThreadFacts {
    ThreadFacts {
        messages: Some(vec![ThreadMessage {
            role: "user".to_string(),
            content: "Inspect the review comments and continue.".to_string(),
        }]),
        runs: Some(vec![ThreadRun {
            id: "run-1".to_string(),
            provider_kind: ProviderKind::Claude,
            provider_profile: text("default"),
            status: "running".to_string(),
        }]),
        attachments: Some(vec![ThreadAttachment { file_name: "shot.png".to_string() }]),
        runtime_state: Some(RuntimeState {
            profile_name: text("default"),
            build_status: text("built"),
        }),
        runtime_services: vec![ServiceStatus::Healthy],
        workflow_name: text("plan_first_tdd"),
        workflow_run: Some(WorkflowRun {
            status: "running".to_string(),
            current_stage: text("implement"),
        }),
        workflow_stages: vec![WorkflowStage {
            stage_name: "implement".to_string(),
            status: "running".to_string(),
        }],
        workflow_artifact_count: 1,
        github_item: Some(pull_request("item-42", 42, "Render", "Body")),
        issue_cache: Some(issue_cache("octocat")),
        pr_cache: Some(pr_cache("task-alpha", None)),
        comment_count: 1,
        review_count: 1,
        review_comment_count: 1,
        cards: vec![KnowledgeLink { thread_id: text("thread-1"), github_item_id: None }],
        drafts: vec![
            KnowledgeLink { thread_id: None, github_item_id: text("item-42") },
            KnowledgeLink { thread_id: None, github_item_id: text("item-1") },
        ],
    }
}

fn alt() -> KeyModifiers {
    KeyModifiers { alt: true, ..KeyModifiers::none() }
}

fn super_key() -> KeyModifiers {
    KeyModifiers { super_key: true, ..KeyModifiers::none() }
}

fn press(app: &mut Bench, code: KeyCode) {
    press_mod(app, code, KeyModifiers::none());
}

fn press_mod(app: &mut Bench, code: KeyCode, modifiers: KeyModifiers) {
    let c = app.context(code, modifiers);
    let e = app.a.handle_dashboard_key(&c, code, modifiers).unwrap_or(Effect::Nothing);
    app.perform(e);
}

fn type_str(app: &mut Bench, s: &str) {
    for c in s.chars() {
        press(app, KeyCode::Char(c));
    }
}

#[test]
fn focus_switching_with_numbers() {
    let mut app = test_app();
    assert_eq!(app.a.nav.focus, Focus::Projects);

    press(&mut app, KeyCode::Char('2'));
    assert_eq!(app.a.nav.focus, Focus::Tasks);

    press(&mut app, KeyCode::Char('1'));
    assert_eq!(app.a.nav.focus, Focus::Projects);
}

#[test]
fn board_view_allows_global_focus_navigation() {
    let mut app = test_app();
    app.a.nav.workbench_view = WorkbenchView::SprintBoard;
    app.a.nav.input_mode = InputMode::BoardView;
    app.a.nav.focus = Focus::Tasks;

    press(&mut app, KeyCode::Char('1'));
    assert_eq!(app.a.nav.focus, Focus::Projects);

    press(&mut app, KeyCode::Char('2'));
    assert_eq!(app.a.nav.focus, Focus::Tasks);

    press(&mut app, KeyCode::Char('3'));
    assert_eq!(app.a.nav.focus, Focus::Tasks);

    press(&mut app, KeyCode::BackTab);
    assert_eq!(app.a.nav.focus, Focus::Projects);

    press(&mut app, KeyCode::Tab);
    assert_eq!(app.a.nav.focus, Focus::Tasks);
}

#[test]
fn board_view_respects_sidebar_focus_for_navigation() {
    let store = Store::new();
    store
        .create_project("alpha", "/tmp/alpha", "main", true)
        .unwrap();
    store
        .create_project("beta", "/tmp/beta", "main", true)
        .unwrap();
    let mut app = Bench::new(store);
    app.a.nav.loading = false;
    app.a.nav.workbench_view = WorkbenchView::SprintBoard;
    app.a.nav.input_mode = InputMode::BoardView;
    app.a.nav.focus = Focus::Projects;
    app.a.nav.sidebar_cursor = 1; // Sprint Board
    app.a.board.column_index = 0;

    press(&mut app, KeyCode::Char('j'));
    assert_eq!(
        app.a.selected_sidebar_item(),
        SidebarItem::Navigation(WorkbenchView::Reviews)
    );
    assert_eq!(app.a.board.column_index, 0);

    press(&mut app, KeyCode::Enter);
    assert_eq!(app.a.nav.workbench_view, WorkbenchView::Reviews);
}

#[test]
fn settings_view_sections_navigate_with_jk() {
    let mut app = test_app();
    app.a.nav.workbench_view = WorkbenchView::Settings;
    app.a.nav.focus = Focus::Tasks;

    assert_eq!(app.a.nav.settings_section_index, 0);
    press(&mut app, KeyCode::Char('j'));
    assert_eq!(app.a.nav.settings_section_index, 1);
    press(&mut app, KeyCode::Char('j'));
    assert_eq!(app.a.nav.settings_section_index, 2);
    press(&mut app, KeyCode::Char('k'));
    assert_eq!(app.a.nav.settings_section_index, 1);
}

#[test]
fn settings_ai_providers_enter_opens_picker_overlay() {
    let mut app = test_app();
    app.a.nav.workbench_view = WorkbenchView::Settings;
    app.a.nav.focus = Focus::Tasks;

    press(&mut app, KeyCode::Enter);
    assert_eq!(app.a.nav.input_mode, InputMode::SettingsPicker);
    assert_eq!(
        app.a.settings_picker.target,
        Some(SettingsEditTarget::ClaudeModel)
    );
    assert!(!app.a.settings_picker.options.is_empty());
}

#[test]
fn resize_sidebar_with_bracket_keys() {
    let mut app = test_app_with_project();
    app.a.nav.screen = Rect { x: 0, y: 0, width: 140, height: 40 };
    app.a.nav.focus = Focus::Projects;

    let initial = app.a.nav.sidebar_width;
    press(&mut app, KeyCode::Char(']'));
    assert!(app.a.nav.sidebar_width > initial);

    press(&mut app, KeyCode::Char('['));
    assert_eq!(app.a.nav.sidebar_width, initial);
}

#[test]
fn resize_main_focus_adjusts_inspector_width() {
    let mut app = test_app_with_project();
    app.a.nav.workbench_view = WorkbenchView::Threads;
    app.a.nav.screen = Rect { x: 0, y: 0, width: 140, height: 40 };
    app.a.nav.focus = Focus::Tasks;

    let initial = app.a.nav.inspector_width;
    press(&mut app, KeyCode::Char('['));
    assert!(app.a.nav.inspector_width < initial);

    press(&mut app, KeyCode::Char(']'));
    assert_eq!(app.a.nav.inspector_width, initial);
}

#[test]
fn navigate_projects_jk() {
    let store = Store::new();
    store
        .create_project("alpha", "/tmp/alpha", "main", true)
        .unwrap();
    store
        .create_project("beta", "/tmp/beta", "main", true)
        .unwrap();
    store
        .create_project("gamma", "/tmp/gamma", "main", true)
        .unwrap();
    let mut app = Bench::new(store);
    app.a.nav.loading = false;

    assert_eq!(
        app.a.selected_sidebar_item(),
        SidebarItem::Navigation(WorkbenchView::MyTasks)
    );
    press(&mut app, KeyCode::Char('j'));
    assert_eq!(
        app.a.selected_sidebar_item(),
        SidebarItem::Navigation(WorkbenchView::SprintBoard)
    );
    for _ in 0..App::sidebar_nav_count().saturating_sub(2) {
        press(&mut app, KeyCode::Char('j'));
    }
    press(&mut app, KeyCode::Char('j'));
    assert_eq!(app.a.selected_sidebar_item(), SidebarItem::Repository(0));
    press(&mut app, KeyCode::Char('j'));
    assert_eq!(app.a.selected_sidebar_item(), SidebarItem::Repository(1));
    press(&mut app, KeyCode::Char('j'));
    assert_eq!(app.a.selected_sidebar_item(), SidebarItem::Repository(2));
    // Clamp at end
    press(&mut app, KeyCode::Char('j'));
    assert_eq!(app.a.selected_sidebar_item(), SidebarItem::Repository(2));

    press(&mut app, KeyCode::Char('k'));
    assert_eq!(app.a.selected_sidebar_item(), SidebarItem::Repository(1));
    press(&mut app, KeyCode::Char('k'));
    assert_eq!(app.a.selected_sidebar_item(), SidebarItem::Repository(0));
    // Clamp at start
    for _ in 0..App::sidebar_nav_count() {
        press(&mut app, KeyCode::Char('k'));
    }
    press(&mut app, KeyCode::Char('k'));
    assert_eq!(
        app.a.selected_sidebar_item(),
        SidebarItem::Navigation(WorkbenchView::MyTasks)
    );
}

#[test]
fn navigate_tasks_jk() {
    let mut app = test_app_with_tasks();
    press(&mut app, KeyCode::Char('2'));
    assert_eq!(app.a.nav.task_index, 0);

    press(&mut app, KeyCode::Char('j'));
    assert_eq!(app.a.nav.task_index, 1);
    press(&mut app, KeyCode::Char('j'));
    assert_eq!(app.a.nav.task_index, 2);
    // Clamp
    press(&mut app, KeyCode::Char('j'));
    assert_eq!(app.a.nav.task_index, 2);

    press(&mut app, KeyCode::Char('k'));
    assert_eq!(app.a.nav.task_index, 1);
}

#[test]
fn navigate_with_arrow_keys() {
    let store = Store::new();
    store.create_project("a", "/tmp/a", "main", true).unwrap();
    store.create_project("b", "/tmp/b", "main", true).unwrap();
    let mut app = Bench::new(store);
    app.a.nav.loading = false;

    press(&mut app, KeyCode::Down);
    assert_eq!(
        app.a.selected_sidebar_item(),
        SidebarItem::Navigation(WorkbenchView::SprintBoard)
    );

    press(&mut app, KeyCode::Up);
    assert_eq!(
        app.a.selected_sidebar_item(),
        SidebarItem::Navigation(WorkbenchView::MyTasks)
    );
}

#[test]
fn quit_with_q() {
    let mut app = test_app();
    assert!(!app.a.nav.should_quit);
    press(&mut app, KeyCode::Char('q'));
    assert!(app.a.nav.should_quit);
}

#[test]
fn quit_with_ctrl_c() {
    let mut app = test_app();
    press_mod(&mut app, KeyCode::Char('c'), KeyModifiers::control());
    assert!(app.a.nav.should_quit);
}

#[test]
fn add_project_opens_form() {
    let mut app = test_app();
    press(&mut app, KeyCode::Char('a'));
    assert_eq!(app.a.nav.input_mode, InputMode::NewProject);
    assert_eq!(app.a.project_form.field, 0);
}

#[test]
fn add_project_form_field_cycling() {
    let mut app = test_app();
    press(&mut app, KeyCode::Char('a'));
    assert_eq!(app.a.project_form.field, 0);

    type_str(&mut app, "my-proj");
    assert_eq!(app.a.input.text, "my-proj");

    // Tab to path field
    press(&mut app, KeyCode::Tab);
    assert_eq!(app.a.project_form.field, 1);
    assert_eq!(app.a.project_form.name, "my-proj");

    // BackTab back to name
    press(&mut app, KeyCode::BackTab);
    assert_eq!(app.a.project_form.field, 0);
    assert_eq!(app.a.input.text, "my-proj");
}

#[test]
fn add_project_cancel_with_esc() {
    let mut app = test_app();
    press(&mut app, KeyCode::Char('a'));
    type_str(&mut app, "will-cancel");
    press(&mut app, KeyCode::Esc);
    assert_eq!(app.a.nav.input_mode, InputMode::Normal);
    assert!(app.a.project_form.name.is_empty());
}

#[test]
fn remove_project_with_confirm() {
    let mut app = test_app_with_project();
    assert_eq!(app.a.projects.len(), 1);

    for _ in 0..App::sidebar_nav_count() {
        press(&mut app, KeyCode::Char('j'));
    }
    press(&mut app, KeyCode::Char('d'));
    assert_eq!(app.a.nav.input_mode, InputMode::ConfirmDelete);
    assert!(matches!(app.a.confirm.kind, DeleteTarget::Project));
    assert_eq!(app.a.confirm.target, "test-project");

    press(&mut app, KeyCode::Char('y'));
    assert_eq!(app.a.nav.input_mode, InputMode::Normal);
    assert!(app.a.projects.is_empty());
}

#[test]
fn remove_project_cancel_n() {
    let mut app = test_app_with_project();
    for _ in 0..App::sidebar_nav_count() {
        press(&mut app, KeyCode::Char('j'));
    }
    press(&mut app, KeyCode::Char('d'));
    press(&mut app, KeyCode::Char('n'));
    assert_eq!(app.a.nav.input_mode, InputMode::Normal);
    assert_eq!(app.a.projects.len(), 1);
}

#[test]
fn remove_project_cancel_esc() {
    let mut app = test_app_with_project();
    for _ in 0..App::sidebar_nav_count() {
        press(&mut app, KeyCode::Char('j'));
    }
    press(&mut app, KeyCode::Char('d'));
    press(&mut app, KeyCode::Esc);
    assert_eq!(app.a.nav.input_mode, InputMode::Normal);
    assert_eq!(app.a.projects.len(), 1);
}

#[test]
fn select_project_loads_its_data() {
    let store = Store::new();
    let p1 = store
        .create_project("alpha", "/tmp/alpha", "main", true)
        .unwrap();
    let p2 = store
        .create_project("beta", "/tmp/beta", "main", true)
        .unwrap();
    store
        .create_task(
            &p1.id,
            "alpha-task",
            "",
            TaskMode::Supervised,
            None,
            None,
            PushMode::Pr,
            false,
        )
        .unwrap();
    store
        .create_task(
            &p2.id,
            "beta-task",
            "",
            TaskMode::Supervised,
            None,
            None,
            PushMode::Pr,
            false,
        )
        .unwrap();
    let mut app = Bench::new(store);
    app.a.nav.loading = false;

    // First project selected by default
    assert_eq!(app.a.tasks.len(), 1);
    assert_eq!(app.a.tasks[0].title, "alpha-task");

    // Navigate to the second repository row and activate it
    for _ in 0..=App::sidebar_nav_count() {
        press(&mut app, KeyCode::Char('j'));
    }
    assert_eq!(app.a.selected_sidebar_item(), SidebarItem::Repository(1));
    press(&mut app, KeyCode::Enter);
    assert_eq!(app.a.nav.project_index, 1);
    assert_eq!(app.a.tasks.len(), 1);
    assert_eq!(app.a.tasks[0].title, "beta-task");
}

#[test]
fn select_sidebar_navigation_switches_workbench_view() {
    let mut app = test_app_with_project();
    assert_eq!(app.a.nav.workbench_view, WorkbenchView::MyTasks);

    press(&mut app, KeyCode::Char('j'));
    assert_eq!(
        app.a.selected_sidebar_item(),
        SidebarItem::Navigation(WorkbenchView::SprintBoard)
    );

    press(&mut app, KeyCode::Enter);
    assert_eq!(app.a.nav.workbench_view, WorkbenchView::SprintBoard);
}

#[test]
fn create_task_full_flow() {
    let mut app = test_app_with_project();
    assert!(app.a.tasks.is_empty());

    press(&mut app, KeyCode::Char('n'));
    assert_eq!(app.a.nav.input_mode, InputMode::NewTask);
    assert_eq!(app.a.task_form.field, 0);

    // Type prompt
    type_str(&mut app, "Fix the login bug");
    // Tab to mode
    press(&mut app, KeyCode::Tab);
    assert_eq!(app.a.task_form.description, "Fix the login bug");
    assert_eq!(app.a.task_form.mode, TaskMode::Autonomous);
    // Toggle mode: Autonomous → Supervised (Right)
    press(&mut app, KeyCode::Right);
    assert_eq!(app.a.task_form.mode, TaskMode::Supervised);
    // Submit
    press(&mut app, KeyCode::Enter);
    assert_eq!(app.a.nav.input_mode, InputMode::Normal);

    let tasks = app
        .store
        .list_tasks_for_project(&app.a.projects[0].id)
        .unwrap();
    assert_eq!(tasks.len(), 1);
    assert_eq!(tasks[0].title, "Fix the login bug"); // auto-generated from prompt
    assert_eq!(tasks[0].description, "Fix the login bug");
    assert_eq!(tasks[0].mode, TaskMode::Supervised);
    assert_eq!(tasks[0].status, TaskStatus::Pending);
}

#[test]
fn launch_task_opens_thread_modal_for_pending_task() {
    let mut app = test_app_with_tasks();
    press(&mut app, KeyCode::Char('2'));
    press(&mut app, KeyCode::Char('l'));

    assert_eq!(app.a.nav.input_mode, InputMode::LaunchThread);
    let draft = app.a.launch.draft.as_ref().unwrap();
    assert_eq!(
        draft.task_id.as_deref(),
        Some(app.a.visible_tasks()[0].id.as_str())
    );
    assert_eq!(draft.provider_kind, ProviderKind::Claude);
    assert_eq!(draft.title, app.a.visible_tasks()[0].title);
}

#[test]
fn threads_view_new_task_opens_ad_hoc_launch_modal() {
    let mut app = test_app_with_project();
    app.a.nav.workbench_view = WorkbenchView::Threads;
    app.a.nav.focus = Focus::Tasks;

    press(&mut app, KeyCode::Char('n'));

    assert_eq!(app.a.nav.input_mode, InputMode::LaunchThread);
    let draft = app.a.launch.draft.as_ref().unwrap();
    assert!(draft.is_ad_hoc());
    assert_eq!(draft.provider_kind, ProviderKind::Claude);
    // Ad hoc starts with empty title for user to fill in
    assert!(draft.title.is_empty());
    assert_eq!(draft.workflow_name, "plan_first_tdd");
}

#[test]
fn launch_thread_modal_cycles_provider_and_edits_context() {
    let mut app = test_app_with_tasks();
    press(&mut app, KeyCode::Char('2'));
    press(&mut app, KeyCode::Char('l'));

    press(&mut app, KeyCode::Right);
    assert_eq!(
        app.a.launch.draft.as_ref().unwrap().provider_kind,
        ProviderKind::Codex
    );

    press(&mut app, KeyCode::Tab);
    press(&mut app, KeyCode::Tab);
    press(&mut app, KeyCode::Tab);
    press(&mut app, KeyCode::Tab);
    type_str(&mut app, " add context");
    assert_eq!(
        app.a.launch.draft.as_ref().unwrap().extra_context,
        " add context"
    );
}

#[test]
fn create_task_cancel_empty_discards() {
    let mut app = test_app_with_project();
    press(&mut app, KeyCode::Char('n'));
    // Esc with empty description discards (no draft created)
    press(&mut app, KeyCode::Esc);
    assert_eq!(app.a.nav.input_mode, InputMode::Normal);
    assert!(app.a.tasks.is_empty());
}

#[test]
fn create_task_esc_saves_draft() {
    let mut app = test_app_with_project();
    press(&mut app, KeyCode::Char('n'));
    type_str(&mut app, "Draft task");
    press(&mut app, KeyCode::Esc);
    assert_eq!(app.a.nav.input_mode, InputMode::Normal);
    assert_eq!(app.a.tasks.len(), 1);
    assert_eq!(app.a.tasks[0].status, TaskStatus::Draft);
    assert_eq!(app.a.tasks[0].description, "Draft task");
}

#[test]
fn create_task_requires_project() {
    let mut app = test_app();
    press(&mut app, KeyCode::Char('n'));
    assert_eq!(app.a.nav.input_mode, InputMode::Normal);
}

#[test]
fn create_task_empty_prompt_does_not_submit() {
    let mut app = test_app_with_project();
    press(&mut app, KeyCode::Char('n'));
    press(&mut app, KeyCode::Enter);
    // Should stay in NewTask mode
    assert_eq!(app.a.nav.input_mode, InputMode::NewTask);
}

#[test]
fn edit_task_flow() {
    let mut app = test_app_with_tasks();
    let original_id = app.a.tasks[0].id.clone();

    press(&mut app, KeyCode::Char('2')); // Focus tasks
    press(&mut app, KeyCode::Char('e'));
    assert_eq!(app.a.nav.input_mode, InputMode::EditTask);
    assert_eq!(app.a.input.text, "First task"); // loads description
    assert_eq!(app.a.task_form.editing_task_id.as_deref(), Some(original_id.as_str()));

    // Clear and retype prompt
    for _ in 0.."First task".len() {
        press(&mut app, KeyCode::Backspace);
    }
    type_str(&mut app, "Updated prompt");
    press(&mut app, KeyCode::Enter);
    assert_eq!(app.a.nav.input_mode, InputMode::Normal);

    let task = app.store.get_task(&original_id).unwrap();
    assert_eq!(task.title, "Updated prompt"); // auto-generated from prompt
    assert_eq!(task.description, "Updated prompt");
}

#[test]
fn edit_task_esc_saves_draft() {
    let mut app = test_app_with_tasks();
    let task_id = app.a.tasks[0].id.clone();

    press(&mut app, KeyCode::Char('2'));
    press(&mut app, KeyCode::Char('e'));
    for _ in 0..20 {
        press(&mut app, KeyCode::Backspace);
    }
    type_str(&mut app, "Changed");
    press(&mut app, KeyCode::Esc);
    assert_eq!(app.a.nav.input_mode, InputMode::Normal);

    let task = app.store.get_task(&task_id).unwrap();
    assert_eq!(task.description, "Changed");
}

#[test]
fn edit_task_only_works_on_pending_or_draft() {
    let mut app = test_app_with_tasks();
    let task_id = app.a.tasks[0].id.clone();
    app.store
        .update_task_status(&task_id, TaskStatus::Working)
        .unwrap();
    app.load();

    press(&mut app, KeyCode::Char('2'));
    // Navigate to the Working task (sorted after Pending tasks)
    let working_idx = app.a.visible_tasks()
        .iter()
        .position(|t| t.id == task_id)
        .unwrap();
    for _ in 0..working_idx {
        press(&mut app, KeyCode::Char('j'));
    }
    press(&mut app, KeyCode::Char('e'));
    assert_eq!(app.a.nav.input_mode, InputMode::Normal);
}

#[test]
fn edit_draft_task_promotes_to_pending() {
    let mut app = test_app_with_project();
    // Create a draft by pressing Esc with content
    press(&mut app, KeyCode::Char('n'));
    type_str(&mut app, "My draft");
    press(&mut app, KeyCode::Esc);
    assert_eq!(app.a.tasks.len(), 1);
    assert_eq!(app.a.tasks[0].status, TaskStatus::Draft);

    // Focus tasks and edit the draft
    press(&mut app, KeyCode::Char('2'));
    press(&mut app, KeyCode::Char('e'));
    assert_eq!(app.a.nav.input_mode, InputMode::EditTask);

    // Submit the edit — draft should become pending
    press(&mut app, KeyCode::Enter);
    assert_eq!(app.a.nav.input_mode, InputMode::Normal);
    assert_eq!(app.a.tasks[0].status, TaskStatus::Pending);
}

#[test]
fn delete_task_flow() {
    let mut app = test_app_with_tasks();
    assert_eq!(app.a.visible_tasks().len(), 3);

    press(&mut app, KeyCode::Char('2'));
    press(&mut app, KeyCode::Char('d'));
    assert_eq!(app.a.nav.input_mode, InputMode::ConfirmDelete);
    assert!(matches!(app.a.confirm.kind, DeleteTarget::Task));
    assert_eq!(app.a.confirm.target, "Task Alpha");

    press(&mut app, KeyCode::Char('y'));
    assert_eq!(app.a.nav.input_mode, InputMode::Normal);
    let tasks = app
        .store
        .list_tasks_for_project(&app.a.projects[0].id)
        .unwrap();
    assert_eq!(tasks.len(), 2);
}

#[test]
fn delete_task_any_status() {
    let mut app = test_app_with_tasks();
    let task_id = app.a.tasks[0].id.clone();
    app.store
        .update_task_status(&task_id, TaskStatus::Working)
        .unwrap();
    app.load();

    press(&mut app, KeyCode::Char('2'));
    press(&mut app, KeyCode::Char('d'));
    // Any task status should allow deletion
    assert_eq!(app.a.nav.input_mode, InputMode::ConfirmDelete);
}

#[test]
fn reorder_tasks_shift_j() {
    let mut app = test_app_with_tasks();
    press(&mut app, KeyCode::Char('2'));

    assert_eq!(app.a.visible_tasks()[0].title, "Task Alpha");
    assert_eq!(app.a.visible_tasks()[1].title, "Task Beta");

    press(&mut app, KeyCode::Char('J'));
    assert_eq!(app.a.nav.task_index, 1);
    assert_eq!(app.a.visible_tasks()[0].title, "Task Beta");
    assert_eq!(app.a.visible_tasks()[1].title, "Task Alpha");
}

#[test]
fn reorder_tasks_shift_k() {
    let mut app = test_app_with_tasks();
    press(&mut app, KeyCode::Char('2'));
    press(&mut app, KeyCode::Char('j')); // Move to second task
    assert_eq!(app.a.nav.task_index, 1);

    press(&mut app, KeyCode::Char('K'));
    assert_eq!(app.a.nav.task_index, 0);
    assert_eq!(app.a.visible_tasks()[0].title, "Task Beta");
    assert_eq!(app.a.visible_tasks()[1].title, "Task Alpha");
}

#[test]
fn filter_tasks_enter_applies() {
    let mut app = test_app_with_tasks();
    assert_eq!(app.a.visible_tasks().len(), 3);

    press(&mut app, KeyCode::Char('/'));
    assert_eq!(app.a.nav.input_mode, InputMode::TaskFilter);
    assert_eq!(app.a.nav.focus, Focus::Tasks);

    type_str(&mut app, "alpha");
    assert_eq!(app.a.visible_tasks().len(), 1);
    assert_eq!(app.a.visible_tasks()[0].title, "Task Alpha");

    press(&mut app, KeyCode::Enter);
    assert_eq!(app.a.nav.input_mode, InputMode::Normal);
    assert_eq!(app.a.task_filter.text, "alpha");
    assert_eq!(app.a.visible_tasks().len(), 1);
}

#[test]
fn filter_tasks_esc_clears() {
    let mut app = test_app_with_tasks();
    press(&mut app, KeyCode::Char('/'));
    type_str(&mut app, "beta");
    assert_eq!(app.a.visible_tasks().len(), 1);

    press(&mut app, KeyCode::Esc);
    assert_eq!(app.a.nav.input_mode, InputMode::Normal);
    assert!(app.a.task_filter.text.is_empty());
    assert_eq!(app.a.visible_tasks().len(), 3);
}

#[test]
fn filter_is_case_insensitive() {
    let mut app = test_app_with_tasks();
    press(&mut app, KeyCode::Char('/'));
    type_str(&mut app, "GAMMA");
    assert_eq!(app.a.visible_tasks().len(), 1);
    assert_eq!(app.a.visible_tasks()[0].title, "Task Gamma");
}

#[test]
fn visible_tasks_includes_done() {
    let mut app = test_app_with_tasks();
    let task_id = app.a.tasks[0].id.clone();
    // Transition through valid path: Pending → Working → InReview → Done
    app.store
        .update_task_status(&task_id, TaskStatus::Working)
        .unwrap();
    app.store
        .update_task_status(&task_id, TaskStatus::InReview)
        .unwrap();
    app.store
        .update_task_status(&task_id, TaskStatus::Done)
        .unwrap();
    app.load();

    let visible = app.a.visible_tasks();
    assert!(visible.iter().any(|t| t.status == TaskStatus::Done));
    // Done tasks should be included
    assert_eq!(visible.len(), app.a.tasks.len());
}

#[test]
fn visible_tasks_sorted_by_status_priority() {
    let mut app = test_app_with_tasks();
    // Alpha=Pending, Beta=Pending, Gamma=Pending initially.
    // Set each to a different status via valid transitions.
    let alpha_id = app.a.tasks[0].id.clone();
    let beta_id = app.a.tasks[1].id.clone();

    // Alpha: Pending → Working → Error
    app.store
        .update_task_status(&alpha_id, TaskStatus::Working)
        .unwrap();
    app.store
        .update_task_status(&alpha_id, TaskStatus::Error)
        .unwrap();
    // Beta: Pending → Working → InReview
    app.store
        .update_task_status(&beta_id, TaskStatus::Working)
        .unwrap();
    app.store
        .update_task_status(&beta_id, TaskStatus::InReview)
        .unwrap();
    // Gamma stays Pending
    app.load();

    let visible = app.a.visible_tasks();
    // Expected order: InReview (Beta) → Error (Alpha) → Pending (Gamma)
    assert_eq!(visible.len(), 3);
    assert_eq!(visible[0].title, "Task Beta");
    assert_eq!(visible[0].status, TaskStatus::InReview);
    assert_eq!(visible[1].title, "Task Alpha");
    assert_eq!(visible[1].status, TaskStatus::Error);
    assert_eq!(visible[2].title, "Task Gamma");
    assert_eq!(visible[2].status, TaskStatus::Pending);
}

#[test]
fn review_task_marks_done() {
    let mut app = test_app_with_tasks();
    let task_id = app.a.tasks[0].id.clone();
    // Transition through valid path: Pending → Working → InReview
    app.store
        .update_task_status(&task_id, TaskStatus::Working)
        .unwrap();
    app.store
        .update_task_status(&task_id, TaskStatus::InReview)
        .unwrap();
    app.load();

    press(&mut app, KeyCode::Char('2'));
    press(&mut app, KeyCode::Char('r'));

    let task = app.store.get_task(&task_id).unwrap();
    assert_eq!(task.status, TaskStatus::Done);
    assert_eq!(app.toast_message(), Some("Task marked as done"));
}

#[test]
fn review_working_task_marks_done() {
    let mut app = test_app_with_tasks();
    let task_id = app.a.tasks[0].id.clone();
    app.store
        .update_task_status(&task_id, TaskStatus::Working)
        .unwrap();
    app.load();

    press(&mut app, KeyCode::Char('2'));
    // Navigate to the Working task (sorted after Pending tasks)
    let working_idx = app.a.visible_tasks()
        .iter()
        .position(|t| t.id == task_id)
        .unwrap();
    for _ in 0..working_idx {
        press(&mut app, KeyCode::Char('j'));
    }
    press(&mut app, KeyCode::Char('r'));

    let task = app.store.get_task(&task_id).unwrap();
    assert_eq!(task.status, TaskStatus::Done);
    assert_eq!(app.toast_message(), Some("Task marked as done"));
}

#[test]
fn review_interrupted_task_marks_done() {
    let mut app = test_app_with_tasks();
    let task_id = app.a.tasks[0].id.clone();
    // Transition through valid path: Pending → Working → Interrupted
    app.store
        .update_task_status(&task_id, TaskStatus::Working)
        .unwrap();
    app.store
        .update_task_status(&task_id, TaskStatus::Interrupted)
        .unwrap();
    app.load();

    press(&mut app, KeyCode::Char('2'));
    // Navigate to the Interrupted task (sorted before Pending)
    let idx = app.a.visible_tasks()
        .iter()
        .position(|t| t.id == task_id)
        .unwrap();
    for _ in 0..idx {
        press(&mut app, KeyCode::Char('j'));
    }
    press(&mut app, KeyCode::Char('r'));

    let task = app.store.get_task(&task_id).unwrap();
    assert_eq!(task.status, TaskStatus::Done);
    assert_eq!(app.toast_message(), Some("Task marked as done"));
}

#[test]
fn review_only_works_on_in_review_tasks() {
    let mut app = test_app_with_tasks();
    let task_id = app.a.tasks[0].id.clone();

    press(&mut app, KeyCode::Char('2'));
    press(&mut app, KeyCode::Char('r'));

    // Pending task: r should do nothing
    let task = app.store.get_task(&task_id).unwrap();
    assert_eq!(task.status, TaskStatus::Pending);
}

#[test]
fn command_palette_opens_with_ctrl_p() {
    let mut app = test_app();
    press_mod(&mut app, KeyCode::Char('p'), KeyModifiers::control());
    assert_eq!(app.a.nav.input_mode, InputMode::CommandPalette);
    assert!(app.a.input.text.is_empty());
    assert!(!app.a.palette.filtered.is_empty());
}

#[test]
fn command_palette_filters_items() {
    let mut app = test_app_with_project();
    press_mod(&mut app, KeyCode::Char('p'), KeyModifiers::control());
    let initial_count = app.a.palette.filtered.len();

    type_str(&mut app, "quit");
    assert!(app.a.palette.filtered.len() < initial_count);
    assert!(!app.a.palette.filtered.is_empty());
}

#[test]
fn command_palette_navigate() {
    let mut app = test_app();
    press_mod(&mut app, KeyCode::Char('p'), KeyModifiers::control());
    assert_eq!(app.a.palette.index, 0);

    press(&mut app, KeyCode::Down);
    assert_eq!(app.a.palette.index, 1);

    press(&mut app, KeyCode::Up);
    assert_eq!(app.a.palette.index, 0);
}

#[test]
fn command_palette_cancel() {
    let mut app = test_app();
    press_mod(&mut app, KeyCode::Char('p'), KeyModifiers::control());
    type_str(&mut app, "test");
    press(&mut app, KeyCode::Esc);
    assert_eq!(app.a.nav.input_mode, InputMode::Normal);
}

#[test]
fn command_palette_execute_quit() {
    let mut app = test_app();
    press_mod(&mut app, KeyCode::Char('p'), KeyModifiers::control());
    type_str(&mut app, "quit");
    press(&mut app, KeyCode::Enter);
    assert!(app.a.nav.should_quit);
}

#[test]
fn command_palette_execute_focus_tasks() {
    let mut app = test_app();
    press_mod(&mut app, KeyCode::Char('p'), KeyModifiers::control());
    type_str(&mut app, "focus tasks");
    press(&mut app, KeyCode::Enter);
    assert_eq!(app.a.nav.focus, Focus::Tasks);
}

#[test]
fn command_palette_execute_new_task() {
    let mut app = test_app_with_project();
    press_mod(&mut app, KeyCode::Char('p'), KeyModifiers::control());
    type_str(&mut app, "new task");
    press(&mut app, KeyCode::Enter);
    assert_eq!(app.a.nav.input_mode, InputMode::NewTask);
}

#[test]
fn command_palette_execute_add_project() {
    let mut app = test_app();
    press_mod(&mut app, KeyCode::Char('p'), KeyModifiers::control());
    type_str(&mut app, "add project");
    press(&mut app, KeyCode::Enter);
    assert_eq!(app.a.nav.input_mode, InputMode::NewProject);
}

#[test]
fn command_palette_backspace_refilters() {
    let mut app = test_app();
    press_mod(&mut app, KeyCode::Char('p'), KeyModifiers::control());
    type_str(&mut app, "quit");
    let narrow_count = app.a.palette.filtered.len();

    press(&mut app, KeyCode::Backspace);
    // After removing a character, more items should match
    assert!(app.a.palette.filtered.len() >= narrow_count);
}

#[test]
fn help_overlay_open_close_question_mark() {
    let mut app = test_app();
    press(&mut app, KeyCode::Char('?'));
    assert_eq!(app.a.nav.input_mode, InputMode::HelpOverlay);

    press(&mut app, KeyCode::Char('?'));
    assert_eq!(app.a.nav.input_mode, InputMode::Normal);
}

#[test]
fn help_overlay_close_with_esc() {
    let mut app = test_app();
    press(&mut app, KeyCode::Char('?'));
    press(&mut app, KeyCode::Esc);
    assert_eq!(app.a.nav.input_mode, InputMode::Normal);
}

#[test]
fn help_overlay_close_with_q() {
    let mut app = test_app();
    press(&mut app, KeyCode::Char('?'));
    press(&mut app, KeyCode::Char('q'));
    assert_eq!(app.a.nav.input_mode, InputMode::Normal);
}

#[test]
fn task_form_backtab_cycles() {
    let mut app = test_app_with_project();
    press(&mut app, KeyCode::Char('n'));
    assert_eq!(app.a.task_form.field, 0);

    // BackTab wraps to field 6 (subtasks)
    press(&mut app, KeyCode::BackTab);
    assert_eq!(app.a.task_form.field, 6);

    press(&mut app, KeyCode::BackTab);
    assert_eq!(app.a.task_form.field, 5);

    press(&mut app, KeyCode::BackTab);
    assert_eq!(app.a.task_form.field, 4);

    press(&mut app, KeyCode::BackTab);
    assert_eq!(app.a.task_form.field, 3);

    press(&mut app, KeyCode::BackTab);
    assert_eq!(app.a.task_form.field, 2);

    press(&mut app, KeyCode::BackTab);
    assert_eq!(app.a.task_form.field, 1);

    press(&mut app, KeyCode::BackTab);
    assert_eq!(app.a.task_form.field, 0);
}

#[test]
fn task_form_tab_forward_cycles() {
    let mut app = test_app_with_project();
    press(&mut app, KeyCode::Char('n'));

    press(&mut app, KeyCode::Tab);
    assert_eq!(app.a.task_form.field, 1);
    press(&mut app, KeyCode::Tab);
    assert_eq!(app.a.task_form.field, 2);
    press(&mut app, KeyCode::Tab);
    assert_eq!(app.a.task_form.field, 3);
    press(&mut app, KeyCode::Tab);
    assert_eq!(app.a.task_form.field, 4);
    press(&mut app, KeyCode::Tab);
    assert_eq!(app.a.task_form.field, 5);
    press(&mut app, KeyCode::Tab);
    assert_eq!(app.a.task_form.field, 6);
    press(&mut app, KeyCode::Tab);
    assert_eq!(app.a.task_form.field, 0);
}

#[test]
fn task_form_mode_toggle() {
    let mut app = test_app_with_project();
    press(&mut app, KeyCode::Char('n'));
    press(&mut app, KeyCode::Tab);
    assert_eq!(app.a.task_form.field, 1);
    assert_eq!(app.a.task_form.mode, TaskMode::Autonomous);

    // Right cycles: Autonomous → Supervised → Exploration → Autonomous
    press(&mut app, KeyCode::Right);
    assert_eq!(app.a.task_form.mode, TaskMode::Supervised);

    press(&mut app, KeyCode::Right);
    assert_eq!(app.a.task_form.mode, TaskMode::Exploration);

    press(&mut app, KeyCode::Right);
    assert_eq!(app.a.task_form.mode, TaskMode::Autonomous);

    // Left cycles in reverse: Autonomous → Exploration → Supervised → Autonomous
    press(&mut app, KeyCode::Left);
    assert_eq!(app.a.task_form.mode, TaskMode::Exploration);

    press(&mut app, KeyCode::Left);
    assert_eq!(app.a.task_form.mode, TaskMode::Supervised);

    press(&mut app, KeyCode::Left);
    assert_eq!(app.a.task_form.mode, TaskMode::Autonomous);
}

#[test]
fn edit_task_form_cycling() {
    let mut app = test_app_with_tasks();
    press(&mut app, KeyCode::Char('2'));
    press(&mut app, KeyCode::Char('e'));
    assert_eq!(app.a.nav.input_mode, InputMode::EditTask);

    // Tab cycles through prompt (0), mode (1), base (2), branch (3), push_mode (4), loop (5), subtasks (6)
    press(&mut app, KeyCode::Tab);
    assert_eq!(app.a.task_form.field, 1);
    press(&mut app, KeyCode::Tab);
    assert_eq!(app.a.task_form.field, 2);
    press(&mut app, KeyCode::Tab);
    assert_eq!(app.a.task_form.field, 3);
    press(&mut app, KeyCode::Tab);
    assert_eq!(app.a.task_form.field, 4);
    press(&mut app, KeyCode::Tab);
    assert_eq!(app.a.task_form.field, 5);
    press(&mut app, KeyCode::Tab);
    assert_eq!(app.a.task_form.field, 6);
    press(&mut app, KeyCode::Tab);
    assert_eq!(app.a.task_form.field, 0);
}

#[test]
fn toast_shows_on_success_actions() {
    let mut app = test_app_with_tasks();
    let task_id = app.a.tasks[0].id.clone();
    // Transition through valid path: Pending → Working → InReview
    app.store
        .update_task_status(&task_id, TaskStatus::Working)
        .unwrap();
    app.store
        .update_task_status(&task_id, TaskStatus::InReview)
        .unwrap();
    app.load();

    press(&mut app, KeyCode::Char('2'));
    press(&mut app, KeyCode::Char('r'));

    assert!(app.toast_message().is_some());
    assert!(matches!(app.a.toast.as_ref().unwrap().style, ToastStyle::Success));
}

#[test]
fn toast_on_project_delete() {
    let mut app = test_app_with_project();
    for _ in 0..App::sidebar_nav_count() {
        press(&mut app, KeyCode::Char('j'));
    }
    press(&mut app, KeyCode::Char('d'));
    press(&mut app, KeyCode::Char('y'));
    assert!(app.toast_message().is_some());
    assert!(matches!(app.a.toast.as_ref().unwrap().style, ToastStyle::Success));
}

#[test]
fn toast_on_task_delete() {
    let mut app = test_app_with_tasks();
    press(&mut app, KeyCode::Char('2'));
    press(&mut app, KeyCode::Char('d'));
    press(&mut app, KeyCode::Char('y'));
    assert!(
        app.toast_message()
            .as_deref()
            .is_some_and(|m| m.contains("deleted"))
    );
}

#[test]
fn toast_on_task_edit() {
    let mut app = test_app_with_tasks();
    press(&mut app, KeyCode::Char('2'));
    press(&mut app, KeyCode::Char('e'));
    // Just submit with existing title
    press(&mut app, KeyCode::Enter);
    assert_eq!(app.toast_message(), Some("Task updated"));
}

#[test]
fn typing_in_threads_starts_native_chat_editor() {
    let mut app = test_app_with_tasks();
    seed_thread_workspace(&mut app);
    app.a.nav.workbench_view = WorkbenchView::Threads;
    app.a.nav.focus = Focus::Tasks;

    press(&mut app, KeyCode::Char('H'));

    assert_eq!(app.a.nav.input_mode, InputMode::ThreadCompose);
    assert_eq!(
        app.a.compose.thread_id.as_deref(),
        app.a.selected_thread().map(|thread| thread.id.as_str())
    );
    assert_eq!(app.a.input.text, "H");
}

#[test]
fn project_picker_opens_from_global_shortcut() {
    let mut app = test_app_with_tasks();

    press(&mut app, KeyCode::Char('P'));

    assert_eq!(app.a.nav.input_mode, InputMode::ProjectPicker);
}

#[test]
fn lowercase_project_picker_shortcut_opens_from_workbench() {
    let mut app = test_app_with_tasks();

    press(&mut app, KeyCode::Char('p'));

    assert_eq!(app.a.nav.input_mode, InputMode::ProjectPicker);
}

#[test]
fn thread_provider_picker_opens_from_threads_workspace() {
    let mut app = test_app_with_tasks();
    seed_thread_workspace(&mut app);
    app.a.nav.workbench_view = WorkbenchView::Threads;
    app.a.nav.focus = Focus::Tasks;

    press(&mut app, KeyCode::Char('m'));

    assert_eq!(app.a.nav.input_mode, InputMode::ThreadProviderPicker);
}

#[test]
fn launch_from_review_queue_opens_review_thread_modal() {
    let mut app = test_app_with_tasks();
    seed_review_queue_items(&mut app);
    app.a.nav.workbench_view = WorkbenchView::Reviews;
    app.a.nav.focus = Focus::Tasks;
    app.a.nav.review_queue_tab = ReviewQueueTab::NeedsReview;
    app.a.nav.review_index = 0;

    press(&mut app, KeyCode::Char('l'));

    assert_eq!(app.a.nav.input_mode, InputMode::LaunchThread);
    let draft = app.a.launch.draft.as_ref().unwrap();
    let review_pr = draft.review_pr.as_ref().unwrap();
    assert_eq!(review_pr.number, 77);
    assert!(matches!(review_pr.mode, PendingReviewLaunchMode::Review));
}

#[test]
fn launch_from_authored_review_focuses_existing_thread() {
    let mut app = test_app_with_tasks();
    seed_review_queue_items(&mut app);
    app.a.nav.workbench_view = WorkbenchView::Reviews;
    app.a.nav.focus = Focus::Tasks;
    app.a.nav.review_queue_tab = ReviewQueueTab::Authored;
    app.a.nav.review_index = 0;

    press(&mut app, KeyCode::Char('l'));

    // In test there's no real session tab, so focus_thread_workspace
    // stays on the current view instead of falling back to Threads.
    assert_eq!(app.a.nav.workbench_view, WorkbenchView::Reviews);
}

#[test]
fn board_view_lowercase_p_opens_repo_picker() {
    let mut app = test_app_with_project();
    app.a.nav.workbench_view = WorkbenchView::SprintBoard;
    app.a.nav.input_mode = InputMode::BoardView;

    press(&mut app, KeyCode::Char('p'));

    assert_eq!(app.a.nav.input_mode, InputMode::ProjectPicker);
}

#[test]
fn subtask_panel_opens() {
    let mut app = test_app_with_tasks();
    // Focus tasks
    press(&mut app, KeyCode::Char('2'));
    press(&mut app, KeyCode::Char('s'));
    assert_eq!(app.a.nav.input_mode, InputMode::SubtaskPanel);
}

#[test]
fn subtask_panel_add_and_close() {
    let mut app = test_app_with_tasks();
    let task_id = app.a.tasks[0].id.clone();
    press(&mut app, KeyCode::Char('2'));
    press(&mut app, KeyCode::Char('s'));
    assert_eq!(app.a.nav.input_mode, InputMode::SubtaskPanel);

    // Type a subtask description
    for c in "implement login".chars() {
        press(&mut app, KeyCode::Char(c));
    }
    press(&mut app, KeyCode::Enter);

    // Should have added a subtask
    let subtasks = app.store.list_subtasks_for_task(&task_id).unwrap();
    assert_eq!(subtasks.len(), 1);
    assert_eq!(subtasks[0].description, "implement login");

    // Close panel
    press(&mut app, KeyCode::Esc);
    assert_eq!(app.a.nav.input_mode, InputMode::Normal);
}

#[test]
fn subtask_panel_delete() {
    let mut app = test_app_with_tasks();
    let task_id = app.a.tasks[0].id.clone();
    app.store
        .create_subtask(&task_id, "step 1", "first step")
        .unwrap();

    press(&mut app, KeyCode::Char('2'));
    press(&mut app, KeyCode::Char('s'));
    assert_eq!(app.a.subtasks.len(), 1);

    // Delete the subtask (d only works when input is empty)
    press(&mut app, KeyCode::Char('d'));
    assert_eq!(app.a.subtasks.len(), 0);
    assert_eq!(app.toast_message(), Some("Subtask deleted"));
}

#[test]
fn subtask_panel_navigate() {
    let mut app = test_app_with_tasks();
    let task_id = app.a.tasks[0].id.clone();
    app.store
        .create_subtask(&task_id, "step 1", "first")
        .unwrap();
    app.store
        .create_subtask(&task_id, "step 2", "second")
        .unwrap();

    press(&mut app, KeyCode::Char('2'));
    press(&mut app, KeyCode::Char('s'));
    assert_eq!(app.a.nav.subtask_index, 0);

    press(&mut app, KeyCode::Char('j'));
    assert_eq!(app.a.nav.subtask_index, 1);

    press(&mut app, KeyCode::Char('k'));
    assert_eq!(app.a.nav.subtask_index, 0);
}

#[test]
fn subtask_panel_requires_tasks_focus() {
    let mut app = test_app_with_tasks();
    // Focus is Projects by default
    assert_eq!(app.a.nav.focus, Focus::Projects);
    press(&mut app, KeyCode::Char('s'));
    // Should be no-op since focus is not Tasks
    assert_eq!(app.a.nav.input_mode, InputMode::Normal);
}

#[test]
fn skill_panel_opens_with_i() {
    let mut app = test_app();
    press(&mut app, KeyCode::Char('i'));
    assert_eq!(app.a.nav.input_mode, InputMode::SkillPanel);
}

#[test]
fn skill_panel_closes_with_esc() {
    let mut app = test_app();
    press(&mut app, KeyCode::Char('i'));
    press(&mut app, KeyCode::Esc);
    assert_eq!(app.a.nav.input_mode, InputMode::Normal);
}

#[test]
fn skill_panel_find_opens_search() {
    let mut app = test_app();
    press(&mut app, KeyCode::Char('i'));
    press(&mut app, KeyCode::Char('f'));
    assert_eq!(app.a.nav.input_mode, InputMode::SkillSearch);
    assert!(app.a.input.text.is_empty());
}

#[test]
fn skill_panel_add_opens_add() {
    let mut app = test_app();
    press(&mut app, KeyCode::Char('i'));
    press(&mut app, KeyCode::Char('a'));
    assert_eq!(app.a.nav.input_mode, InputMode::SkillAdd);
    assert!(app.a.input.text.is_empty());
}

#[test]
fn skill_search_esc_returns_to_panel() {
    let mut app = test_app();
    press(&mut app, KeyCode::Char('i'));
    press(&mut app, KeyCode::Char('f'));
    assert_eq!(app.a.nav.input_mode, InputMode::SkillSearch);
    press(&mut app, KeyCode::Esc);
    assert_eq!(app.a.nav.input_mode, InputMode::SkillPanel);
}

#[test]
fn skill_add_esc_returns_to_panel() {
    let mut app = test_app();
    press(&mut app, KeyCode::Char('i'));
    press(&mut app, KeyCode::Char('a'));
    assert_eq!(app.a.nav.input_mode, InputMode::SkillAdd);
    press(&mut app, KeyCode::Esc);
    assert_eq!(app.a.nav.input_mode, InputMode::SkillPanel);
}

#[test]
fn skill_panel_scope_toggle() {
    let mut app = test_app();
    press(&mut app, KeyCode::Char('i'));
    assert!(app.a.skills.scope_global);
    press(&mut app, KeyCode::Char('g'));
    assert!(!app.a.skills.scope_global);
    press(&mut app, KeyCode::Char('g'));
    assert!(app.a.skills.scope_global);
}

#[test]
fn task_form_alt_backspace_deletes_word() {
    let mut app = test_app_with_project();
    press(&mut app, KeyCode::Char('n'));
    type_str(&mut app, "hello world");
    press_mod(&mut app, KeyCode::Backspace, alt());
    assert_eq!(app.a.input.text, "hello ");
}

#[test]
fn task_form_alt_b_f_word_jump() {
    let mut app = test_app_with_project();
    press(&mut app, KeyCode::Char('n'));
    type_str(&mut app, "hello world test");
    // Alt+b (macOS Option+Left) jumps word left
    press_mod(&mut app, KeyCode::Char('b'), alt());
    assert_eq!(app.a.input.cursor, 12); // before "test"
    press_mod(&mut app, KeyCode::Char('b'), alt());
    assert_eq!(app.a.input.cursor, 6); // before "world"
    // Alt+f (macOS Option+Right) jumps word right
    press_mod(&mut app, KeyCode::Char('f'), alt());
    assert_eq!(app.a.input.cursor, 12); // start of "test"
}

#[test]
fn task_form_alt_arrow_word_jump() {
    let mut app = test_app_with_project();
    press(&mut app, KeyCode::Char('n'));
    type_str(&mut app, "hello world test");
    // Alt+Left jumps word left
    press_mod(&mut app, KeyCode::Left, alt());
    assert_eq!(app.a.input.cursor, 12); // before "test"
    press_mod(&mut app, KeyCode::Left, alt());
    assert_eq!(app.a.input.cursor, 6); // before "world"
    // Alt+Right jumps word right
    press_mod(&mut app, KeyCode::Right, alt());
    assert_eq!(app.a.input.cursor, 12); // start of "test"
}

#[test]
fn task_form_super_backspace_clears_line() {
    let mut app = test_app_with_project();
    press(&mut app, KeyCode::Char('n'));
    type_str(&mut app, "hello world");
    press_mod(&mut app, KeyCode::Backspace, super_key());
    assert_eq!(app.a.input.text, "");
}

#[test]
fn palette_ctrl_w_deletes_word() {
    let mut app = test_app();
    press_mod(&mut app, KeyCode::Char('p'), KeyModifiers::control());
    assert_eq!(app.a.nav.input_mode, InputMode::CommandPalette);
    type_str(&mut app, "new task");
    press_mod(&mut app, KeyCode::Char('w'), KeyModifiers::control());
    assert_eq!(app.a.input.text, "new ");
}

#[test]
fn filter_alt_backspace_deletes_word() {
    let mut app = test_app_with_project();
    press(&mut app, KeyCode::Char('/'));
    assert_eq!(app.a.nav.input_mode, InputMode::TaskFilter);
    type_str(&mut app, "hello world");
    press_mod(&mut app, KeyCode::Backspace, alt());
    assert_eq!(app.a.task_filter.text, "hello ");
}

#[test]
fn next_tab_wraps_around() {
    let mut app = test_app();
    // Only dashboard — no-op
    assert_eq!(app.a.nav.active_tab, 0);
    app.a.next_tab();
    assert_eq!(app.a.nav.active_tab, 0);

    // Add two fake session tabs (push Tab::Dashboard as placeholders since
    // we can't construct SessionTerminals in tests)
    app.a.tabs.push(Tab::Dashboard);
    app.a.tabs.push(Tab::Dashboard);
    assert_eq!(app.a.tabs.len(), 3);

    app.a.next_tab();
    assert_eq!(app.a.nav.active_tab, 1);
    app.a.next_tab();
    assert_eq!(app.a.nav.active_tab, 2);
    // Wraps back to 0
    app.a.next_tab();
    assert_eq!(app.a.nav.active_tab, 0);
}

#[test]
fn prev_tab_wraps_around() {
    let mut app = test_app();
    // Only dashboard — no-op
    app.a.prev_tab();
    assert_eq!(app.a.nav.active_tab, 0);

    // Add two fake session tabs
    app.a.tabs.push(Tab::Dashboard);
    app.a.tabs.push(Tab::Dashboard);

    // From dashboard (0), prev wraps to last tab (2)
    app.a.prev_tab();
    assert_eq!(app.a.nav.active_tab, 2);
    app.a.prev_tab();
    assert_eq!(app.a.nav.active_tab, 1);
    app.a.prev_tab();
    assert_eq!(app.a.nav.active_tab, 0);
}

#[test]
fn ctrl_j_k_navigates_tabs_from_dashboard() {
    let mut app = test_app();
    // Add fake session tabs
    app.a.tabs.push(Tab::Dashboard);
    app.a.tabs.push(Tab::Dashboard);

    assert_eq!(app.a.nav.active_tab, 0);

    // Ctrl+J moves to next tab
    press_mod(&mut app, KeyCode::Char('j'), KeyModifiers::control());
    assert_eq!(app.a.nav.active_tab, 1);

    // Return to dashboard for next test
    app.a.nav.active_tab = 0;

    // Ctrl+K wraps to last tab
    press_mod(&mut app, KeyCode::Char('k'), KeyModifiers::control());
    assert_eq!(app.a.nav.active_tab, 2);
}

#[test]
fn ctrl_j_k_noop_with_single_tab() {
    let mut app = test_app();
    assert_eq!(app.a.tabs.len(), 1);

    press_mod(&mut app, KeyCode::Char('j'), KeyModifiers::control());
    assert_eq!(app.a.nav.active_tab, 0);

    press_mod(&mut app, KeyCode::Char('k'), KeyModifiers::control());
    assert_eq!(app.a.nav.active_tab, 0);
}
#[test]
fn drag_sidebar_divider_resizes_workbench() {
    let mut app = test_app_with_project();
    app.a.nav.screen = Rect { x: 0, y: 0, width: 140, height: 40 };

    let layout = app.layout(true);
    let divider_col = layout.sidebar.x + layout.sidebar.width;
    let drag_row = layout.body.y + 1;

    app.handle_mouse(MouseEventKind::Down(MouseButton::Left), divider_col, drag_row);
    app.handle_mouse(MouseEventKind::Drag(MouseButton::Left), divider_col + 6, drag_row);
    app.handle_mouse(MouseEventKind::Up(MouseButton::Left), divider_col + 6, drag_row);

    assert!(app.a.nav.sidebar_width > 30);
    assert!(app.a.nav.drag_target.is_none());
}

#[test]
fn add_project_submit() {
    let mut app = test_app();
    let path = "/tmp/new-proj-dir";
    app.store.tables.borrow_mut().directories.push(path.to_string());

    press(&mut app, KeyCode::Char('a'));
    type_str(&mut app, "new-proj");
    press(&mut app, KeyCode::Tab);

    // Clear default "." in path field
    press(&mut app, KeyCode::Backspace);
    type_str(&mut app, path);
    press(&mut app, KeyCode::Enter);

    assert_eq!(app.a.nav.input_mode, InputMode::Normal);
    assert_eq!(app.a.projects.len(), 1);
    assert_eq!(app.a.projects[0].name, "new-proj");
}

#[test]
fn thread_compose_submit_persists_message_and_clears_draft() {
    let mut app = test_app_with_tasks();
    seed_thread_workspace(&mut app);
    app.a.nav.workbench_view = WorkbenchView::Threads;
    app.a.nav.focus = Focus::Tasks;

    app.a.start_thread_compose();
    app.a.input = TextInput::holding("Continue from the open review comments".to_string());
    app.a.compose.draft = TextInput::holding("Continue from the open review comments".to_string());

    let e = app.a.submit_thread_compose_message();
    app.perform(e);

    let thread = app.a.selected_thread().unwrap().clone();
    let messages = app.store.tables.borrow().messages.clone();
    let latest = messages.last().unwrap();
    assert_eq!(latest.0, thread.id);
    assert_eq!(latest.1, "user");
    assert_eq!(latest.2, "Continue from the open review comments");
    // When send fails and restart also fails, the compose buffer is preserved
    // so the user doesn't lose their message. Toast indicates failure.
    let toast = app.toast_message().unwrap_or_default();
    let send_succeeded = toast.contains("Sent to agent") || toast.contains("Resuming");
    if send_succeeded {
        assert_eq!(app.a.nav.input_mode, InputMode::Normal);
        assert!(app.a.input.text.is_empty());
        assert!(app.a.compose.draft.text.is_empty());
    } else {
        // Failed — buffer preserved, message still recorded in DB
        assert!(
            toast.contains("exited") || toast.contains("not reachable"),
            "unexpected toast: {toast}"
        );
    }
}

#[test]
fn selected_thread_context_preserves_full_run_history() {
    let mut app = test_app_with_tasks();
    seed_thread_workspace(&mut app);
    let mut facts = thread_facts();
    facts.runs.as_mut().unwrap().push(ThreadRun {
        id: "run-2".to_string(),
        provider_kind: ProviderKind::Codex,
        provider_profile: text("review"),
        status: "done".to_string(),
    });

    let thread_ctx = app.a.selected_thread_context(facts).unwrap();
    assert_eq!(thread_ctx.run_count, 2);
    assert_eq!(thread_ctx.runs.len(), 2);
    assert_eq!(thread_ctx.runs.last().map(|run| run.provider_kind), Some(ProviderKind::Codex));
}

#[test]
fn reviews_queue_separates_authored_and_requested_prs() {
    let mut app = test_app_with_tasks();
    seed_review_queue_items(&mut app);

    let reviews = &app.a.reviews;
    assert_eq!(reviews.authored.len(), 1);
    assert_eq!(reviews.requested.len(), 1);
    assert_eq!(reviews.items[reviews.authored[0]].github_item.number, 42);
    assert_eq!(reviews.items[reviews.requested[0]].github_item.number, 77);
}

fn project_board(number: i64, title: &str) -> GitHubProjectV2 {
    GitHubProjectV2 {
        id: format!("project-{number}"),
        project_number: number,
        title: title.to_string(),
        node_id: None,
        label: format!("{title} (#{number})"),
    }
}

#[test]
fn github_project_picker_filters_visible_projects() {
    let mut app = test_app_with_project();
    app.a.nav.input_mode = InputMode::GitHubProjectPicker;
    app.a.board.projects = vec![project_board(81, "1.7.2"), project_board(88, "Backlog")];
    app.a.board.project_index = 1;
    app.a.input = TextInput::holding("back".to_string());

    let shown: Vec<&str> = app
        .a
        .visible_github_project_indices()
        .into_iter()
        .map(|i| app.a.board.projects[i].label.as_str())
        .collect();
    assert!(shown.contains(&"Backlog (#88)"));
    assert!(!shown.contains(&"1.7.2 (#81)"));
}

#[test]
fn board_view_g_opens_github_board_picker() {
    let mut app = test_app_with_project();
    app.a.nav.workbench_view = WorkbenchView::SprintBoard;
    app.a.nav.input_mode = InputMode::BoardView;
    app.a.board.projects = vec![project_board(81, "1.7.2")];

    press(&mut app, KeyCode::Char('g'));

    assert_eq!(app.a.nav.input_mode, InputMode::GitHubProjectPicker);
}

#[test]
fn subtask_counts_populated() {
    let mut app = test_app_with_tasks();
    let task_id = app.a.tasks[0].id.clone();
    app.store.create_subtask(&task_id, "step 1", "first").unwrap();
    app.store.create_subtask(&task_id, "step 2", "second").unwrap();
    app.load();

    assert_eq!(app.subtask_counts.len(), 1);
    let count = app.subtask_counts.iter().find(|c| c.task_id == task_id).unwrap();
    assert_eq!(count.total, 2);
    assert_eq!(count.done, 0);
}

fn board_issue() -> BoardItem {
    BoardItem {
        github_item_id: "github-item-42".to_string(),
        number: 42,
        title: "Board issue".to_string(),
        body: text("Details from project board"),
        url: "https://example.com/issues/42".to_string(),
        state: "OPEN".to_string(),
        kind: GitHubItemKind::Issue,
        kind_label: "issue".to_string(),
        labels: vec!["bug".to_string()],
        assignees: vec!["harshach".to_string()],
        fields: vec![
            FieldValue { name: "Status".to_string(), value: text("Backlog") },
            FieldValue { name: "Sprint".to_string(), value: text("1.7.2") },
        ],
        linked_pr_item_id: None,
    }
}

#[test]
fn view_details_opens_from_sprint_board() {
    let mut app = test_app_with_project();
    app.a.nav.workbench_view = WorkbenchView::SprintBoard;
    app.a.nav.input_mode = InputMode::BoardView;
    app.a.nav.focus = Focus::Tasks;
    app.a.board.issues = vec![vec![board_issue()]];
    app.a.board.all_issues = vec![vec![board_issue()]];

    press(&mut app, KeyCode::Char('v'));

    assert_eq!(app.a.nav.input_mode, InputMode::BoardIssueDrawer);
}

#[test]
fn busy_indicator_prefers_github_connection_work() {
    let mut app = test_app();
    app.a.busy.github_auth = true;
    assert_eq!(app.a.busy_indicator_label(), Some("connecting GitHub"));
}

#[test]
fn busy_indicator_prefers_session_setup_over_title_generation() {
    let mut app = test_app();
    app.a.busy.pending_titles.push("task-1".to_string());
    app.a.busy.session_op = true;
    assert_eq!(app.a.busy_indicator_label(), Some("preparing session"));
}

// ── The board ──

fn issue(number: i64, status: &str, assignee: &str) -> BoardItem {
    BoardItem {
        github_item_id: format!("item-{number}"),
        number,
        title: format!("Issue {number}"),
        body: None,
        url: format!("https://example.com/{number}"),
        state: "OPEN".to_string(),
        kind: GitHubItemKind::Issue,
        kind_label: "issue".to_string(),
        labels: vec!["bug".to_string(), "ui".to_string()],
        assignees: vec![assignee.to_string()],
        fields: vec![FieldValue { name: "Status".to_string(), value: text(status) }],
        linked_pr_item_id: None,
    }
}

fn open_board(app: &mut Bench, items: Vec<BoardItem>) {
    app.a.nav.workbench_view = WorkbenchView::SprintBoard;
    app.a.nav.input_mode = InputMode::BoardView;
    app.a.nav.focus = Focus::Tasks;
    assert!(app.a.begin_board_load());
    let selected = Some(project_board(81, "1.7.2"));
    let projects = vec![project_board(81, "1.7.2")];
    app.a.board_loaded(Ok(BoardSnapshot { projects, selected, items }));
}

#[test]
fn board_opens_on_own_items() {
    let mut app = test_app_with_project();
    app.store.tables.borrow_mut().login = text("harsha");
    app.load();
    let items = vec![issue(1, "Todo", "harsha"), issue(2, "Todo", "octocat")];
    open_board(&mut app, items);
    assert_eq!(app.a.board.columns, vec!["Todo".to_string()]);
    assert_eq!(app.a.board.issues[0].len(), 1);
    assert_eq!(app.a.board.issues[0][0].number, 1);

    press(&mut app, KeyCode::Char('t'));
    assert_eq!(app.a.board.issues[0].len(), 2);
    press(&mut app, KeyCode::Char('t'));
    assert_eq!(app.a.board.issues[0].len(), 1);
}

#[test]
fn board_shows_everything_without_a_login() {
    let mut app = test_app_with_project();
    let items = vec![issue(1, "Todo", "harsha"), issue(2, "Doing", "octocat")];
    open_board(&mut app, items);
    assert_eq!(app.a.board.columns, vec!["Todo".to_string(), "Doing".to_string()]);
    assert_eq!(app.a.board.issues[0].len(), 1);
    assert_eq!(app.a.board.issues[1].len(), 1);

    press(&mut app, KeyCode::Char('l'));
    assert_eq!(app.a.board.column_index, 1);
    press(&mut app, KeyCode::Char('/'));
    type_str(&mut app, "issue 1");
    assert_eq!(app.a.board.issues[0].len(), 1);
    assert!(app.a.board.issues[1].is_empty());
    assert_eq!(app.a.board.issue_index, 0);
    press(&mut app, KeyCode::Enter);
    assert_eq!(app.a.nav.input_mode, InputMode::BoardView);
}

#[test]
fn columns_fall_back_to_the_configured_ones() {
    let configured = vec!["Backlog".to_string(), "In Progress".to_string()];
    let mut app = test_app_with_project();
    assert_eq!(app.a.board.columns, configured);
    open_board(&mut app, vec![issue(1, "Todo", "harsha")]);
    assert_eq!(app.a.board.columns, vec!["Todo".to_string()]);
    open_board(&mut app, vec![BoardItem { fields: Vec::new(), ..issue(2, "", "harsha") }]);
    assert_eq!(app.a.board.columns, configured);
    assert_eq!(app.a.board.issues[0].len(), 1);
}

#[test]
fn an_issue_of_the_board_becomes_a_task() {
    let mut app = test_app_with_project();
    let mut pr = issue(8, "Todo", "harsha");
    pr.kind = GitHubItemKind::PullRequest;
    let told = BoardItem { body: text("Do it"), ..issue(7, "Todo", "harsha") };
    open_board(&mut app, vec![issue(6, "Todo", "harsha"), told, pr]);
    let before = app.a.tasks.len();
    press(&mut app, KeyCode::Enter);
    assert_eq!(app.a.nav.input_mode, InputMode::BoardView);
    press(&mut app, KeyCode::Char('j'));
    press(&mut app, KeyCode::Enter);
    assert_eq!(app.a.tasks.len(), before + 2);
    let task = |title: &str| app.a.tasks.iter().find(|t| t.title == title).unwrap();
    assert_eq!(task("#6 Issue 6").description, "https://example.com/6");
    assert_eq!(task("#7 Issue 7").description, "Do it\n\nhttps://example.com/7");
    assert_eq!(task("#7 Issue 7").mode, TaskMode::Supervised);
    assert_eq!(task("#7 Issue 7").status, TaskStatus::Pending);

    press(&mut app, KeyCode::Char('j'));
    press(&mut app, KeyCode::Enter);
    assert_eq!(app.a.nav.input_mode, InputMode::BoardIssueDrawer);
    assert_eq!(app.a.tasks.len(), before + 2);
}

#[test]
fn forms_open_with_the_cursor_at_the_end() {
    let mut app = test_app_with_tasks();
    let id = app.a.tasks[0].id.clone();
    app.store.with_task(&id, |row| row.description = "naïve".to_string());
    app.load();
    app.a.nav.task_index = app.a.visible_tasks().iter().position(|t| t.id == id).unwrap();
    app.a.nav.focus = Focus::Tasks;
    let c = app.context(KeyCode::Null, KeyModifiers::none());
    app.a.execute_action(&c, Action::EditTask);
    assert_eq!(app.a.nav.input_mode, InputMode::EditTask);
    assert_eq!(app.a.input.text, "naïve");
    assert_eq!(app.a.input.cursor, 6);
}

#[test]
fn the_list_of_projects_is_searched() {
    let mut app = test_app_with_project();
    for name in ["Quartz", "Basalt"] {
        app.store.create_project(name, &format!("/tmp/{name}"), "main", true).unwrap();
    }
    app.load();
    let place = |app: &Bench, name: &str| {
        app.a.projects.iter().position(|p| p.name == name).unwrap()
    };
    app.a.input = TextInput::holding("left over".to_string());
    press(&mut app, KeyCode::Char('p'));
    assert_eq!(app.a.nav.input_mode, InputMode::ProjectPicker);
    assert_eq!((app.a.input.text.as_str(), app.a.input.cursor), ("", 0));
    assert_eq!(app.a.visible_project_indices(), vec![0, 1, 2]);
    press(&mut app, KeyCode::Char('j'));
    assert_eq!(app.a.nav.project_picker_index, 1);
    press(&mut app, KeyCode::Char('k'));
    assert_eq!(app.a.nav.project_picker_index, 0);

    type_str(&mut app, "qu");
    let quartz = place(&app, "Quartz");
    assert_eq!(app.a.visible_project_indices(), vec![quartz]);
    assert_eq!(app.a.nav.project_picker_index, quartz);
    press(&mut app, KeyCode::Down);
    assert_eq!(app.a.nav.project_picker_index, quartz);
    press(&mut app, KeyCode::Char('x'));
    press(&mut app, KeyCode::Enter);
    assert_eq!(app.a.nav.input_mode, InputMode::ProjectPicker);
    press(&mut app, KeyCode::Backspace);
    press(&mut app, KeyCode::Enter);
    assert_eq!(app.a.nav.project_index, quartz);
    assert_eq!(app.a.nav.input_mode, InputMode::Normal);
    assert_eq!(app.toast_message(), Some("Switched to project Quartz"));
}

#[test]
fn the_workbench_opens_empty() {
    let a = App::new(Startup {
        config: default_config(),
        config_warning: None,
        agent: agent(),
        palette: palette_items(),
        board_columns: vec!["Backlog".to_string()],
        gh_installed: true,
        sidebar_width: 30,
        inspector_width: 44,
    });
    assert!(a.board.first_load && !a.board.loading && a.board.error.is_none());
    assert_eq!(a.board.columns, a.board.config_columns);
    assert!(a.board.sprint_filter.is_none());
    assert!(a.github.gh_installed);
    assert!(a.nav.loading);
}

#[test]
fn board_without_projects_says_so() {
    let mut app = test_app_with_project();
    assert!(app.a.begin_board_load());
    let snapshot = BoardSnapshot { projects: Vec::new(), selected: None, items: Vec::new() };
    app.a.board_loaded(Ok(snapshot));
    assert_eq!(
        app.a.board.error.as_deref(),
        Some("No cached GitHub Projects v2 found. Press R to sync the board first.")
    );
    app.a.board_loaded(Err("broken".to_string()));
    assert!(app.a.board.error.is_some());
}

#[test]
fn closing_an_issue_takes_two_requests() {
    let mut app = test_app_with_project();
    open_board(&mut app, vec![issue(42, "Todo", "harsha")]);
    press(&mut app, KeyCode::Char('x'));
    assert!(app.asked.is_empty());
    assert!(app.a.board.confirm_close);
    press(&mut app, KeyCode::Char('j'));
    assert!(!app.a.board.confirm_close);
    press(&mut app, KeyCode::Char('x'));
    press(&mut app, KeyCode::Char('x'));
    assert!(matches!(&app.asked[0], Effect::SetIssueState { number: 42, state, .. } if state == "closed"));
    assert_eq!(app.a.board.issues[0][0].state, "CLOSED");
}

#[test]
fn issue_form_round_trips_its_lists() {
    let mut app = test_app_with_project();
    open_board(&mut app, vec![issue(42, "Todo", "harsha")]);
    press(&mut app, KeyCode::Char('e'));
    assert_eq!(app.a.nav.input_mode, InputMode::EditGitHubIssue);
    assert_eq!(app.a.composer.editing_number, Some(42));
    press(&mut app, KeyCode::Tab);
    assert_eq!(app.a.composer.field, 1);
    press(&mut app, KeyCode::BackTab);
    assert_eq!(app.a.composer.field, 0);
    press_mod(&mut app, KeyCode::Enter, alt());
    match &app.asked[0] {
        Effect::Post(GitHubPost::EditIssue { number, title, labels, assignees, .. }) => {
            assert_eq!(*number, 42);
            assert_eq!(title, "Issue 42");
            assert_eq!(*labels, vec!["bug".to_string(), "ui".to_string()]);
            assert_eq!(*assignees, vec!["harsha".to_string()]);
        },
        _ => panic!("expected the issue to be edited"),
    }
}

#[test]
fn fields_are_picked_for_an_issue() {
    let mut app = test_app_with_project();
    open_board(&mut app, vec![issue(42, "Todo", "harsha")]);
    let field = ProjectField {
        id: "f".to_string(),
        name: "Status".to_string(),
        options: vec![FieldOption { id: "o".to_string(), name: "Done".to_string() }],
    };
    let e = app.a.item_node_found("p".to_string(), text("n"));
    assert!(matches!(e, Effect::FetchFields { .. }));
    app.a.fields_fetched("p".to_string(), "n".to_string(), Ok(vec![field]));
    assert_eq!(app.a.nav.input_mode, InputMode::FieldPicker);
    press(&mut app, KeyCode::Enter);
    assert!(matches!(&app.asked[0], Effect::SetField { option_name, .. } if option_name == "Done"));
    assert_eq!(app.toast_message(), Some("Setting Status to Done..."));
    app.a.fields_fetched("p".to_string(), "n".to_string(), Err("no".to_string()));
    assert_eq!(app.toast_message(), Some("Failed to fetch fields: no"));
}

#[test]
fn the_leader_key_switches_views() {
    for (key, view) in [
        ('t', WorkbenchView::MyTasks),
        ('b', WorkbenchView::SprintBoard),
        ('h', WorkbenchView::Threads),
        ('r', WorkbenchView::Reviews),
        ('a', WorkbenchView::Agents),
        ('s', WorkbenchView::Settings),
    ] {
        let mut app = test_app_with_project();
        press(&mut app, KeyCode::Char(' '));
        press(&mut app, KeyCode::Char(key));
        assert_eq!(app.a.nav.workbench_view, view);
        assert_eq!(app.a.nav.focus, Focus::Tasks);
    }
}

#[test]
fn the_leader_key_means_the_same_everywhere() {
    let views = [
        WorkbenchView::MyTasks,
        WorkbenchView::SprintBoard,
        WorkbenchView::Threads,
        WorkbenchView::Reviews,
        WorkbenchView::Agents,
        WorkbenchView::Settings,
    ];
    for from in views {
        for (key, view, section) in [
            ('t', WorkbenchView::MyTasks, None),
            ('a', WorkbenchView::Agents, None),
            ('g', WorkbenchView::Settings, Some(2)),
            ('p', WorkbenchView::Settings, Some(0)),
        ] {
            let mut app = test_app_with_project();
            app.a.nav.settings_section_index = 5;
            app.a.nav.workbench_view = from;
            app.a.nav.focus = Focus::Tasks;
            if from == WorkbenchView::SprintBoard {
                app.a.nav.input_mode = InputMode::BoardView;
            }
            press(&mut app, KeyCode::Char(' '));
            assert!(app.a.nav.leader_pending);
            press(&mut app, KeyCode::Char(key));
            assert_eq!(app.a.nav.workbench_view, view);
            assert_eq!(app.a.nav.input_mode, InputMode::Normal);
            assert_eq!(app.a.nav.settings_section_index, section.unwrap_or(5));
            assert!(!app.a.nav.leader_pending);
        }
    }
}

#[test]
fn only_a_refresh_asks_github() {
    let mut app = test_app_with_project();
    open_board(&mut app, vec![issue(42, "Todo", "harsha")]);
    for key in ['j', 'k', 'h', 'l', 't', 'm'] {
        press(&mut app, KeyCode::Char(key));
        assert!(!app.asked.iter().any(|e| matches!(e, Effect::SyncGitHub)));
    }
    press(&mut app, KeyCode::Esc);
    press(&mut app, KeyCode::Char('R'));
    assert!(app.asked.iter().any(|e| matches!(e, Effect::SyncGitHub)));
}

#[test]
fn settings_sections_take_clicks_in_their_columns() {
    let mut app = test_app_with_project();
    app.a.nav.screen = Rect { x: 0, y: 0, width: 120, height: 30 };
    app.a.nav.workbench_view = WorkbenchView::Settings;
    let main = app.layout(app.inspector()).main;
    let row = main.y + 1 + 3;
    app.handle_mouse(MouseEventKind::Down(MouseButton::Left), main.x + 29, row);
    assert_eq!(app.a.nav.settings_section_index, 0);
    app.handle_mouse(MouseEventKind::Down(MouseButton::Left), main.x + 28, row);
    assert_eq!(app.a.nav.settings_section_index, 2);
}

// ── Threads and their agents ──

fn open_session_tab(app: &mut Bench) {
    seed_thread_workspace(app);
    app.a.tabs.push(Tab::Session {
        session_id: "session-1".to_string(),
        label: "Session".to_string(),
        view_mode: SessionTabView::Terminal,
        panes: Panes { layout: LayoutNode::Pane(1), focused: 1, selection: None },
    });
    app.a.nav.screen = Rect { x: 0, y: 0, width: 100, height: 30 };
}

fn compose(app: &mut Bench, s: &str) {
    app.a.nav.workbench_view = WorkbenchView::Threads;
    app.a.nav.focus = Focus::Tasks;
    app.a.start_thread_compose();
    for c in s.chars() {
        let stored = None;
        let e = app.a.handle_thread_compose_key(&stored, KeyCode::Char(c), KeyModifiers::none());
        app.perform(e);
    }
}

#[test]
fn a_working_agent_gets_its_message_later() {
    let mut app = test_app_with_tasks();
    open_session_tab(&mut app);
    compose(&mut app, "go on");
    let e = app.a.submit_thread_compose_message();
    app.perform(e);
    assert!(app.toast_message().unwrap().starts_with("Message queued"));
    assert!(app.a.input.text.is_empty());
    assert!(matches!(app.a.drain_queued_compose_message(), Effect::Nothing));

    app.a.sessions[0].claude_status = ClaudeStatus::Idle;
    let e = app.a.drain_queued_compose_message();
    assert!(matches!(&e, Effect::SendQueued { content, .. } if content == "go on"));
    assert!(matches!(app.a.drain_queued_compose_message(), Effect::Nothing));
    let thread = app.store.thread("thread-1");
    app.a.queued_sent(&thread, "go on".to_string(), true, "12:00".to_string());
    assert_eq!(app.toast_message(), Some("Queued message sent to agent"));
}

#[test]
fn a_message_that_cannot_be_sent_is_kept() {
    let mut app = test_app_with_tasks();
    open_session_tab(&mut app);
    app.a.pty_idle.push("session-1".to_string());
    compose(&mut app, "go on");
    let e = app.a.submit_thread_compose_message();
    app.perform(e);
    assert!(app.toast_message().unwrap().ends_with("your message is preserved"));
    assert_eq!(app.a.input.text, "go on");
    assert_eq!(app.a.nav.input_mode, InputMode::ThreadCompose);
}

#[test]
fn sent_messages_can_be_recalled() {
    let mut app = test_app_with_tasks();
    seed_thread_workspace(&mut app);
    compose(&mut app, "");
    app.a.compose.history = vec!["one".to_string(), "two".to_string()];
    press(&mut app, KeyCode::Up);
    assert_eq!(app.a.input.text, "two");
    press(&mut app, KeyCode::Up);
    assert_eq!(app.a.input.text, "one");
    press(&mut app, KeyCode::Down);
    assert_eq!(app.a.input.text, "two");
}

#[test]
fn empty_messages_are_refused() {
    let mut app = test_app_with_tasks();
    let e = app.a.submit_thread_compose_message();
    assert!(matches!(e, Effect::Nothing));
    assert_eq!(app.toast_message(), Some("Select a thread first"));
    seed_thread_workspace(&mut app);
    compose(&mut app, "  ");
    app.a.submit_thread_compose_message();
    assert_eq!(app.toast_message(), Some("Compose a message first"));
}

#[test]
fn a_permission_comes_first() {
    let mut app = test_app_with_tasks();
    open_session_tab(&mut app);
    app.a.nav.active_tab = 1;
    app.a.paused.push("session-1".to_string());
    let c = app.context(KeyCode::Char('q'), KeyModifiers::none());
    let e = app.a.handle_session_tab_key(&c, KeyCode::Char('q'), KeyModifiers::none());
    assert!(!app.a.nav.should_quit);
    assert!(matches!(e, Effect::Nothing));
    let e = app.a.handle_session_tab_key(&c, KeyCode::Enter, KeyModifiers::none());
    assert!(matches!(e, Effect::Pane(PaneEffect::SendToAgent(_))));
}

#[test]
fn session_views_toggle_back() {
    let mut app = test_app_with_tasks();
    open_session_tab(&mut app);
    app.a.nav.active_tab = 1;
    let view = |app: &Bench| match &app.a.tabs[1] {
        Tab::Session { view_mode, .. } => *view_mode,
        Tab::Dashboard => panic!("expected session tab"),
    };
    assert_eq!(view(&app), SessionTabView::Terminal);
    assert!(app.a.toggle_active_session_view());
    assert_eq!(view(&app), SessionTabView::Conversation);
    assert!(app.a.toggle_active_session_view());
    assert_eq!(view(&app), SessionTabView::Terminal);
    app.a.nav.active_tab = 0;
    assert!(!app.a.toggle_active_session_view());
}

#[test]
fn a_plain_click_copies_nothing() {
    let mut app = test_app_with_tasks();
    open_session_tab(&mut app);
    app.a.nav.active_tab = 1;
    app.handle_mouse(MouseEventKind::Down(MouseButton::Left), 5, 5);
    app.handle_mouse(MouseEventKind::Up(MouseButton::Left), 5, 5);
    assert!(app.asked.is_empty());

    app.handle_mouse(MouseEventKind::Down(MouseButton::Left), 5, 5);
    app.handle_mouse(MouseEventKind::Drag(MouseButton::Left), 99, 29);
    app.handle_mouse(MouseEventKind::Up(MouseButton::Left), 99, 29);
    match &app.asked[0] {
        Effect::Pane(PaneEffect::Copy(mark)) => {
            assert_eq!(mark.pane, 1);
            assert_eq!((mark.start.row, mark.start.col), (3, 4));
            assert!(mark.end.col < 98);
            assert!(mark.end.row < 26);
        },
        _ => panic!("expected a copy"),
    }
}

#[test]
fn resizes_reach_every_session() {
    let mut app = test_app_with_tasks();
    open_session_tab(&mut app);
    let sizes = app.a.handle_resize(80, 24);
    assert_eq!(sizes.len(), 1);
    assert_eq!(sizes[0].tab, 1);
    assert_eq!(sizes[0].panes, vec![(1, 20, 78)]);
}

#[test]
fn inputs_go_to_the_active_tab() {
    let mut app = test_app_with_tasks();
    open_session_tab(&mut app);
    let c = app.context(KeyCode::Char('x'), KeyModifiers::none());
    let mouse = MouseContext {
        layout: app.layout(false),
        inspector: false,
        entries: Vec::new(),
        terminals: Vec::new(),
    };
    assert_eq!(app.a.tick_rate(), 200);
    let paste = InputEvent::Paste("text".to_string());
    let r = app.a.handle_event(&c, &mouse, paste).unwrap_or_else(|_| panic!("no form is open"));
    assert!(matches!(r.effect, Effect::Nothing));
    assert!(!r.drains && !r.reads_output);

    app.a.nav.active_tab = 1;
    assert!(app.a.flushes_output(0));
    assert!(!app.a.flushes_output(1));
    assert_eq!(app.a.tick_rate(), 16);
    let paste = InputEvent::Paste("text".to_string());
    let r = app.a.handle_event(&c, &mouse, paste).unwrap_or_else(|_| panic!("no form is open"));
    assert!(
        matches!(&r.effect, Effect::Pane(PaneEffect::SendText(s)) if s == "\x1b[200~text\x1b[201~")
    );
    assert!(!r.drains && r.reads_output);
}

#[test]
fn texts_are_pasted_where_they_are_typed() {
    let mut app = test_app_with_tasks();
    let home = text("/home/user");
    assert!(matches!(app.a.handle_dashboard_paste(&home, "x"), Effect::Nothing));
    assert!(app.a.input.text.is_empty());

    press(&mut app, KeyCode::Char('/'));
    let e = app.a.handle_dashboard_paste(&home, "alpha");
    app.perform(e);
    assert_eq!(app.a.task_filter.text, "alpha");
    assert_eq!(app.a.visible_tasks().len(), 1);
    press(&mut app, KeyCode::Esc);

    press(&mut app, KeyCode::Char('n'));
    let e = app.a.handle_dashboard_paste(&home, "Fix it");
    app.perform(e);
    assert_eq!(app.a.input.text, "Fix it");
    press(&mut app, KeyCode::Tab);
    app.a.handle_dashboard_paste(&home, "x");
    assert_eq!(app.a.task_form.field, 1);
    assert_eq!(app.a.task_form.description, "Fix it");
}

#[test]
fn a_thread_needs_a_title() {
    let mut app = test_app_with_project();
    app.a.nav.workbench_view = WorkbenchView::Threads;
    app.a.nav.focus = Focus::Tasks;
    press(&mut app, KeyCode::Char('n'));
    let c = app.context(KeyCode::Enter, KeyModifiers::none());
    let r = app.a.handle_dashboard_key(&c, KeyCode::Enter, KeyModifiers::none());
    match r {
        Err(e) => assert_eq!(e, AppError::EmptyThreadTitle),
        Ok(_) => panic!("expected an error"),
    }
}

#[test]
fn one_session_is_prepared_at_a_time() {
    let mut app = test_app_with_tasks();
    app.a.busy.session_op = true;
    press(&mut app, KeyCode::Char('2'));
    press(&mut app, KeyCode::Char('l'));
    assert!(app.a.launch.draft.is_none());
    assert_eq!(app.a.nav.input_mode, InputMode::Normal);
}

#[test]
fn focus_goes_round() {
    let mut app = test_app_with_tasks();
    app.a.nav.workbench_view = WorkbenchView::Threads;
    for expected in [Focus::Tasks, Focus::Inspector, Focus::Projects] {
        press(&mut app, KeyCode::Tab);
        assert_eq!(app.a.nav.focus, expected);
    }
    press(&mut app, KeyCode::BackTab);
    assert_eq!(app.a.nav.focus, Focus::Inspector);
}

#[test]
fn the_task_view_follows_github() {
    let mut app = test_app_with_tasks();
    assert!(!app.a.uses_github_my_tasks());
    seed_review_queue_items(&mut app);
    assert!(app.a.uses_github_my_tasks());
    app.store.tables.borrow_mut().login = None;
    app.load();
    assert!(!app.a.uses_github_my_tasks());
    assert!(app.a.reviews.authored.is_empty());
    assert!(app.a.reviews.requested.is_empty());
}

#[test]
fn a_task_ready_for_review_is_announced() {
    let mut app = test_app_with_tasks();
    let id = app.a.tasks[0].id.clone();
    app.store.update_task_status(&id, TaskStatus::Working).unwrap();
    app.load();
    app.store.update_task_status(&id, TaskStatus::InReview).unwrap();
    app.load();
    assert_eq!(app.toast_message(), Some("Ready for review: Task Alpha"));
    assert_eq!(app.a.toast.as_ref().map(|t| t.style), Some(ToastStyle::Success));
    app.a.toast_expired();
    app.load();
    assert_eq!(app.toast_message(), None);
}

#[test]
fn selections_stay_inside_their_lists() {
    let mut app = test_app_with_tasks();
    app.a.nav.task_index = 99;
    app.a.nav.settings_section_index = 99;
    app.a.nav.sidebar_cursor = 99;
    app.load();
    assert_eq!(app.a.nav.task_index, 2);
    assert_eq!(app.a.nav.settings_section_index, 8);
    assert!(app.a.nav.sidebar_cursor <= 5);
}

#[test]
fn app_settings_need_the_advanced_view() {
    let mut app = test_app();
    app.a.nav.workbench_view = WorkbenchView::Settings;
    app.a.nav.focus = Focus::Tasks;
    app.a.nav.settings_section_index = 2;
    let none = Vec::new();
    assert!(app.a.handle_settings_shortcuts(&none, KeyCode::Char('c')).is_none());
    press(&mut app, KeyCode::Char('.'));
    press(&mut app, KeyCode::Char('c'));
    assert_eq!(app.a.nav.input_mode, InputMode::SettingsEdit);
    assert_eq!(app.a.settings_edit, Some(SettingsEditTarget::ClientId));
}

#[test]
fn edited_settings_are_shown_again() {
    let mut app = test_app();
    app.a.nav.workbench_view = WorkbenchView::Settings;
    app.a.nav.focus = Focus::Tasks;
    app.a.start_settings_edit(SettingsEditTarget::NotificationCommand);
    app.a.input = TextInput::holding("  afplay ".to_string());
    press(&mut app, KeyCode::Enter);
    assert!(matches!(app.asked[0], Effect::SaveSettingsAndStatus(_)));
    assert_eq!(app.a.config.notifications.command, "afplay");
    app.a.start_settings_edit(SettingsEditTarget::NotificationCommand);
    assert_eq!(app.a.input.text, "afplay");

    app.a.start_settings_edit(SettingsEditTarget::ReviewLoopInterval);
    app.a.input = TextInput::holding("abc".to_string());
    let c = app.context(KeyCode::Enter, KeyModifiers::none());
    let r = app.a.handle_dashboard_key(&c, KeyCode::Enter, KeyModifiers::none());
    assert!(matches!(r, Err(AppError::Setting(_))));
}

#[test]
fn skills_are_marked_and_installed() {
    let mut app = test_app();
    press(&mut app, KeyCode::Char('i'));
    press(&mut app, KeyCode::Char('f'));
    type_str(&mut app, "pdf");
    press(&mut app, KeyCode::Enter);
    assert!(matches!(&app.asked[0], Effect::SearchSkills { query } if query == "pdf"));
    let found = ["a", "b"].iter().map(|p| SearchResult { package: p.to_string() }).collect();
    app.a.skills_found(Ok(found));
    press(&mut app, KeyCode::Char(' '));
    assert_eq!(app.a.skills.selected, vec![0]);
    press(&mut app, KeyCode::Char('k'));
    press(&mut app, KeyCode::Char(' '));
    assert!(app.a.skills.selected.is_empty());
    press(&mut app, KeyCode::Char(' '));
    press(&mut app, KeyCode::Enter);
    assert!(matches!(&app.asked[1], Effect::InstallSkills { packages, .. } if packages.len() == 1));
}

fn stage(id: &str, prompt: Option<String>) -> StageRun {
    StageRun {
        id: id.to_string(),
        stage_name: "implement".to_string(),
        status: WorkflowStageStatus::Running,
        prompt,
    }
}

#[test]
fn a_stage_waits_for_its_work() {
    let mut app = test_app_with_tasks();
    open_session_tab(&mut app);
    let running = WorkflowRunStatus::Running;
    let stages = vec![stage("s1", text("Implement it"))];
    let step = |app: &mut Bench| app.a.maybe_advance_workflow_stages("session-1", running, &stages);
    assert!(matches!(step(&mut app), WorkflowAction::Inject { .. }));
    app.a.stage_injected("s1".to_string());
    assert!(matches!(step(&mut app), WorkflowAction::Wait));
    assert!(matches!(step(&mut app), WorkflowAction::Advance { .. }));

    let none = vec![stage("s2", None)];
    let r = app.a.maybe_advance_workflow_stages("session-1", running, &none);
    assert!(matches!(r, WorkflowAction::Skip));
    let r = app.a.maybe_advance_workflow_stages("session-1", WorkflowRunStatus::Completed, &none);
    assert!(matches!(r, WorkflowAction::Wait));
}

#[test]
fn an_idle_stage_goes_on() {
    let mut app = test_app_with_tasks();
    open_session_tab(&mut app);
    let running = WorkflowRunStatus::Running;
    let stages = vec![stage("s1", text("Implement it"))];
    app.a.stage_injected("s1".to_string());
    app.a.stage_injected("s1".to_string());
    assert_eq!(app.a.injected.len(), 1);
    app.a.sessions[0].claude_status = ClaudeStatus::Idle;
    let r = app.a.maybe_advance_workflow_stages("session-1", running, &stages);
    assert!(matches!(r, WorkflowAction::Advance { stage_id } if stage_id == "s1"));
    assert!(app.a.injected.is_empty());
}

#[test]
fn a_stage_handed_over_again_is_watched_anew() {
    let mut app = test_app_with_tasks();
    open_session_tab(&mut app);
    let running = WorkflowRunStatus::Running;
    let stages = vec![stage("s1", text("Implement it"))];
    app.a.stage_injected("s1".to_string());
    let r = app.a.maybe_advance_workflow_stages("session-1", running, &stages);
    assert!(matches!(r, WorkflowAction::Wait));
    assert!(app.a.injected[0].seen_working);
    app.a.stage_injected("s1".to_string());
    assert!(!app.a.injected[0].seen_working);
}

#[test]
fn a_context_needs_its_lists() {
    let mut app = test_app_with_tasks();
    seed_thread_workspace(&mut app);
    let without = |change: fn(&mut ThreadFacts)| {
        let mut facts = thread_facts();
        change(&mut facts);
        app.a.selected_thread_context(facts)
    };
    assert!(without(|f| f.messages = None).is_none());
    assert!(without(|f| f.runs = None).is_none());
    assert!(without(|f| f.attachments = None).is_none());

    let c = without(|f| f.github_item = None).unwrap();
    assert!(c.issue_cache.is_none() && c.pr_cache.is_none());
    assert_eq!((c.comment_count, c.review_count, c.review_comment_count), (0, 0, 0));

    let c = without(|f| f.workflow_run = None).unwrap();
    assert!(c.workflow_name.is_none() && c.workflow_stage.is_none());
    assert!(c.workflow_stages.is_empty());
    assert_eq!(c.workflow_artifact_count, 0);

    let c = without(|f| f.runtime_state = None).unwrap();
    assert!(c.runtime_services.is_empty());
    assert_eq!((c.messages.len(), c.attachments.len()), (1, 1));
}

#[test]
fn linked_session_tabs_default_to_conversation_view() {
    let mut app = test_app_with_tasks();
    seed_thread_workspace(&mut app);
    let session_id = app.a.threads[0].session_id.clone().unwrap();

    let layout = LayoutNode::Split {
        direction: SplitDirection::Horizontal,
        ratio: 50,
        first: Box::new(LayoutNode::Pane(0)),
        second: Box::new(LayoutNode::Pane(1)),
    };
    app.a.add_session_tab(session_id.clone(), layout, 1, "Session".to_string());

    let tab = app
        .a
        .tabs
        .iter()
        .find(|tab| matches!(tab, Tab::Session { session_id: sid, .. } if sid == &session_id))
        .unwrap();
    match tab {
        Tab::Session { view_mode, .. } => {
            assert_eq!(*view_mode, SessionTabView::Terminal);
        },
        Tab::Dashboard => panic!("expected session tab"),
    }
}

#[test]
fn tabs_open_and_close() {
    let mut app = test_app_with_tasks();
    let before = app.a.tabs.len();
    let open = |app: &mut Bench, id: &str, layout: LayoutNode| {
        app.a.add_session_tab(id.to_string(), layout, 1, id.to_string())
    };
    assert!(open(&mut app, "one", LayoutNode::Pane(1)));
    assert!(open(&mut app, "two", LayoutNode::Pane(1)));
    let wide = LayoutNode::Split {
        direction: SplitDirection::Vertical,
        ratio: 101,
        first: Box::new(LayoutNode::Pane(1)),
        second: Box::new(LayoutNode::Pane(2)),
    };
    assert!(!open(&mut app, "three", wide));
    assert_eq!(app.a.tabs.len(), before + 2);
    assert_eq!(app.a.nav.active_tab, before + 1);

    app.a.focus_pane(7);
    assert!(app.a.panes_changed(LayoutNode::Pane(9), 9));
    match &app.a.tabs[before + 1] {
        Tab::Session { panes, .. } => {
            assert_eq!(panes.focused, 9);
            assert!(matches!(panes.layout, LayoutNode::Pane(9)));
        },
        Tab::Dashboard => panic!("expected session tab"),
    }

    app.a.remove_session_tab("one");
    assert_eq!(app.a.nav.active_tab, before);
    assert_eq!(app.a.find_session_tab("two"), Some(before));
    app.a.remove_session_tab("none");
    assert_eq!(app.a.tabs.len(), before + 1);
}

#[test]
fn background_work_is_taken_note_of() {
    let mut app = test_app_with_tasks();
    app.a.session_work_started();
    assert!(app.a.busy.session_op);
    app.a.session_work_done();
    assert!(!app.a.busy.session_op);
    app.a.titles_pending(vec!["t".to_string()]);
    assert_eq!(app.a.busy.pending_titles, ["t"]);
    app.a.pauses_seen(vec!["p".to_string()], vec!["i".to_string()]);
    assert_eq!((&app.a.paused[..], &app.a.pty_idle[..]), (&["p".to_string()][..], &["i".to_string()][..]));
    app.a.busy.github_sync = true;
    app.a.sync_done();
    assert!(!app.a.busy.github_sync);
    app.a.busy.github_auth = true;
    app.a.login_done(text("code"), None);
    assert!(!app.a.busy.github_auth);
    assert_eq!(app.a.github.auth_prompt, text("code"));
    app.a.busy.github_installations = true;
    app.a.installations_loaded(Vec::new());
    assert!(!app.a.busy.github_installations);
    app.a.show_toast("x".to_string(), ToastStyle::Info);
    app.a.toast_expired();
    assert!(app.a.toast.is_none());
    app.a.nav.loading = true;
    app.a.loading_done();
    assert!(!app.a.nav.loading);
    app.a.screen_drawn(Rect { x: 0, y: 0, width: 9, height: 3 });
    assert_eq!(app.a.nav.screen.width, 9);
}

#[test]
fn a_released_task_can_be_queued() {
    let mut app = test_app_with_tasks();
    app.a.task_released("t".to_string(), None);
    assert_eq!(app.a.pending_relaunch, None);
    app.a.task_released("t".to_string(), text("p"));
    assert_eq!(app.a.pending_relaunch, Some(("t".to_string(), "p".to_string())));
}

#[test]
fn a_task_without_a_thread_is_relaunched() {
    let mut app = test_app_with_tasks();
    seed_thread_workspace(&mut app);
    app.a.threads.clear();
    app.a.nav.workbench_view = WorkbenchView::MyTasks;
    app.a.nav.focus = Focus::Tasks;
    let c = app.context(KeyCode::Null, KeyModifiers::none());
    let e = app.a.execute_action(&c, Action::LaunchTask);
    match e {
        Effect::ReleaseTask { session_id, relaunch_in, notice, .. } => {
            assert_eq!(session_id, "session-1");
            assert_eq!(relaunch_in, Some(app.a.projects[0].id.clone()));
            assert_eq!(notice.message, "Relaunching task in new session...");
        },
        _ => panic!("expected a release"),
    }
    assert_eq!(app.a.pending_relaunch, None);
}

#[test]
fn a_paste_into_the_task_filter_asks_for_nothing() {
    let mut app = test_app_with_tasks();
    app.a.nav.input_mode = InputMode::TaskFilter;
    let e = app.a.handle_dashboard_paste(&None, "alpha");
    assert!(matches!(e, Effect::Nothing));
    assert_eq!(app.a.task_filter.text, "alpha");
}

#[test]
fn every_place_exists_after_a_refresh() {
    let mut app = test_app_with_tasks();
    app.a.nav.project_index = 0;
    app.a.nav.task_index = 99;
    app.a.nav.thread_index = 99;
    app.a.nav.review_index = 99;
    app.a.nav.subtask_index = 99;
    app.a.nav.installation_index = 99;
    app.a.nav.sidebar_cursor = 99;
    app.a.nav.settings_section_index = 99;
    app.load();
    assert!(app.a.nav.task_index < app.a.visible.len());
    assert_eq!(app.a.nav.thread_index, 0);
    assert_eq!(app.a.nav.review_index, 0);
    assert_eq!(app.a.nav.installation_index, 0);
    assert_eq!(app.a.nav.subtask_index, app.a.subtasks.len().saturating_sub(1));
    assert_eq!(app.a.nav.sidebar_cursor, 4 + app.a.projects.len());
    assert_eq!(app.a.nav.settings_section_index, 8);
}

#[test]
fn a_thread_is_summed_up() {
    let mut app = test_app_with_tasks();
    seed_thread_workspace(&mut app);
    let c = app.a.selected_thread_context(thread_facts()).unwrap();
    let id = agent().id;
    assert_eq!(c.identity_summary(&id), format!("thread-1 [running] via {id}"));
    assert_eq!(c.activity_summary(), "1 message(s), 1 run(s), 1 attachment(s)");
    assert_eq!(c.latest_run_summary(&id), Some(format!("{id} [running] profile default")));
    assert_eq!(c.runtime_summary(), "default [built] 1/1 healthy, 0 failed");
    assert_eq!(
        c.workflow_summary().as_deref(),
        Some("plan_first_tdd [running] implement [running], 1 artifact(s)")
    );
    assert_eq!(
        c.github_summary().as_deref(),
        Some(
            "PR #42 [OPEN] task-alpha -> main, 1 comment(s), 1 review(s), \
             1 inline review comment(s)"
        )
    );
    assert_eq!(c.github_preview().map(|s| s.as_str()), Some("PR body markdown"));
    assert_eq!(c.knowledge_summary(), "1 card(s), 1 draft(s)");
}

#[test]
fn the_context_follows_the_session() {
    let mut app = test_app_with_tasks();
    seed_thread_workspace(&mut app);
    let mut cache = ContextCache { session_id: None, context: None };
    let built = app.a.selected_thread_context(thread_facts());
    cache.refresh_session_thread_context(&text("session-1"), built);
    assert!(cache.context.is_some());
    cache.refresh_session_thread_context(&None, None);
    assert!(cache.context.is_none());
    assert_eq!(cache.session_id, None);
}

#[test]
fn conversations_are_read_on() {
    let mut app = test_app_with_tasks();
    open_session_tab(&mut app);
    assert!(app.a.refresh_conversation_cache(&None, None).is_none());
    app.a.nav.active_tab = 1;
    assert!(app.a.refresh_conversation_cache(&None, None).is_none());
    if let Tab::Session { view_mode, .. } = &mut app.a.tabs[1] {
        *view_mode = SessionTabView::Conversation;
    }
    let q = app.a.refresh_conversation_cache(&None, None).unwrap();
    assert_eq!(q.worktree_path, "/tmp/test-repo-worktree");
    app.a.conversation_missing("session-1");
    assert!(app.a.refresh_conversation_cache(&None, Some(0)).is_some());
    let answer = "Which?\n1. This\n2. That".to_string();
    let entries = vec![ConversationEntry::AssistantText { text: answer }];
    app.a.conversation_read("session-1", "/log", entries, 30);
    assert_eq!(app.a.compose.quick_replies, vec!["This".to_string(), "That".to_string()]);
    assert!(app.a.refresh_conversation_cache(&None, Some(30)).is_none());
    assert!(app.a.refresh_conversation_cache(&None, Some(31)).is_some());
}

#[test]
fn a_finished_session_is_torn_down() {
    let mut app = test_app_with_tasks();
    let finished = FinishedSession { session_id: "s".to_string(), task_title: "T".to_string() };
    let e = app.a.maybe_teardown_push_mode_sessions(&vec![finished]);
    assert!(matches!(&e, Effect::TearDown { session_id } if session_id == "s"));
}
