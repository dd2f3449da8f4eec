//! The keys of the forms for tasks and projects, of the task filter, the subtasks, the
//! question before a deletion, and the command palette.

use vstd::prelude::*;
use vstd::string::*;

use crate::actions::{asks, project_form_opened, task_form_opened};
use crate::app::{
    at, in_mode, input_cleared, project_of, says, toast_is, visible_task, with_focus, App, Confirm,
    Nav, Toast,
};
use crate::board_state::{clamped, next_place, previous_place, step_down, step_up};
use crate::effects::{notice_is, Effect, SubmitKind};
use crate::input_pickers::{input_edited, input_emptied};
use crate::keys::{KeyCode, KeyModifiers};
use crate::moves::opened_board;
use crate::palette::{lists_matches, Palette};
use crate::project_form::{
    completion_of, expanded, is_blank_form, path_query, project_step, ProjectForm, ProjectFormEvent,
};
use crate::settings::{clone_text, text_option};
use crate::store::{Subtask, TaskMode, TaskStatus};
use crate::task_form::{describes, form_step, is_reset, is_submittable, with_input, TaskForm};
use crate::tasks::lists_visible_tasks;
use crate::text::contains_text;
use crate::text_input::{edited, TextInput};
use crate::titles::{fallback_title, first_line, short_title};
use crate::views::{DeleteTarget, Focus, InputMode, PaletteAction, ToastStyle};

verus! {

// ---------------------------------------------------------------------------
// The task form
// ---------------------------------------------------------------------------

/// The task form is closed and empty.
pub open spec fn form_closed(pre: App, post: App) -> bool {
    &&& is_reset(pre.task_form, post.task_form)
    &&& post.task_form.wf()
    &&& post.input.text@.len() == 0
    &&& post.input.cursor == 0
    &&& post == (App {
        task_form: post.task_form,
        input: post.input,
        nav: Nav { input_mode: InputMode::Normal, ..pre.nav },
        ..pre
    })
}

/// The form with what was typed kept in its field.
pub open spec fn field_kept(a: App) -> App {
    App { task_form: with_input(a.task_form, a.input.text), ..a }
}

pub open spec fn not_editing(a: App) -> App {
    App { task_form: TaskForm { editing_task_id: None, ..a.task_form }, ..a }
}

/// The key edits the form.
pub open spec fn form_edited(pre: App, code: KeyCode, m: KeyModifiers, post: App, r: bool) -> bool {
    &&& form_step(pre.task_form, pre.input, post.task_form, post.input, code, m, r)
    &&& post == (App { task_form: post.task_form, input: post.input, ..pre })
}

/// The key does not edit the form.
pub open spec fn form_ignores(a: App, code: KeyCode, m: KeyModifiers) -> bool {
    form_edited(a, code, m, a, false)
}

/// The form for a new task is submitted.
pub open spec fn new_task_submitted(pre: App, kind: SubmitKind, post: App, e: Effect) -> bool {
    let a = field_kept(pre);
    match project_of(a) {
        Some(project) if is_submittable(a.task_form) => post == a && (e matches Effect::CreateTask {
            project_id,
            task,
            kind: k,
        } && project_id == project.id && k == kind && describes(task, a.task_form)),
        _ => if kind == SubmitKind::Draft {
            e == Effect::Nothing && form_closed(a, post)
        } else if is_submittable(a.task_form) {
            e == Effect::Refresh && form_closed(a, post)
        } else {
            e == Effect::Nothing && post == a
        },
    }
}

/// A key of the form for a new task.
pub open spec fn new_task_step(
    pre: App,
    code: KeyCode,
    m: KeyModifiers,
    post: App,
    e: Effect,
) -> bool {
    ||| e == Effect::Nothing && form_edited(pre, code, m, post, true)
    ||| form_ignores(pre, code, m) && match code {
        KeyCode::Enter => new_task_submitted(pre, SubmitKind::Start, post, e),
        KeyCode::Esc => new_task_submitted(pre, SubmitKind::Draft, post, e),
        _ => e == Effect::Nothing && post == pre,
    }
}

/// A task that is worked on without supervision is started at once.
pub open spec fn starts_at_once(mode: TaskMode) -> bool {
    mode == TaskMode::Autonomous || mode == TaskMode::Exploration
}

/// The task has been created.
pub open spec fn new_task_saved(
    pre: App,
    task: String,
    project: String,
    kind: SubmitKind,
    post: App,
    e: Effect,
) -> bool {
    match kind {
        SubmitKind::Start => form_closed(pre, post) && e == (if starts_at_once(
            pre.task_form.mode,
        ) {
            Effect::StartTask { task_id: task, project_id: project }
        } else {
            Effect::GenerateTitle { task_id: task, description: pre.task_form.description }
        }),
        SubmitKind::Draft => e == Effect::Refresh && exists|mid: App| #[trigger]
            form_closed(pre, mid) && says(mid, post, "Task saved as draft"@, ToastStyle::Info),
    }
}

/// The form for an existing task is submitted.
pub open spec fn edit_submitted(pre: App, kind: SubmitKind, post: App, e: Effect) -> bool {
    let a = field_kept(pre);
    match a.task_form.editing_task_id {
        Some(id) if is_submittable(a.task_form) => post == a && (e matches Effect::UpdateTask {
            task_id,
            task,
            kind: k,
        } && task_id == id && k == kind && describes(task, a.task_form)),
        _ => if is_submittable(a.task_form) || kind == SubmitKind::Draft {
            e == Effect::Refresh && form_closed(not_editing(a), post)
        } else {
            e == Effect::Nothing && post == a
        },
    }
}

/// A key of the form for an existing task.
pub open spec fn edit_task_step(
    pre: App,
    code: KeyCode,
    m: KeyModifiers,
    post: App,
    e: Effect,
) -> bool {
    ||| e == Effect::Nothing && form_edited(pre, code, m, post, true)
    ||| form_ignores(pre, code, m) && match code {
        KeyCode::Enter => edit_submitted(pre, SubmitKind::Start, post, e),
        KeyCode::Esc => edit_submitted(pre, SubmitKind::Draft, post, e),
        _ => e == Effect::Nothing && post == pre,
    }
}

/// The task has been changed.
pub open spec fn edit_saved(pre: App, task: String, kind: SubmitKind, post: App, e: Effect) -> bool {
    &&& exists|mid: App| #[trigger]
        form_closed(not_editing(pre), mid) && (match kind {
            SubmitKind::Start => says(mid, post, "Task updated"@, ToastStyle::Success),
            SubmitKind::Draft => says(mid, post, "Task draft saved"@, ToastStyle::Info),
        })
    &&& e == match project_of(pre) {
        Some(project) if kind == SubmitKind::Start && starts_at_once(
            pre.task_form.mode,
        ) => Effect::StartTask { task_id: task, project_id: project.id },
        _ => Effect::GenerateTitle { task_id: task, description: pre.task_form.description },
    }
}

impl App {
    fn close_task_form(&mut self)
        requires
            old(self).wf(),
        ensures
            form_closed(*old(self), *final(self)),
            final(self).wf(),
    {
        self.task_form.reset_task_form();
        self.input = TextInput { text: String::new(), cursor: 0 };
        self.nav.input_mode = InputMode::Normal;
    }

    fn keep_task_field(&mut self)
        requires
            old(self).wf(),
        ensures
            *final(self) == field_kept(*old(self)),
            final(self).wf(),
    {
        self.task_form.save_current_task_field(&self.input.text);
    }

    fn edit_task_form(&mut self, code: KeyCode, m: KeyModifiers) -> (r: bool)
        requires
            old(self).wf(),
        ensures
            form_edited(*old(self), code, m, *final(self), r),
            !r ==> *final(self) == *old(self),
            final(self).wf(),
    {
        self.task_form.handle_task_form_shared_key(&mut self.input, code, m)
    }

    fn submit_new_task(&mut self, kind: SubmitKind) -> (e: Effect)
        requires
            old(self).wf(),
        ensures
            new_task_submitted(*old(self), kind, *final(self), e),
            final(self).wf(),
    {
        self.keep_task_field();
        let task = match self.task_form.submission() {
            Some(task) => task,
            None => {
                if kind == SubmitKind::Draft {
                    self.close_task_form();
                }
                return Effect::Nothing;
            },
        };
        match self.selected_project() {
            Some(project) => Effect::CreateTask { project_id: project.id.clone(), task, kind },
            None => {
                self.close_task_form();
                if kind == SubmitKind::Draft {
                    Effect::Nothing
                } else {
                    Effect::Refresh
                }
            },
        }
    }

    /// Handle a key of the form for a new task.
    pub fn handle_input_key(&mut self, code: KeyCode, m: KeyModifiers) -> (e: Effect)
        requires
            old(self).wf(),
        ensures
            new_task_step(*old(self), code, m, *final(self), e),
            final(self).wf(),
    {
        if self.edit_task_form(code, m) {
            return Effect::Nothing;
        }
        match code {
            KeyCode::Enter => self.submit_new_task(SubmitKind::Start),
            KeyCode::Esc => self.submit_new_task(SubmitKind::Draft),
            _ => Effect::Nothing,
        }
    }

    /// Go on once the task that the form describes has been created.
    pub fn task_created(&mut self, task_id: String, project_id: String, kind: SubmitKind) -> (e:
        Effect)
        requires
            old(self).wf(),
        ensures
            new_task_saved(*old(self), task_id, project_id, kind, *final(self), e),
            final(self).wf(),
    {
        let mode = self.task_form.mode;
        let description = self.task_form.description.clone();
        self.close_task_form();
        match kind {
            SubmitKind::Draft => {
                let ghost mid = *self;
                self.show_toast("Task saved as draft".to_owned(), ToastStyle::Info);
                assert(form_closed(*old(self), mid));
                Effect::Refresh
            },
            SubmitKind::Start => match mode {
                TaskMode::Autonomous | TaskMode::Exploration => Effect::StartTask {
                    task_id,
                    project_id,
                },
                TaskMode::Supervised => Effect::GenerateTitle { task_id, description },
            },
        }
    }

    fn submit_edit(&mut self, kind: SubmitKind) -> (e: Effect)
        requires
            old(self).wf(),
        ensures
            edit_submitted(*old(self), kind, *final(self), e),
            final(self).wf(),
    {
        self.keep_task_field();
        let task = self.task_form.submission();
        let editing = clone_text(&self.task_form.editing_task_id);
        match task {
            Some(task) => match editing {
                Some(task_id) => {
                    return Effect::UpdateTask { task_id, task, kind };
                },
                None => {},
            },
            None => {
                if kind != SubmitKind::Draft {
                    return Effect::Nothing;
                }
            },
        }
        self.task_form.editing_task_id = None;
        self.close_task_form();
        Effect::Refresh
    }

    /// Handle a key of the form for an existing task.
    pub fn handle_edit_task_key(&mut self, code: KeyCode, m: KeyModifiers) -> (e: Effect)
        requires
            old(self).wf(),
        ensures
            edit_task_step(*old(self), code, m, *final(self), e),
            final(self).wf(),
    {
        if self.edit_task_form(code, m) {
            return Effect::Nothing;
        }
        match code {
            KeyCode::Enter => self.submit_edit(SubmitKind::Start),
            KeyCode::Esc => self.submit_edit(SubmitKind::Draft),
            _ => Effect::Nothing,
        }
    }

    /// Go on once the task that was edited has been changed.
    pub fn task_updated(&mut self, task_id: String, kind: SubmitKind) -> (e: Effect)
        requires
            old(self).wf(),
        ensures
            edit_saved(*old(self), task_id, kind, *final(self), e),
            final(self).wf(),
    {
        let at_once = match self.task_form.mode {
            TaskMode::Autonomous | TaskMode::Exploration => true,
            TaskMode::Supervised => false,
        };
        let description = self.task_form.description.clone();
        let project = match self.selected_project() {
            Some(project) => Some(project.id.clone()),
            None => None,
        };
        self.task_form.editing_task_id = None;
        let ghost before = *self;
        self.close_task_form();
        let ghost mid = *self;
        assert(form_closed(not_editing(*old(self)), mid));
        match kind {
            SubmitKind::Start => {
                self.show_toast("Task updated".to_owned(), ToastStyle::Success);
            },
            SubmitKind::Draft => {
                self.show_toast("Task draft saved".to_owned(), ToastStyle::Info);
            },
        }
        if kind == SubmitKind::Start && at_once {
            if let Some(project_id) = project {
                return Effect::StartTask { task_id, project_id };
            }
        }
        Effect::GenerateTitle { task_id, description }
    }
}

// ---------------------------------------------------------------------------
// The filter of the task list
// ---------------------------------------------------------------------------

pub open spec fn at_task(a: App, i: usize) -> App {
    App { nav: Nav { task_index: i, ..a.nav }, ..a }
}

/// A key of the filter.
pub open spec fn filter_step(
    pre: App,
    code: KeyCode,
    m: KeyModifiers,
    post: App,
    e: Effect,
) -> bool {
    match code {
        KeyCode::Enter => e == Effect::Nothing && post == in_mode(
            at_task(pre, 0),
            InputMode::Normal,
        ),
        KeyCode::Esc => {
            &&& e == Effect::LoadMyTasks
            &&& post.task_filter.text@.len() == 0
            &&& post.task_filter.cursor == pre.task_filter.cursor
            &&& lists_visible_tasks(post.visible@, pre.tasks@, Seq::empty())
            &&& post == (App {
                task_filter: post.task_filter,
                visible: post.visible,
                nav: Nav { task_index: 0, input_mode: InputMode::Normal, ..pre.nav },
                ..pre
            })
        },
        _ => match edited(pre.task_filter@, code, m) {
            Some(line) => {
                &&& e == Effect::LoadMyTasks
                &&& post.task_filter@ == line
                &&& lists_visible_tasks(post.visible@, pre.tasks@, post.task_filter.text@)
                &&& post == (App {
                    task_filter: post.task_filter,
                    visible: post.visible,
                    nav: Nav { task_index: 0, ..pre.nav },
                    ..pre
                })
            },
            None => e == Effect::Nothing && post.task_filter@ == pre.task_filter@ && post == (App {
                task_filter: post.task_filter,
                ..pre
            }),
        },
    }
}

impl App {
    fn clear_task_filter(&mut self)
        requires
            old(self).wf(),
        ensures
            filter_step(
                *old(self),
                KeyCode::Esc,
                KeyModifiers::none(),
                *final(self),
                Effect::LoadMyTasks,
            ),
            final(self).wf(),
    {
        self.task_filter.text = String::new();
        assert(self.task_filter.text@ =~= Seq::<char>::empty());
        self.recompute_visible_tasks();
        self.nav.input_mode = InputMode::Normal;
        self.nav.task_index = 0;
    }

    /// Handle a key of the filter of the task list.
    pub fn handle_task_filter_key(&mut self, code: KeyCode, m: KeyModifiers) -> (e: Effect)
        requires
            old(self).wf(),
        ensures
            filter_step(*old(self), code, m, *final(self), e),
            final(self).wf(),
    {
        match code {
            KeyCode::Enter => {
                self.nav.input_mode = InputMode::Normal;
                self.nav.task_index = 0;
                Effect::Nothing
            },
            KeyCode::Esc => {
                self.clear_task_filter();
                Effect::LoadMyTasks
            },
            _ => {
                if self.task_filter.apply_text_edit(code, m) {
                    self.recompute_visible_tasks();
                    self.nav.task_index = 0;
                    Effect::LoadMyTasks
                } else {
                    Effect::Nothing
                }
            },
        }
    }
}

// ---------------------------------------------------------------------------
// Subtasks
// ---------------------------------------------------------------------------

pub open spec fn at_subtask(a: App, i: usize) -> App {
    App { nav: Nav { subtask_index: i, ..a.nav }, ..a }
}

/// What was typed becomes a subtask of the selected task.
pub open spec fn subtask_typed(pre: App, post: App, e: Effect) -> bool {
    match visible_task(pre, pre.nav.task_index) {
        Some(task) if pre.input.text@.len() > 0 => input_cleared(pre, post) && (
        e matches Effect::AddSubtask { task_id, title, description } && task_id == task.id
            && description == pre.input.text && title@ == short_title(
            first_line(pre.input.text@),
        )),
        _ => e == Effect::Nothing && post == pre,
    }
}

pub open spec fn subtask_removed(a: App) -> Effect {
    match at(a.subtasks@, a.nav.subtask_index as int) {
        Some(s) => Effect::DeleteSubtask { subtask_id: s.id, task_id: s.task_id },
        None => Effect::Nothing,
    }
}

/// A key of the panel of subtasks.
pub open spec fn subtasks_step(
    pre: App,
    code: KeyCode,
    m: KeyModifiers,
    post: App,
    e: Effect,
) -> bool {
    let idle = pre.input.text@.len() == 0;
    if code == KeyCode::Enter {
        subtask_typed(pre, post, e)
    } else if idle && code == KeyCode::Char('d') {
        post == pre && e == subtask_removed(pre)
    } else if idle && (code == KeyCode::Char('j') || code == KeyCode::Down) {
        e == Effect::Nothing && post == (if pre.subtasks@.len() == 0 {
            pre
        } else {
            at_subtask(pre, next_place(pre.nav.subtask_index, pre.subtasks@.len()))
        })
    } else if idle && (code == KeyCode::Char('k') || code == KeyCode::Up) {
        e == Effect::Nothing && post == at_subtask(pre, previous_place(pre.nav.subtask_index))
    } else if code == KeyCode::Esc {
        e == Effect::Refresh && input_emptied(in_mode(pre, InputMode::Normal), post)
    } else {
        e == Effect::Nothing && input_edited(pre, code, m, post)
    }
}

impl App {
    fn add_subtask(&mut self) -> (e: Effect)
        requires
            old(self).wf(),
        ensures
            subtask_typed(*old(self), *final(self), e),
            final(self).wf(),
    {
        if self.input.text.as_str().is_empty() {
            return Effect::Nothing;
        }
        let task_id = match self.visible_task_at(self.nav.task_index) {
            Some(task) => task.id.clone(),
            None => {
                return Effect::Nothing;
            },
        };
        let description = self.input.text.clone();
        self.input.text = String::new();
        let title = fallback_title(description.as_str());
        Effect::AddSubtask { task_id, title, description }
    }

    fn leave_subtasks(&mut self)
        requires
            old(self).wf(),
        ensures
            input_emptied(in_mode(*old(self), InputMode::Normal), *final(self)),
            final(self).wf(),
    {
        self.enter_mode(InputMode::Normal);
        self.input = TextInput { text: String::new(), cursor: 0 };
    }

    fn go_to_subtask(&mut self, i: usize)
        requires
            old(self).wf(),
        ensures
            *final(self) == at_subtask(*old(self), i),
            final(self).wf(),
    {
        self.nav.subtask_index = i;
    }

    /// Handle a key of the panel of subtasks.
    pub fn handle_subtask_panel_key(&mut self, code: KeyCode, m: KeyModifiers) -> (e: Effect)
        requires
            old(self).wf(),
        ensures
            subtasks_step(*old(self), code, m, *final(self), e),
            final(self).wf(),
    {
        let idle = self.input.text.as_str().is_empty();
        if code == KeyCode::Enter {
            return self.add_subtask();
        }
        if idle && code == KeyCode::Char('d') {
            return if self.nav.subtask_index < self.subtasks.len() {
                let s = &self.subtasks[self.nav.subtask_index];
                Effect::DeleteSubtask { subtask_id: s.id.clone(), task_id: s.task_id.clone() }
            } else {
                Effect::Nothing
            };
        }
        if idle && (code == KeyCode::Char('j') || code == KeyCode::Down) {
            if self.subtasks.len() > 0 {
                self.go_to_subtask(step_down(self.nav.subtask_index, self.subtasks.len()));
            }
            return Effect::Nothing;
        }
        if idle && (code == KeyCode::Char('k') || code == KeyCode::Up) {
            self.go_to_subtask(step_up(self.nav.subtask_index));
            return Effect::Nothing;
        }
        if code == KeyCode::Esc {
            self.leave_subtasks();
            return Effect::Refresh;
        }
        self.input.apply_text_edit(code, m);
        Effect::Nothing
    }

    /// Show the subtasks of a task after one was added.
    pub fn subtask_added(&mut self, subtasks: Vec<Subtask>)
        requires
            old(self).wf(),
        ensures
            says(
                (App { subtasks: subtasks, ..*old(self) }),
                *final(self),
                "Subtask added"@,
                ToastStyle::Success,
            ),
            final(self).wf(),
    {
        self.subtasks = subtasks;
        self.show_toast("Subtask added".to_owned(), ToastStyle::Success);
    }

    /// Show the subtasks of a task after one was deleted.
    pub fn subtask_deleted(&mut self, subtasks: Vec<Subtask>)
        requires
            old(self).wf(),
        ensures
            says(
                at_subtask(
                    (App { subtasks: subtasks, ..*old(self) }),
                    clamped(old(self).nav.subtask_index, subtasks@.len()),
                ),
                *final(self),
                "Subtask deleted"@,
                ToastStyle::Success,
            ),
            final(self).wf(),
    {
        self.nav.subtask_index = crate::board_state::clamp(
            self.nav.subtask_index,
            subtasks.len(),
        );
        self.subtasks = subtasks;
        self.show_toast("Subtask deleted".to_owned(), ToastStyle::Success);
    }
}

// ---------------------------------------------------------------------------
// Deletions
// ---------------------------------------------------------------------------

/// The question is answered.
pub open spec fn question_closed(pre: App, post: App) -> bool {
    &&& post.confirm.target@.len() == 0
    &&& post.confirm.entity_id@.len() == 0
    &&& post == (App {
        confirm: Confirm {
            target: post.confirm.target,
            entity_id: post.confirm.entity_id,
            kind: pre.confirm.kind,
        },
        nav: Nav { input_mode: InputMode::Normal, ..pre.nav },
        ..pre
    })
}

/// What is deleted once the user agrees.
pub open spec fn deletes(a: App) -> Effect {
    if a.confirm.entity_id@.len() == 0 {
        Effect::Nothing
    } else {
        match a.confirm.kind {
            DeleteTarget::Project => Effect::DeleteProject { id: a.confirm.entity_id },
            DeleteTarget::Task => Effect::DeleteTask { id: a.confirm.entity_id },
            DeleteTarget::Session => Effect::CloseSession { id: a.confirm.entity_id },
        }
    }
}

/// A key at the question before a deletion.
pub open spec fn confirm_step(pre: App, code: KeyCode, post: App, e: Effect) -> bool {
    match code {
        KeyCode::Char('y') => post == pre && e == deletes(pre),
        KeyCode::Esc | KeyCode::Char('n') => e == Effect::Nothing && question_closed(pre, post),
        _ => e == Effect::Nothing && post == pre,
    }
}

pub open spec fn deletion_message(c: Confirm) -> Seq<char> {
    match c.kind {
        DeleteTarget::Project => "Project '"@ + c.target@ + "' deleted"@,
        DeleteTarget::Task => "Task '"@ + c.target@ + "' deleted"@,
        DeleteTarget::Session => "Session '"@ + c.target@ + "' closed permanently"@,
    }
}

/// The deletion has been carried out.
pub open spec fn deletion_shown(pre: App, post: App) -> bool {
    let moved = if pre.confirm.kind == DeleteTarget::Project {
        App { nav: Nav { project_index: 0, ..pre.nav }, ..pre }
    } else {
        pre
    };
    &&& toast_is(post.toast, deletion_message(pre.confirm), ToastStyle::Success)
    &&& question_closed(App { toast: post.toast, ..moved }, post)
}

impl App {
    fn close_question(&mut self)
        requires
            old(self).wf(),
        ensures
            question_closed(*old(self), *final(self)),
            final(self).wf(),
    {
        self.confirm.entity_id = String::new();
        self.confirm.target = String::new();
        self.nav.input_mode = InputMode::Normal;
    }

    /// Handle a key at the question before a deletion.
    pub fn handle_confirm_delete_key(&mut self, code: KeyCode) -> (e: Effect)
        requires
            old(self).wf(),
        ensures
            confirm_step(*old(self), code, *final(self), e),
            final(self).wf(),
    {
        match code {
            KeyCode::Char('y') => {
                if self.confirm.entity_id.as_str().is_empty() {
                    return Effect::Nothing;
                }
                let id = self.confirm.entity_id.clone();
                match self.confirm.kind {
                    DeleteTarget::Project => Effect::DeleteProject { id },
                    DeleteTarget::Task => Effect::DeleteTask { id },
                    DeleteTarget::Session => Effect::CloseSession { id },
                }
            },
            KeyCode::Esc | KeyCode::Char('n') => {
                self.close_question();
                Effect::Nothing
            },
            _ => Effect::Nothing,
        }
    }

    /// Go on once the deletion has been carried out.
    pub fn deletion_done(&mut self) -> (e: Effect)
        requires
            old(self).wf(),
        ensures
            e == Effect::Refresh,
            deletion_shown(*old(self), *final(self)),
            final(self).wf(),
    {
        let mut message = match self.confirm.kind {
            DeleteTarget::Project => "Project '".to_owned(),
            DeleteTarget::Task => "Task '".to_owned(),
            DeleteTarget::Session => "Session '".to_owned(),
        };
        message.append(self.confirm.target.as_str());
        match self.confirm.kind {
            DeleteTarget::Project => {
                message.append("' deleted");
                self.nav.project_index = 0;
            },
            DeleteTarget::Task => {
                message.append("' deleted");
            },
            DeleteTarget::Session => {
                message.append("' closed permanently");
            },
        }
        self.show_toast(message, ToastStyle::Success);
        self.close_question();
        Effect::Refresh
    }
}

// ---------------------------------------------------------------------------
// The project form
// ---------------------------------------------------------------------------

/// The project that the form describes is to be created.
pub open spec fn project_submitted(f: ProjectForm, home: Option<Seq<char>>, e: Effect) -> bool {
    if f.name@.len() > 0 && f.path@.len() > 0 {
        e matches Effect::CreateProject { name, path, git_linked } && name == f.name && path@
            == match expanded(f.path@, home) {
            Some(p) => p,
            None => f.path@,
        } && git_linked == f.git_linked
    } else {
        e == Effect::Nothing
    }
}

/// Suggestions for the typed path are asked for; without a directory to read they are
/// dropped.
pub open spec fn paths_asked(pre: App, home: Option<Seq<char>>, post: App, e: Effect) -> bool {
    match completion_of(pre.input.text@, home) {
        Some(c) => post == pre && (e matches Effect::SuggestPaths { directory, partial } && (
            directory@,
            partial@,
        ) == c),
        None => {
            &&& e == Effect::Nothing
            &&& post.project_form.suggestions@.len() == 0
            &&& post == (App {
                project_form: ProjectForm {
                    suggestions: post.project_form.suggestions,
                    show_suggestions: false,
                    ..pre.project_form
                },
                ..pre
            })
        },
    }
}

/// The form was left, submitted, or its path is to be completed.
pub open spec fn form_event(
    pre: App,
    r: ProjectFormEvent,
    home: Option<Seq<char>>,
    post: App,
    e: Effect,
) -> bool {
    match r {
        ProjectFormEvent::Nothing => e == Effect::Nothing && post == pre,
        ProjectFormEvent::Close => e == Effect::Nothing && post == in_mode(pre, InputMode::Normal),
        ProjectFormEvent::Submit => post == pre && project_submitted(pre.project_form, home, e),
        ProjectFormEvent::Suggest => paths_asked(pre, home, post, e),
    }
}

/// The form after a key, before what the key asks for.
pub open spec fn project_form_edited(
    pre: App,
    home: Option<Seq<char>>,
    code: KeyCode,
    m: KeyModifiers,
    post: App,
    r: ProjectFormEvent,
) -> bool {
    &&& project_step(
        pre.project_form,
        pre.input,
        post.project_form,
        post.input,
        home,
        code,
        m,
        r,
    )
    &&& post.project_form.field < 3
    &&& post == (App { project_form: post.project_form, input: post.input, ..pre })
}

/// A key of the form for a new project.
pub open spec fn new_project_step(
    pre: App,
    home: Option<Seq<char>>,
    code: KeyCode,
    m: KeyModifiers,
    post: App,
    e: Effect,
) -> bool {
    exists|mid: App, r: ProjectFormEvent| #[trigger]
        project_form_edited(pre, home, code, m, mid, r) && form_event(mid, r, home, post, e)
}

/// What came of the creation of a project.
pub enum ProjectOutcome {
    Created,
    /// The path does not exist.
    InvalidPath { path: String },
    /// The path is not a text.
    UnreadablePath,
}

/// The outcome is shown.
pub open spec fn project_outcome_shown(
    pre: App,
    name: Seq<char>,
    outcome: ProjectOutcome,
    post: App,
    e: Effect,
) -> bool {
    match outcome {
        ProjectOutcome::InvalidPath { path } => e == Effect::Nothing && says(
            pre,
            post,
            "Invalid path: "@ + path@,
            ToastStyle::Error,
        ),
        ProjectOutcome::UnreadablePath => e == Effect::Nothing && says(
            pre,
            post,
            "Path contains invalid UTF-8"@,
            ToastStyle::Error,
        ),
        ProjectOutcome::Created => {
            &&& e matches Effect::RefreshAndSay(notice) && notice_is(
                notice,
                "Project '"@ + name + "' created"@,
                ToastStyle::Success,
            )
            &&& is_blank_form(post.project_form)
            &&& input_cleared(
                App {
                    project_form: post.project_form,
                    nav: Nav { input_mode: InputMode::Normal, ..pre.nav },
                    ..pre
                },
                post,
            )
        },
    }
}

impl App {
    pub(crate) fn ask_paths(&mut self, home: &Option<String>) -> (e: Effect)
        requires
            old(self).wf(),
        ensures
            paths_asked(*old(self), text_option(*home), *final(self), e),
            final(self).wf(),
    {
        match path_query(self.input.text.as_str(), home) {
            Some((directory, partial)) => Effect::SuggestPaths { directory, partial },
            None => {
                self.project_form.show_path_suggestions(&None, "");
                Effect::Nothing
            },
        }
    }

    fn edit_project_form(&mut self, home: &Option<String>, code: KeyCode, m: KeyModifiers) -> (r:
        ProjectFormEvent)
        requires
            old(self).wf(),
        ensures
            project_form_edited(*old(self), text_option(*home), code, m, *final(self), r),
            final(self).wf(),
    {
        self.project_form.handle_new_project_key(&mut self.input, home, code, m)
    }

    fn follow_form_event(&mut self, r: ProjectFormEvent, home: &Option<String>) -> (e: Effect)
        requires
            old(self).wf(),
        ensures
            form_event(*old(self), r, text_option(*home), *final(self), e),
            final(self).wf(),
    {
        match r {
            ProjectFormEvent::Nothing => Effect::Nothing,
            ProjectFormEvent::Close => {
                self.nav.input_mode = InputMode::Normal;
                Effect::Nothing
            },
            ProjectFormEvent::Submit => match self.project_form.submission(home) {
                Some((name, path, git_linked)) => Effect::CreateProject { name, path, git_linked },
                None => Effect::Nothing,
            },
            ProjectFormEvent::Suggest => self.ask_paths(home),
        }
    }

    /// Handle a key of the form for a new project.
    pub fn handle_new_project_key(
        &mut self,
        home: &Option<String>,
        code: KeyCode,
        m: KeyModifiers,
    ) -> (e: Effect)
        requires
            old(self).wf(),
        ensures
            new_project_step(*old(self), text_option(*home), code, m, *final(self), e),
            final(self).wf(),
    {
        let r = self.edit_project_form(home, code, m);
        let ghost mid = *self;
        assert(project_form_edited(*old(self), text_option(*home), code, m, mid, r));
        self.follow_form_event(r, home)
    }

    /// Go on once the project was created or could not be.
    pub fn project_created(&mut self, name: &String, outcome: ProjectOutcome) -> (e: Effect)
        requires
            old(self).wf(),
        ensures
            project_outcome_shown(*old(self), name@, outcome, *final(self), e),
            final(self).wf(),
    {
        match outcome {
            ProjectOutcome::InvalidPath { path } => {
                let message = "Invalid path: ".to_owned().concat(path.as_str());
                self.show_toast(message, ToastStyle::Error);
                Effect::Nothing
            },
            ProjectOutcome::UnreadablePath => {
                self.show_toast("Path contains invalid UTF-8".to_owned(), ToastStyle::Error);
                Effect::Nothing
            },
            ProjectOutcome::Created => {
                self.project_form.clear();
                self.input.text = String::new();
                self.nav.input_mode = InputMode::Normal;
                let mut message = "Project '".to_owned();
                message.append(name.as_str());
                message.append("' created");
                Effect::RefreshAndSay(Toast { message, style: ToastStyle::Success })
            },
        }
    }
}

// ---------------------------------------------------------------------------
// The command palette
// ---------------------------------------------------------------------------

/// The board is opened from the palette.
pub open spec fn board_from_palette(pre: App, post: App, e: Effect) -> bool {
    match project_of(pre) {
        None => e == Effect::Nothing && post == pre,
        Some(project) => if project.is_git_linked {
            e == Effect::LoadBoard && opened_board(pre.board, post.board) && post == in_mode(
                App { board: post.board, ..pre },
                InputMode::BoardView,
            )
        } else {
            e == Effect::Nothing && says(
                pre,
                post,
                "Project not linked to git"@,
                ToastStyle::Info,
            )
        },
    }
}

/// The search for skills is open; the skills are listed.
pub open spec fn skill_search_opened(pre: App, post: App) -> bool {
    &&& post.skills.results@.len() == 0
    &&& input_cleared(
        in_mode(
            App {
                skills: crate::skills::Skills { results: post.skills.results, ..pre.skills },
                ..pre
            },
            InputMode::SkillSearch,
        ),
        post,
    )
}

pub open spec fn status_is(pre: App, post: App, message: Seq<char>) -> bool {
    post.skills.status@ == message && post == (App {
        skills: crate::skills::Skills { status: post.skills.status, ..pre.skills },
        ..pre
    })
}

/// What an entry of the palette does.
pub open spec fn palette_acted(pre: App, action: PaletteAction, post: App, e: Effect) -> bool {
    match action {
        PaletteAction::NewTask => e == Effect::Nothing && (if project_of(pre) is Some {
            task_form_opened(pre, post)
        } else {
            post == pre
        }),
        PaletteAction::AddProject => e == Effect::Nothing && project_form_opened(pre, post),
        PaletteAction::RemoveProject => e == Effect::Nothing && post == (match project_of(pre) {
            Some(project) => asks(pre, project.name, project.id, DeleteTarget::Project),
            None => pre,
        }),
        PaletteAction::FocusProjects => e == Effect::Nothing && post == with_focus(
            pre,
            Focus::Projects,
        ),
        PaletteAction::FocusTasks => e == Effect::Nothing && post == with_focus(pre, Focus::Tasks),
        PaletteAction::FindSkills => e == Effect::LoadSkills && skill_search_opened(pre, post),
        PaletteAction::UpdateSkills => e == (Effect::UpdateSkills { panel: false }) && status_is(
            pre,
            post,
            "Updating skills..."@,
        ),
        PaletteAction::Quit => e == Effect::Nothing && post == (App {
            nav: Nav { should_quit: true, ..pre.nav },
            ..pre
        }),
        PaletteAction::Configure => e == Effect::LoadConfigStatus && post == in_mode(
            pre,
            InputMode::ConfigureWizard,
        ),
        PaletteAction::SprintBoard => board_from_palette(pre, post, e),
    }
}

/// What the selected entry of the palette does.
pub open spec fn palette_choice(p: Palette) -> Option<PaletteAction> {
    match at(p.filtered@, p.index as int) {
        Some(i) => match at(p.items@, i as int) {
            Some(item) => Some(item.action),
            None => None,
        },
        None => None,
    }
}

pub open spec fn at_entry(a: App, i: usize) -> App {
    App { palette: Palette { index: i, ..a.palette }, ..a }
}

/// The palette was closed.
pub open spec fn palette_closed(pre: App, post: App) -> bool {
    input_cleared(in_mode(pre, InputMode::Normal), post)
}

/// What was typed narrows the palette.
pub open spec fn palette_narrowed(pre: App, code: KeyCode, m: KeyModifiers, post: App) -> bool {
    match edited(pre.input@, code, m) {
        Some(line) => {
            &&& post.input@ == line
            &&& lists_matches(post.palette.filtered@, pre.palette.items@, post.input.text@)
            &&& post == (App {
                input: post.input,
                palette: Palette {
                    filtered: post.palette.filtered,
                    index: clamped(pre.palette.index, post.palette.filtered@.len()),
                    ..pre.palette
                },
                ..pre
            })
        },
        None => input_edited(pre, code, m, post),
    }
}

/// A key of the palette.
pub open spec fn palette_step(
    pre: App,
    code: KeyCode,
    m: KeyModifiers,
    post: App,
    e: Effect,
) -> bool {
    let idle = pre.input.text@.len() == 0;
    if code == KeyCode::Esc {
        e == Effect::Nothing && palette_closed(pre, post)
    } else if code == KeyCode::Enter {
        match palette_choice(pre.palette) {
            Some(action) => exists|mid: App| #[trigger]
                palette_closed(pre, mid) && palette_acted(mid, action, post, e),
            None => e == Effect::Nothing && post == pre,
        }
    } else if idle && (code == KeyCode::Up || code == KeyCode::Char('k')) {
        e == Effect::Nothing && post == at_entry(pre, previous_place(pre.palette.index))
    } else if idle && (code == KeyCode::Down || code == KeyCode::Char('j')) {
        e == Effect::Nothing && post == (if pre.palette.filtered@.len() > 1 {
            at_entry(pre, next_place(pre.palette.index, pre.palette.filtered@.len()))
        } else {
            pre
        })
    } else {
        e == Effect::Nothing && palette_narrowed(pre, code, m, post)
    }
}

impl App {
    fn open_board_from_palette(&mut self) -> (e: Effect)
        requires
            old(self).wf(),
        ensures
            board_from_palette(*old(self), *final(self), e),
            final(self).wf(),
    {
        let linked = match self.selected_project() {
            Some(project) => project.is_git_linked,
            None => {
                return Effect::Nothing;
            },
        };
        if linked {
            self.open_board_at_start();
            self.nav.input_mode = InputMode::BoardView;
            Effect::LoadBoard
        } else {
            self.show_toast("Project not linked to git".to_owned(), ToastStyle::Info);
            Effect::Nothing
        }
    }

    fn open_skill_search(&mut self)
        requires
            old(self).wf(),
        ensures
            skill_search_opened(*old(self), *final(self)),
            final(self).wf(),
    {
        self.nav.input_mode = InputMode::SkillSearch;
        self.input.text = String::new();
        self.skills.results = Vec::new();
    }

    fn ask_remove_project(&mut self)
        requires
            old(self).wf(),
        ensures
            *final(self) == match project_of(*old(self)) {
                Some(project) => asks(
                    *old(self),
                    project.name,
                    project.id,
                    DeleteTarget::Project,
                ),
                None => *old(self),
            },
            final(self).wf(),
    {
        let (name, id) = match self.selected_project() {
            Some(project) => (project.name.clone(), project.id.clone()),
            None => {
                return;
            },
        };
        self.ask_delete(name, id, DeleteTarget::Project);
    }

    /// Do what an entry of the palette asks for.
    pub fn execute_palette_action(&mut self, action: PaletteAction) -> (e: Effect)
        requires
            old(self).wf(),
        ensures
            palette_acted(*old(self), action, *final(self), e),
            final(self).wf(),
    {
        match action {
            PaletteAction::NewTask => {
                if self.selected_project().is_some() {
                    self.open_task_form();
                }
                Effect::Nothing
            },
            PaletteAction::AddProject => {
                self.open_project_form();
                Effect::Nothing
            },
            PaletteAction::RemoveProject => {
                self.ask_remove_project();
                Effect::Nothing
            },
            PaletteAction::FocusProjects => {
                self.nav.focus = Focus::Projects;
                Effect::Nothing
            },
            PaletteAction::FocusTasks => {
                self.nav.focus = Focus::Tasks;
                Effect::Nothing
            },
            PaletteAction::FindSkills => {
                self.open_skill_search();
                Effect::LoadSkills
            },
            PaletteAction::UpdateSkills => {
                self.skills.status = "Updating skills...".to_owned();
                Effect::UpdateSkills { panel: false }
            },
            PaletteAction::Quit => {
                self.nav.should_quit = true;
                Effect::Nothing
            },
            PaletteAction::Configure => {
                self.nav.input_mode = InputMode::ConfigureWizard;
                Effect::LoadConfigStatus
            },
            PaletteAction::SprintBoard => self.open_board_from_palette(),
        }
    }

    fn close_palette(&mut self)
        requires
            old(self).wf(),
        ensures
            palette_closed(*old(self), *final(self)),
            final(self).wf(),
    {
        self.input.text = String::new();
        self.nav.input_mode = InputMode::Normal;
    }

    fn narrow_palette(&mut self, code: KeyCode, m: KeyModifiers)
        requires
            old(self).wf(),
        ensures
            palette_narrowed(*old(self), code, m, *final(self)),
            final(self).wf(),
    {
        if self.input.apply_text_edit(code, m) {
            self.palette.filter_palette(self.input.text.as_str());
            self.palette.index = crate::board_state::clamp(
                self.palette.index,
                self.palette.filtered.len(),
            );
        }
    }

    fn choose_entry(&mut self) -> (e: Effect)
        requires
            old(self).wf(),
        ensures
            palette_step(*old(self), KeyCode::Enter, KeyModifiers::none(), *final(self), e),
            final(self).wf(),
    {
        match self.palette.selected_action() {
            Some(action) => {
                self.close_palette();
                let ghost mid = *self;
                assert(palette_closed(*old(self), mid));
                self.execute_palette_action(action)
            },
            None => Effect::Nothing,
        }
    }

    /// Handle a key of the command palette.
    pub fn handle_palette_key(&mut self, code: KeyCode, m: KeyModifiers) -> (e: Effect)
        requires
            old(self).wf(),
        ensures
            palette_step(*old(self), code, m, *final(self), e),
            final(self).wf(),
    {
        let idle = self.input.text.as_str().is_empty();
        if code == KeyCode::Esc {
            self.close_palette();
            return Effect::Nothing;
        }
        if code == KeyCode::Enter {
            return self.choose_entry();
        }
        if idle && (code == KeyCode::Up || code == KeyCode::Char('k')) {
            self.palette.index = step_up(self.palette.index);
            return Effect::Nothing;
        }
        if idle && (code == KeyCode::Down || code == KeyCode::Char('j')) {
            if self.palette.filtered.len() > 1 {
                self.palette.index = step_down(self.palette.index, self.palette.filtered.len());
            }
            return Effect::Nothing;
        }
        self.narrow_palette(code, m);
        Effect::Nothing
    }
}

// ---------------------------------------------------------------------------
// What a submission makes of the status
// ---------------------------------------------------------------------------

/// The status of a task that the form has created.
pub fn status_of_new(kind: SubmitKind) -> (r: TaskStatus)
    ensures
        r == (match kind {
            SubmitKind::Start => TaskStatus::Pending,
            SubmitKind::Draft => TaskStatus::Draft,
        }),
        kind == SubmitKind::Start <==> r == TaskStatus::Pending,
        kind == SubmitKind::Draft <==> r == TaskStatus::Draft,
{
    match kind {
        SubmitKind::Start => TaskStatus::Pending,
        SubmitKind::Draft => TaskStatus::Draft,
    }
}

/// The status that a task takes on when its form is submitted; `None` where it keeps its
/// own. A draft that is started becomes pending.
pub fn status_after_edit(status: TaskStatus, kind: SubmitKind) -> (r: Option<TaskStatus>)
    ensures
        r == (if status == TaskStatus::Draft && kind == SubmitKind::Start {
            Some(TaskStatus::Pending)
        } else {
            None
        }),
        r is Some ==> status == TaskStatus::Draft && kind == SubmitKind::Start,
        status == TaskStatus::Draft && kind == SubmitKind::Start ==> r == Some(TaskStatus::Pending),
{
    if status == TaskStatus::Draft && kind == SubmitKind::Start {
        Some(TaskStatus::Pending)
    } else {
        None
    }
}

// ---------------------------------------------------------------------------
// Laws
// ---------------------------------------------------------------------------

/// A form that holds too little for a task creates none, however it is left.
pub proof fn law_empty_forms_create_nothing(
    pre: App,
    code: KeyCode,
    m: KeyModifiers,
    post: App,
    e: Effect,
)
    requires
        new_task_step(pre, code, m, post, e),
        !is_submittable(field_kept(pre).task_form),
    ensures
        !(e is CreateTask),
{
}

/// Nothing is deleted unless the user agrees.
pub proof fn law_deletion_needs_consent(pre: App, code: KeyCode, post: App, e: Effect)
    requires
        confirm_step(pre, code, post, e),
        e != Effect::Nothing,
    ensures
        code == KeyCode::Char('y'),
        pre.confirm.entity_id@.len() > 0,
{
}

/// A submitted form creates a task in the chosen project with what the form holds, what was
/// typed last among it.
pub proof fn law_submitted_forms_create_tasks(pre: App, kind: SubmitKind, post: App, e: Effect)
    requires
        new_task_submitted(pre, kind, post, e),
        pre.nav.project_index < pre.projects@.len(),
        pre.task_form.field == 0,
    ensures
        pre.input.text@.len() > 0 ==> (e matches Effect::CreateTask { project_id, task, kind: k }
            && project_id == pre.projects@[pre.nav.project_index as int].id && k == kind
            && task.description == pre.input.text && task.mode == pre.task_form.mode
            && task.push_mode == pre.task_form.push_mode && task.review_loop
            == pre.task_form.review_loop),
        pre.input.text@.len() == 0 && pre.task_form.mode == TaskMode::Exploration
            ==> e is CreateTask,
        pre.input.text@.len() == 0 && pre.task_form.mode != TaskMode::Exploration ==> e
            == Effect::Nothing,
        pre.input.text@.len() == 0 && pre.task_form.mode != TaskMode::Exploration && kind
            == SubmitKind::Draft ==> post.nav.input_mode == InputMode::Normal,
{
}

/// A task that was created starts at once if it is autonomous or an exploration; a
/// supervised one gets its title, and a draft is only saved.
pub proof fn law_created_tasks_start(
    pre: App,
    task: String,
    project: String,
    kind: SubmitKind,
    post: App,
    e: Effect,
)
    requires
        new_task_saved(pre, task, project, kind, post, e),
    ensures
        kind == SubmitKind::Start && pre.task_form.mode == TaskMode::Autonomous ==> e
            == (Effect::StartTask { task_id: task, project_id: project }),
        kind == SubmitKind::Start && pre.task_form.mode == TaskMode::Exploration ==> e
            == (Effect::StartTask { task_id: task, project_id: project }),
        kind == SubmitKind::Start && pre.task_form.mode == TaskMode::Supervised ==> e
            == (Effect::GenerateTitle {
            task_id: task,
            description: pre.task_form.description,
        }),
        kind == SubmitKind::Draft ==> e == Effect::Refresh && post.toast is Some,
        post.nav.input_mode == InputMode::Normal,
        post.task_form.description@.len() == 0,
        post.input.text@.len() == 0,
{
}

/// An edited task is changed, by its id, and starts anew like a created one.
pub proof fn law_edited_tasks_are_changed(pre: App, kind: SubmitKind, mid: App, e: Effect)
    requires
        edit_submitted(pre, kind, mid, e),
        pre.task_form.field == 0,
        pre.input.text@.len() > 0,
    ensures
        pre.task_form.editing_task_id matches Some(id) ==> (e matches Effect::UpdateTask {
            task_id,
            task,
            kind: k,
        } && task_id == id && k == kind && task.description == pre.input.text && task.mode
            == pre.task_form.mode),
        pre.task_form.editing_task_id is None ==> e == Effect::Refresh,
{
}

/// What follows a change: an autonomous task or an exploration starts, any other gets its
/// title, and so does a draft.
pub proof fn law_changed_tasks_start(
    pre: App,
    task: String,
    kind: SubmitKind,
    post: App,
    e: Effect,
)
    requires
        edit_saved(pre, task, kind, post, e),
        pre.nav.project_index < pre.projects@.len(),
    ensures
        kind == SubmitKind::Start && (pre.task_form.mode == TaskMode::Autonomous
            || pre.task_form.mode == TaskMode::Exploration) ==> e == (Effect::StartTask {
            task_id: task,
            project_id: pre.projects@[pre.nav.project_index as int].id,
        }),
        kind == SubmitKind::Draft || pre.task_form.mode == TaskMode::Supervised ==> e
            == (Effect::GenerateTitle { task_id: task, description: pre.task_form.description }),
        post.nav.input_mode == InputMode::Normal && post.toast is Some,
        post.task_form.editing_task_id is None,
{
}

/// The filter of the list: enter keeps it, escape clears it, and what is typed narrows the
/// list at once and selects its first task.
pub proof fn law_the_filter_narrows_at_once(
    pre: App,
    code: KeyCode,
    m: KeyModifiers,
    post: App,
    e: Effect,
)
    requires
        filter_step(pre, code, m, post, e),
    ensures
        code == KeyCode::Enter ==> post.task_filter == pre.task_filter && post.visible
            == pre.visible && post.nav.input_mode == InputMode::Normal && post.nav.task_index == 0,
        code == KeyCode::Esc ==> post.task_filter.text@.len() == 0 && post.nav.input_mode
            == InputMode::Normal && e == Effect::LoadMyTasks && lists_visible_tasks(
            post.visible@,
            pre.tasks@,
            seq![],
        ),
        code is Char && m.is_empty() ==> e == Effect::LoadMyTasks && post.nav.task_index == 0
            && post.task_filter@.text() =~= pre.task_filter@.before + seq![code->Char_0]
            + pre.task_filter@.after && lists_visible_tasks(
            post.visible@,
            pre.tasks@,
            post.task_filter.text@,
        ),
{
}

/// In the list of subtasks enter adds what was typed to the selected task, `d` removes the
/// chosen one, and escape goes back.
pub proof fn law_the_subtask_panel(
    pre: App,
    code: KeyCode,
    m: KeyModifiers,
    post: App,
    e: Effect,
)
    requires
        subtasks_step(pre, code, m, post, e),
    ensures
        code == KeyCode::Enter && pre.input.text@.len() > 0 && pre.nav.task_index
            < pre.visible@.len() ==> (e matches Effect::AddSubtask { task_id, description, .. }
            && task_id == pre.tasks@[pre.visible@[pre.nav.task_index as int] as int].id
            && description == pre.input.text) && post.input.text@.len() == 0,
        code == KeyCode::Enter && pre.input.text@.len() == 0 ==> e == Effect::Nothing && post
            == pre,
        code == KeyCode::Char('d') && pre.input.text@.len() == 0 && pre.nav.subtask_index
            < pre.subtasks@.len() ==> (e matches Effect::DeleteSubtask { subtask_id, .. }
            && subtask_id == pre.subtasks@[pre.nav.subtask_index as int].id),
        code == KeyCode::Char('d') && pre.input.text@.len() > 0 ==> e == Effect::Nothing,
        code == KeyCode::Down && pre.input.text@.len() == 0 && pre.nav.subtask_index + 1
            < pre.subtasks@.len() ==> post.nav.subtask_index == pre.nav.subtask_index + 1,
        code == KeyCode::Up && pre.input.text@.len() == 0 && pre.nav.subtask_index > 0
            ==> post.nav.subtask_index + 1 == pre.nav.subtask_index,
        code == KeyCode::Esc ==> e == Effect::Refresh && post.nav.input_mode == InputMode::Normal,
{
    assert(pre.subtasks.len() == pre.subtasks@.len());
}

/// Only a `y` deletes, and it deletes what was asked for: the project, the task or the
/// session of that id.
pub proof fn law_consent_deletes_what_was_asked(pre: App, code: KeyCode, post: App, e: Effect)
    requires
        confirm_step(pre, code, post, e),
        pre.confirm.entity_id@.len() > 0,
    ensures
        code == KeyCode::Char('y') && pre.confirm.kind == DeleteTarget::Project ==> e
            == (Effect::DeleteProject { id: pre.confirm.entity_id }),
        code == KeyCode::Char('y') && pre.confirm.kind == DeleteTarget::Task ==> e
            == (Effect::DeleteTask { id: pre.confirm.entity_id }),
        code == KeyCode::Char('y') && pre.confirm.kind == DeleteTarget::Session ==> e
            == (Effect::CloseSession { id: pre.confirm.entity_id }),
        code != KeyCode::Char('y') ==> e == Effect::Nothing,
        code == KeyCode::Esc || code == KeyCode::Char('n') ==> post.nav.input_mode
            == InputMode::Normal && post.confirm.entity_id@.len() == 0,
{
}

/// What was deleted is named.
pub proof fn law_deletions_are_named(pre: App, post: App)
    requires
        deletion_shown(pre, post),
    ensures
        post.toast matches Some(t) && contains_text(t.message@, pre.confirm.target@) && t.style
            == ToastStyle::Success,
        pre.confirm.kind == DeleteTarget::Project ==> post.nav.project_index == 0,
        pre.confirm.kind != DeleteTarget::Project ==> post.nav.project_index
            == pre.nav.project_index,
        post.nav.input_mode == InputMode::Normal,
        post.confirm.entity_id@.len() == 0,
{
    let t = pre.confirm.target@;
    crate::text::lemma_found_beside("Project '"@, t);
    crate::text::lemma_found_beside("Project '"@ + t, "' deleted"@);
    crate::text::lemma_found_beside("Task '"@, t);
    crate::text::lemma_found_beside("Task '"@ + t, "' deleted"@);
    crate::text::lemma_found_beside("Session '"@, t);
    crate::text::lemma_found_beside("Session '"@ + t, "' closed permanently"@);
}

/// A project needs a name and a path; a tilde in front of the path stands for the home.
pub proof fn law_projects_need_name_and_path(f: ProjectForm, home: Option<Seq<char>>, e: Effect)
    requires
        project_submitted(f, home, e),
    ensures
        f.name@.len() == 0 || f.path@.len() == 0 ==> e == Effect::Nothing,
        f.name@.len() > 0 && f.path@.len() > 0 ==> (e matches Effect::CreateProject {
            name,
            path,
            git_linked,
        } && name == f.name && git_linked == f.git_linked && (f.path@[0] != '~' ==> path@ == f.path@)
            && (f.path@[0] == '~' ==> (home matches Some(h) ==> path@ == h + f.path@.skip(1)))),
{
    if f.path@.len() > 0 {
        assert(f.path@.skip(1) =~= f.path@.drop_first());
    }
}

/// What the commands of the palette do.
pub proof fn law_palette_commands(pre: App, action: PaletteAction, post: App, e: Effect)
    requires
        palette_acted(pre, action, post, e),
    ensures
        action == PaletteAction::Quit ==> post.nav.should_quit,
        action == PaletteAction::FocusProjects ==> post.nav.focus == Focus::Projects,
        action == PaletteAction::FocusTasks ==> post.nav.focus == Focus::Tasks,
        action == PaletteAction::AddProject ==> post.nav.input_mode == InputMode::NewProject,
        action == PaletteAction::NewTask && pre.nav.project_index < pre.projects@.len()
            ==> post.nav.input_mode == InputMode::NewTask,
        action == PaletteAction::RemoveProject && pre.nav.project_index < pre.projects@.len()
            ==> post.nav.input_mode == InputMode::ConfirmDelete && post.confirm.entity_id
            == pre.projects@[pre.nav.project_index as int].id && post.confirm.kind
            == DeleteTarget::Project,
        action == PaletteAction::FindSkills ==> e == Effect::LoadSkills && post.nav.input_mode
            == InputMode::SkillSearch,
        action == PaletteAction::UpdateSkills ==> e == (Effect::UpdateSkills { panel: false }),
        action == PaletteAction::Configure ==> e == Effect::LoadConfigStatus && post.nav.input_mode
            == InputMode::ConfigureWizard,
        action == PaletteAction::SprintBoard ==> (project_of(pre) matches Some(p) ==> (
        p.is_git_linked ==> e == Effect::LoadBoard && post.nav.input_mode == InputMode::BoardView)),
        action == PaletteAction::SprintBoard ==> (project_of(pre) matches Some(p) ==> (
        !p.is_git_linked ==> e == Effect::Nothing && post.toast is Some)),
{
}

/// Enter in the palette does what the chosen entry names.
pub proof fn law_the_palette_does_the_choice(p: Palette, i: int)
    requires
        p.index < p.filtered@.len(),
        p.filtered@[p.index as int] == i,
        0 <= i < p.items@.len(),
    ensures
        palette_choice(p) == Some(p.items@[i].action),
{
}

/// The palette is closed by escape, moved through while nothing is typed, and narrowed by
/// what is typed.
pub proof fn law_palette_keys(pre: App, code: KeyCode, m: KeyModifiers, post: App, e: Effect)
    requires
        palette_step(pre, code, m, post, e),
        pre.palette.index < pre.palette.filtered@.len(),
        pre.palette.filtered@[pre.palette.index as int] < pre.palette.items@.len(),
    ensures
        code == KeyCode::Esc ==> post.nav.input_mode == InputMode::Normal && post.input.text@.len()
            == 0 && e == Effect::Nothing,
        code == KeyCode::Enter && pre.palette.items@[
            pre.palette.filtered@[pre.palette.index as int] as int].action == PaletteAction::Quit
            ==> post.nav.should_quit,
        code == KeyCode::Enter && pre.palette.items@[
            pre.palette.filtered@[pre.palette.index as int] as int].action
            == PaletteAction::Configure ==> e == Effect::LoadConfigStatus,
        code == KeyCode::Down && pre.input.text@.len() == 0 && pre.palette.index + 1
            < pre.palette.filtered@.len() ==> post.palette.index == pre.palette.index + 1,
        code == KeyCode::Up && pre.input.text@.len() == 0 && pre.palette.index > 0
            ==> post.palette.index + 1 == pre.palette.index,
        code is Char && m.is_empty() && pre.input.text@.len() > 0 ==> lists_matches(
            post.palette.filtered@,
            pre.palette.items@,
            post.input.text@,
        ) && post.input@.text() =~= pre.input@.before + seq![code->Char_0] + pre.input@.after,
{
    assert(pre.palette.filtered.len() == pre.palette.filtered@.len());
}

/// What became of a new project is told; a created one closes its form.
pub proof fn law_new_projects_are_told(
    pre: App,
    name: Seq<char>,
    outcome: ProjectOutcome,
    post: App,
    e: Effect,
)
    requires
        project_outcome_shown(pre, name, outcome, post, e),
    ensures
        outcome is Created ==> post.nav.input_mode == InputMode::Normal && (
        e matches Effect::RefreshAndSay(t) && t.style == ToastStyle::Success && contains_text(
            t.message@,
            name,
        )) && post.project_form.name@.len() == 0 && post.input.text@.len() == 0,
        outcome matches ProjectOutcome::InvalidPath { path } ==> e == Effect::Nothing && (
        post.toast matches Some(t) && t.style == ToastStyle::Error && contains_text(
            t.message@,
            path@,
        )) && post.project_form == pre.project_form,
        outcome is UnreadablePath ==> e == Effect::Nothing && (post.toast matches Some(t) && t.style
            == ToastStyle::Error) && post.project_form == pre.project_form,
{
    crate::text::lemma_found_beside("Project '"@, name);
    crate::text::lemma_found_beside("Project '"@ + name, "' created"@);
    if let ProjectOutcome::InvalidPath { path } = outcome {
        crate::text::lemma_found_beside("Invalid path: "@, path@);
    }
}

/// The form for a project is left with escape, and submitted with enter.
pub proof fn law_form_events(
    pre: App,
    r: ProjectFormEvent,
    home: Option<Seq<char>>,
    post: App,
    e: Effect,
)
    requires
        form_event(pre, r, home, post, e),
    ensures
        r == ProjectFormEvent::Close ==> post.nav.input_mode == InputMode::Normal && e
            == Effect::Nothing,
        r == ProjectFormEvent::Nothing ==> post == pre && e == Effect::Nothing,
        r == ProjectFormEvent::Submit ==> post == pre && project_submitted(
            pre.project_form,
            home,
            e,
        ),
        r == ProjectFormEvent::Suggest ==> (completion_of(pre.input.text@, home) matches Some((d, p))
            ==> (e matches Effect::SuggestPaths { directory, partial } && directory@ == d
            && partial@ == p)),
{
}

} // verus!
