//! The form that creates and edits a task.
//!
//! Its fields are, in order: the prompt, the mode, the base, the branch, the push
//! mode, the review loop and the subtasks. One input line serves the text fields.

use vstd::prelude::*;
use vstd::string::*;

use crate::board_state::{next_place, previous_place, step_down, step_up};
use crate::keys::{KeyCode, KeyModifiers};
use crate::store::{PushMode, Task, TaskMode};
use crate::text::{is_blank, trim, trimmed, views};
use crate::text_input::{after_edit, at_end, edited, emptied, TextInput};
use crate::titles::{fallback_title, first_line, short_title};

verus! {

pub struct TaskForm {
    pub field: u8,
    pub description: String,
    pub mode: TaskMode,
    pub base: String,
    pub branch: String,
    pub push_mode: PushMode,
    pub review_loop: bool,
    pub subtasks: Vec<String>,
    pub subtask_index: usize,
    /// The subtask whose text is in the input line.
    pub editing_subtask: Option<usize>,
    /// The task that the form edits; `None` for a new task.
    pub editing_task_id: Option<String>,
}

impl TaskForm {
    /// The form is at one of its seven fields, and the subtasks that it points at
    /// exist.
    pub open spec fn wf(&self) -> bool {
        &&& self.field < 7
        &&& self.editing_subtask matches Some(i) ==> i < self.subtasks@.len()
        &&& if self.subtasks@.len() == 0 {
            self.subtask_index == 0
        } else {
            self.subtask_index < self.subtasks@.len()
        }
    }
}

/// The form as it opens for a new task; the task being edited is left as it is.
pub open spec fn is_reset(pre: TaskForm, post: TaskForm) -> bool {
    &&& post.field == 0
    &&& post.description@.len() == 0
    &&& post.mode == TaskMode::Autonomous
    &&& post.base@.len() == 0
    &&& post.branch@.len() == 0
    &&& post.push_mode == PushMode::Pr
    &&& !post.review_loop
    &&& post.subtasks@.len() == 0
    &&& post.subtask_index == 0
    &&& post.editing_subtask is None
    &&& post.editing_task_id == pre.editing_task_id
}

/// The form after the input line is kept in the field that it belongs to.
pub open spec fn with_input(f: TaskForm, text: String) -> TaskForm {
    if f.field == 0 {
        TaskForm { description: text, ..f }
    } else if f.field == 2 {
        TaskForm { base: text, ..f }
    } else if f.field == 3 {
        TaskForm { branch: text, ..f }
    } else {
        f
    }
}

/// The text that the input line starts with at the field of the form.
pub open spec fn field_start(f: TaskForm) -> Seq<char> {
    if f.field == 0 {
        f.description@
    } else if f.field == 2 {
        f.base@
    } else if f.field == 3 {
        f.branch@
    } else {
        seq![]
    }
}

/// The field after or before one, around the form.
pub open spec fn turned_field(field: u8, forward: bool) -> u8 {
    if forward {
        if field >= 6 {
            0
        } else {
            (field + 1) as u8
        }
    } else if field == 0 {
        6
    } else {
        (field - 1) as u8
    }
}

/// The mode to the right: autonomous, supervised, exploration and around.
pub open spec fn next_mode(m: TaskMode) -> TaskMode {
    match m {
        TaskMode::Autonomous => TaskMode::Supervised,
        TaskMode::Supervised => TaskMode::Exploration,
        TaskMode::Exploration => TaskMode::Autonomous,
    }
}

pub open spec fn previous_mode(m: TaskMode) -> TaskMode {
    match m {
        TaskMode::Autonomous => TaskMode::Exploration,
        TaskMode::Supervised => TaskMode::Autonomous,
        TaskMode::Exploration => TaskMode::Supervised,
    }
}

pub open spec fn other_push_mode(m: PushMode) -> PushMode {
    match m {
        PushMode::Pr => PushMode::Push,
        PushMode::Push => PushMode::Pr,
    }
}

/// The subtasks after the one that was edited takes the typed text, unless that is
/// blank.
pub open spec fn subtask_saved(subtasks: Seq<Seq<char>>, i: int, text: Seq<char>) -> Seq<
    Seq<char>,
> {
    if is_blank(text) {
        subtasks
    } else {
        subtasks.update(i, trimmed(text))
    }
}

/// The selection after the selected subtask of `n` was deleted.
pub open spec fn after_removal(i: usize, n: nat) -> usize {
    if n <= 1 {
        0
    } else if i >= n - 1 {
        (n - 2) as usize
    } else {
        i
    }
}

/// What a key does in the subtask field. `r` says whether the key was used.
pub open spec fn subtask_step(
    pre: TaskForm,
    line: TextInput,
    post: TaskForm,
    post_line: TextInput,
    code: KeyCode,
    m: KeyModifiers,
    r: bool,
) -> bool {
    let empty = line.text@.len() == 0;
    let idle = empty && pre.editing_subtask is None;
    if code == KeyCode::Esc && pre.editing_subtask is Some {
        r && post_line@ == emptied(line@) && post == (TaskForm {
            editing_subtask: None,
            ..pre
        })
    } else if code == KeyCode::Enter && pre.editing_subtask is Some {
        r && post_line@ == emptied(line@) && post == (TaskForm {
            editing_subtask: None,
            subtasks: post.subtasks,
            ..pre
        }) && views(post.subtasks@) == subtask_saved(
            views(pre.subtasks@),
            pre.editing_subtask->0 as int,
            line.text@,
        )
    } else if code == KeyCode::Enter && !empty {
        r && post_line@ == emptied(line@) && post == (TaskForm {
            subtasks: post.subtasks,
            ..pre
        }) && views(post.subtasks@) == if is_blank(line.text@) {
            views(pre.subtasks@)
        } else {
            views(pre.subtasks@).push(trimmed(line.text@))
        }
    } else if code == KeyCode::Enter && pre.subtasks@.len() > 0 {
        r && post == (TaskForm { editing_subtask: Some(pre.subtask_index), ..pre }) && at_end(
            post_line,
            pre.subtasks@[pre.subtask_index as int]@,
        )
    } else if code == KeyCode::Char('d') && idle {
        r && post_line == line && if pre.subtasks@.len() == 0 {
            post == pre
        } else {
            post == (TaskForm {
                subtasks: post.subtasks,
                subtask_index: after_removal(pre.subtask_index, pre.subtasks@.len()),
                ..pre
            }) && post.subtasks@ == pre.subtasks@.remove(pre.subtask_index as int)
        }
    } else if (code == KeyCode::Char('j') || code == KeyCode::Down) && idle {
        r && post_line == line && post == (TaskForm {
            subtask_index: next_place(pre.subtask_index, pre.subtasks@.len()),
            ..pre
        })
    } else if (code == KeyCode::Char('k') || code == KeyCode::Up) && idle {
        r && post_line == line && post == (TaskForm {
            subtask_index: previous_place(pre.subtask_index),
            ..pre
        })
    } else {
        post == pre && typed(line, post_line, code, m, r)
    }
}

/// The key edits the input line, if it is an editing key.
pub open spec fn typed(
    line: TextInput,
    post_line: TextInput,
    code: KeyCode,
    m: KeyModifiers,
    r: bool,
) -> bool {
    &&& r == edited(line@, code, m) is Some
    &&& post_line@ == after_edit(line@, code, m)
    &&& !r ==> post_line == line
}

/// What a key does in the form, before a key that the form does not use may submit or
/// close it. `r` says whether the key was used.
pub open spec fn form_step(
    pre: TaskForm,
    line: TextInput,
    post: TaskForm,
    post_line: TextInput,
    code: KeyCode,
    m: KeyModifiers,
    r: bool,
) -> bool {
    let sideways = (code == KeyCode::Left || code == KeyCode::Right) && m.is_empty();
    if code == KeyCode::Tab && pre.field == 6 && pre.subtasks@.len() > 0 {
        let next = if pre.subtask_index + 1 < pre.subtasks@.len() {
            (pre.subtask_index + 1) as usize
        } else {
            0
        };
        r && match pre.editing_subtask {
            Some(i) => post_line@ == emptied(line@) && post == (TaskForm {
                subtasks: post.subtasks,
                editing_subtask: None,
                subtask_index: next,
                ..pre
            }) && views(post.subtasks@) == subtask_saved(
                views(pre.subtasks@),
                i as int,
                line.text@,
            ),
            None => post_line == line && post == (TaskForm { subtask_index: next, ..pre }),
        }
    } else if code == KeyCode::Tab || code == KeyCode::BackTab {
        let kept = with_input(TaskForm { editing_subtask: None, ..pre }, line.text);
        r && post == (TaskForm { field: turned_field(pre.field, code == KeyCode::Tab), ..kept })
            && at_end(post_line, field_start(post))
    } else if sideways && pre.field == 1 {
        r && post_line == line && post == (TaskForm {
            mode: if code == KeyCode::Right {
                next_mode(pre.mode)
            } else {
                previous_mode(pre.mode)
            },
            ..pre
        })
    } else if sideways && pre.field == 4 {
        r && post_line == line && post == (TaskForm {
            push_mode: other_push_mode(pre.push_mode),
            ..pre
        })
    } else if sideways && pre.field == 5 {
        r && post_line == line && post == (TaskForm { review_loop: !pre.review_loop, ..pre })
    } else if pre.field == 6 {
        subtask_step(pre, line, post, post_line, code, m, r)
    } else if pre.field == 0 || pre.field == 2 || pre.field == 3 {
        post == pre && typed(line, post_line, code, m, r)
    } else {
        !r && post == pre && post_line == line
    }
}

impl TaskForm {
    /// Open the form for a new task.
    pub fn reset_task_form(&mut self)
        ensures
            is_reset(*old(self), *final(self)),
            final(self).wf(),
    {
        self.field = 0;
        self.description = String::new();
        self.mode = TaskMode::Autonomous;
        self.base = String::new();
        self.branch = String::new();
        self.push_mode = PushMode::Pr;
        self.review_loop = false;
        self.subtasks = Vec::new();
        self.subtask_index = 0;
        self.editing_subtask = None;
    }

    /// Keep the input line in the field that it belongs to.
    pub fn save_current_task_field(&mut self, text: &String)
        ensures
            *final(self) == with_input(*old(self), *text),
    {
        if self.field == 0 {
            self.description = text.clone();
        } else if self.field == 2 {
            self.base = text.clone();
        } else if self.field == 3 {
            self.branch = text.clone();
        }
    }

    /// The input line for the field of the form.
    pub fn load_current_task_field(&self) -> (r: TextInput)
        ensures
            at_end(r, field_start(*self)),
    {
        if self.field == 0 {
            TextInput::holding(self.description.clone())
        } else if self.field == 2 {
            TextInput::holding(self.base.clone())
        } else if self.field == 3 {
            TextInput::holding(self.branch.clone())
        } else {
            TextInput::new()
        }
    }

    fn save_subtask(&mut self, i: usize, text: &str)
        requires
            i < old(self).subtasks@.len(),
        ensures
            *final(self) == (TaskForm { subtasks: final(self).subtasks, ..*old(self) }),
            final(self).subtasks@.len() == old(self).subtasks@.len(),
            views(final(self).subtasks@) == subtask_saved(
                views(old(self).subtasks@),
                i as int,
                text@,
            ),
    {
        let t = trim(text);
        if !t.as_str().is_empty() {
            let ghost before = self.subtasks@;
            self.subtasks.set(i, t);
            assert(views(self.subtasks@) =~= views(before).update(i as int, t@));
        }
    }

    /// Keys of the subtask field: adding, editing, deleting and selecting subtasks.
    pub fn handle_subtask_input_key(
        &mut self,
        input: &mut TextInput,
        code: KeyCode,
        modifiers: KeyModifiers,
    ) -> (r: bool)
        requires
            old(self).wf(),
        ensures
            final(self).wf(),
            subtask_step(
                *old(self),
                *old(input),
                *final(self),
                *final(input),
                code,
                modifiers,
                r,
            ),
    {
        let empty = input.text.as_str().is_empty();
        match code {
            KeyCode::Esc => {
                if self.editing_subtask.is_some() {
                    self.editing_subtask = None;
                    input.clear_text();
                    return true;
                }
            },
            KeyCode::Enter => {
                if let Some(i) = self.editing_subtask {
                    self.save_subtask(i, input.text.as_str());
                    self.editing_subtask = None;
                    input.clear_text();
                    return true;
                }
                if !empty {
                    let t = trim(input.text.as_str());
                    input.clear_text();
                    if !t.as_str().is_empty() {
                        proof {
                            crate::text::lemma_views_push(self.subtasks@, t);
                        }
                        self.subtasks.push(t);
                    }
                    return true;
                }
                if self.subtasks.len() > 0 {
                    let i: usize = self.subtask_index;
                    self.editing_subtask = Some(i);
                    *input = TextInput::holding(self.subtasks[i].clone());
                    return true;
                }
            },
            KeyCode::Char(c) => {
                if empty && self.editing_subtask.is_none() {
                    if c == 'd' {
                        if self.subtasks.len() > 0 {
                            let n: usize = self.subtasks.len();
                            self.subtasks.remove(self.subtask_index);
                            if n == 1 {
                                self.subtask_index = 0;
                            } else if self.subtask_index >= n - 1 {
                                self.subtask_index = n - 2;
                            }
                        }
                        return true;
                    }
                    if c == 'j' {
                        self.subtask_index = step_down(self.subtask_index, self.subtasks.len());
                        return true;
                    }
                    if c == 'k' {
                        self.subtask_index = step_up(self.subtask_index);
                        return true;
                    }
                }
            },
            KeyCode::Down => {
                if empty && self.editing_subtask.is_none() {
                    self.subtask_index = step_down(self.subtask_index, self.subtasks.len());
                    return true;
                }
            },
            KeyCode::Up => {
                if empty && self.editing_subtask.is_none() {
                    self.subtask_index = step_up(self.subtask_index);
                    return true;
                }
            },
            _ => {},
        }
        input.apply_text_edit(code, modifiers)
    }

    /// Keys that the form for a new task and the form for an existing task share.
    /// The result says whether the key was used.
    #[verifier::rlimit(40)]
    pub fn handle_task_form_shared_key(
        &mut self,
        input: &mut TextInput,
        code: KeyCode,
        modifiers: KeyModifiers,
    ) -> (r: bool)
        requires
            old(self).wf(),
        ensures
            final(self).wf(),
            form_step(*old(self), *old(input), *final(self), *final(input), code, modifiers, r),
    {
        let sideways = (code == KeyCode::Left || code == KeyCode::Right) && modifiers.is_empty();
        if code == KeyCode::Tab && self.field == 6 && self.subtasks.len() > 0 {
            if let Some(i) = self.editing_subtask {
                self.save_subtask(i, input.text.as_str());
                self.editing_subtask = None;
                input.clear_text();
            }
            self.subtask_index = if self.subtask_index < self.subtasks.len() - 1 {
                self.subtask_index + 1
            } else {
                0
            };
            true
        } else if code == KeyCode::Tab || code == KeyCode::BackTab {
            self.editing_subtask = None;
            self.save_current_task_field(&input.text);
            self.field = if code == KeyCode::Tab {
                if self.field >= 6 {
                    0
                } else {
                    self.field + 1
                }
            } else if self.field == 0 {
                6
            } else {
                self.field - 1
            };
            *input = self.load_current_task_field();
            true
        } else if sideways && self.field == 1 {
            self.mode = if code == KeyCode::Right {
                match self.mode {
                    TaskMode::Autonomous => TaskMode::Supervised,
                    TaskMode::Supervised => TaskMode::Exploration,
                    TaskMode::Exploration => TaskMode::Autonomous,
                }
            } else {
                match self.mode {
                    TaskMode::Autonomous => TaskMode::Exploration,
                    TaskMode::Supervised => TaskMode::Autonomous,
                    TaskMode::Exploration => TaskMode::Supervised,
                }
            };
            true
        } else if sideways && self.field == 4 {
            self.push_mode = match self.push_mode {
                PushMode::Pr => PushMode::Push,
                PushMode::Push => PushMode::Pr,
            };
            true
        } else if sideways && self.field == 5 {
            self.review_loop = !self.review_loop;
            true
        } else if self.field == 6 {
            self.handle_subtask_input_key(input, code, modifiers)
        } else if self.field == 0 || self.field == 2 || self.field == 3 {
            input.apply_text_edit(code, modifiers)
        } else {
            false
        }
    }
}

// ---------------------------------------------------------------------------
// What a finished form stands for
// ---------------------------------------------------------------------------

/// A task as the form describes it.
pub struct TaskSubmission {
    pub title: String,
    pub description: String,
    pub mode: TaskMode,
    pub branch: Option<String>,
    pub base: Option<String>,
    pub push_mode: PushMode,
    pub review_loop: bool,
    /// Title and text of each subtask.
    pub subtasks: Vec<(String, String)>,
}

/// The form holds enough for a task: a prompt, unless the task is to explore.
pub open spec fn is_submittable(f: TaskForm) -> bool {
    f.description@.len() > 0 || f.mode == TaskMode::Exploration
}

pub open spec fn submission_title(f: TaskForm) -> Seq<char> {
    if f.mode == TaskMode::Exploration && f.description@.len() == 0 {
        "Exploration session"@
    } else {
        short_title(first_line(f.description@))
    }
}

/// A text that is not empty.
pub open spec fn unless_empty(s: String) -> Option<String> {
    if s@.len() == 0 {
        None
    } else {
        Some(s)
    }
}

pub open spec fn describes(t: TaskSubmission, f: TaskForm) -> bool {
    &&& t.title@ == submission_title(f)
    &&& t.description == f.description
    &&& t.mode == f.mode
    &&& t.branch == unless_empty(f.branch)
    &&& t.base == unless_empty(f.base)
    &&& t.push_mode == f.push_mode
    &&& t.review_loop == f.review_loop
    &&& t.subtasks@.len() == f.subtasks@.len()
    &&& forall|i: int|
        0 <= i < f.subtasks@.len() ==> (#[trigger] t.subtasks@[i]).1 == f.subtasks@[i]
            && t.subtasks@[i].0@ == short_title(first_line(f.subtasks@[i]@))
}

fn keep_unless_empty(s: &String) -> (r: Option<String>)
    ensures
        r == unless_empty(*s),
{
    if s.as_str().is_empty() {
        None
    } else {
        Some(s.clone())
    }
}

impl TaskForm {
    /// The task that the form describes; none where it holds too little for one.
    pub fn submission(&self) -> (r: Option<TaskSubmission>)
        ensures
            r is Some <==> is_submittable(*self),
            r matches Some(t) ==> describes(t, *self),
    {
        let exploring = self.mode == TaskMode::Exploration;
        let empty = self.description.as_str().is_empty();
        if empty && !exploring {
            return None;
        }
        let title = if exploring && empty {
            "Exploration session".to_owned()
        } else {
            fallback_title(self.description.as_str())
        };
        let mut subtasks: Vec<(String, String)> = Vec::new();
        let mut i: usize = 0;
        while i < self.subtasks.len()
            invariant
                i <= self.subtasks@.len(),
                subtasks@.len() == i,
                forall|k: int|
                    0 <= k < i ==> (#[trigger] subtasks@[k]).1 == self.subtasks@[k]
                        && subtasks@[k].0@ == short_title(first_line(self.subtasks@[k]@)),
            decreases self.subtasks@.len() - i,
        {
            let text = self.subtasks[i].clone();
            subtasks.push((fallback_title(text.as_str()), text));
            i += 1;
        }
        Some(
            TaskSubmission {
                title,
                description: self.description.clone(),
                mode: self.mode,
                branch: keep_unless_empty(&self.branch),
                base: keep_unless_empty(&self.base),
                push_mode: self.push_mode,
                review_loop: self.review_loop,
                subtasks,
            },
        )
    }

    /// Open the form for an existing task.
    pub fn edit(&mut self, task: &Task) -> (line: TextInput)
        requires
            old(self).wf(),
        ensures
            final(self).wf(),
            at_end(line, task.description@),
            final(self).base@ == crate::settings::text_or_empty(task.base),
            final(self).branch@ == crate::settings::text_or_empty(task.branch),
            *final(self) == (TaskForm {
                editing_task_id: Some(task.id),
                description: task.description,
                mode: task.mode,
                base: final(self).base,
                branch: final(self).branch,
                push_mode: task.push_mode,
                review_loop: task.review_loop,
                field: 0,
                ..*old(self)
            }),
    {
        self.editing_task_id = Some(task.id.clone());
        self.description = task.description.clone();
        self.mode = task.mode;
        self.base = crate::settings::unwrap_text(&task.base);
        self.branch = crate::settings::unwrap_text(&task.branch);
        self.push_mode = task.push_mode;
        self.review_loop = task.review_loop;
        self.field = 0;
        TextInput::holding(task.description.clone())
    }
}

/// Seven steps forward lead around the form.
pub proof fn law_fields_cycle(field: u8)
    requires
        field < 7,
    ensures
        turned_field(turned_field(field, true), false) == field,
        turned_field(turned_field(field, false), true) == field,
        turned_field(
            turned_field(
                turned_field(
                    turned_field(
                        turned_field(turned_field(turned_field(field, true), true), true),
                        true,
                    ),
                    true,
                ),
                true,
            ),
            true,
        ) == field,
{
}

/// Left undoes right on the mode, and three steps to the right lead around.
pub proof fn law_modes_cycle(m: TaskMode)
    ensures
        previous_mode(next_mode(m)) == m,
        next_mode(previous_mode(m)) == m,
        next_mode(next_mode(next_mode(m))) == m,
{
}

/// What a form submits is what it holds: empty names of branches are left out, and every
/// subtask goes with it in its order.
pub proof fn law_forms_submit_what_they_hold(t: TaskSubmission, f: TaskForm, i: int)
    requires
        describes(t, f),
    ensures
        t.description == f.description,
        t.mode == f.mode,
        t.push_mode == f.push_mode,
        t.review_loop == f.review_loop,
        f.branch@.len() > 0 ==> t.branch == Some(f.branch),
        f.branch@.len() == 0 ==> t.branch is None,
        f.base@.len() > 0 ==> t.base == Some(f.base),
        f.base@.len() == 0 ==> t.base is None,
        t.subtasks@.len() == f.subtasks@.len(),
        0 <= i < f.subtasks@.len() ==> t.subtasks@[i].1 == f.subtasks@[i],
        f.description@.len() == 0 && f.mode == TaskMode::Exploration ==> t.title@
            == "Exploration session"@,
        f.description@.len() > 0 ==> t.title@ == short_title(first_line(f.description@)),
{
}

/// A form with a description can be submitted, and an exploration without one; nothing else
/// can.
pub proof fn law_what_can_be_submitted(f: TaskForm)
    ensures
        f.description@.len() > 0 ==> is_submittable(f),
        f.mode == TaskMode::Exploration ==> is_submittable(f),
        f.description@.len() == 0 && f.mode != TaskMode::Exploration ==> !is_submittable(f),
{
}

/// Tab keeps what was typed in the field that it leaves, and shows what the next one holds.
pub proof fn law_tab_keeps_what_was_typed(
    pre: TaskForm,
    line: TextInput,
    post: TaskForm,
    post_line: TextInput,
    m: KeyModifiers,
    r: bool,
)
    requires
        form_step(pre, line, post, post_line, KeyCode::Tab, m, r),
        pre.field < 6,
    ensures
        post.field == pre.field + 1,
        pre.field == 0 ==> post.description == line.text && post.base == pre.base && post.branch
            == pre.branch,
        pre.field == 2 ==> post.base == line.text && post.description == pre.description
            && post.branch == pre.branch,
        pre.field == 3 ==> post.branch == line.text && post.description == pre.description
            && post.base == pre.base,
        pre.field == 1 || pre.field == 4 || pre.field == 5 ==> post.description == pre.description
            && post.base == pre.base && post.branch == pre.branch,
        pre.field == 1 ==> post_line.text@ == pre.base@,
        pre.field == 2 ==> post_line.text@ == pre.branch@,
        post.mode == pre.mode && post.push_mode == pre.push_mode && post.review_loop
            == pre.review_loop && post.subtasks == pre.subtasks,
{
}

/// Right and left turn the choice of the field: the mode, how the work is pushed, and
/// whether there is a review loop.
pub proof fn law_sideways_turns_the_choice(
    pre: TaskForm,
    line: TextInput,
    post: TaskForm,
    post_line: TextInput,
    right: bool,
    m: KeyModifiers,
    r: bool,
)
    requires
        m.is_empty(),
        form_step(
            pre,
            line,
            post,
            post_line,
            if right {
                KeyCode::Right
            } else {
                KeyCode::Left
            },
            m,
            r,
        ),
    ensures
        pre.field == 1 && right && pre.mode == TaskMode::Autonomous ==> post.mode
            == TaskMode::Supervised,
        pre.field == 1 && right && pre.mode == TaskMode::Supervised ==> post.mode
            == TaskMode::Exploration,
        pre.field == 1 && !right && pre.mode == TaskMode::Supervised ==> post.mode
            == TaskMode::Autonomous,
        pre.field == 4 ==> post.push_mode != pre.push_mode && post.mode == pre.mode,
        pre.field == 5 ==> post.review_loop == !pre.review_loop,
        post.description == pre.description && post.base == pre.base && post.branch == pre.branch,
{
}

/// In the list of subtasks enter adds what was typed, without the space around it, and opens
/// the chosen one where nothing was typed; `d` takes the chosen one away.
pub proof fn law_subtasks_are_listed(
    pre: TaskForm,
    line: TextInput,
    post: TaskForm,
    post_line: TextInput,
    code: KeyCode,
    m: KeyModifiers,
    r: bool,
)
    requires
        pre.wf(),
        pre.field == 6,
        pre.editing_subtask is None,
        form_step(pre, line, post, post_line, code, m, r),
    ensures
        code == KeyCode::Enter && !is_blank(line.text@) ==> views(post.subtasks@) =~= views(
            pre.subtasks@,
        ).push(trimmed(line.text@)) && post_line@.text().len() == 0,
        code == KeyCode::Enter && line.text@.len() == 0 && pre.subtasks@.len() > 0
            ==> post.editing_subtask == Some(pre.subtask_index) && post_line.text@
            == pre.subtasks@[pre.subtask_index as int]@,
        code == KeyCode::Char('d') && line.text@.len() == 0 && pre.subtasks@.len() > 0
            ==> post.subtasks@ =~= pre.subtasks@.remove(pre.subtask_index as int),
        (code == KeyCode::Char('j') || code == KeyCode::Down) && line.text@.len() == 0
            && pre.subtask_index + 1 < pre.subtasks@.len() ==> post.subtask_index
            == pre.subtask_index + 1,
        (code == KeyCode::Char('k') || code == KeyCode::Up) && line.text@.len() == 0
            && pre.subtask_index > 0 ==> post.subtask_index + 1 == pre.subtask_index,
        code is Char && m.is_empty() && line.text@.len() > 0 ==> post == pre,
{
    assert(pre.subtasks.len() == pre.subtasks@.len());
    if line.text@.len() == 0 {
        crate::text::law_blank_is_space_alone(line.text@);
    }
}

/// Enter stores an edited subtask in its place; escape leaves it as it was.
pub proof fn law_subtasks_are_edited_in_place(
    pre: TaskForm,
    line: TextInput,
    post: TaskForm,
    post_line: TextInput,
    code: KeyCode,
    m: KeyModifiers,
    r: bool,
    i: int,
    k: int,
)
    requires
        pre.wf(),
        pre.field == 6,
        pre.editing_subtask == Some(i as usize),
        0 <= i <= usize::MAX,
        form_step(pre, line, post, post_line, code, m, r),
        0 <= k < pre.subtasks@.len(),
        code == KeyCode::Enter || code == KeyCode::Esc,
    ensures
        post.editing_subtask is None,
        views(post.subtasks@).len() == pre.subtasks@.len(),
        code == KeyCode::Enter && k == i && !is_blank(line.text@) ==> views(post.subtasks@)[k]
            == trimmed(line.text@),
        code == KeyCode::Enter && (k != i || is_blank(line.text@)) ==> views(post.subtasks@)[k]
            == pre.subtasks@[k]@,
        code == KeyCode::Esc ==> post.subtasks == pre.subtasks,
{
}

/// A form that is reset holds nothing, and starts at its first field.
pub proof fn law_reset_forms_are_empty(pre: TaskForm, post: TaskForm)
    requires
        is_reset(pre, post),
    ensures
        post.field == 0 && post.description@.len() == 0 && post.base@.len() == 0
            && post.branch@.len() == 0 && post.subtasks@.len() == 0,
        post.mode == TaskMode::Autonomous && post.push_mode == PushMode::Pr && !post.review_loop,
        post.editing_subtask is None && post.subtask_index == 0,
        post.editing_task_id == pre.editing_task_id,
        post.wf(),
{
}

} // verus!
