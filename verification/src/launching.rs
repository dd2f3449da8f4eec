//! Opening the launch form for what is selected, filling it, and launching the thread
//! that it describes; going to threads and sessions that exist already.

use vstd::prelude::*;
use vstd::string::*;

use crate::app::{
    in_mode, live_session_of, my_task_item, place_of_thread, project_of, review_item, says,
    tab_place, task_of, thread_of, thread_place, thread_with_id, App, Nav, Tab,
};
use crate::composer::cursor_within;
use crate::drafts::{
    ad_hoc_draft, draft_for_board_issue, draft_for_my_task, draft_for_review, draft_for_task,
    form_field, is_ad_hoc_draft, is_board_draft, is_my_task_draft, is_review_draft, is_task_draft,
    launch_request, linked_with, loaded_text, persisted, queue_mode, requests, with_next_provider,
    with_next_workflow, LaunchForm, LinkedPr,
};
use crate::effects::{AppError, Effect};
use crate::keys::{KeyCode, KeyModifiers};
use crate::launch::{review_context, LaunchThreadDraft};
use crate::lists::first_where;
use crate::board_state::shown_in;
use crate::moves::on_tab;
use crate::store::{
    provider_name, provider_text, GitHubItem, GitHubPrCache, GitHubReview, GitHubReviewComment,
    ProviderKind, Session, Thread,
};
use crate::text::{blank, bytes_in, is_blank};
use crate::text_input::{after_edit, at_end, TextInput};
use crate::views::{
    Focus, InputMode, LaunchThreadField, PendingReviewLaunchMode, ReviewQueueTab, SessionTabView,
    ToastStyle,
};

verus! {

// ---------------------------------------------------------------------------
// Opening the form
// ---------------------------------------------------------------------------

/// The launch form is open at a field of a draft.
pub open spec fn opened_launch(pre: App, post: App, d: LaunchThreadDraft, field: usize) -> bool {
    &&& post.launch == (LaunchForm { draft: Some(d), field_index: field, ..pre.launch })
    &&& at_end(post.input, loaded_text(post.launch, pre.agent.id@))
    &&& post == (App {
        launch: post.launch,
        input: post.input,
        nav: Nav { input_mode: InputMode::LaunchThread, ..pre.nav },
        ..pre
    })
}

/// The form is open for the selected task.
pub open spec fn opened_task_launch(pre: App, suggested: Seq<char>, post: App) -> bool {
    match task_of(pre) {
        None => says(pre, post, "Select a task first"@, ToastStyle::Info),
        Some(task) => post.launch.draft matches Some(d) && is_task_draft(
            d,
            task,
            pre.config.runtime.default_profile,
            suggested,
        ) && opened_launch(pre, post, d, 0),
    }
}

/// The form is open for a thread of its own, at its title.
pub open spec fn opened_ad_hoc_launch(pre: App, post: App) -> bool {
    match project_of(pre) {
        None => says(pre, post, "Select a project first"@, ToastStyle::Info),
        Some(_) => post.launch.draft matches Some(d) && is_ad_hoc_draft(
            d,
            pre.config.runtime.default_profile,
        ) && opened_launch(pre, post, d, 3),
    }
}

/// The form is open for the selected item of the board.
pub open spec fn opened_board_launch(
    pre: App,
    linked: Option<LinkedPr>,
    suggested: Seq<char>,
    post: App,
) -> bool {
    if pre.board.issue_index >= shown_in(pre.board, pre.board.column_index) {
        says(pre, post, "Select a sprint issue first"@, ToastStyle::Info)
    } else {
        let issue =
            pre.board.issues@[pre.board.column_index as int]@[pre.board.issue_index as int];
        post.launch.draft matches Some(d) && is_board_draft(
            d,
            issue,
            linked,
            pre.config.runtime.default_profile,
            suggested,
        ) && opened_launch(pre, post, d, 0)
    }
}

/// The tab of the session of the selected thread.
pub open spec fn selected_session_tab(a: App) -> Option<int> {
    match thread_of(a) {
        Some(thread) => match thread.session_id {
            Some(id) => tab_place(a.tabs@, id@),
            None => None,
        },
        None => None,
    }
}

/// The form is open for the selected item of the user, or its session is shown.
pub open spec fn opened_my_task_launch(
    pre: App,
    found: Option<GitHubItem>,
    cache: Option<GitHubPrCache>,
    reviews: Seq<GitHubReview>,
    inline: Seq<GitHubReviewComment>,
    suggested: Seq<char>,
    post: App,
) -> bool {
    match my_task_item(pre) {
        None => says(pre, post, "Select an assigned GitHub item first"@, ToastStyle::Info),
        Some(item) => match selected_session_tab(pre) {
            Some(i) => says(
                on_tab(pre, i as usize),
                post,
                "Switched to live session"@,
                ToastStyle::Info,
            ),
            None => post.launch.draft matches Some(d) && is_my_task_draft(
                d,
                item,
                linked_with(item, found, cache),
                reviews,
                inline,
                pre.config.runtime.default_profile,
                suggested,
            ) && opened_launch(pre, post, d, 0),
        },
    }
}

/// The form is open for the selected pull request.
pub open spec fn opened_review_launch(pre: App, suggested: Seq<char>, post: App) -> bool {
    match review_item(pre) {
        None => says(pre, post, "Select a pull request first"@, ToastStyle::Info),
        Some(item) => post.launch.draft matches Some(d) && is_review_draft(
            d,
            item,
            pre.nav.review_queue_tab,
            review_context(
                queue_mode(pre.nav.review_queue_tab),
                pre.reviews.reviews@,
                pre.reviews.comments@,
                pre.reviews.review_comments@,
            ),
            pre.config.runtime.default_profile,
            suggested,
        ) && opened_launch(pre, post, d, 0),
    }
}

impl App {
    fn open_launch_form(&mut self, draft: LaunchThreadDraft, field: usize)
        ensures
            opened_launch(*old(self), *final(self), draft, field),
            old(self).wf() ==> final(self).wf(),
    {
        self.launch.draft = Some(draft);
        self.launch.field_index = field;
        self.input = self.launch.load_launch_thread_input(&self.agent);
        self.nav.input_mode = InputMode::LaunchThread;
    }

    /// Open the form for the selected task, with the workflow that is suggested.
    pub fn open_task_launch_modal(&mut self, suggested: String)
        requires
            old(self).wf(),
        ensures
            opened_task_launch(*old(self), suggested@, *final(self)),
            final(self).wf(),
    {
        let draft = match self.selected_task() {
            Some(task) => draft_for_task(task, &self.config.runtime.default_profile, suggested),
            None => {
                self.show_toast("Select a task first".to_owned(), ToastStyle::Info);
                return;
            },
        };
        self.open_launch_form(draft, 0);
    }

    /// Open the form for a thread of its own.
    pub fn open_adhoc_launch_modal(&mut self)
        ensures
            opened_ad_hoc_launch(*old(self), *final(self)),
            old(self).wf() ==> final(self).wf(),
    {
        if self.selected_project().is_none() {
            self.show_toast("Select a project first".to_owned(), ToastStyle::Info);
            return;
        }
        let draft = ad_hoc_draft(&self.config.runtime.default_profile);
        self.open_launch_form(draft, 3);
    }

    /// Open the form for the selected item of the board; `linked` is the pull request
    /// that the database has for it.
    pub fn open_board_issue_launch_modal(&mut self, linked: &Option<LinkedPr>, suggested: String)
        ensures
            opened_board_launch(*old(self), *linked, suggested@, *final(self)),
            old(self).wf() ==> final(self).wf(),
    {
        let draft = match self.board.selected_board_issue() {
            Some(issue) => draft_for_board_issue(
                issue,
                linked,
                &self.config.runtime.default_profile,
                suggested,
            ),
            None => {
                self.show_toast("Select a sprint issue first".to_owned(), ToastStyle::Info);
                return;
            },
        };
        self.open_launch_form(draft, 0);
    }

    /// Show the tab of a session.
    pub fn goto_session_tab(&mut self, id: &str) -> (r: bool)
        ensures
            r == tab_place(old(self).tabs@, id@) is Some,
            *final(self) == match tab_place(old(self).tabs@, id@) {
                Some(i) => on_tab(*old(self), i as usize),
                None => *old(self),
            },
            old(self).wf() ==> final(self).wf(),
    {
        match self.find_session_tab(id) {
            Some(i) => {
                self.nav.active_tab = i;
                true
            },
            None => false,
        }
    }

    fn selected_session_place(&self) -> (r: Option<usize>)
        requires
            self.wf(),
        ensures
            match r {
                Some(i) => selected_session_tab(*self) == Some(i as int),
                None => selected_session_tab(*self) is None,
            },
    {
        match self.selected_thread() {
            Some(thread) => match &thread.session_id {
                Some(id) => self.find_session_tab(id.as_str()),
                None => None,
            },
            None => None,
        }
    }

    fn my_task_draft(
        &self,
        found: &Option<GitHubItem>,
        cache: &Option<GitHubPrCache>,
        reviews: &Vec<GitHubReview>,
        inline: &Vec<GitHubReviewComment>,
        suggested: String,
    ) -> (r: Option<LaunchThreadDraft>)
        requires
            self.wf(),
        ensures
            match my_task_item(*self) {
                Some(item) => r matches Some(d) && is_my_task_draft(
                    d,
                    item,
                    linked_with(item, *found, *cache),
                    reviews@,
                    inline@,
                    self.config.runtime.default_profile,
                    suggested@,
                ),
                None => r is None,
            },
    {
        match self.selected_my_task_item() {
            Some(item) => Some(
                draft_for_my_task(
                    item,
                    found,
                    cache,
                    reviews,
                    inline,
                    &self.config.runtime.default_profile,
                    suggested,
                ),
            ),
            None => None,
        }
    }

    fn show_live_tab(&mut self, i: usize)
        requires
            old(self).wf(),
        ensures
            says(
                on_tab(*old(self), i),
                *final(self),
                "Switched to live session"@,
                ToastStyle::Info,
            ),
            final(self).wf(),
    {
        self.nav.active_tab = i;
        self.show_toast("Switched to live session".to_owned(), ToastStyle::Info);
    }

    /// Show the session of the selected item of the user, or open the form for it.
    /// `found` is the pull request that the records have for the item, `cache` what is
    /// cached of the one that is worked on.
    pub fn open_my_task_launch_modal(
        &mut self,
        found: &Option<GitHubItem>,
        cache: &Option<GitHubPrCache>,
        reviews: &Vec<GitHubReview>,
        inline: &Vec<GitHubReviewComment>,
        suggested: String,
    )
        requires
            old(self).wf(),
        ensures
            opened_my_task_launch(
                *old(self),
                *found,
                *cache,
                reviews@,
                inline@,
                suggested@,
                *final(self),
            ),
            final(self).wf(),
    {
        match self.my_task_draft(found, cache, reviews, inline, suggested) {
            Some(draft) => match self.selected_session_place() {
                Some(i) => {
                    self.show_live_tab(i);
                },
                None => {
                    self.open_launch_form(draft, 0);
                },
            },
            None => {
                self.show_toast(
                    "Select an assigned GitHub item first".to_owned(),
                    ToastStyle::Info,
                );
            },
        }
    }

    /// Open the form for the selected pull request.
    pub fn open_review_launch_modal(&mut self, suggested: String)
        requires
            old(self).wf(),
        ensures
            opened_review_launch(*old(self), suggested@, *final(self)),
            final(self).wf(),
    {
        let draft = match self.selected_review_item() {
            Some(item) => draft_for_review(
                item,
                self.nav.review_queue_tab,
                &self.reviews.reviews,
                &self.reviews.comments,
                &self.reviews.review_comments,
                &self.config.runtime.default_profile,
                suggested,
            ),
            None => {
                self.show_toast("Select a pull request first".to_owned(), ToastStyle::Info);
                return;
            },
        };
        self.open_launch_form(draft, 0);
    }
}

// ---------------------------------------------------------------------------
// The form
// ---------------------------------------------------------------------------

/// The form is left.
pub open spec fn launch_closed(a: App) -> App {
    App {
        launch: LaunchForm { draft: None, ..a.launch },
        nav: Nav { input_mode: InputMode::Normal, ..a.nav },
        ..a
    }
}

/// The thread of the draft is launched. A draft needs a project and a title.
pub open spec fn launched(pre: App, post: App, r: Result<Effect, AppError>) -> bool {
    let kept = App { launch: persisted(pre.launch, pre.input.text), ..pre };
    match kept.launch.draft {
        None => says(kept, post, "No launch draft is active"@, ToastStyle::Error) && r == Ok::<
            Effect,
            AppError,
        >(Effect::Nothing),
        Some(d) => match project_of(pre) {
            None => says(kept, post, "Select a project first"@, ToastStyle::Info) && r == Ok::<
                Effect,
                AppError,
            >(Effect::Nothing),
            Some(project) => if is_blank(d.title@) {
                post == kept && r == Err::<Effect, AppError>(AppError::EmptyThreadTitle)
            } else {
                (r matches Ok(Effect::Launch(request)) && requests(request, d, project.id)) && says(
                    App {
                        busy: crate::app::Busy { session_op: true, ..pre.busy },
                        ..launch_closed(kept)
                    },
                    post,
                    "Launching thread..."@,
                    ToastStyle::Info,
                )
            },
        },
    }
}

/// Another field of the form is shown.
pub open spec fn form_turned(pre: App, post: App, forward: bool) -> bool {
    let kept = persisted(pre.launch, pre.input.text);
    &&& post.launch == (LaunchForm {
        field_index: if forward {
            ((kept.field_index + 1) % 5) as usize
        } else if kept.field_index == 0 {
            4
        } else {
            (kept.field_index - 1) as usize
        },
        ..kept
    })
    &&& at_end(post.input, loaded_text(post.launch, pre.agent.id@))
    &&& post == (App { launch: post.launch, input: post.input, ..pre })
}

/// Another provider or workflow is chosen in the form.
pub open spec fn form_chose(pre: App, post: App, form: LaunchForm) -> bool {
    &&& post.launch == form
    &&& at_end(post.input, loaded_text(form, pre.agent.id@))
    &&& post == (App { launch: form, input: post.input, ..pre })
}

pub open spec fn is_back(code: KeyCode) -> bool {
    code == KeyCode::Left || code == KeyCode::Char('h')
}

pub open spec fn is_forth(code: KeyCode) -> bool {
    code == KeyCode::Right || code == KeyCode::Char('l')
}

/// A key of the launch form.
pub open spec fn launch_step(
    pre: App,
    code: KeyCode,
    m: KeyModifiers,
    post: App,
    r: Result<Effect, AppError>,
) -> bool {
    let field = form_field(pre.launch.field_index);
    if pre.launch.draft is None {
        r == Ok::<Effect, AppError>(Effect::Nothing) && post == in_mode(pre, InputMode::Normal)
    } else if code == KeyCode::Enter {
        launched(pre, post, r)
    } else {
        r == Ok::<Effect, AppError>(Effect::Nothing) && if code == KeyCode::Esc {
            post == launch_closed(pre)
        } else if code == KeyCode::BackTab {
            form_turned(pre, post, false)
        } else if code == KeyCode::Tab {
            form_turned(pre, post, true)
        } else if (is_back(code) || is_forth(code)) && field == LaunchThreadField::Provider {
            form_chose(pre, post, with_next_provider(pre.launch))
        } else if (is_back(code) || is_forth(code)) && field == LaunchThreadField::Workflow {
            if pre.launch.workflow_names@.len() == 0 {
                post == pre
            } else {
                form_chose(pre, post, with_next_workflow(pre.launch, is_forth(code)))
            }
        } else if field.is_text() {
            post.input@ == after_edit(pre.input@, code, m) && post == (App {
                input: post.input,
                launch: persisted(pre.launch, post.input.text),
                ..pre
            })
        } else {
            post == pre
        }
    }
}

impl App {
    /// Launch the thread that the form describes.
    pub fn launch_thread_from_draft(&mut self) -> (r: Result<Effect, AppError>)
        ensures
            launched(*old(self), *final(self), r),
            old(self).wf() ==> final(self).wf(),
    {
        self.launch.persist_launch_thread_input(&self.input.text);
        if self.launch.draft.is_none() {
            self.show_toast("No launch draft is active".to_owned(), ToastStyle::Error);
            return Ok(Effect::Nothing);
        }
        let project_id = match self.selected_project() {
            Some(project) => project.id.clone(),
            None => {
                self.show_toast("Select a project first".to_owned(), ToastStyle::Info);
                return Ok(Effect::Nothing);
            },
        };
        match self.launch.draft.take() {
            Some(draft) => {
                if blank(draft.title.as_str()) {
                    self.launch.draft = Some(draft);
                    return Err(AppError::EmptyThreadTitle);
                }
                let request = launch_request(&draft, project_id);
                self.nav.input_mode = InputMode::Normal;
                self.busy.session_op = true;
                self.show_toast("Launching thread...".to_owned(), ToastStyle::Info);
                Ok(Effect::Launch(request))
            },
            None => Ok(Effect::Nothing),
        }
    }

    fn turn_launch_field(&mut self, forward: bool)
        ensures
            form_turned(*old(self), *final(self), forward),
    {
        self.launch.persist_launch_thread_input(&self.input.text);
        let i: usize = self.launch.field_index;
        self.launch.field_index = if forward {
            (i % 5 + 1) % 5
        } else if i == 0 {
            4
        } else {
            i - 1
        };
        assert((i % 5 + 1) % 5 == (i + 1) % 5);
        self.input = self.launch.load_launch_thread_input(&self.agent);
    }

    /// Handle a key of the launch form.
    pub fn handle_launch_thread_key(&mut self, code: KeyCode, modifiers: KeyModifiers) -> (r:
        Result<Effect, AppError>)
        ensures
            launch_step(*old(self), code, modifiers, *final(self), r),
            old(self).wf() ==> final(self).wf(),
    {
        if self.launch.draft.is_none() {
            self.enter_mode(InputMode::Normal);
            return Ok(Effect::Nothing);
        }
        let field = self.launch.selected_launch_thread_field();
        match code {
            KeyCode::Enter => {
                return self.launch_thread_from_draft();
            },
            KeyCode::Esc => {
                self.launch.draft = None;
                self.enter_mode(InputMode::Normal);
                return Ok(Effect::Nothing);
            },
            KeyCode::BackTab => {
                self.turn_launch_field(false);
                return Ok(Effect::Nothing);
            },
            KeyCode::Tab => {
                self.turn_launch_field(true);
                return Ok(Effect::Nothing);
            },
            _ => {},
        }
        let back = code == KeyCode::Left || code == KeyCode::Char('h');
        let forth = code == KeyCode::Right || code == KeyCode::Char('l');
        if (back || forth) && field == LaunchThreadField::Provider {
            self.launch.cycle_launch_thread_provider();
            self.input = self.launch.load_launch_thread_input(&self.agent);
        } else if (back || forth) && field == LaunchThreadField::Workflow {
            if self.launch.workflow_names.len() > 0 {
                self.launch.cycle_launch_thread_workflow(forth);
                self.input = self.launch.load_launch_thread_input(&self.agent);
            }
        } else if field.is_text() {
            self.input.apply_text_edit(code, modifiers);
            self.launch.persist_launch_thread_input(&self.input.text);
        }
        Ok(Effect::Nothing)
    }
}

// ---------------------------------------------------------------------------
// Threads that exist
// ---------------------------------------------------------------------------

/// The session of a thread: the one in the list, else the one that the database has.
pub open spec fn session_of_thread(a: App, id: Seq<char>, stored: Option<String>) -> Option<
    Seq<char>,
> {
    match first_where(a.threads@, thread_with_id(id)) {
        Some(thread) => match thread.session_id {
            Some(session) => Some(session@),
            None => crate::settings::text_option(stored),
        },
        None => crate::settings::text_option(stored),
    }
}

/// The tab of a thread's session is shown, where there is one.
pub open spec fn at_thread(a: App, id: Seq<char>, stored: Option<String>) -> App {
    match session_of_thread(a, id, stored) {
        Some(session) => match tab_place(a.tabs@, session) {
            Some(i) => on_tab(a, i as usize),
            None => a,
        },
        None => a,
    }
}

/// A tab that shows the conversation.
pub open spec fn with_view(tab: Tab, view: SessionTabView) -> Tab {
    match tab {
        Tab::Session { session_id, label, view_mode, panes } => Tab::Session {
            session_id,
            label,
            view_mode: view,
            panes,
        },
        Tab::Dashboard => Tab::Dashboard,
    }
}

/// The tab at a place shows the conversation.
pub open spec fn shows_conversation(pre: App, post: App, i: int) -> bool {
    post.tabs@ == pre.tabs@.update(i, with_view(pre.tabs@[i], SessionTabView::Conversation))
        && post == (App { tabs: post.tabs, ..pre })
}

/// The live session of a thread is shown as a conversation.
pub open spec fn opened_live_session(
    pre: App,
    thread: Thread,
    stored: Option<String>,
    post: App,
    e: Effect,
) -> bool {
    let mid = at_thread(pre, thread.id@, stored);
    match live_session_of(pre, thread) {
        Some(session) => match tab_place(pre.tabs@, session.id@) {
            Some(i) => e == Effect::Nothing && exists|shown: App|
                #[trigger] shows_conversation(on_tab(mid, i as usize), shown, i) && says(
                    shown,
                    post,
                    "Opened live conversation session"@,
                    ToastStyle::Success,
                ),
            None => e == Effect::RestoreSession(session) && says(
                mid,
                post,
                "Opened live conversation session"@,
                ToastStyle::Success,
            ),
        },
        None => e == Effect::Nothing && says(
            mid,
            post,
            "Thread is not live — press l to continue it first"@,
            ToastStyle::Info,
        ),
    }
}

/// A thread is continued: shown where it is live, else launched again.
pub open spec fn continued_thread(
    pre: App,
    thread: Thread,
    stored: Option<String>,
    post: App,
    e: Effect,
) -> bool {
    let mid = at_thread(pre, thread.id@, stored);
    if live_session_of(pre, thread) is Some {
        e == Effect::Nothing && says(
            mid,
            post,
            "Thread is live via "@ + provider_text(thread.provider_kind, pre.agent.id@)
                + " — just start typing here, or press o for the terminal"@,
            ToastStyle::Success,
        )
    } else if pre.busy.session_op {
        e == Effect::Nothing && says(
            mid,
            post,
            "Session operation in progress..."@,
            ToastStyle::Info,
        )
    } else {
        e == (Effect::RelaunchThread { thread_id: thread.id }) && says(
            App { busy: crate::app::Busy { session_op: true, ..pre.busy }, ..mid },
            post,
            "Continuing thread..."@,
            ToastStyle::Info,
        )
    }
}

/// The editor is open for the thread at a place of the list.
pub open spec fn compose_opened(a: App, place: int, id: Seq<char>, post: App) -> bool {
    &&& post.compose.thread_id matches Some(t) && t@ == id
    &&& post == (App {
        nav: Nav {
            thread_index: place as usize,
            focus: Focus::Tasks,
            input_mode: InputMode::ThreadCompose,
            ..a.nav
        },
        compose: crate::compose::Compose { thread_id: post.compose.thread_id, ..a.compose },
        input: TextInput {
            text: a.compose.draft.text,
            cursor: cursor_within(a.compose.draft.cursor, a.compose.draft.text@),
        },
        ..a
    })
}

/// The tab of the session that a listed thread names is shown.
pub open spec fn at_listed(a: App, place: int) -> App {
    match a.threads@[place].session_id {
        Some(id) => match tab_place(a.tabs@, id@) {
            Some(i) => on_tab(a, i as usize),
            None => a,
        },
        None => a,
    }
}

/// The editor is opened for a thread of the list.
pub open spec fn started_compose(pre: App, id: Seq<char>, go: bool, post: App) -> bool {
    match thread_place(pre.threads@, id) {
        None => says(pre, post, "Select a thread first"@, ToastStyle::Info),
        Some(place) => compose_opened(
            if go {
                at_listed(pre, place)
            } else {
                pre
            },
            place,
            id,
            post,
        ),
    }
}

/// The editor is opened for the selected thread.
pub open spec fn started_selected_compose(pre: App, post: App) -> bool {
    match thread_of(pre) {
        None => says(pre, post, "Select a thread first"@, ToastStyle::Info),
        Some(thread) => started_compose(pre, thread.id@, true, post),
    }
}

impl App {
    /// Show the tab of a thread's session. `stored` is the session that the database
    /// has for the thread.
    pub fn focus_thread_workspace(&mut self, thread_id: &str, stored: &Option<String>)
        ensures
            *final(self) == at_thread(*old(self), thread_id@, *stored),
            old(self).wf() ==> final(self).wf(),
    {
        let listed = match place_of_thread(&self.threads, thread_id) {
            Some(i) => crate::settings::clone_text(&self.threads[i].session_id),
            None => None,
        };
        let session = match listed {
            Some(id) => Some(id),
            None => crate::settings::clone_text(stored),
        };
        if let Some(id) = session {
            self.goto_session_tab(id.as_str());
        }
    }

    /// Show the conversation in the tab at a place.
    pub fn show_conversation(&mut self, i: usize)
        requires
            i < old(self).tabs@.len(),
        ensures
            shows_conversation(*old(self), *final(self), i as int),
            old(self).wf() ==> final(self).wf(),
    {
        match &mut self.tabs[i] {
            Tab::Session { view_mode, .. } => {
                *view_mode = SessionTabView::Conversation;
            },
            Tab::Dashboard => {},
        }
    }

    /// Show the live session of a thread.
    pub fn open_thread_live_session(&mut self, thread: &Thread, stored: &Option<String>) -> (e:
        Effect)
        ensures
            opened_live_session(*old(self), *thread, *stored, *final(self), e),
            old(self).wf() ==> final(self).wf(),
    {
        self.focus_thread_workspace(thread.id.as_str(), stored);
        let session = match self.live_session_for_thread(thread) {
            Some(session) => session,
            None => {
                self.show_toast(
                    "Thread is not live — press l to continue it first".to_owned(),
                    ToastStyle::Info,
                );
                return Effect::Nothing;
            },
        };
        match self.find_session_tab(session.id.as_str()) {
            Some(i) => {
                self.nav.active_tab = i;
                let ghost before = *self;
                self.show_conversation(i);
                let ghost shown = *self;
                self.show_toast("Opened live conversation session".to_owned(), ToastStyle::Success);
                proof {
                    assert(shows_conversation(before, shown, i as int));
                }
                Effect::Nothing
            },
            None => {
                self.show_toast("Opened live conversation session".to_owned(), ToastStyle::Success);
                Effect::RestoreSession(session)
            },
        }
    }

    /// Continue a thread.
    pub fn continue_thread(&mut self, thread: Thread, stored: &Option<String>) -> (e: Effect)
        ensures
            continued_thread(*old(self), thread, *stored, *final(self), e),
            old(self).wf() ==> final(self).wf(),
    {
        self.focus_thread_workspace(thread.id.as_str(), stored);
        if self.live_session_for_thread(&thread).is_some() {
            let mut message = "Thread is live via ".to_owned();
            message.append(provider_name(thread.provider_kind, self.agent.id.as_str()).as_str());
            message.append(" — just start typing here, or press o for the terminal");
            self.show_toast(message, ToastStyle::Success);
            return Effect::Nothing;
        }
        if self.busy.session_op {
            self.show_toast("Session operation in progress...".to_owned(), ToastStyle::Info);
            return Effect::Nothing;
        }
        self.busy.session_op = true;
        self.show_toast("Continuing thread...".to_owned(), ToastStyle::Info);
        Effect::RelaunchThread { thread_id: thread.id }
    }

    /// Open the editor for a thread of the list; `go` shows the thread's session
    /// first.
    pub fn start_thread_compose_for(&mut self, thread_id: &str, go: bool)
        ensures
            started_compose(*old(self), thread_id@, go, *final(self)),
            old(self).wf() ==> final(self).wf(),
    {
        match place_of_thread(&self.threads, thread_id) {
            Some(place) => {
                if go {
                    self.go_to_listed(place);
                }
                self.open_editor(place, thread_id);
            },
            None => {
                self.show_toast("Select a thread first".to_owned(), ToastStyle::Info);
            },
        }
    }

    fn go_to_listed(&mut self, place: usize)
        requires
            place < old(self).threads@.len(),
        ensures
            *final(self) == at_listed(*old(self), place as int),
            old(self).wf() ==> final(self).wf(),
    {
        let session = crate::settings::clone_text(&self.threads[place].session_id);
        if let Some(id) = session {
            self.goto_session_tab(id.as_str());
        }
    }

    fn open_editor(&mut self, place: usize, thread_id: &str)
        ensures
            compose_opened(*old(self), place as int, thread_id@, *final(self)),
            old(self).wf() ==> final(self).wf(),
    {
        self.nav.thread_index = place;
        self.nav.focus = Focus::Tasks;
        self.compose.thread_id = Some(thread_id.to_owned());
        let end: usize = bytes_in(self.compose.draft.text.as_str());
        let cursor: usize = if self.compose.draft.cursor > end {
            end
        } else {
            self.compose.draft.cursor
        };
        self.input = TextInput { text: self.compose.draft.text.clone(), cursor };
        self.nav.input_mode = InputMode::ThreadCompose;
    }

    /// Open the editor for the selected thread.
    pub fn start_thread_compose(&mut self)
        requires
            old(self).wf(),
        ensures
            started_selected_compose(*old(self), *final(self)),
            final(self).wf(),
    {
        let id = match self.selected_thread() {
            Some(thread) => thread.id.clone(),
            None => {
                self.show_toast("Select a thread first".to_owned(), ToastStyle::Info);
                return;
            },
        };
        self.start_thread_compose_for(id.as_str(), true);
    }
}

/// A draft is launched where it has a title: as what it requests, and the form is closed. A
/// blank title is refused, and the form stays.
pub proof fn law_drafts_need_a_title(pre: App, post: App, r: Result<Effect, AppError>)
    requires
        launched(pre, post, r),
        pre.launch.draft is Some,
        pre.launch.field_index == 3,
        pre.nav.project_index < pre.projects@.len(),
    ensures
        is_blank(pre.input.text@) ==> r == Err::<Effect, AppError>(AppError::EmptyThreadTitle)
            && post.launch.draft is Some && post.nav == pre.nav,
        !is_blank(pre.input.text@) ==> (r matches Ok(Effect::Launch(request)) && requests(
            request,
            LaunchThreadDraft { title: pre.input.text, ..pre.launch.draft->0 },
            pre.projects@[pre.nav.project_index as int].id,
        )) && post.launch.draft is None && post.nav.input_mode == InputMode::Normal
            && post.busy.session_op,
{
}

/// What the keys of the launch form do.
pub proof fn law_launch_form_keys(
    pre: App,
    code: KeyCode,
    m: KeyModifiers,
    post: App,
    r: Result<Effect, AppError>,
)
    requires
        launch_step(pre, code, m, post, r),
        pre.launch.draft is Some,
        pre.launch.field_index < 5,
    ensures
        code == KeyCode::Esc ==> post.launch.draft is None && post.nav.input_mode
            == InputMode::Normal && r == Ok::<Effect, AppError>(Effect::Nothing),
        code == KeyCode::Tab && pre.launch.field_index < 4 ==> post.launch.field_index
            == pre.launch.field_index + 1,
        code == KeyCode::Tab && pre.launch.field_index == 4 ==> post.launch.field_index == 0,
        code == KeyCode::BackTab && pre.launch.field_index > 0 ==> post.launch.field_index + 1
            == pre.launch.field_index,
        code == KeyCode::BackTab && pre.launch.field_index == 0 ==> post.launch.field_index == 4,
        (code == KeyCode::Tab || code == KeyCode::BackTab) && pre.launch.field_index == 3
            ==> post.launch.draft->0.title == pre.input.text && post.launch.draft->0.extra_context
            == pre.launch.draft->0.extra_context,
        (code == KeyCode::Tab || code == KeyCode::BackTab) && pre.launch.field_index == 4
            ==> post.launch.draft->0.extra_context == pre.input.text
            && post.launch.draft->0.title == pre.launch.draft->0.title,
        (code == KeyCode::Left || code == KeyCode::Right) && pre.launch.field_index == 0
            ==> post.launch.draft->0.provider_kind != pre.launch.draft->0.provider_kind,
        code is Char && m.is_empty() && pre.launch.field_index == 3 ==> post.launch.draft->0.title
            == post.input.text && post.input@.text() =~= pre.input@.before + seq![code->Char_0]
            + pre.input@.after,
{
}

/// A launch of one's own starts from an empty draft, at its title, in the workflow that
/// plans first.
pub proof fn law_ad_hoc_launches_start_empty(pre: App, post: App)
    requires
        opened_ad_hoc_launch(pre, post),
    ensures
        pre.nav.project_index < pre.projects@.len() ==> (post.launch.draft matches Some(d)
            && d.task_id is None && d.board_issue is None && d.review_pr is None
            && d.title@.len() == 0 && d.extra_context@.len() == 0 && d.workflow_name@
            == "plan_first_tdd"@ && d.provider_kind == ProviderKind::Claude)
            && post.launch.field_index == 3 && post.nav.input_mode == InputMode::LaunchThread
            && post.input.text@.len() == 0,
        pre.nav.project_index >= pre.projects@.len() ==> post.nav == pre.nav && post.launch
            == pre.launch && post.toast is Some,
{
}

/// A launch on the selected task carries the task, its title, and the profile of the
/// settings.
pub proof fn law_task_launches_carry_the_task(pre: App, suggested: Seq<char>, post: App)
    requires
        opened_task_launch(pre, suggested, post),
    ensures
        task_of(pre) matches Some(task) ==> (post.launch.draft matches Some(d) && d.task_id == Some(
            task.id,
        ) && d.title == task.title && d.workflow_name@ == suggested && (
        pre.config.runtime.default_profile matches Some(p) ==> d.runtime_profile@ == p@))
            && post.nav.input_mode == InputMode::LaunchThread && post.launch.field_index == 0,
        task_of(pre) is None ==> post.nav == pre.nav && post.launch == pre.launch,
{
}

/// The session of a thread is the one that is listed, else the one that is stored; its tab
/// is shown where it has one.
pub proof fn law_threads_are_shown_in_their_tab(
    a: App,
    id: Seq<char>,
    stored: Option<String>,
    k: int,
)
    requires
        0 <= k < a.threads@.len(),
        a.threads@[k].id@ == id,
        forall|j: int| 0 <= j < k ==> (#[trigger] a.threads@[j]).id@ != id,
    ensures
        a.threads@[k].session_id matches Some(s) ==> session_of_thread(a, id, stored) == Some(s@),
        a.threads@[k].session_id is None ==> (stored matches Some(s) ==> session_of_thread(
            a,
            id,
            stored,
        ) == Some(s@)),
        a.threads@[k].session_id matches Some(s) ==> (tab_place(a.tabs@, s@) matches Some(i)
            ==> at_thread(a, id, stored).nav.active_tab == i as usize),
        a.threads@[k].session_id matches Some(s) ==> (tab_place(a.tabs@, s@) is None ==> at_thread(
            a,
            id,
            stored,
        ) == a),
{
    let p = thread_with_id(id);
    assert forall|j: int| 0 <= j < k implies !p(#[trigger] a.threads@[j]) by {}
    assert(p(a.threads@[k]));
    crate::lists::lemma_first_found(a.threads@, p, k);
}

/// A thread that is live is not started again; one that is not is, unless a session is being
/// prepared.
pub proof fn law_silent_threads_are_continued(
    pre: App,
    thread: Thread,
    stored: Option<String>,
    post: App,
    e: Effect,
)
    requires
        continued_thread(pre, thread, stored, post, e),
    ensures
        live_session_of(pre, thread) is Some ==> e == Effect::Nothing && post.busy == pre.busy,
        live_session_of(pre, thread) is None && pre.busy.session_op ==> e == Effect::Nothing,
        live_session_of(pre, thread) is None && !pre.busy.session_op ==> e
            == (Effect::RelaunchThread { thread_id: thread.id }) && post.busy.session_op,
        post.toast is Some,
{
}

/// Opening a live thread shows its conversation in its tab, or brings its session back.
pub proof fn law_live_threads_are_opened(
    pre: App,
    thread: Thread,
    stored: Option<String>,
    post: App,
    e: Effect,
)
    requires
        opened_live_session(pre, thread, stored, post, e),
    ensures
        live_session_of(pre, thread) matches Some(s) ==> (tab_place(pre.tabs@, s.id@) is None ==> e
            == Effect::RestoreSession(s)),
        live_session_of(pre, thread) matches Some(s) ==> (tab_place(pre.tabs@, s.id@) matches Some(
            i,
        ) ==> e == Effect::Nothing && post.nav.active_tab == i as usize),
        live_session_of(pre, thread) is None ==> e == Effect::Nothing,
        post.toast is Some,
{
}

/// A launch on the selected issue of the board carries that issue or the pull request that
/// it is linked to; without a selection it says so.
pub proof fn law_board_launches_carry_the_issue(
    pre: App,
    linked: Option<LinkedPr>,
    suggested: Seq<char>,
    post: App,
)
    requires
        opened_board_launch(pre, linked, suggested, post),
    ensures
        pre.board.issue_index >= shown_in(pre.board, pre.board.column_index) ==> post.nav == pre.nav
            && post.launch == pre.launch && post.toast is Some,
        pre.board.issue_index < shown_in(pre.board, pre.board.column_index) ==> (
        post.launch.draft matches Some(d) && is_board_draft(
            d,
            pre.board.issues@[pre.board.column_index as int]@[pre.board.issue_index as int],
            linked,
            pre.config.runtime.default_profile,
            suggested,
        )) && post.nav.input_mode == InputMode::LaunchThread && post.launch.field_index == 0,
{
}

/// A launch on one's own item goes to its session where that has a tab, and carries the item
/// otherwise.
pub proof fn law_own_launches_carry_the_item(
    pre: App,
    found: Option<GitHubItem>,
    cache: Option<GitHubPrCache>,
    reviews: Seq<GitHubReview>,
    inline: Seq<GitHubReviewComment>,
    suggested: Seq<char>,
    post: App,
)
    requires
        opened_my_task_launch(pre, found, cache, reviews, inline, suggested, post),
    ensures
        my_task_item(pre) is None ==> post.nav == pre.nav && post.launch == pre.launch
            && post.toast is Some,
        my_task_item(pre) is Some ==> (thread_of(pre) matches Some(t) ==> (t.session_id matches Some(
            id,
        ) ==> (tab_place(pre.tabs@, id@) matches Some(i) ==> post.nav.active_tab == i as usize
            && post.launch == pre.launch))),
        my_task_item(pre) matches Some(item) ==> (thread_of(pre) is None
            || thread_of(pre)->0.session_id is None ==> (post.launch.draft matches Some(d)
            && is_my_task_draft(
            d,
            item,
            linked_with(item, found, cache),
            reviews,
            inline,
            pre.config.runtime.default_profile,
            suggested,
        )) && post.nav.input_mode == InputMode::LaunchThread),
{
}

/// A launch on a pull request of the queues carries it, in the queue's own way, and all that
/// is said of it.
pub proof fn law_review_launches_carry_the_pr(pre: App, suggested: Seq<char>, post: App)
    requires
        opened_review_launch(pre, suggested, post),
    ensures
        review_item(pre) is None ==> post.nav == pre.nav && post.launch == pre.launch && post.toast
            is Some,
        review_item(pre) matches Some(item) ==> (post.launch.draft matches Some(d)
            && d.review_pr matches Some(p) && p.number == item.github_item.number && (
        pre.nav.review_queue_tab == ReviewQueueTab::Authored ==> p.mode
            == PendingReviewLaunchMode::ContinueWork && d.extra_context@ == review_context(
            PendingReviewLaunchMode::ContinueWork,
            pre.reviews.reviews@,
            pre.reviews.comments@,
            pre.reviews.review_comments@,
        )) && (pre.nav.review_queue_tab == ReviewQueueTab::NeedsReview ==> p.mode
            == PendingReviewLaunchMode::Review && d.extra_context@ == review_context(
            PendingReviewLaunchMode::Review,
            pre.reviews.reviews@,
            pre.reviews.comments@,
            pre.reviews.review_comments@,
        ))),
{
}

/// The keys `h` and `l` turn a choice like the arrows.
pub proof fn law_letters_turn_like_arrows(code: KeyCode)
    ensures
        is_back(KeyCode::Left) && is_back(KeyCode::Char('h')),
        is_forth(KeyCode::Right) && is_forth(KeyCode::Char('l')),
        code == KeyCode::Up || code == KeyCode::Down || code == KeyCode::Char('j') ==> !is_back(
            code,
        ) && !is_forth(code),
        !is_back(KeyCode::Right) && !is_forth(KeyCode::Left),
{
}

} // verus!
