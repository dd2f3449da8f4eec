//! The keys of a session tab: of its terminals, of the conversation with its agent,
//! and of the question for a permission.

use vstd::prelude::*;
use vstd::string::*;

use crate::actions::{asks, Context};
use crate::app::{
    active_thread, at, in_mode, says, shows_thread, with_focus, App, Nav, Panes, Tab, Toast,
};
use crate::compose::Compose;
use crate::effects::{notice_is, Effect, PaneEffect, RuntimeAction};
use crate::input_pickers::{opened_projects, opened_providers, providers_picker_step};
use crate::input_tasks::confirm_step;
use crate::keys::{key_sequence, keycode_to_bytes, KeyBytes, KeyCode, KeyModifiers};
use crate::launching::{started_compose, with_view};
use crate::messages::{compose_key_step, message_submitted, pasted_text};
use crate::moves::{inspector_digit, next_tab_of, on_inspector_tab, on_tab, previous_tab_of};
use crate::panes::{capped, less, SplitDirection};
use crate::settings::clone_text;
use crate::store::Thread;
use crate::text::{
    begins_with, byte_len, bytes_in, contains_text, decimal, format_number, is_blank, trimmed,
};
use crate::text_input::TextInput;
use crate::views::{
    Action, DeleteTarget, Focus, InputMode, InspectorTab, SessionTabView, ToastStyle,
};

verus! {

pub open spec fn on_session_tab(a: App) -> bool {
    at(a.tabs@, a.nav.active_tab as int) matches Some(Tab::Session { .. })
}

// ---------------------------------------------------------------------------
// Permissions
// ---------------------------------------------------------------------------

pub open spec fn sends_to_agent(a: App, e: Effect, bytes: Seq<u8>) -> bool {
    if on_session_tab(a) {
        e matches Effect::Pane(p) && p matches PaneEffect::SendToAgent(b) && b@ == bytes
    } else {
        e == Effect::Nothing
    }
}

/// A key while the agent asks for a permission: its dialog has "no" two entries below
/// "yes".
pub open spec fn permission_step(pre: App, code: KeyCode, post: App, e: Effect) -> bool {
    match code {
        KeyCode::Enter | KeyCode::Char('y') => sends_to_agent(pre, e, seq![13u8]) && says(
            pre,
            post,
            "Permission granted"@,
            ToastStyle::Success,
        ),
        KeyCode::Esc | KeyCode::Char('n') => sends_to_agent(
            pre,
            e,
            seq![27u8, 91u8, 66u8, 27u8, 91u8, 66u8, 13u8],
        ) && says(pre, post, "Permission denied"@, ToastStyle::Info),
        _ => e == Effect::Nothing && post == pre,
    }
}

/// The user is asked whether to close the active session for good.
pub open spec fn close_asked(pre: App, post: App) -> bool {
    match at(pre.tabs@, pre.nav.active_tab as int) {
        Some(Tab::Session { session_id, label, .. }) => post == asks(
            pre,
            label,
            session_id,
            DeleteTarget::Session,
        ),
        _ => says(pre, post, "No active session"@, ToastStyle::Info),
    }
}

// ---------------------------------------------------------------------------
// Terminals
// ---------------------------------------------------------------------------

pub open spec fn other_view(v: SessionTabView) -> SessionTabView {
    match v {
        SessionTabView::Conversation => SessionTabView::Terminal,
        SessionTabView::Terminal => SessionTabView::Conversation,
    }
}

/// The active tab shows its other view.
pub open spec fn view_toggled(pre: App, post: App) -> bool {
    match at(pre.tabs@, pre.nav.active_tab as int) {
        Some(Tab::Session { view_mode, .. }) => post.tabs@ == pre.tabs@.update(
            pre.nav.active_tab as int,
            with_view(pre.tabs@[pre.nav.active_tab as int], other_view(view_mode)),
        ) && post == (App { tabs: post.tabs, ..pre }),
        _ => post == pre,
    }
}

/// The active tab shows its other view, and a message tells so.
pub open spec fn view_switched(pre: App, message: Seq<char>, post: App) -> bool {
    if on_session_tab(pre) {
        exists|mid: App| #[trigger]
            view_toggled(pre, mid) && says(mid, post, message, ToastStyle::Info)
    } else {
        post == pre
    }
}

/// A tab without a marked text.
pub open spec fn unmarked(tab: Tab) -> Tab {
    match tab {
        Tab::Session { session_id, label, view_mode, panes } => Tab::Session {
            session_id,
            label,
            view_mode,
            panes: Panes { selection: None, ..panes },
        },
        Tab::Dashboard => Tab::Dashboard,
    }
}

/// Nothing is marked in the active tab.
pub open spec fn mark_cleared(pre: App, post: App) -> bool {
    if on_session_tab(pre) {
        post.tabs@ == pre.tabs@.update(
            pre.nav.active_tab as int,
            unmarked(pre.tabs@[pre.nav.active_tab as int]),
        ) && post == (App { tabs: post.tabs, ..pre })
    } else {
        post == pre
    }
}

/// The key goes to the focused terminal.
pub open spec fn key_forwarded(
    pre: App,
    code: KeyCode,
    m: KeyModifiers,
    post: App,
    e: Effect,
) -> bool {
    &&& mark_cleared(pre, post)
    &&& if on_session_tab(pre) {
        e matches Effect::Pane(p) && p matches PaneEffect::Send(b) && b@ == key_sequence(
            code,
            m,
        )
    } else {
        e == Effect::Nothing
    }
}

/// What was pasted goes to the focused terminal.
pub open spec fn paste_forwarded(pre: App, text: Seq<char>, post: App, e: Effect) -> bool {
    &&& mark_cleared(pre, post)
    &&& if on_session_tab(pre) {
        e matches Effect::Pane(p) && p matches PaneEffect::SendText(t) && t@ == pasted_text(text)
    } else {
        e == Effect::Nothing
    }
}

pub open spec fn to_panes(a: App, p: PaneEffect) -> Effect {
    if on_session_tab(a) {
        Effect::Pane(p)
    } else {
        Effect::Nothing
    }
}

pub open spec fn at_dashboard(a: App) -> App {
    on_tab(in_mode(a, InputMode::Normal), 0)
}

/// What an action does while terminals are shown.
pub open spec fn session_acted(pre: App, action: Action, post: App, e: Effect) -> bool {
    match action {
        Action::ReturnToDashboard => e == Effect::Nothing && post == at_dashboard(pre),
        Action::PrevTab => e == Effect::Nothing && post == on_tab(pre, previous_tab_of(pre)),
        Action::NextTab => e == Effect::Nothing && post == on_tab(pre, next_tab_of(pre)),
        Action::FocusPrevPane => post == pre && e == to_panes(pre, PaneEffect::FocusPrevious),
        Action::FocusNextPane => post == pre && e == to_panes(pre, PaneEffect::FocusNext),
        Action::ScrollToBottom => post == pre && e == to_panes(pre, PaneEffect::ScrollToBottom),
        Action::ScrollPageUp => post == pre && e == to_panes(pre, PaneEffect::ScrollHalfUp),
        Action::ScrollPageDown => post == pre && e == to_panes(pre, PaneEffect::ScrollHalfDown),
        Action::SplitRight => post == pre && e == to_panes(
            pre,
            PaneEffect::Split(SplitDirection::Horizontal),
        ),
        Action::SplitDown => post == pre && e == to_panes(
            pre,
            PaneEffect::Split(SplitDirection::Vertical),
        ),
        Action::ClosePane => post == pre && e == to_panes(pre, PaneEffect::Close),
        _ => e == Effect::Nothing && post == pre,
    }
}

impl App {
    pub(crate) fn is_session_tab(&self) -> (r: bool)
        ensures
            r == on_session_tab(*self),
    {
        if self.nav.active_tab < self.tabs.len() {
            match &self.tabs[self.nav.active_tab] {
                Tab::Session { .. } => true,
                Tab::Dashboard => false,
            }
        } else {
            false
        }
    }

    fn answer_agent(&mut self, bytes: &[u8], message: &str, style: ToastStyle) -> (e: Effect)
        requires
            old(self).wf(),
            bytes@.len() <= 8,
        ensures
            sends_to_agent(*old(self), e, bytes@),
            says(*old(self), *final(self), message@, style),
            final(self).wf(),
    {
        let here = self.is_session_tab();
        self.show_toast(message.to_owned(), style);
        if here {
            Effect::Pane(PaneEffect::SendToAgent(KeyBytes::from_slice(bytes)))
        } else {
            Effect::Nothing
        }
    }

    /// Handle a key while the agent asks for a permission.
    pub fn handle_permission_dialog_key(&mut self, code: KeyCode) -> (e: Effect)
        requires
            old(self).wf(),
        ensures
            permission_step(*old(self), code, *final(self), e),
            final(self).wf(),
    {
        match code {
            KeyCode::Enter | KeyCode::Char('y') => {
                let bytes: [u8; 1] = [13];
                assert(bytes@ =~= seq![13u8]);
                self.answer_agent(&bytes, "Permission granted", ToastStyle::Success)
            },
            KeyCode::Esc | KeyCode::Char('n') => {
                let bytes: [u8; 7] = [27, 91, 66, 27, 91, 66, 13];
                assert(bytes@ =~= seq![27u8, 91u8, 66u8, 27u8, 91u8, 66u8, 13u8]);
                self.answer_agent(&bytes, "Permission denied", ToastStyle::Info)
            },
            _ => Effect::Nothing,
        }
    }

    /// Ask whether to close the active session for good.
    pub fn prompt_close_session(&mut self)
        requires
            old(self).wf(),
        ensures
            close_asked(*old(self), *final(self)),
            final(self).wf(),
    {
        let found = if self.nav.active_tab < self.tabs.len() {
            match &self.tabs[self.nav.active_tab] {
                Tab::Session { session_id, label, .. } => Some((label.clone(), session_id.clone())),
                Tab::Dashboard => None,
            }
        } else {
            None
        };
        match found {
            Some((label, id)) => {
                self.ask_delete(label, id, DeleteTarget::Session);
            },
            None => {
                self.show_toast("No active session".to_owned(), ToastStyle::Info);
            },
        }
    }

    /// Show the other view of the active tab.
    pub fn toggle_active_session_view(&mut self) -> (r: bool)
        requires
            old(self).wf(),
        ensures
            r == on_session_tab(*old(self)),
            view_toggled(*old(self), *final(self)),
            final(self).wf(),
    {
        if !self.is_session_tab() {
            return false;
        }
        let i: usize = self.nav.active_tab;
        match &mut self.tabs[i] {
            Tab::Session { view_mode, .. } => {
                *view_mode = match *view_mode {
                    SessionTabView::Conversation => SessionTabView::Terminal,
                    SessionTabView::Terminal => SessionTabView::Conversation,
                };
                true
            },
            Tab::Dashboard => false,
        }
    }

    fn switch_view(&mut self, message: &str)
        requires
            old(self).wf(),
        ensures
            view_switched(*old(self), message@, *final(self)),
            final(self).wf(),
    {
        if self.toggle_active_session_view() {
            let ghost mid = *self;
            assert(view_toggled(*old(self), mid));
            self.show_toast(message.to_owned(), ToastStyle::Info);
        }
    }

    /// Forget the text that is marked in the active tab.
    pub(crate) fn clear_mark(&mut self) -> (r: bool)
        requires
            old(self).wf(),
        ensures
            r == on_session_tab(*old(self)),
            mark_cleared(*old(self), *final(self)),
            final(self).wf(),
    {
        if !self.is_session_tab() {
            return false;
        }
        let i: usize = self.nav.active_tab;
        match &mut self.tabs[i] {
            Tab::Session { panes, .. } => {
                panes.selection = None;
                true
            },
            Tab::Dashboard => false,
        }
    }

    fn forward_key(&mut self, code: KeyCode, m: KeyModifiers) -> (e: Effect)
        requires
            old(self).wf(),
        ensures
            key_forwarded(*old(self), code, m, *final(self), e),
            final(self).wf(),
    {
        if self.clear_mark() {
            Effect::Pane(PaneEffect::Send(keycode_to_bytes(code, m)))
        } else {
            Effect::Nothing
        }
    }

    /// Forward a pasted text to the focused terminal.
    pub fn handle_session_tab_paste(&mut self, text: &str) -> (e: Effect)
        requires
            old(self).wf(),
        ensures
            paste_forwarded(*old(self), text@, *final(self), e),
            final(self).wf(),
    {
        if self.clear_mark() {
            Effect::Pane(PaneEffect::SendText(crate::messages::bracketed_paste(text)))
        } else {
            Effect::Nothing
        }
    }

    fn ask_panes(&self, p: PaneEffect) -> (e: Effect)
        ensures
            e == to_panes(*self, p),
    {
        if self.is_session_tab() {
            Effect::Pane(p)
        } else {
            Effect::Nothing
        }
    }

    fn go_to_dashboard(&mut self)
        requires
            old(self).wf(),
        ensures
            *final(self) == at_dashboard(*old(self)),
            final(self).wf(),
    {
        self.nav.input_mode = InputMode::Normal;
        self.nav.active_tab = 0;
    }

    /// Do what an action of the keymap asks for while terminals are shown.
    pub fn execute_session_action(&mut self, action: Action) -> (e: Effect)
        requires
            old(self).wf(),
        ensures
            session_acted(*old(self), action, *final(self), e),
            final(self).wf(),
    {
        match action {
            Action::ReturnToDashboard => {
                self.go_to_dashboard();
                Effect::Nothing
            },
            Action::PrevTab => {
                self.prev_tab();
                Effect::Nothing
            },
            Action::NextTab => {
                self.next_tab();
                Effect::Nothing
            },
            Action::FocusPrevPane => self.ask_panes(PaneEffect::FocusPrevious),
            Action::FocusNextPane => self.ask_panes(PaneEffect::FocusNext),
            Action::ScrollToBottom => self.ask_panes(PaneEffect::ScrollToBottom),
            Action::ScrollPageUp => self.ask_panes(PaneEffect::ScrollHalfUp),
            Action::ScrollPageDown => self.ask_panes(PaneEffect::ScrollHalfDown),
            Action::SplitRight => self.ask_panes(PaneEffect::Split(SplitDirection::Horizontal)),
            Action::SplitDown => self.ask_panes(PaneEffect::Split(SplitDirection::Vertical)),
            Action::ClosePane => self.ask_panes(PaneEffect::Close),
            _ => Effect::Nothing,
        }
    }

    /// Tell that a pane could not be split.
    pub fn split_failed(&mut self, error: &str)
        requires
            old(self).wf(),
        ensures
            says(*old(self), *final(self), "Split failed: "@ + error@, ToastStyle::Error),
            final(self).wf(),
    {
        self.show_toast("Split failed: ".to_owned().concat(error), ToastStyle::Error);
    }

    /// Tell that a pane cannot be closed.
    pub fn close_refused(&mut self)
        requires
            old(self).wf(),
        ensures
            says(*old(self), *final(self), "Cannot close this pane"@, ToastStyle::Info),
            final(self).wf(),
    {
        self.show_toast("Cannot close this pane".to_owned(), ToastStyle::Info);
    }
}

// ---------------------------------------------------------------------------
// Conversations
// ---------------------------------------------------------------------------

pub open spec fn inspector_at(a: App, scroll: u16) -> App {
    App { nav: Nav { inspector_scroll: scroll, ..a.nav }, ..a }
}

/// The focus goes to the inspector, or back from it.
pub open spec fn inspector_turned(a: App) -> App {
    with_focus(
        a,
        if a.nav.focus == Focus::Inspector {
            Focus::Tasks
        } else {
            Focus::Inspector
        },
    )
}

/// What an action does while a conversation is shown.
pub open spec fn thread_session_acted(pre: App, action: Action, post: App) -> bool {
    match action {
        Action::ReturnToDashboard => post == at_dashboard(pre),
        Action::PrevTab => post == on_tab(pre, previous_tab_of(pre)),
        Action::NextTab => post == on_tab(pre, next_tab_of(pre)),
        Action::FocusPrevPane | Action::FocusNextPane => post == inspector_turned(pre),
        Action::ScrollPageUp => post == inspector_at(pre, less(pre.nav.inspector_scroll, 8)),
        Action::ScrollPageDown => post == inspector_at(pre, capped(pre.nav.inspector_scroll + 8)),
        Action::ScrollToBottom => post == inspector_at(pre, u16::MAX),
        Action::SplitRight | Action::SplitDown | Action::ClosePane => says(
            pre,
            post,
            "Open the raw terminal view (Ctrl+O) to manage PTY panes"@,
            ToastStyle::Info,
        ),
        _ => post == pre,
    }
}

/// The services of the thread are asked for something.
pub open spec fn runtime_asked(
    pre: App,
    stored: Option<Thread>,
    action: RuntimeAction,
    post: App,
    e: Effect,
) -> bool {
    match active_thread(pre, stored) {
        None => e == Effect::Nothing && says(
            pre,
            post,
            "No live thread runtime is available"@,
            ToastStyle::Info,
        ),
        Some(thread) => match thread.worktree_path {
            None => e == Effect::Nothing && says(
                pre,
                post,
                "Thread has no worktree yet"@,
                ToastStyle::Info,
            ),
            Some(path) => post == pre && e == (Effect::RunRuntime {
                thread: thread,
                worktree: path,
                action: action,
            }),
        },
    }
}

pub open spec fn runtime_message(action: RuntimeAction) -> Seq<char> {
    match action {
        RuntimeAction::Up => "Started runtime services"@,
        RuntimeAction::Down => "Stopped runtime services"@,
        RuntimeAction::Restart => "Restarted runtime services"@,
        RuntimeAction::Health => "Runtime health checks completed"@,
    }
}

/// The services did what they were asked for, or not; the number of them is told.
pub open spec fn runtime_shown(
    pre: App,
    action: RuntimeAction,
    outcome: Result<usize, String>,
    post: App,
    e: Effect,
) -> bool {
    match outcome {
        Ok(n) => post == pre && (e matches Effect::RefreshAndSay(notice) && notice_is(
            notice,
            runtime_message(action) + " ("@ + decimal(n as nat) + ")"@,
            ToastStyle::Success,
        )),
        Err(error) => e == Effect::Nothing && says(
            pre,
            post,
            "Runtime action failed: "@ + error@,
            ToastStyle::Error,
        ),
    }
}

/// The workflow of the thread is looked up.
pub open spec fn gate_asked(pre: App, stored: Option<Thread>, post: App, e: Effect) -> bool {
    match active_thread(pre, stored) {
        None => e == Effect::Nothing && post == pre,
        Some(thread) => match thread.workflow_run_id {
            Some(id) => post == pre && e == (Effect::FindGate { run_id: id }),
            None => e == Effect::Nothing && says(
                pre,
                post,
                "No workflow on this thread"@,
                ToastStyle::Info,
            ),
        },
    }
}

/// A run of a workflow, as far as its approval goes.
pub struct Gate {
    /// A stage waits for approval.
    pub waiting: bool,
    pub stage: Option<String>,
}

/// The workflow was looked up: the stage that waits is approved.
pub open spec fn gate_shown(
    pre: App,
    run_id: String,
    gate: Option<Gate>,
    post: App,
    e: Effect,
) -> bool {
    match gate {
        None => e == Effect::Nothing && post == pre,
        Some(g) => if !g.waiting {
            e == Effect::Nothing && says(
                pre,
                post,
                "No stage waiting for approval"@,
                ToastStyle::Info,
            )
        } else {
            post == pre && e == (match g.stage {
                Some(stage) => Effect::ApproveGate { run_id: run_id, stage: stage },
                None => Effect::Nothing,
            })
        },
    }
}

/// The stage was approved, or could not be.
pub open spec fn approval_shown(
    pre: App,
    stage: Seq<char>,
    error: Option<Seq<char>>,
    post: App,
) -> bool {
    match error {
        None => says(pre, post, "Stage approved: "@ + stage, ToastStyle::Success),
        Some(t) => says(pre, post, "Approve failed: "@ + t, ToastStyle::Error),
    }
}

/// The number of the offered answer that a digit means, from zero.
pub open spec fn reply_number(code: KeyCode) -> Option<int> {
    match code {
        KeyCode::Char(c) => if '1' <= c <= '9' {
            Some(c as int - '1' as int)
        } else {
            None
        },
        _ => None,
    }
}

/// An offered answer, as it is sent.
pub open spec fn reply_text(n: int, choice: Seq<char>) -> Seq<char> {
    decimal((n + 1) as nat) + ". "@ + choice
}

/// The editor holds a text and belongs to the thread of the active tab, where it has
/// one.
pub open spec fn holds_reply(pre: App, stored: Option<Thread>, text: Seq<char>, post: App) -> bool {
    &&& post.input.text@ == text
    &&& post == (App {
        input: TextInput { text: post.input.text, cursor: byte_len(text) as usize },
        compose: Compose {
            draft: TextInput { text: post.input.text, cursor: byte_len(text) as usize },
            thread_id: match active_thread(pre, stored) {
                Some(thread) => Some(thread.id),
                None => pre.compose.thread_id,
            },
            ..pre.compose
        },
        ..pre
    })
}

/// An offered answer is sent.
pub open spec fn replied(
    pre: App,
    stored: Option<Thread>,
    n: int,
    post: App,
    e: Effect,
) -> bool {
    if n < pre.compose.quick_replies@.len() {
        exists|mid: App| #[trigger]
            holds_reply(pre, stored, reply_text(n, pre.compose.quick_replies@[n]@), mid)
                && message_submitted(mid, post, e)
    } else {
        e == Effect::Nothing && post == pre
    }
}

/// A page of the inspector is shown and focused.
pub open spec fn inspector_shown(a: App, tab: InspectorTab) -> App {
    with_focus(on_inspector_tab(a, tab), Focus::Inspector)
}

/// The inspector fills the screen, or no longer does.
pub open spec fn inspector_expanded(a: App) -> App {
    App {
        nav: Nav {
            inspector_expanded: !a.nav.inspector_expanded,
            focus: if a.nav.inspector_expanded {
                a.nav.focus
            } else {
                Focus::Inspector
            },
            ..a.nav
        },
        ..a
    }
}

/// The editor is opened for the thread of the active tab.
pub open spec fn active_compose_started(pre: App, stored: Option<Thread>, post: App) -> bool {
    match active_thread(pre, stored) {
        Some(thread) => started_compose(pre, thread.id@, false, post),
        None => post == pre,
    }
}

pub open spec fn runtime_action_of(code: KeyCode) -> Option<RuntimeAction> {
    match code {
        KeyCode::Char('u') => Some(RuntimeAction::Up),
        KeyCode::Char('d') => Some(RuntimeAction::Down),
        KeyCode::Char('r') => Some(RuntimeAction::Restart),
        KeyCode::Char('h') => Some(RuntimeAction::Health),
        _ => None,
    }
}

/// The key only moves the focus or the inspector; `None` for other keys.
pub open spec fn conversation_moved(a: App, code: KeyCode) -> Option<App> {
    let inspecting = a.nav.focus == Focus::Inspector;
    match code {
        KeyCode::Tab | KeyCode::BackTab => Some(inspector_turned(a)),
        KeyCode::Char('j') | KeyCode::Down => if inspecting {
            Some(inspector_at(a, capped(a.nav.inspector_scroll + 1)))
        } else {
            None
        },
        KeyCode::Char('k') | KeyCode::Up => if inspecting {
            Some(inspector_at(a, less(a.nav.inspector_scroll, 1)))
        } else {
            None
        },
        KeyCode::Char('f') => Some(inspector_expanded(a)),
        _ => None,
    }
}

/// Any other character starts a message.
pub open spec fn typing_started(
    pre: App,
    stored: Option<Thread>,
    code: KeyCode,
    m: KeyModifiers,
    post: App,
    e: Effect,
) -> bool {
    if code is Char && active_thread(pre, stored) is Some {
        exists|mid: App| #[trigger]
            started_compose(pre, active_thread(pre, stored)->0.id@, false, mid) && compose_key_step(
                mid,
                stored,
                code,
                m,
                post,
                e,
            )
    } else {
        e == Effect::Nothing && post == pre
    }
}

/// A plain key that asks for something; other characters start a message.
pub open spec fn conversation_acted(
    pre: App,
    stored: Option<Thread>,
    code: KeyCode,
    m: KeyModifiers,
    post: App,
    e: Effect,
) -> bool {
    match code {
        KeyCode::Char('p') | KeyCode::Char('P') => e == Effect::Nothing && opened_projects(
            pre,
            post,
        ),
        KeyCode::Char('i') => e == Effect::Nothing && active_compose_started(pre, stored, post),
        KeyCode::Char('m') => e == Effect::Nothing && opened_providers(pre, stored, post),
        KeyCode::Char('g') => gate_asked(pre, stored, post, e),
        KeyCode::Char('q') => e == Effect::CloseThreadSession && post == pre,
        _ => match runtime_action_of(code) {
            Some(action) => runtime_asked(pre, stored, action, post, e),
            None => typing_started(pre, stored, code, m, post, e),
        },
    }
}

/// A plain key while a conversation is shown.
pub open spec fn conversation_plain(
    pre: App,
    stored: Option<Thread>,
    code: KeyCode,
    m: KeyModifiers,
    post: App,
    e: Effect,
) -> bool {
    if conversation_moved(pre, code) is Some {
        e == Effect::Nothing && post == conversation_moved(pre, code)->0
    } else if reply_number(code) is Some && pre.nav.focus != Focus::Inspector
        && pre.compose.quick_replies@.len() > 0 {
        replied(pre, stored, reply_number(code)->0, post, e)
    } else if inspector_digit(code) is Some {
        e == Effect::Nothing && post == inspector_shown(pre, inspector_digit(code)->0)
    } else {
        conversation_acted(pre, stored, code, m, post, e)
    }
}

/// A key while a conversation is shown.
pub open spec fn thread_session_step(
    pre: App,
    c: Context,
    code: KeyCode,
    m: KeyModifiers,
    post: App,
    e: Effect,
) -> bool {
    let control = m == KeyModifiers::control();
    if control && code == KeyCode::Char('q') {
        e == Effect::Nothing && close_asked(pre, post)
    } else if control && code == KeyCode::Char('o') {
        e == Effect::Nothing && view_switched(pre, "Switched to terminal view"@, post)
    } else if pre.nav.input_mode == InputMode::ThreadCompose {
        compose_key_step(pre, c.stored_thread, code, m, post, e)
    } else if pre.nav.input_mode == InputMode::ThreadProviderPicker {
        providers_picker_step(pre, c.stored_thread, code, post, e)
    } else if c.bound is Some {
        e == Effect::Nothing && thread_session_acted(pre, c.bound->0, post)
    } else if control && code == KeyCode::Char('c') {
        e == Effect::Interrupt && post == pre
    } else if m.is_empty() {
        conversation_plain(pre, c.stored_thread, code, m, post, e)
    } else {
        e == Effect::Nothing && post == pre
    }
}

/// A key of a session tab.
pub open spec fn session_tab_step(
    pre: App,
    c: Context,
    code: KeyCode,
    m: KeyModifiers,
    post: App,
    e: Effect,
) -> bool {
    let control = m == KeyModifiers::control();
    if pre.nav.input_mode == InputMode::ConfirmDelete {
        confirm_step(pre, code, post, e)
    } else if crate::app::is_paused(pre) {
        permission_step(pre, code, post, e)
    } else if shows_thread(pre, c.stored_thread) {
        thread_session_step(pre, c, code, m, post, e)
    } else if control && code == KeyCode::Char('q') {
        e == Effect::Nothing && close_asked(pre, post)
    } else if control && code == KeyCode::Char('o') && active_thread(pre, c.stored_thread) is Some {
        e == Effect::Nothing && view_switched(pre, "Switched to conversation view"@, post)
    } else if c.bound is Some {
        session_acted(pre, c.bound->0, post, e)
    } else {
        key_forwarded(pre, code, m, post, e)
    }
}

impl App {
    fn turn_inspector(&mut self)
        requires
            old(self).wf(),
        ensures
            *final(self) == inspector_turned(*old(self)),
            final(self).wf(),
    {
        self.nav.focus = if self.nav.focus == Focus::Inspector {
            Focus::Tasks
        } else {
            Focus::Inspector
        };
    }

    fn scroll_inspector_up(&mut self, n: u16)
        requires
            old(self).wf(),
        ensures
            *final(self) == inspector_at(
                *old(self),
                less(old(self).nav.inspector_scroll, n as int),
            ),
            final(self).wf(),
    {
        self.nav.inspector_scroll = if self.nav.inspector_scroll < n {
            0
        } else {
            self.nav.inspector_scroll - n
        };
    }

    fn scroll_inspector_down(&mut self, n: u16)
        requires
            old(self).wf(),
        ensures
            *final(self) == inspector_at(*old(self), capped(old(self).nav.inspector_scroll + n)),
            final(self).wf(),
    {
        self.nav.inspector_scroll = if self.nav.inspector_scroll <= u16::MAX - n {
            self.nav.inspector_scroll + n
        } else {
            u16::MAX
        };
    }

    /// Do what an action of the keymap asks for while a conversation is shown.
    pub fn execute_thread_session_action(&mut self, action: Action)
        requires
            old(self).wf(),
        ensures
            thread_session_acted(*old(self), action, *final(self)),
            final(self).wf(),
    {
        match action {
            Action::ReturnToDashboard => {
                self.go_to_dashboard();
            },
            Action::PrevTab => {
                self.prev_tab();
            },
            Action::NextTab => {
                self.next_tab();
            },
            Action::FocusPrevPane | Action::FocusNextPane => {
                self.turn_inspector();
            },
            Action::ScrollPageUp => {
                self.scroll_inspector_up(8);
            },
            Action::ScrollPageDown => {
                self.scroll_inspector_down(8);
            },
            Action::ScrollToBottom => {
                self.nav.inspector_scroll = u16::MAX;
            },
            Action::SplitRight | Action::SplitDown | Action::ClosePane => {
                self.show_toast(
                    "Open the raw terminal view (Ctrl+O) to manage PTY panes".to_owned(),
                    ToastStyle::Info,
                );
            },
            _ => {},
        }
    }

    /// Ask the services of the thread for something.
    pub fn run_active_thread_runtime_action(
        &mut self,
        stored: &Option<Thread>,
        action: RuntimeAction,
    ) -> (e: Effect)
        requires
            old(self).wf(),
        ensures
            runtime_asked(*old(self), *stored, action, *final(self), e),
            final(self).wf(),
    {
        let thread = match self.active_session_thread(stored) {
            Some(thread) => thread,
            None => {
                self.show_toast("No live thread runtime is available".to_owned(), ToastStyle::Info);
                return Effect::Nothing;
            },
        };
        match clone_text(&thread.worktree_path) {
            Some(worktree) => Effect::RunRuntime { thread, worktree, action },
            None => {
                self.show_toast("Thread has no worktree yet".to_owned(), ToastStyle::Info);
                Effect::Nothing
            },
        }
    }

    /// Tell what the services did; on success, how many of them.
    pub fn runtime_action_done(&mut self, action: RuntimeAction, outcome: Result<usize, String>) -> (e:
        Effect)
        requires
            old(self).wf(),
        ensures
            runtime_shown(*old(self), action, outcome, *final(self), e),
            final(self).wf(),
    {
        match outcome {
            Ok(n) => {
                let mut message = match action {
                    RuntimeAction::Up => "Started runtime services".to_owned(),
                    RuntimeAction::Down => "Stopped runtime services".to_owned(),
                    RuntimeAction::Restart => "Restarted runtime services".to_owned(),
                    RuntimeAction::Health => "Runtime health checks completed".to_owned(),
                };
                message.append(" (");
                message.append(format_number(n as u64).as_str());
                message.append(")");
                Effect::RefreshAndSay(Toast { message, style: ToastStyle::Success })
            },
            Err(error) => {
                let message = "Runtime action failed: ".to_owned().concat(error.as_str());
                self.show_toast(message, ToastStyle::Error);
                Effect::Nothing
            },
        }
    }

    /// Look up whether a stage of the thread's workflow waits for approval.
    pub fn approve_active_workflow_gate(&mut self, stored: &Option<Thread>) -> (e: Effect)
        requires
            old(self).wf(),
        ensures
            gate_asked(*old(self), *stored, *final(self), e),
            final(self).wf(),
    {
        match self.active_session_thread(stored) {
            Some(thread) => match thread.workflow_run_id {
                Some(run_id) => Effect::FindGate { run_id },
                None => {
                    self.show_toast("No workflow on this thread".to_owned(), ToastStyle::Info);
                    Effect::Nothing
                },
            },
            None => Effect::Nothing,
        }
    }

    /// Approve the stage that waits; the workflow was looked up.
    pub fn gate_found(&mut self, run_id: String, gate: Option<Gate>) -> (e: Effect)
        requires
            old(self).wf(),
        ensures
            gate_shown(*old(self), run_id, gate, *final(self), e),
            final(self).wf(),
    {
        match gate {
            None => Effect::Nothing,
            Some(g) => {
                if !g.waiting {
                    self.show_toast("No stage waiting for approval".to_owned(), ToastStyle::Info);
                    return Effect::Nothing;
                }
                match g.stage {
                    Some(stage) => Effect::ApproveGate { run_id, stage },
                    None => Effect::Nothing,
                }
            },
        }
    }

    /// Tell that a stage was approved, or why it could not be.
    pub fn gate_approved(&mut self, stage: &str, error: &Option<String>)
        requires
            old(self).wf(),
        ensures
            approval_shown(
                *old(self),
                stage@,
                crate::settings::text_option(*error),
                *final(self),
            ),
            final(self).wf(),
    {
        match error {
            None => {
                self.show_toast("Stage approved: ".to_owned().concat(stage), ToastStyle::Success);
            },
            Some(t) => {
                let message = "Approve failed: ".to_owned().concat(t.as_str());
                self.show_toast(message, ToastStyle::Error);
            },
        }
    }

    fn hold_reply(&mut self, stored: &Option<Thread>, text: String)
        requires
            old(self).wf(),
        ensures
            holds_reply(*old(self), *stored, text@, *final(self)),
            final(self).wf(),
    {
        let cursor: usize = bytes_in(text.as_str());
        let thread = self.active_session_thread(stored);
        self.compose.draft = TextInput { text: text.clone(), cursor };
        self.input = TextInput { text, cursor };
        if let Some(thread) = thread {
            self.compose.thread_id = Some(thread.id);
        }
    }

    fn send_reply(&mut self, stored: &Option<Thread>, n: usize) -> (e: Effect)
        requires
            old(self).wf(),
            n < 9,
        ensures
            replied(*old(self), *stored, n as int, *final(self), e),
            final(self).wf(),
    {
        if n >= self.compose.quick_replies.len() {
            return Effect::Nothing;
        }
        let mut text = format_number((n + 1) as u64);
        text.append(". ");
        text.append(self.compose.quick_replies[n].as_str());
        let ghost said = reply_text(n as int, self.compose.quick_replies@[n as int]@);
        assert(text@ == said);
        self.hold_reply(stored, text);
        let ghost mid = *self;
        assert(holds_reply(*old(self), *stored, said, mid));
        self.submit_thread_compose_message()
    }

    fn conversation_move_key(&mut self, code: KeyCode) -> (r: bool)
        requires
            old(self).wf(),
        ensures
            r == conversation_moved(*old(self), code) is Some,
            r ==> *final(self) == conversation_moved(*old(self), code)->0,
            !r ==> *final(self) == *old(self),
            final(self).wf(),
    {
        let inspecting = self.nav.focus == Focus::Inspector;
        match code {
            KeyCode::Tab | KeyCode::BackTab => {
                self.turn_inspector();
                true
            },
            KeyCode::Char('j') | KeyCode::Down => {
                if inspecting {
                    self.scroll_inspector_down(1);
                }
                inspecting
            },
            KeyCode::Char('k') | KeyCode::Up => {
                if inspecting {
                    self.scroll_inspector_up(1);
                }
                inspecting
            },
            KeyCode::Char('f') => {
                self.nav.inspector_expanded = !self.nav.inspector_expanded;
                if self.nav.inspector_expanded {
                    self.nav.focus = Focus::Inspector;
                }
                true
            },
            _ => false,
        }
    }

    fn start_active_compose(&mut self, stored: &Option<Thread>)
        requires
            old(self).wf(),
        ensures
            active_compose_started(*old(self), *stored, *final(self)),
            final(self).wf(),
    {
        if let Some(thread) = self.active_session_thread(stored) {
            self.start_thread_compose_for(thread.id.as_str(), false);
        }
    }

    fn start_typing(&mut self, stored: &Option<Thread>, code: KeyCode, m: KeyModifiers) -> (e:
        Effect)
        requires
            old(self).wf(),
        ensures
            typing_started(*old(self), *stored, code, m, *final(self), e),
            final(self).wf(),
    {
        if !matches!(code, KeyCode::Char(_)) {
            return Effect::Nothing;
        }
        let thread = match self.active_session_thread(stored) {
            Some(thread) => thread,
            None => {
                return Effect::Nothing;
            },
        };
        self.start_thread_compose_for(thread.id.as_str(), false);
        let ghost mid = *self;
        assert(started_compose(*old(self), thread.id@, false, mid));
        self.handle_thread_compose_key(stored, code, m)
    }

    fn conversation_act_key(&mut self, stored: &Option<Thread>, code: KeyCode, m: KeyModifiers) -> (e:
        Effect)
        requires
            old(self).wf(),
        ensures
            conversation_acted(*old(self), *stored, code, m, *final(self), e),
            final(self).wf(),
    {
        match code {
            KeyCode::Char('p') | KeyCode::Char('P') => {
                self.open_project_picker();
                Effect::Nothing
            },
            KeyCode::Char('i') => {
                self.start_active_compose(stored);
                Effect::Nothing
            },
            KeyCode::Char('m') => {
                self.open_thread_provider_picker(stored);
                Effect::Nothing
            },
            KeyCode::Char('g') => self.approve_active_workflow_gate(stored),
            KeyCode::Char('q') => Effect::CloseThreadSession,
            _ => match runtime_action_for(code) {
                Some(action) => self.run_active_thread_runtime_action(stored, action),
                None => self.start_typing(stored, code, m),
            },
        }
    }

    fn conversation_plain_key(
        &mut self,
        stored: &Option<Thread>,
        code: KeyCode,
        m: KeyModifiers,
    ) -> (e: Effect)
        requires
            old(self).wf(),
        ensures
            conversation_plain(*old(self), *stored, code, m, *final(self), e),
            final(self).wf(),
    {
        if self.conversation_move_key(code) {
            return Effect::Nothing;
        }
        if self.nav.focus != Focus::Inspector && self.compose.quick_replies.len() > 0 {
            if let Some(n) = reply_for(code) {
                return self.send_reply(stored, n);
            }
        }
        if let Some(tab) = crate::moves::inspector_page(code) {
            self.nav.inspector_tab = tab;
            self.nav.focus = Focus::Inspector;
            self.nav.inspector_scroll = 0;
            return Effect::Nothing;
        }
        self.conversation_act_key(stored, code, m)
    }

    /// Handle a key while a conversation is shown.
    pub fn handle_thread_session_tab_key(&mut self, c: &Context, code: KeyCode, m: KeyModifiers) -> (e:
        Effect)
        requires
            old(self).wf(),
        ensures
            thread_session_step(*old(self), *c, code, m, *final(self), e),
            final(self).wf(),
    {
        let control = m == KeyModifiers::control();
        if control && code == KeyCode::Char('q') {
            self.prompt_close_session();
            return Effect::Nothing;
        }
        if control && code == KeyCode::Char('o') {
            self.switch_view("Switched to terminal view");
            return Effect::Nothing;
        }
        if self.nav.input_mode == InputMode::ThreadCompose {
            return self.handle_thread_compose_key(&c.stored_thread, code, m);
        }
        if self.nav.input_mode == InputMode::ThreadProviderPicker {
            return self.handle_thread_provider_picker_key(&c.stored_thread, code);
        }
        if let Some(action) = c.bound {
            self.execute_thread_session_action(action);
            return Effect::Nothing;
        }
        if control && code == KeyCode::Char('c') {
            return Effect::Interrupt;
        }
        if m.is_empty() {
            return self.conversation_plain_key(&c.stored_thread, code, m);
        }
        Effect::Nothing
    }

    /// Handle a key of a session tab.
    pub fn handle_session_tab_key(&mut self, c: &Context, code: KeyCode, m: KeyModifiers) -> (e:
        Effect)
        requires
            old(self).wf(),
        ensures
            session_tab_step(*old(self), *c, code, m, *final(self), e),
            final(self).wf(),
    {
        if self.nav.input_mode == InputMode::ConfirmDelete {
            return self.handle_confirm_delete_key(code);
        }
        if self.active_session_is_paused() {
            return self.handle_permission_dialog_key(code);
        }
        if self.active_session_uses_thread_workspace(&c.stored_thread) {
            return self.handle_thread_session_tab_key(c, code, m);
        }
        if m == KeyModifiers::control() {
            if code == KeyCode::Char('q') {
                self.prompt_close_session();
                return Effect::Nothing;
            }
            if code == KeyCode::Char('o') && self.active_session_thread(
                &c.stored_thread,
            ).is_some() {
                self.switch_view("Switched to conversation view");
                return Effect::Nothing;
            }
        }
        match c.bound {
            Some(action) => self.execute_session_action(action),
            None => self.forward_key(code, m),
        }
    }
}

fn runtime_action_for(code: KeyCode) -> (r: Option<RuntimeAction>)
    ensures
        r == runtime_action_of(code),
{
    match code {
        KeyCode::Char('u') => Some(RuntimeAction::Up),
        KeyCode::Char('d') => Some(RuntimeAction::Down),
        KeyCode::Char('r') => Some(RuntimeAction::Restart),
        KeyCode::Char('h') => Some(RuntimeAction::Health),
        _ => None,
    }
}

fn reply_for(code: KeyCode) -> (r: Option<usize>)
    ensures
        reply_number(code) == match r {
            Some(n) => Some(n as int),
            None => None,
        },
        r matches Some(n) ==> n < 9,
{
    match code {
        KeyCode::Char(c) => {
            if '1' <= c && c <= '9' {
                let n: u32 = c as u32 - '1' as u32;
                Some(n as usize)
            } else {
                None
            }
        },
        _ => None,
    }
}

// ---------------------------------------------------------------------------
// Laws
// ---------------------------------------------------------------------------

/// Toggling the view of a tab twice restores it.
pub proof fn law_views_toggle_back(a: App, b: App, c: App)
    requires
        view_toggled(a, b),
        view_toggled(b, c),
    ensures
        c.tabs@ == a.tabs@,
{
    if on_session_tab(a) {
        let i = a.nav.active_tab as int;
        assert(b.tabs@[i] == with_view(a.tabs@[i], other_view(a.tabs@[i]->view_mode)));
        assert(c.tabs@ =~= a.tabs@);
    }
}

/// A session whose agent asks for a permission takes no other keys.
pub proof fn law_permission_comes_first(
    pre: App,
    c: Context,
    code: KeyCode,
    m: KeyModifiers,
    post: App,
    e: Effect,
)
    requires
        session_tab_step(pre, c, code, m, post, e),
        crate::app::is_paused(pre),
        pre.nav.input_mode != InputMode::ConfirmDelete,
        code != KeyCode::Enter && code != KeyCode::Esc && code != KeyCode::Char('y') && code
            != KeyCode::Char('n'),
    ensures
        post == pre,
        e == Effect::Nothing,
{
}

/// A permission is granted by enter or `y`: the agent is sent a return. It is denied by
/// escape or `n`: the agent is sent two steps down and a return. Other keys wait.
pub proof fn law_permissions_are_answered(pre: App, code: KeyCode, post: App, e: Effect)
    requires
        permission_step(pre, code, post, e),
        at(pre.tabs@, pre.nav.active_tab as int) matches Some(Tab::Session { .. }),
    ensures
        code == KeyCode::Enter || code == KeyCode::Char('y') ==> (e matches Effect::Pane(p)
            && p matches PaneEffect::SendToAgent(b) && b@ =~= seq![0x0du8]),
        code == KeyCode::Esc || code == KeyCode::Char('n') ==> (e matches Effect::Pane(p)
            && p matches PaneEffect::SendToAgent(b) && b@ =~= seq![
            0x1bu8,
            0x5b,
            0x42,
            0x1b,
            0x5b,
            0x42,
            0x0d,
        ]),
        code != KeyCode::Enter && code != KeyCode::Char('y') && code != KeyCode::Esc && code
            != KeyCode::Char('n') ==> e == Effect::Nothing && post == pre,
{
}

/// A paused session takes answers alone, and one whose closing is asked for takes consent
/// alone; a key that neither is bound nor means anything here goes to the terminal as its
/// bytes.
pub proof fn law_keys_go_to_the_terminal(
    pre: App,
    c: Context,
    code: KeyCode,
    m: KeyModifiers,
    post: App,
    e: Effect,
)
    requires
        session_tab_step(pre, c, code, m, post, e),
        pre.nav.input_mode != InputMode::ConfirmDelete,
        at(pre.tabs@, pre.nav.active_tab as int) matches Some(Tab::Session { .. }),
    ensures
        crate::app::is_paused(pre) ==> permission_step(pre, code, post, e),
        !crate::app::is_paused(pre) && at(pre.tabs@, pre.nav.active_tab as int)->0->view_mode
            == SessionTabView::Terminal && c.bound is None && !m.control ==> (e matches Effect::Pane(p)
            && p matches PaneEffect::Send(b) && b@ == key_sequence(code, m)),
        !crate::app::is_paused(pre) && at(pre.tabs@, pre.nav.active_tab as int)->0->view_mode
            == SessionTabView::Terminal && m == KeyModifiers::control() && code == KeyCode::Char('q')
            ==> post.nav.input_mode == InputMode::ConfirmDelete && post.confirm.kind
            == DeleteTarget::Session && e == Effect::Nothing,
{
}

/// A text that is pasted on a session's tab goes to its terminal, marked as pasted.
pub proof fn law_pastes_go_to_the_terminal(pre: App, text: Seq<char>, post: App, e: Effect)
    requires
        paste_forwarded(pre, text, post, e),
    ensures
        at(pre.tabs@, pre.nav.active_tab as int) matches Some(Tab::Session { .. }) ==> (
        e matches Effect::Pane(p) && p matches PaneEffect::SendText(t) && t@ == "\u{1b}[200~"@
            + text + "\u{1b}[201~"@),
        !(at(pre.tabs@, pre.nav.active_tab as int) matches Some(Tab::Session { .. })) ==> e
            == Effect::Nothing && post == pre,
{
}

/// The actions of a session's tab do what they name.
pub proof fn law_session_actions(pre: App, action: Action, post: App, e: Effect)
    requires
        session_acted(pre, action, post, e),
        at(pre.tabs@, pre.nav.active_tab as int) matches Some(Tab::Session { .. }),
    ensures
        action == Action::ReturnToDashboard ==> post.nav.active_tab == 0 && post.nav.input_mode
            == InputMode::Normal,
        action == Action::FocusPrevPane ==> e == Effect::Pane(PaneEffect::FocusPrevious),
        action == Action::FocusNextPane ==> e == Effect::Pane(PaneEffect::FocusNext),
        action == Action::ScrollToBottom ==> e == Effect::Pane(PaneEffect::ScrollToBottom),
        action == Action::ScrollPageUp ==> e == Effect::Pane(PaneEffect::ScrollHalfUp),
        action == Action::ScrollPageDown ==> e == Effect::Pane(PaneEffect::ScrollHalfDown),
        action == Action::SplitRight ==> e == Effect::Pane(
            PaneEffect::Split(SplitDirection::Horizontal),
        ),
        action == Action::SplitDown ==> e == Effect::Pane(
            PaneEffect::Split(SplitDirection::Vertical),
        ),
        action == Action::ClosePane ==> e == Effect::Pane(PaneEffect::Close),
        action == Action::NextTab && pre.nav.active_tab + 1 < pre.tabs@.len()
            ==> post.nav.active_tab == pre.nav.active_tab + 1,
        action == Action::PrevTab && pre.nav.active_tab > 0 ==> post.nav.active_tab + 1
            == pre.nav.active_tab,
{
    assert(pre.tabs.len() == pre.tabs@.len());
    if pre.nav.active_tab + 1 < pre.tabs@.len() {
        let n = pre.tabs@.len() as int;
        let i = pre.nav.active_tab as int;
        assert((i + 1) % n == i + 1) by (nonlinear_arith)
            requires
                0 <= i + 1 < n,
        ;
    }
}

/// In a conversation the same actions move the inspector: a page is eight lines.
pub proof fn law_conversation_actions(pre: App, action: Action, post: App)
    requires
        thread_session_acted(pre, action, post),
    ensures
        action == Action::ReturnToDashboard ==> post.nav.active_tab == 0 && post.nav.input_mode
            == InputMode::Normal,
        action == Action::ScrollPageUp && pre.nav.inspector_scroll >= 8 ==> post.nav.inspector_scroll
            + 8 == pre.nav.inspector_scroll,
        action == Action::ScrollPageUp && pre.nav.inspector_scroll < 8 ==> post.nav.inspector_scroll
            == 0,
        action == Action::ScrollPageDown && pre.nav.inspector_scroll + 8 <= u16::MAX
            ==> post.nav.inspector_scroll == pre.nav.inspector_scroll + 8,
        action == Action::ScrollToBottom ==> post.nav.inspector_scroll == u16::MAX,
        action == Action::FocusNextPane || action == Action::FocusPrevPane ==> (
        pre.nav.focus == Focus::Inspector ==> post.nav.focus == Focus::Tasks) && (pre.nav.focus
            != Focus::Inspector ==> post.nav.focus == Focus::Inspector),
        action == Action::SplitRight || action == Action::SplitDown || action == Action::ClosePane
            ==> post.nav == pre.nav && post.tabs == pre.tabs && post.toast is Some,
{
}

/// The keys of the conversation: `u`, `d`, `r` and `h` run the services of the thread, `g`
/// looks for a gate, `q` closes the session, and with control `c` interrupts the agent.
pub proof fn law_conversation_keys(
    pre: App,
    c: Context,
    code: KeyCode,
    m: KeyModifiers,
    post: App,
    e: Effect,
)
    requires
        thread_session_step(pre, c, code, m, post, e),
        pre.nav.input_mode == InputMode::Normal,
        c.bound is None,
        pre.compose.quick_replies@.len() == 0,
    ensures
        m == KeyModifiers::control() && code == KeyCode::Char('c') ==> e == Effect::Interrupt
            && post == pre,
        m == KeyModifiers::control() && code == KeyCode::Char('q') ==> e == Effect::Nothing,
        m.is_empty() && code == KeyCode::Char('q') ==> e == Effect::CloseThreadSession && post
            == pre,
        m.is_empty() ==> (active_thread(pre, c.stored_thread) matches Some(t) ==> (
        t.worktree_path matches Some(path) ==> {
            &&& code == KeyCode::Char('u') ==> e == (Effect::RunRuntime {
                thread: t,
                worktree: path,
                action: RuntimeAction::Up,
            })
            &&& code == KeyCode::Char('d') ==> e == (Effect::RunRuntime {
                thread: t,
                worktree: path,
                action: RuntimeAction::Down,
            })
            &&& code == KeyCode::Char('r') ==> e == (Effect::RunRuntime {
                thread: t,
                worktree: path,
                action: RuntimeAction::Restart,
            })
            &&& code == KeyCode::Char('h') ==> e == (Effect::RunRuntime {
                thread: t,
                worktree: path,
                action: RuntimeAction::Health,
            })
        })),
        m.is_empty() && code == KeyCode::Char('g') ==> (active_thread(
            pre,
            c.stored_thread,
        ) matches Some(t) ==> (t.workflow_run_id matches Some(id) ==> e == (Effect::FindGate {
            run_id: id,
        }))),
        m.is_empty() && code == KeyCode::Tab ==> post.nav.focus != pre.nav.focus,
{
}

/// A digit chooses the quick reply of its place: it is sent with its number in front.
pub proof fn law_digits_choose_replies(
    pre: App,
    c: Context,
    d: char,
    m: KeyModifiers,
    post: App,
    e: Effect,
)
    requires
        thread_session_step(pre, c, KeyCode::Char(d), m, post, e),
        pre.nav.input_mode == InputMode::Normal,
        c.bound is None,
        m.is_empty(),
        pre.nav.focus != Focus::Inspector,
        '1' <= d <= '9',
        d as int - '1' as int <= pre.compose.quick_replies@.len() - 1,
        active_thread(pre, c.stored_thread) is Some,
        !is_blank(
            reply_text(
                d as int - '1' as int,
                pre.compose.quick_replies@[d as int - '1' as int]@,
            ),
        ),
    ensures
        e matches Effect::RecordMessage { thread_id, role, content } && thread_id@ == active_thread(
            pre,
            c.stored_thread,
        )->0.id@ && role@ == "user"@ && content@ == trimmed(
            decimal((d as int - '1' as int + 1) as nat) + ". "@
                + pre.compose.quick_replies@[d as int - '1' as int]@,
        ),
{
    let n = d as int - '1' as int;
    let text = reply_text(n, pre.compose.quick_replies@[n]@);
    assert(conversation_moved(pre, KeyCode::Char(d)) is None);
    assert(replied(pre, c.stored_thread, n, post, e));
    let mid = choose|mid: App| #[trigger]
        holds_reply(pre, c.stored_thread, text, mid) && message_submitted(mid, post, e);
    assert(mid.compose.draft.text@ == text);
}

/// A gate is approved where a stage waits for it, by the name of the stage.
pub proof fn law_waiting_gates_are_approved(
    pre: App,
    run_id: String,
    gate: Option<Gate>,
    post: App,
    e: Effect,
)
    requires
        gate_shown(pre, run_id, gate, post, e),
    ensures
        gate matches Some(g) ==> (g.waiting ==> (g.stage matches Some(s) ==> e
            == (Effect::ApproveGate { run_id: run_id, stage: s }))),
        gate matches Some(g) ==> (!g.waiting ==> e == Effect::Nothing && post.toast is Some),
        gate is None ==> e == Effect::Nothing && post == pre,
{
}

/// What was done to the services is said with their number; a failure is told.
pub proof fn law_runtime_results_are_told(
    pre: App,
    action: RuntimeAction,
    outcome: Result<usize, String>,
    post: App,
    e: Effect,
)
    requires
        runtime_shown(pre, action, outcome, post, e),
    ensures
        outcome matches Ok(n) ==> (e matches Effect::RefreshAndSay(t) && t.style
            == ToastStyle::Success && contains_text(t.message@, decimal(n as nat)) && (action
            == RuntimeAction::Up ==> begins_with(t.message@, "Started runtime services"@)) && (
        action == RuntimeAction::Down ==> begins_with(t.message@, "Stopped runtime services"@)) && (
        action == RuntimeAction::Restart ==> begins_with(
            t.message@,
            "Restarted runtime services"@,
        ))),
        outcome matches Err(error) ==> (post.toast matches Some(t) && t.style == ToastStyle::Error
            && contains_text(t.message@, error@)),
{
    match outcome {
        Ok(n) => {
            let a = runtime_message(action);
            let d = decimal(n as nat);
            crate::text::lemma_found_beside(a + " ("@, d);
            crate::text::lemma_found_beside(a + " ("@ + d, ")"@);
            let t = a + " ("@ + d + ")"@;
            assert(t.take(a.len() as int) =~= a);
        },
        Err(error) => {
            crate::text::lemma_found_beside("Runtime action failed: "@, error@);
        },
    }
}

/// An approval is told by its stage, and a failed one by its error.
pub proof fn law_approvals_are_told(
    pre: App,
    stage: Seq<char>,
    error: Option<Seq<char>>,
    post: App,
)
    requires
        approval_shown(pre, stage, error, post),
    ensures
        error is None ==> (post.toast matches Some(t) && t.style == ToastStyle::Success && t.message@
            == "Stage approved: "@ + stage),
        error matches Some(x) ==> (post.toast matches Some(t) && t.style == ToastStyle::Error
            && t.message@ == "Approve failed: "@ + x),
        post.nav == pre.nav,
{
}

} // verus!
