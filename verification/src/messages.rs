//! Messages to the agent of a thread: how they are written, and on which way they
//! reach it.
//!
//! A message is recorded first. An agent that has ended is started again with the
//! message; one that works gets it when it has time; any other gets it at once.

use vstd::prelude::*;
use vstd::string::*;

use crate::app::{
    active_thread, in_mode, law_the_first_tab_counts, law_the_first_thread_counts, says, session_of,
    tab_place, thread_of, toast_is, App, Nav, Tab,
};
use crate::compose::{
    compose_step, hint_place, is_command, suggested, Compose, ComposeEvent, Queued,
};
use crate::conversation::ConversationCache;
use crate::effects::{Effect, RestartCause};
use crate::keys::{KeyCode, KeyModifiers};
use crate::launching::at_thread;
use crate::moves::{next_tab_of, on_tab, previous_tab_of};
use crate::settings::{clone_text, text_option};
use crate::skills::{skill_names, InstalledSkill, Skills};
use crate::store::{ClaudeStatus, ConversationEntry, Session, Thread};
use crate::tasks::list_contains;
use crate::text::{
    begins_with, byte_len, bytes_in, contains_text, is_blank, join, joined, lemma_views_push, same,
    trim, trimmed, views,
};
use crate::text_input::{inserted, TextInput};
use crate::views::{InputMode, ToastStyle};

verus! {

// ---------------------------------------------------------------------------
// What is sent to a terminal
// ---------------------------------------------------------------------------

/// A text as a terminal sends what was pasted.
pub open spec fn pasted_text(text: Seq<char>) -> Seq<char> {
    "\u{1b}[200~"@ + text + "\u{1b}[201~"@
}

pub fn bracketed_paste(text: &str) -> (r: String)
    ensures
        r@ == pasted_text(text@),
{
    let mut r = "\u{1b}[200~".to_owned();
    r.append(text);
    r.append("\u{1b}[201~");
    r
}

/// A prompt as it is handed to an agent: pasted, then confirmed.
pub fn prompt_payload(prompt: &str) -> (r: String)
    ensures
        r@ == pasted_text(prompt@) + "\n"@,
{
    bracketed_paste(prompt).concat("\n")
}

/// The command that starts an agent again, with a message for it.
pub fn resume_arguments(command: Vec<String>, message: &str) -> (r: Vec<String>)
    ensures
        views(r@) == views(command@).push("-p"@).push(message@),
{
    let mut r = command;
    let flag = "-p".to_owned();
    proof {
        lemma_views_push(r@, flag);
    }
    r.push(flag);
    let text = message.to_owned();
    proof {
        lemma_views_push(r@, text);
    }
    r.push(text);
    r
}

/// A line for a shell, from its quoted words.
pub fn shell_line(words: &Vec<String>) -> (r: String)
    ensures
        r@ == joined(views(words@), " "@) + "\r"@,
{
    join(words, " ").concat("\r")
}

/// What a session shows while its agent starts again.
pub fn resume_activity(agent: &str) -> (r: String)
    ensures
        r@ == "Resuming "@ + agent@ + " session"@,
{
    let mut r = "Resuming ".to_owned();
    r.append(agent);
    r.append(" session");
    r
}

// ---------------------------------------------------------------------------
// The state of an agent
// ---------------------------------------------------------------------------

/// A listed session has this status.
pub open spec fn has_status(sessions: Seq<Session>, id: Seq<char>, status: ClaudeStatus) -> bool {
    exists|i: int|
        0 <= i < sessions.len() && (#[trigger] sessions[i]).id@ == id && sessions[i].claude_status
            == status
}

pub open spec fn names(list: Vec<String>, id: Seq<char>) -> bool {
    views(list@).contains(id)
}

/// The agent of a session has ended: it is idle and shows no prompt. `prompt` tells
/// whether the active session shows one.
pub open spec fn agent_ended(a: App, session: Option<String>, prompt: Option<bool>) -> bool {
    session matches Some(id) && names(a.pty_idle, id@) && prompt != Some(true)
}

/// The agent of a session is at work in an open tab.
pub open spec fn agent_works(a: App, session: Option<String>, prompt: Option<bool>) -> bool {
    session matches Some(id) && has_status(a.sessions@, id@, ClaudeStatus::Working) && tab_place(
        a.tabs@,
        id@,
    ) is Some && !names(a.pty_idle, id@) && prompt != Some(true)
}

/// The agent of a session has time for a message.
pub open spec fn agent_idle(a: App, id: Seq<char>) -> bool {
    has_status(a.sessions@, id, ClaudeStatus::Idle) || names(a.pty_idle, id)
}

pub fn any_with_status(sessions: &Vec<Session>, id: &str, status: ClaudeStatus) -> (r: bool)
    ensures
        r == has_status(sessions@, id@, status),
{
    let mut i: usize = 0;
    while i < sessions.len()
        invariant
            i <= sessions@.len(),
            forall|j: int|
                0 <= j < i ==> (#[trigger] sessions@[j]).id@ != id@ || sessions@[j].claude_status
                    != status,
        decreases sessions@.len() - i,
    {
        if same(sessions[i].id.as_str(), id) && sessions[i].claude_status == status {
            return true;
        }
        i += 1;
    }
    false
}

impl App {
    /// The agent of a session has ended. `prompt` tells whether the active session
    /// shows a prompt; `None` where it has no terminal.
    pub fn agent_has_ended(&self, session: &Option<String>, prompt: Option<bool>) -> (r: bool)
        ensures
            r == agent_ended(*self, *session, prompt),
    {
        match session {
            Some(id) => list_contains(&self.pty_idle, id.as_str()) && !shows_prompt(prompt),
            None => false,
        }
    }

    /// The agent of a session is at work in an open tab; where the session has none,
    /// there is nothing to wait for.
    pub fn agent_is_working(&self, session: &Option<String>, prompt: Option<bool>) -> (r: bool)
        ensures
            r == agent_works(*self, *session, prompt),
    {
        match session {
            Some(id) => any_with_status(&self.sessions, id.as_str(), ClaudeStatus::Working)
                && self.find_session_tab(id.as_str()).is_some() && !list_contains(&self.pty_idle, id.as_str()) && !shows_prompt(prompt),
            None => false,
        }
    }
}

fn shows_prompt(prompt: Option<bool>) -> (r: bool)
    ensures
        r == (prompt == Some(true)),
{
    match prompt {
        Some(shown) => shown,
        None => false,
    }
}

// ---------------------------------------------------------------------------
// Submission
// ---------------------------------------------------------------------------

/// The thread that a message is written for.
pub open spec fn message_thread(a: App) -> Option<Seq<char>> {
    match a.compose.thread_id {
        Some(id) => Some(id@),
        None => match thread_of(a) {
            Some(thread) => Some(thread.id@),
            None => None,
        },
    }
}

/// The message is to be recorded, and remembered in the history.
pub open spec fn message_submitted(pre: App, post: App, e: Effect) -> bool {
    match message_thread(pre) {
        None => e == Effect::Nothing && says(
            pre,
            post,
            "Select a thread first"@,
            ToastStyle::Info,
        ),
        Some(id) => if is_blank(pre.compose.draft.text@) {
            e == Effect::Nothing && says(
                pre,
                post,
                "Compose a message first"@,
                ToastStyle::Info,
            )
        } else {
            &&& e matches Effect::RecordMessage { thread_id, role, content } && thread_id@ == id
                && role@ == "user"@ && content@ == trimmed(pre.compose.draft.text@)
            &&& views(post.compose.history@) == views(pre.compose.history@).push(
                trimmed(pre.compose.draft.text@),
            )
            &&& post == (App {
                compose: Compose {
                    history: post.compose.history,
                    history_index: None,
                    ..pre.compose
                },
                ..pre
            })
        },
    }
}

/// The editor is empty and stays open for the next message.
pub open spec fn next_message(pre: App, thread: Thread, post: App) -> bool {
    &&& post.compose.draft.text@.len() == 0
    &&& post.compose.draft.cursor == 0
    &&& post.input.text@.len() == 0
    &&& post.input.cursor == 0
    &&& post == (App {
        compose: Compose {
            draft: post.compose.draft,
            thread_id: Some(thread.id),
            ..pre.compose
        },
        input: post.input,
        nav: Nav { input_mode: InputMode::ThreadCompose, ..pre.nav },
        ..pre
    })
}

/// The message is settled: a toast tells what became of it, and the editor is ready
/// for the next one.
pub open spec fn settled(
    pre: App,
    thread: Thread,
    message: Seq<char>,
    style: ToastStyle,
    post: App,
    e: Effect,
) -> bool {
    &&& e == (Effect::RefreshAndShow { thread: thread })
    &&& exists|mid: App| #[trigger]
        says(pre, mid, message, style) && next_message(mid, thread, post)
}

pub open spec fn without_replies(pre: App, post: App) -> bool {
    post.compose.quick_replies@.len() == 0 && post == (App {
        compose: Compose { quick_replies: post.compose.quick_replies, ..pre.compose },
        ..pre
    })
}

/// The message waits for the agent.
pub open spec fn is_queued(pre: App, thread: Thread, content: String, post: App, e: Effect) -> bool {
    settled(
        App {
            compose: Compose {
                queued: Some(Queued { thread_id: thread.id, content: content }),
                ..pre.compose
            },
            ..pre
        },
        thread,
        "Message queued — will send when "@ + pre.agent.name@ + " finishes"@,
        ToastStyle::Info,
        post,
        e,
    )
}

/// The message has been recorded: it goes on its way.
pub open spec fn message_routed(
    pre: App,
    thread: Thread,
    content: String,
    prompt: Option<bool>,
    post: App,
    e: Effect,
) -> bool {
    exists|mid: App| #[trigger]
        without_replies(pre, mid) && if agent_ended(pre, thread.session_id, prompt) {
            post == mid && e == (Effect::RestartAgent {
                thread: thread,
                content: content,
                cause: RestartCause::Ended,
            })
        } else if agent_works(pre, thread.session_id, prompt) {
            is_queued(mid, thread, content, post, e)
        } else {
            post == mid && e == (Effect::SendMessage { thread: thread, content: content })
        }
}

// ---------------------------------------------------------------------------
// Outcomes
// ---------------------------------------------------------------------------

/// The user's message, as the conversation shows it.
pub open spec fn user_entry(timestamp: String, text: String) -> ConversationEntry {
    ConversationEntry::UserMessage { timestamp: timestamp, text: text }
}

/// The conversation shows the message, where it is shown at all.
pub open spec fn conversation_with(
    pre: Option<ConversationCache>,
    timestamp: String,
    text: String,
    post: Option<ConversationCache>,
) -> bool {
    match (pre, post) {
        (Some(a), Some(b)) => b.entries@ == a.entries@.push(user_entry(timestamp, text)) && b
            == (ConversationCache { entries: b.entries, ..a }),
        (None, None) => true,
        _ => false,
    }
}

pub open spec fn noted(pre: App, timestamp: String, text: String, post: App) -> bool {
    conversation_with(pre.conversation, timestamp, text, post.conversation) && post == (App {
        conversation: post.conversation,
        ..pre
    })
}

/// The conversation is read again from its start.
pub open spec fn conversation_restarted(
    pre: Option<ConversationCache>,
    post: Option<ConversationCache>,
) -> bool {
    match (pre, post) {
        (Some(a), Some(b)) => b.entries@.len() == 0 && b == (ConversationCache {
            entries: b.entries,
            file_offset: 0,
            ..a
        }),
        (None, None) => true,
        _ => false,
    }
}

pub open spec fn reread(pre: App, post: App) -> bool {
    conversation_restarted(pre.conversation, post.conversation) && post == (App {
        conversation: post.conversation,
        ..pre
    })
}

/// The message was handed to the agent, or could not be.
pub open spec fn delivery_shown(
    pre: App,
    thread: Thread,
    content: String,
    sent: bool,
    timestamp: String,
    post: App,
    e: Effect,
) -> bool {
    if sent {
        exists|mid: App| #[trigger]
            noted(pre, timestamp, content, mid) && settled(
                mid,
                thread,
                "Sent to agent"@,
                ToastStyle::Success,
                post,
                e,
            )
    } else {
        post == pre && e == (Effect::RestartAgent {
            thread: thread,
            content: content,
            cause: RestartCause::Unreachable,
        })
    }
}

/// The message stays in the editor.
pub open spec fn preserved(
    pre: App,
    thread: Thread,
    content: String,
    message: Seq<char>,
    post: App,
) -> bool {
    &&& toast_is(post.toast, message, ToastStyle::Error)
    &&& post == (App {
        toast: post.toast,
        compose: Compose {
            draft: TextInput { text: content, cursor: byte_len(content@) as usize },
            thread_id: Some(thread.id),
            ..pre.compose
        },
        input: TextInput { text: content, cursor: byte_len(content@) as usize },
        nav: Nav { input_mode: InputMode::ThreadCompose, ..pre.nav },
        ..pre
    })
}

/// The agent was started again, or could not be.
pub open spec fn restart_shown(
    pre: App,
    thread: Thread,
    content: String,
    cause: RestartCause,
    restarted: bool,
    timestamp: String,
    post: App,
    e: Effect,
) -> bool {
    match cause {
        RestartCause::Ended => if restarted {
            exists|mid: App, noting: App|
                #![trigger reread(pre, mid), noted(mid, timestamp, content, noting)]
                reread(pre, mid) && noted(mid, timestamp, content, noting) && settled(
                    noting,
                    thread,
                    "Restarting "@ + pre.agent.name@ + " with your message..."@,
                    ToastStyle::Info,
                    post,
                    e,
                )
        } else {
            e == Effect::Nothing && preserved(
                pre,
                thread,
                content,
                pre.agent.name@ + " has exited — press l to relaunch, your message is preserved"@,
                post,
            )
        },
        RestartCause::Unreachable => if restarted {
            exists|mid: App| #[trigger]
                reread(pre, mid) && settled(
                    mid,
                    thread,
                    "Resuming "@ + pre.agent.name@ + " session..."@,
                    ToastStyle::Info,
                    post,
                    e,
                )
        } else {
            e == (Effect::RefreshAndShow { thread: thread }) && preserved(
                pre,
                thread,
                content,
                pre.agent.name@ + " has exited — relaunch session to continue"@,
                post,
            )
        },
        RestartCause::QueuedUnreachable => e == Effect::Nothing && (if restarted {
            reread(pre, post)
        } else {
            post == pre
        }),
    }
}

/// The records have been loaded after a message: its thread is shown, unless its tab
/// already is.
pub open spec fn thread_kept(pre: App, thread: Thread, stored: Option<String>) -> App {
    match session_of(pre) {
        Some(id) => if text_option(thread.session_id) == Some(id) {
            pre
        } else {
            at_thread(pre, thread.id@, stored)
        },
        None => at_thread(pre, thread.id@, stored),
    }
}

impl App {
    fn message_thread_id(&self) -> (r: Option<String>)
        requires
            self.wf(),
        ensures
            text_option(r) == message_thread(*self),
    {
        match &self.compose.thread_id {
            Some(id) => Some(id.clone()),
            None => match self.selected_thread() {
                Some(thread) => Some(thread.id.clone()),
                None => None,
            },
        }
    }

    /// Submit the draft.
    pub fn submit_thread_compose_message(&mut self) -> (e: Effect)
        requires
            old(self).wf(),
        ensures
            message_submitted(*old(self), *final(self), e),
            final(self).wf(),
    {
        let thread_id = match self.message_thread_id() {
            Some(id) => id,
            None => {
                self.show_toast("Select a thread first".to_owned(), ToastStyle::Info);
                return Effect::Nothing;
            },
        };
        let content = trim(self.compose.draft.text.as_str());
        if content.as_str().is_empty() {
            self.show_toast("Compose a message first".to_owned(), ToastStyle::Info);
            return Effect::Nothing;
        }
        let copy = content.clone();
        proof {
            lemma_views_push(self.compose.history@, copy);
        }
        self.compose.history.push(copy);
        self.compose.history_index = None;
        Effect::RecordMessage { thread_id, role: "user".to_owned(), content }
    }

    fn settle(&mut self, thread: &Thread, message: String, style: ToastStyle) -> (e: Effect)
        requires
            old(self).wf(),
        ensures
            settled(*old(self), *thread, message@, style, *final(self), e),
            final(self).wf(),
    {
        self.show_toast(message, style);
        let ghost mid = *self;
        assert(says(*old(self), mid, message@, style));
        self.compose.draft = TextInput { text: String::new(), cursor: 0 };
        self.input = TextInput { text: String::new(), cursor: 0 };
        self.nav.input_mode = InputMode::ThreadCompose;
        self.compose.thread_id = Some(thread.id.clone());
        assert(next_message(mid, *thread, *self));
        Effect::RefreshAndShow { thread: thread.clone() }
    }

    fn queue_message(&mut self, thread: &Thread, content: String) -> (e: Effect)
        requires
            old(self).wf(),
        ensures
            is_queued(*old(self), *thread, content, *final(self), e),
            final(self).wf(),
    {
        self.compose.queued = Some(Queued { thread_id: thread.id.clone(), content });
        let mut message = "Message queued — will send when ".to_owned();
        message.append(self.agent.name.as_str());
        message.append(" finishes");
        self.settle(thread, message, ToastStyle::Info)
    }

    /// Send a message that has been recorded. `prompt` tells whether the active session
    /// shows a prompt; `None` where it has no terminal.
    pub fn message_recorded(&mut self, thread: &Thread, content: String, prompt: Option<bool>) -> (e:
        Effect)
        requires
            old(self).wf(),
        ensures
            message_routed(*old(self), *thread, content, prompt, *final(self), e),
            final(self).wf(),
    {
        let ended = self.agent_has_ended(&thread.session_id, prompt);
        let working = self.agent_is_working(&thread.session_id, prompt);
        self.compose.quick_replies = Vec::new();
        let ghost mid = *self;
        assert(without_replies(*old(self), mid));
        if ended {
            Effect::RestartAgent { thread: thread.clone(), content, cause: RestartCause::Ended }
        } else if working {
            self.queue_message(thread, content)
        } else {
            Effect::SendMessage { thread: thread.clone(), content }
        }
    }

    fn note_message(&mut self, timestamp: String, text: String)
        requires
            old(self).wf(),
        ensures
            noted(*old(self), timestamp, text, *final(self)),
            final(self).wf(),
    {
        if let Some(mut cache) = self.conversation.take() {
            cache.entries.push(ConversationEntry::UserMessage { timestamp, text });
            self.conversation = Some(cache);
        }
    }

    fn reread_conversation(&mut self)
        requires
            old(self).wf(),
        ensures
            reread(*old(self), *final(self)),
            final(self).wf(),
    {
        if let Some(mut cache) = self.conversation.take() {
            cache.file_offset = 0;
            cache.entries = Vec::new();
            self.conversation = Some(cache);
        }
    }

    /// Go on once the agent got the message, or did not.
    pub fn message_sent(
        &mut self,
        thread: &Thread,
        content: String,
        sent: bool,
        timestamp: String,
    ) -> (e: Effect)
        requires
            old(self).wf(),
        ensures
            delivery_shown(*old(self), *thread, content, sent, timestamp, *final(self), e),
            final(self).wf(),
    {
        if sent {
            self.note_message(timestamp, content);
            let ghost mid = *self;
            assert(noted(*old(self), timestamp, content, mid));
            self.settle(thread, "Sent to agent".to_owned(), ToastStyle::Success)
        } else {
            Effect::RestartAgent { thread: thread.clone(), content, cause: RestartCause::Unreachable }
        }
    }

    fn preserve_message(&mut self, thread: &Thread, content: String, told: &str)
        requires
            old(self).wf(),
        ensures
            preserved(
                *old(self),
                *thread,
                content,
                old(self).agent.name@ + told@,
                *final(self),
            ),
            final(self).wf(),
    {
        let cursor: usize = bytes_in(content.as_str());
        self.compose.draft = TextInput { text: content.clone(), cursor };
        self.input = TextInput { text: content, cursor };
        let message = self.agent.name.clone().concat(told);
        self.show_toast(message, ToastStyle::Error);
        self.nav.input_mode = InputMode::ThreadCompose;
        self.compose.thread_id = Some(thread.id.clone());
    }

    fn ended_agent_restarted(&mut self, thread: &Thread, content: String, timestamp: String) -> (e:
        Effect)
        requires
            old(self).wf(),
        ensures
            restart_shown(
                *old(self),
                *thread,
                content,
                RestartCause::Ended,
                true,
                timestamp,
                *final(self),
                e,
            ),
            final(self).wf(),
    {
        self.reread_conversation();
        let ghost mid = *self;
        self.note_message(timestamp, content);
        let ghost noting = *self;
        assert(reread(*old(self), mid));
        assert(noted(mid, timestamp, content, noting));
        let mut message = "Restarting ".to_owned();
        message.append(self.agent.name.as_str());
        message.append(" with your message...");
        self.settle(thread, message, ToastStyle::Info)
    }

    /// Go on once the agent was started again, or could not be.
    pub fn agent_restarted(
        &mut self,
        thread: &Thread,
        content: String,
        cause: RestartCause,
        restarted: bool,
        timestamp: String,
    ) -> (e: Effect)
        requires
            old(self).wf(),
        ensures
            restart_shown(
                *old(self),
                *thread,
                content,
                cause,
                restarted,
                timestamp,
                *final(self),
                e,
            ),
            final(self).wf(),
    {
        match cause {
            RestartCause::Ended => {
                if restarted {
                    return self.ended_agent_restarted(thread, content, timestamp);
                }
                self.preserve_message(
                    thread,
                    content,
                    " has exited — press l to relaunch, your message is preserved",
                );
                Effect::Nothing
            },
            RestartCause::Unreachable => {
                if restarted {
                    self.reread_conversation();
                    let ghost mid = *self;
                    assert(reread(*old(self), mid));
                    let mut message = "Resuming ".to_owned();
                    message.append(self.agent.name.as_str());
                    message.append(" session...");
                    return self.settle(thread, message, ToastStyle::Info);
                }
                self.preserve_message(
                    thread,
                    content,
                    " has exited — relaunch session to continue",
                );
                Effect::RefreshAndShow { thread: thread.clone() }
            },
            RestartCause::QueuedUnreachable => {
                if restarted {
                    self.reread_conversation();
                }
                Effect::Nothing
            },
        }
    }

    /// Show the thread of a message that was settled; the records have been loaded.
    /// `stored` is the session that the database has for the thread.
    pub fn message_settled(&mut self, thread: &Thread, stored: &Option<String>)
        requires
            old(self).wf(),
        ensures
            *final(self) == thread_kept(*old(self), *thread, *stored),
            final(self).wf(),
    {
        let shown = match (self.active_session_id(), &thread.session_id) {
            (Some(active), Some(id)) => same(active.as_str(), id.as_str()),
            _ => false,
        };
        if !shown {
            self.focus_thread_workspace(thread.id.as_str(), stored);
        }
    }
}

// ---------------------------------------------------------------------------
// Messages that wait
// ---------------------------------------------------------------------------

/// The session of a listed thread.
pub open spec fn listed_session(threads: Seq<Thread>, id: Seq<char>) -> Option<String> {
    match crate::app::thread_place(threads, id) {
        Some(i) => threads[i].session_id,
        None => None,
    }
}

/// The message that waits can be sent.
pub open spec fn queue_ready(a: App) -> bool {
    a.compose.queued matches Some(q) && listed_session(a.threads@, q.thread_id@) matches Some(id)
        && agent_idle(a, id@)
}

/// The message that waits is sent as soon as its agent has time for it.
pub open spec fn queue_drained(pre: App, post: App, e: Effect) -> bool {
    if queue_ready(pre) {
        &&& e == (Effect::SendQueued {
            thread_id: pre.compose.queued->0.thread_id,
            content: pre.compose.queued->0.content,
        })
        &&& post == (App { compose: Compose { queued: None, ..pre.compose }, ..pre })
    } else {
        e == Effect::Nothing && post == pre
    }
}

/// The message that waited was handed to the agent, or could not be.
pub open spec fn queued_shown(
    pre: App,
    thread: Thread,
    content: String,
    sent: bool,
    timestamp: String,
    post: App,
    e: Effect,
) -> bool {
    if sent {
        e == Effect::Nothing && exists|mid: App| #[trigger]
            noted(pre, timestamp, content, mid) && says(
                mid,
                post,
                "Queued message sent to agent"@,
                ToastStyle::Success,
            )
    } else {
        e == (Effect::RestartAgent {
            thread: thread,
            content: content,
            cause: RestartCause::QueuedUnreachable,
        }) && says(
            pre,
            post,
            "Restarting "@ + pre.agent.name@ + " with queued message..."@,
            ToastStyle::Info,
        )
    }
}

/// The agent was interrupted: a message that waits is sent at once.
pub open spec fn interrupt_shown(pre: App, sent: bool, post: App, e: Effect) -> bool {
    if !sent {
        e == Effect::Nothing && post == pre
    } else {
        match pre.compose.queued {
            Some(q) => e == (Effect::SendAfterInterrupt {
                thread_id: q.thread_id,
                content: q.content,
            }) && says(
                App { compose: Compose { queued: None, ..pre.compose }, ..pre },
                post,
                "Interrupted "@ + pre.agent.name@ + " — sending your message"@,
                ToastStyle::Info,
            ),
            None => e == Effect::Nothing && says(
                pre,
                post,
                "Sent interrupt (Ctrl+C) to "@ + pre.agent.name@,
                ToastStyle::Info,
            ),
        }
    }
}

impl App {
    fn queued_session(&self) -> (r: Option<String>)
        ensures
            r == match self.compose.queued {
                Some(q) => listed_session(self.threads@, q.thread_id@),
                None => None,
            },
    {
        match &self.compose.queued {
            Some(q) => match crate::app::place_of_thread(&self.threads, q.thread_id.as_str()) {
                Some(i) => clone_text(&self.threads[i].session_id),
                None => None,
            },
            None => None,
        }
    }

    /// Send the message that waits, if its agent has time for it.
    pub fn drain_queued_compose_message(&mut self) -> (e: Effect)
        requires
            old(self).wf(),
        ensures
            queue_drained(*old(self), *final(self), e),
            final(self).wf(),
    {
        let ready = match self.queued_session() {
            Some(id) => any_with_status(&self.sessions, id.as_str(), ClaudeStatus::Idle)
                || list_contains(&self.pty_idle, id.as_str()),
            None => false,
        };
        if !ready {
            return Effect::Nothing;
        }
        match self.compose.queued.take() {
            Some(q) => Effect::SendQueued { thread_id: q.thread_id, content: q.content },
            None => Effect::Nothing,
        }
    }

    /// Go on once the agent got the message that waited, or did not.
    pub fn queued_sent(
        &mut self,
        thread: &Thread,
        content: String,
        sent: bool,
        timestamp: String,
    ) -> (e: Effect)
        requires
            old(self).wf(),
        ensures
            queued_shown(*old(self), *thread, content, sent, timestamp, *final(self), e),
            final(self).wf(),
    {
        if sent {
            self.note_message(timestamp, content);
            let ghost mid = *self;
            assert(noted(*old(self), timestamp, content, mid));
            self.show_toast("Queued message sent to agent".to_owned(), ToastStyle::Success);
            Effect::Nothing
        } else {
            let mut message = "Restarting ".to_owned();
            message.append(self.agent.name.as_str());
            message.append(" with queued message...");
            self.show_toast(message, ToastStyle::Info);
            Effect::RestartAgent {
                thread: thread.clone(),
                content,
                cause: RestartCause::QueuedUnreachable,
            }
        }
    }

    /// Go on once the agent was interrupted, or could not be.
    pub fn interrupted(&mut self, sent: bool) -> (e: Effect)
        requires
            old(self).wf(),
        ensures
            interrupt_shown(*old(self), sent, *final(self), e),
            final(self).wf(),
    {
        if !sent {
            return Effect::Nothing;
        }
        match self.compose.queued.take() {
            Some(q) => {
                let mut message = "Interrupted ".to_owned();
                message.append(self.agent.name.as_str());
                message.append(" — sending your message");
                self.show_toast(message, ToastStyle::Info);
                Effect::SendAfterInterrupt { thread_id: q.thread_id, content: q.content }
            },
            None => {
                let message = "Sent interrupt (Ctrl+C) to ".to_owned().concat(
                    self.agent.name.as_str(),
                );
                self.show_toast(message, ToastStyle::Info);
                Effect::Nothing
            },
        }
    }

    /// Show a message that was sent after an interrupt.
    pub fn interrupt_message_sent(&mut self, content: String, timestamp: String)
        requires
            old(self).wf(),
        ensures
            noted(*old(self), timestamp, content, *final(self)),
            final(self).wf(),
    {
        self.note_message(timestamp, content);
    }
}

// ---------------------------------------------------------------------------
// The editor
// ---------------------------------------------------------------------------

/// The clipboard is read for the thread that is written to.
pub open spec fn paste_asked(pre: App, stored: Option<Thread>, post: App, e: Effect) -> bool {
    match paste_thread(pre, stored) {
        Some(id) => post == pre && (e matches Effect::PasteInto { thread_id } && thread_id@ == id),
        None => e == Effect::Nothing && says(pre, post, "No thread for paste"@, ToastStyle::Info),
    }
}

pub open spec fn paste_thread(a: App, stored: Option<Thread>) -> Option<Seq<char>> {
    match message_thread(a) {
        Some(id) => Some(id),
        None => match active_thread(a, stored) {
            Some(thread) => Some(thread.id@),
            None => None,
        },
    }
}

/// What the clipboard held.
pub enum Pasted {
    /// A picture, under the name of its attachment.
    Image { file_name: String },
    Text(String),
    Failed(String),
}

/// A text was inserted into the editor.
pub open spec fn text_inserted(pre: App, text: Seq<char>, post: App) -> bool {
    &&& post.input@ == inserted(pre.input@, text)
    &&& post == (App {
        input: post.input,
        compose: Compose { draft: post.input, ..pre.compose },
        ..pre
    })
}

pub open spec fn paste_shown(pre: App, pasted: Pasted, post: App) -> bool {
    match pasted {
        Pasted::Image { file_name } => exists|mid: App| #[trigger]
            text_inserted(pre, "[image: "@ + file_name@ + "]"@, mid) && says(
                mid,
                post,
                "Image attached: "@ + file_name@,
                ToastStyle::Success,
            ),
        Pasted::Text(text) => text_inserted(pre, text@, post),
        Pasted::Failed(error) => says(pre, post, "Paste failed: "@ + error@, ToastStyle::Error),
    }
}

/// The commands for the text in the editor are suggested; the skills are listed first
/// where they have not been yet.
pub open spec fn commands_suggested(pre: App, post: App, e: Effect) -> bool {
    if is_command(pre.input.text@) && pre.skills.installed@.len() == 0 {
        e == Effect::LoadCommands && post == pre
    } else {
        e == Effect::Nothing && suggestions_made(pre, post)
    }
}

pub open spec fn suggestions_made(pre: App, post: App) -> bool {
    &&& views(post.compose.suggestions@) == suggested(
        skill_names(pre.skills.installed@),
        pre.input.text@,
    )
    &&& post == (App {
        compose: Compose {
            suggestions: post.compose.suggestions,
            suggestion_index: hint_place(
                pre.compose.suggestion_index,
                post.compose.suggestions@.len(),
            ),
            ..pre.compose
        },
        ..pre
    })
}

/// The editor after a key, before what the key asks for.
pub open spec fn compose_edited(
    pre: App,
    code: KeyCode,
    m: KeyModifiers,
    post: App,
    event: ComposeEvent,
) -> bool {
    &&& compose_step(pre.compose, pre.input, post.compose, post.input, code, m, event)
    &&& post == (App { compose: post.compose, input: post.input, ..pre })
}

/// The editor is left, for another tab or not.
pub open spec fn compose_left(a: App, event: ComposeEvent) -> App {
    let left = in_mode(a, InputMode::Normal);
    match event {
        ComposeEvent::ToDashboard => on_tab(left, 0),
        ComposeEvent::NextTab => on_tab(left, next_tab_of(left)),
        ComposeEvent::PreviousTab => on_tab(left, previous_tab_of(left)),
        _ => left,
    }
}

/// What a key of the editor asks for.
pub open spec fn compose_event(
    pre: App,
    stored: Option<Thread>,
    event: ComposeEvent,
    post: App,
    e: Effect,
) -> bool {
    match event {
        ComposeEvent::Nothing => e == Effect::Nothing && post == pre,
        ComposeEvent::Edited => commands_suggested(pre, post, e),
        ComposeEvent::ToDashboard
        | ComposeEvent::NextTab
        | ComposeEvent::PreviousTab
        | ComposeEvent::Leave => e == Effect::Nothing && post == compose_left(pre, event),
        ComposeEvent::Submit => message_submitted(pre, post, e),
        ComposeEvent::Paste => paste_asked(pre, stored, post, e),
    }
}

/// A key while a message is written.
pub open spec fn compose_key_step(
    pre: App,
    stored: Option<Thread>,
    code: KeyCode,
    m: KeyModifiers,
    post: App,
    e: Effect,
) -> bool {
    exists|mid: App, event: ComposeEvent| #[trigger]
        compose_edited(pre, code, m, mid, event) && compose_event(mid, stored, event, post, e)
}

impl App {
    /// Ask for what the clipboard holds.
    pub fn smart_paste_into_compose(&mut self, stored: &Option<Thread>) -> (e: Effect)
        requires
            old(self).wf(),
        ensures
            paste_asked(*old(self), *stored, *final(self), e),
            final(self).wf(),
    {
        let id = match self.message_thread_id() {
            Some(id) => Some(id),
            None => match self.active_session_thread(stored) {
                Some(thread) => Some(thread.id),
                None => None,
            },
        };
        match id {
            Some(thread_id) => Effect::PasteInto { thread_id },
            None => {
                self.show_toast("No thread for paste".to_owned(), ToastStyle::Info);
                Effect::Nothing
            },
        }
    }

    pub(crate) fn insert_into_compose(&mut self, text: &str)
        requires
            old(self).wf(),
        ensures
            text_inserted(*old(self), text@, *final(self)),
            final(self).wf(),
    {
        self.input.insert_text(text);
        self.compose.draft = TextInput { text: self.input.text.clone(), cursor: self.input.cursor };
    }

    /// Insert what the clipboard held.
    pub fn clipboard_pasted(&mut self, pasted: Pasted)
        requires
            old(self).wf(),
        ensures
            paste_shown(*old(self), pasted, *final(self)),
            final(self).wf(),
    {
        match pasted {
            Pasted::Image { file_name } => {
                let mut text = "[image: ".to_owned();
                text.append(file_name.as_str());
                text.append("]");
                self.insert_into_compose(text.as_str());
                let ghost mid = *self;
                assert(text_inserted(*old(self), "[image: "@ + file_name@ + "]"@, mid));
                let message = "Image attached: ".to_owned().concat(file_name.as_str());
                self.show_toast(message, ToastStyle::Success);
            },
            Pasted::Text(text) => {
                self.insert_into_compose(text.as_str());
            },
            Pasted::Failed(error) => {
                let message = "Paste failed: ".to_owned().concat(error.as_str());
                self.show_toast(message, ToastStyle::Error);
            },
        }
    }

    fn make_suggestions(&mut self)
        requires
            old(self).wf(),
        ensures
            suggestions_made(*old(self), *final(self)),
            final(self).wf(),
    {
        self.compose.suggest(&self.skills.installed, self.input.text.as_str());
    }

    /// Suggest commands for the text in the editor.
    pub fn update_slash_suggestions(&mut self) -> (e: Effect)
        requires
            old(self).wf(),
        ensures
            commands_suggested(*old(self), *final(self), e),
            final(self).wf(),
    {
        if self.skills.installed.len() == 0 && crate::compose::holds_command(
            self.input.text.as_str(),
        ) {
            return Effect::LoadCommands;
        }
        self.make_suggestions();
        Effect::Nothing
    }

    /// Suggest commands once the skills have been listed.
    pub fn commands_loaded(&mut self, installed: Vec<InstalledSkill>)
        requires
            old(self).wf(),
        ensures
            suggestions_made(
                (App {
                    skills: Skills { installed: installed, ..old(self).skills },
                    ..*old(self)
                }),
                *final(self),
            ),
            final(self).wf(),
    {
        self.skills.installed = installed;
        self.make_suggestions();
    }

    fn edit_compose(&mut self, code: KeyCode, m: KeyModifiers) -> (event: ComposeEvent)
        requires
            old(self).wf(),
        ensures
            compose_edited(*old(self), code, m, *final(self), event),
            final(self).wf(),
    {
        self.compose.handle_key(&mut self.input, code, m)
    }

    fn leave_compose(&mut self, event: ComposeEvent)
        requires
            old(self).wf(),
        ensures
            *final(self) == compose_left(*old(self), event),
            final(self).wf(),
    {
        self.nav.input_mode = InputMode::Normal;
        match event {
            ComposeEvent::ToDashboard => {
                self.nav.active_tab = 0;
            },
            ComposeEvent::NextTab => {
                self.next_tab();
            },
            ComposeEvent::PreviousTab => {
                self.prev_tab();
            },
            _ => {},
        }
    }

    fn follow_compose_event(&mut self, stored: &Option<Thread>, event: ComposeEvent) -> (e: Effect)
        requires
            old(self).wf(),
        ensures
            compose_event(*old(self), *stored, event, *final(self), e),
            final(self).wf(),
    {
        match event {
            ComposeEvent::Nothing => Effect::Nothing,
            ComposeEvent::Edited => self.update_slash_suggestions(),
            ComposeEvent::ToDashboard
            | ComposeEvent::NextTab
            | ComposeEvent::PreviousTab
            | ComposeEvent::Leave => {
                self.leave_compose(event);
                Effect::Nothing
            },
            ComposeEvent::Submit => self.submit_thread_compose_message(),
            ComposeEvent::Paste => self.smart_paste_into_compose(stored),
        }
    }

    /// Handle a key while a message is written. `stored` is the thread that the
    /// database has for the active session.
    pub fn handle_thread_compose_key(
        &mut self,
        stored: &Option<Thread>,
        code: KeyCode,
        m: KeyModifiers,
    ) -> (e: Effect)
        requires
            old(self).wf(),
        ensures
            compose_key_step(*old(self), *stored, code, m, *final(self), e),
            final(self).wf(),
    {
        let event = self.edit_compose(code, m);
        let ghost mid = *self;
        assert(compose_edited(*old(self), code, m, mid, event));
        self.follow_compose_event(stored, event)
    }
}

// ---------------------------------------------------------------------------
// Laws
// ---------------------------------------------------------------------------

/// A recorded message is handed on: it is sent to the agent, waits for it, or goes to
/// an agent that is started again.
pub proof fn law_recorded_message_is_handed_on(
    pre: App,
    thread: Thread,
    content: String,
    prompt: Option<bool>,
    post: App,
    e: Effect,
)
    requires
        message_routed(pre, thread, content, prompt, post, e),
    ensures
        (e matches Effect::SendMessage { content: c, .. } && c == content) || (
        e matches Effect::RestartAgent { content: c, .. } && c == content) || (
        post.compose.queued matches Some(q) && q.thread_id == thread.id && q.content == content),
{
}

/// An agent that is at work is not disturbed: its message waits.
pub proof fn law_working_agents_are_left_alone(
    pre: App,
    thread: Thread,
    content: String,
    prompt: Option<bool>,
    post: App,
    e: Effect,
)
    requires
        message_routed(pre, thread, content, prompt, post, e),
        agent_works(pre, thread.session_id, prompt),
    ensures
        !(e is SendMessage) && !(e is RestartAgent),
        post.compose.queued == Some(Queued { thread_id: thread.id, content: content }),
{
}

/// A message that waits is sent once, and only to an agent that has time for it.
pub proof fn law_queue_drains_once(a: App, b: App, e: Effect, c: App, f: Effect)
    requires
        queue_drained(a, b, e),
        queue_drained(b, c, f),
        e != Effect::Nothing,
    ensures
        queue_ready(a),
        f == Effect::Nothing,
        c == b,
{
}

/// A message to an agent that cannot be started again stays in the editor.
pub proof fn law_unsent_message_is_kept(
    pre: App,
    thread: Thread,
    content: String,
    cause: RestartCause,
    timestamp: String,
    post: App,
    e: Effect,
)
    requires
        restart_shown(pre, thread, content, cause, false, timestamp, post, e),
        cause != RestartCause::QueuedUnreachable,
    ensures
        post.input.text == content,
        post.compose.draft.text == content,
        post.nav.input_mode == InputMode::ThreadCompose,
{
}

/// Where the active session shows its prompt, a recorded message goes straight to the
/// agent of its thread. Nothing is started again, and nothing waits that did not wait
/// before.
pub proof fn law_agents_at_their_prompt_get_the_message(
    pre: App,
    thread: Thread,
    content: String,
    prompt: Option<bool>,
    post: App,
    e: Effect,
)
    requires
        message_routed(pre, thread, content, prompt, post, e),
        prompt == Some(true),
    ensures
        e == (Effect::SendMessage { thread: thread, content: content }),
        post.compose.queued == pre.compose.queued,
        post.toast == pre.toast,
{
}

/// A recorded message starts an agent again exactly where the session of the thread was
/// seen without an agent and no prompt is shown.
pub proof fn law_only_silent_agents_are_restarted(
    pre: App,
    thread: Thread,
    content: String,
    prompt: Option<bool>,
    post: App,
    e: Effect,
)
    requires
        message_routed(pre, thread, content, prompt, post, e),
    ensures
        e is RestartAgent <==> prompt != Some(true) && (thread.session_id matches Some(id)
            && exists|k: int| 0 <= k < pre.pty_idle@.len() && (#[trigger] pre.pty_idle@[k])@ == id@),
        e is RestartAgent ==> e == (Effect::RestartAgent {
            thread: thread,
            content: content,
            cause: RestartCause::Ended,
        }),
{
    if let Some(id) = thread.session_id {
        lemma_names(pre.pty_idle, id@);
    }
}

proof fn lemma_names(list: Vec<String>, id: Seq<char>)
    ensures
        names(list, id) <==> exists|k: int| 0 <= k < list@.len() && (#[trigger] list@[k])@ == id,
{
    if names(list, id) {
        let k = choose|k: int| 0 <= k < views(list@).len() && views(list@)[k] == id;
        assert(list@[k]@ == id);
    }
    if exists|k: int| 0 <= k < list@.len() && (#[trigger] list@[k])@ == id {
        let k = choose|k: int| 0 <= k < list@.len() && (#[trigger] list@[k])@ == id;
        assert(views(list@)[k] == id);
    }
}

/// A recorded message waits exactly where a listed session of the thread is at work in an
/// open tab, was not seen without an agent, and shows no prompt. The message that waits is
/// the recorded one, for its thread.
pub proof fn law_messages_wait_for_working_agents(
    pre: App,
    thread: Thread,
    content: String,
    prompt: Option<bool>,
    post: App,
    e: Effect,
)
    requires
        message_routed(pre, thread, content, prompt, post, e),
    ensures
        e is RefreshAndShow <==> prompt != Some(true) && (thread.session_id matches Some(id) && (
        exists|i: int|
            0 <= i < pre.sessions@.len() && (#[trigger] pre.sessions@[i]).id@ == id@
                && pre.sessions@[i].claude_status == ClaudeStatus::Working) && (exists|t: int|
            0 <= t < pre.tabs@.len() && ((#[trigger] pre.tabs@[t]) matches Tab::Session {
                session_id,
                ..
            } && session_id@ == id@)) && (forall|k: int|
            0 <= k < pre.pty_idle@.len() ==> (#[trigger] pre.pty_idle@[k])@ != id@)),
        e is RefreshAndShow ==> post.compose.queued == Some(
            Queued { thread_id: thread.id, content: content },
        ),
        !(e is RefreshAndShow) ==> post.compose.queued == pre.compose.queued,
        e is RefreshAndShow || e is RestartAgent || e == (Effect::SendMessage {
            thread: thread,
            content: content,
        }),
{
    if let Some(id) = thread.session_id {
        lemma_names(pre.pty_idle, id@);
        law_the_first_tab_counts(pre.tabs@, id@);
    }
}

/// A message is sent without the space around it, to the thread that is written to, else to
/// the selected one; it is remembered last. A blank message is not sent.
pub proof fn law_messages_are_recorded(pre: App, post: App, e: Effect)
    requires
        message_submitted(pre, post, e),
    ensures
        pre.compose.thread_id matches Some(id) ==> (!is_blank(pre.compose.draft.text@) ==> (
        e matches Effect::RecordMessage { thread_id, role, content } && thread_id@ == id@ && role@
            == "user"@ && content@ == trimmed(pre.compose.draft.text@))),
        pre.compose.thread_id is None ==> (crate::app::thread_of(pre) matches Some(t) ==> (!is_blank(
            pre.compose.draft.text@,
        ) ==> (e matches Effect::RecordMessage { thread_id, .. } && thread_id@ == t.id@))),
        is_blank(pre.compose.draft.text@) ==> e == Effect::Nothing && post.compose == pre.compose,
        e is RecordMessage ==> views(post.compose.history@) =~= views(pre.compose.history@).push(
            trimmed(pre.compose.draft.text@),
        ) && post.compose.history_index is None,
{
}

/// A message that waits is sent once the agent of its thread is idle: by its status, or by
/// what its terminal shows. While the agent works it waits on.
pub proof fn law_queued_messages_are_sent_to_idle_agents(
    pre: App,
    post: App,
    e: Effect,
    t: int,
    s: int,
)
    requires
        queue_drained(pre, post, e),
        pre.compose.queued is Some,
        0 <= t < pre.threads@.len(),
        pre.threads@[t].id@ == pre.compose.queued->0.thread_id@,
        forall|j: int|
            0 <= j < t ==> (#[trigger] pre.threads@[j]).id@ != pre.compose.queued->0.thread_id@,
        pre.threads@[t].session_id is Some,
    ensures
        0 <= s < pre.sessions@.len() && pre.sessions@[s].id@ == pre.threads@[t].session_id->0@
            && pre.sessions@[s].claude_status == ClaudeStatus::Idle ==> e == (Effect::SendQueued {
            thread_id: pre.compose.queued->0.thread_id,
            content: pre.compose.queued->0.content,
        }) && post.compose.queued is None,
        0 <= s < pre.pty_idle@.len() && pre.pty_idle@[s]@ == pre.threads@[t].session_id->0@ ==> e
            == (Effect::SendQueued {
            thread_id: pre.compose.queued->0.thread_id,
            content: pre.compose.queued->0.content,
        }) && post.compose.queued is None,
        (forall|k: int|
            0 <= k < pre.sessions@.len() && (#[trigger] pre.sessions@[k]).id@
                == pre.threads@[t].session_id->0@ ==> pre.sessions@[k].claude_status
                != ClaudeStatus::Idle) && (forall|k: int|
            0 <= k < pre.pty_idle@.len() ==> (#[trigger] pre.pty_idle@[k])@
                != pre.threads@[t].session_id->0@) ==> e == Effect::Nothing && post == pre,
{
    let id = pre.compose.queued->0.thread_id@;
    let session = pre.threads@[t].session_id->0@;
    law_the_first_thread_counts(pre.threads@, id, t);
    if 0 <= s < pre.pty_idle@.len() && pre.pty_idle@[s]@ == session {
        assert(views(pre.pty_idle@)[s] == session);
        assert(names(pre.pty_idle, session));
    }
    if (forall|k: int| 0 <= k < pre.pty_idle@.len() ==> (#[trigger] pre.pty_idle@[k])@ != session) {
        assert(!names(pre.pty_idle, session)) by {
            if names(pre.pty_idle, session) {
                let all = views(pre.pty_idle@);
                let k = choose|k: int| 0 <= k < all.len() && all[k] == session;
                assert(pre.pty_idle@[k]@ == session);
            }
        }
    }
}

/// Without a message that waits nothing is sent.
pub proof fn law_an_empty_queue_sends_nothing(pre: App, post: App, e: Effect)
    requires
        queue_drained(pre, post, e),
        pre.compose.queued is None,
    ensures
        e == Effect::Nothing,
        post == pre,
{
}

/// What became of a message: a delivered one is noted and the line is empty for the next; a
/// message that did not arrive starts the agent again with it.
pub proof fn law_deliveries_are_shown(
    pre: App,
    thread: Thread,
    content: String,
    sent: bool,
    timestamp: String,
    post: App,
    e: Effect,
)
    requires
        delivery_shown(pre, thread, content, sent, timestamp, post, e),
    ensures
        sent ==> e == (Effect::RefreshAndShow { thread: thread }) && post.input.text@.len() == 0
            && post.compose.draft.text@.len() == 0 && post.compose.thread_id == Some(thread.id)
            && (pre.conversation matches Some(a) ==> (post.conversation matches Some(b)
            && b.entries@ =~= a.entries@.push(
            ConversationEntry::UserMessage { timestamp: timestamp, text: content },
        ))) && (post.toast matches Some(t) && t.style == ToastStyle::Success),
        !sent ==> post == pre && e == (Effect::RestartAgent {
            thread: thread,
            content: content,
            cause: RestartCause::Unreachable,
        }),
{
}

/// A message that could not be handed on, because the agent could not be started again,
/// stands in the line again, with the cursor behind it.
pub proof fn law_undelivered_messages_stay_in_the_line(
    pre: App,
    thread: Thread,
    content: String,
    cause: RestartCause,
    timestamp: String,
    post: App,
    e: Effect,
)
    requires
        restart_shown(pre, thread, content, cause, false, timestamp, post, e),
    ensures
        cause == RestartCause::Ended || cause == RestartCause::Unreachable ==> post.input.text
            == content && post.compose.draft.text == content && post.input.cursor == byte_len(
            content@,
        ) as usize && post.compose.thread_id == Some(thread.id) && post.nav.input_mode
            == InputMode::ThreadCompose && (post.toast matches Some(t) && t.style
            == ToastStyle::Error),
        cause == RestartCause::QueuedUnreachable ==> post == pre && e == Effect::Nothing,
{
}

/// An interrupt sends the message that waits at once; without one it says that it was sent,
/// and where it did not arrive nothing changes.
pub proof fn law_interrupts_send_what_waits(pre: App, sent: bool, post: App, e: Effect)
    requires
        interrupt_shown(pre, sent, post, e),
    ensures
        sent ==> (pre.compose.queued matches Some(q) ==> e == (Effect::SendAfterInterrupt {
            thread_id: q.thread_id,
            content: q.content,
        }) && post.compose.queued is None),
        sent && pre.compose.queued is None ==> e == Effect::Nothing && post.toast is Some,
        !sent ==> e == Effect::Nothing && post == pre,
{
}

/// What is pasted stands at the cursor: a text as it is, a picture as its name in brackets.
/// A failed paste changes no text.
pub proof fn law_pastes_are_inserted(pre: App, pasted: Pasted, post: App)
    requires
        paste_shown(pre, pasted, post),
    ensures
        pasted matches Pasted::Text(text) ==> post.input@.text() =~= pre.input@.before + text@
            + pre.input@.after && post.compose.draft == post.input,
        pasted matches Pasted::Image { file_name } ==> post.input@.text() =~= pre.input@.before + (
        "[image: "@ + file_name@ + "]"@) + pre.input@.after,
        pasted is Failed ==> post.input == pre.input && (post.toast matches Some(t) && t.style
            == ToastStyle::Error),
{
}

/// What is pasted into a terminal is marked as pasted in front and behind.
pub proof fn law_terminal_pastes_are_marked(text: Seq<char>)
    ensures
        begins_with(pasted_text(text), "\u{1b}[200~"@),
        contains_text(pasted_text(text), text),
        pasted_text(text).len() >= 6 && pasted_text(text).skip(pasted_text(text).len() - 6)
            =~= "\u{1b}[201~"@,
{
    reveal_strlit("\u{1b}[200~");
    reveal_strlit("\u{1b}[201~");
    let a = "\u{1b}[200~"@;
    assert(pasted_text(text).take(6) =~= a);
    crate::text::lemma_part_is_found(a, text, "\u{1b}[201~"@);
}

/// The keys that leave the message line lead to the dashboard, to the tabs beside, or back
/// to the session.
pub proof fn law_leaving_the_line_leads_on(
    pre: App,
    stored: Option<Thread>,
    event: ComposeEvent,
    post: App,
    e: Effect,
)
    requires
        compose_event(pre, stored, event, post, e),
    ensures
        event == ComposeEvent::ToDashboard ==> post.nav.active_tab == 0 && post.nav.input_mode
            == InputMode::Normal,
        event == ComposeEvent::Leave ==> post.nav.input_mode == InputMode::Normal
            && post.nav.active_tab == pre.nav.active_tab,
        event == ComposeEvent::NextTab && pre.nav.active_tab + 1 < pre.tabs@.len()
            ==> post.nav.active_tab == pre.nav.active_tab + 1,
        event == ComposeEvent::PreviousTab && pre.nav.active_tab > 0 && pre.tabs@.len() > 1
            ==> post.nav.active_tab + 1 == pre.nav.active_tab,
        event == ComposeEvent::Paste ==> post.input == pre.input,
        event == ComposeEvent::Paste ==> (pre.compose.thread_id matches Some(id) ==> (
        e matches Effect::PasteInto { thread_id } && thread_id@ == id@)),
{
    if pre.nav.active_tab + 1 < pre.tabs@.len() {
        let n = pre.tabs@.len() as int;
        assert(pre.tabs.len() == n);
        let i = pre.nav.active_tab as int;
        assert((i + 1) % n == i + 1) by (nonlinear_arith)
            requires
                0 <= i + 1 < n,
        ;
    }
}

/// A message that waited is noted when it is sent; where the agent could not be reached it
/// is started again with the message.
pub proof fn law_queued_deliveries_are_shown(
    pre: App,
    thread: Thread,
    content: String,
    sent: bool,
    timestamp: String,
    post: App,
    e: Effect,
)
    requires
        queued_shown(pre, thread, content, sent, timestamp, post, e),
    ensures
        sent ==> e == Effect::Nothing && (post.toast matches Some(t) && t.style
            == ToastStyle::Success) && (pre.conversation matches Some(a) ==> (
        post.conversation matches Some(b) && b.entries@ =~= a.entries@.push(
            ConversationEntry::UserMessage { timestamp: timestamp, text: content },
        ))),
        !sent ==> e == (Effect::RestartAgent {
            thread: thread,
            content: content,
            cause: RestartCause::QueuedUnreachable,
        }) && post.conversation == pre.conversation,
{
}

/// After a message the thread that it went to is shown, unless it is shown already.
pub proof fn law_the_thread_stays_in_sight(pre: App, thread: Thread, stored: Option<String>)
    ensures
        thread.session_id matches Some(id) ==> (crate::app::session_of(pre) == Some(id@)
            ==> thread_kept(pre, thread, stored) == pre),
        crate::app::session_of(pre) is None ==> thread_kept(pre, thread, stored)
            == crate::launching::at_thread(pre, thread.id@, stored),
{
}

/// Commands are suggested from the skills that are known; where none is known and a command
/// is typed, they are loaded first.
pub proof fn law_commands_are_loaded_first(pre: App, post: App, e: Effect)
    requires
        commands_suggested(pre, post, e),
    ensures
        pre.input.text@.len() > 0 && pre.input.text@[0] == '/' && !pre.input.text@.contains(' ')
            && pre.skills.installed@.len() == 0 ==> e == Effect::LoadCommands && post == pre,
        pre.skills.installed@.len() > 0 ==> e == Effect::Nothing && views(
            post.compose.suggestions@,
        ) == suggested(skill_names(pre.skills.installed@), pre.input.text@),
        pre.input.text@.len() == 0 ==> e == Effect::Nothing && post.compose.suggestions@.len() == 0,
{
    if pre.input.text@.len() == 0 {
        assert(views(post.compose.suggestions@).len() == 0);
    }
}

/// Enter in the message line sends what was typed to the thread that is written to.
pub proof fn law_enter_sends_the_line(
    pre: App,
    stored: Option<Thread>,
    m: KeyModifiers,
    post: App,
    e: Effect,
)
    requires
        compose_key_step(pre, stored, KeyCode::Enter, m, post, e),
        pre.compose.suggestions@.len() == 0,
        pre.compose.thread_id is Some,
        !is_blank(pre.input.text@),
    ensures
        e matches Effect::RecordMessage { thread_id, role, content } && thread_id@
            == pre.compose.thread_id->0@ && role@ == "user"@ && content@ == trimmed(
            pre.input.text@,
        ),
{
    let (mid, event) = choose|mid: App, event: ComposeEvent| #[trigger]
        compose_edited(pre, KeyCode::Enter, m, mid, event) && compose_event(
            mid,
            stored,
            event,
            post,
            e,
        );
    assert(event == ComposeEvent::Submit);
    assert(mid.compose.draft.text@ == pre.input.text@);
}

} // verus!
