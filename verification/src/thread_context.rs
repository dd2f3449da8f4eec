//! What is shown of a thread: its conversation, and a summary of its runs, services,
//! workflow and item at GitHub.

use vstd::prelude::*;
use vstd::string::*;

use crate::app::{
    active_thread, at, find_session, session_of, session_with_id, thread_of, App, Tab,
};
use crate::compose::Compose;
use crate::conversation::{
    cache_is_for, detect_quick_reply_choices, extend_cache, is_current, missing_log,
    offered_choices,
};
use crate::lists::first_where;
use crate::settings::{clone_text, text_option};
use crate::store::{
    provider_name, provider_text, ConversationEntry, GitHubIssueCache, GitHubItem, GitHubPrCache,
    ProviderKind, Session, Thread, ThreadAttachment, ThreadMessage,
};
use crate::text::{
    begins_with, byte_len, bytes_in, chars_of, contains_text, decimal, format_number, format_signed,
    lemma_found_beside, same, signed_decimal, text_between, views, width_of,
};
use crate::text_input::chars_within;
use crate::views::SessionTabView;

verus! {

// ---------------------------------------------------------------------------
// The conversation
// ---------------------------------------------------------------------------

/// The conversation of a session without a log.
pub open spec fn log_missing(pre: App, session: Seq<char>, post: App) -> bool {
    &&& post.conversation matches Some(c) && c.session_id@ == session && c.entries@.len() == 0
        && c.file_offset == 0 && c.path is None
    &&& post == (App { conversation: post.conversation, ..pre })
}

/// The log of a session was read on; the answers that it offers are shown.
pub open spec fn log_read(
    pre: App,
    session: Seq<char>,
    path: Seq<char>,
    entries: Seq<ConversationEntry>,
    offset: u64,
    post: App,
) -> bool {
    &&& post.conversation matches Some(c) && c.session_id@ == session && (c.path matches Some(p)
        && p@ == path) && c.file_offset == offset && c.entries@ == (if cache_is_for(
        pre.conversation,
        session,
        path,
    ) {
        pre.conversation->0.entries@ + entries
    } else {
        entries
    }) && views(post.compose.quick_replies@) == offered_choices(c.entries@)
    &&& post == (App {
        conversation: post.conversation,
        compose: Compose { quick_replies: post.compose.quick_replies, ..pre.compose },
        ..pre
    })
}

/// Where the log of a session is looked for.
pub struct LogQuery {
    pub session_id: String,
    pub worktree_path: String,
    pub claude_session_id: Option<String>,
}

/// The active session: the listed one, else the one that the database has.
pub open spec fn shown_session(a: App, stored: Option<Session>) -> Option<Session> {
    match session_of(a) {
        Some(id) => match first_where(a.sessions@, session_with_id(id)) {
            Some(session) => Some(session),
            None => stored,
        },
        None => None,
    }
}

/// The log of the active session has not grown since it was read.
pub open spec fn log_is_current(a: App, size: Option<u64>) -> bool {
    a.conversation matches Some(c) && session_of(a) == Some(c.session_id@) && c.path is Some && size
        == Some(c.file_offset)
}

/// The active tab shows a conversation.
pub open spec fn in_conversation(a: App) -> bool {
    at(a.tabs@, a.nav.active_tab as int) matches Some(Tab::Session { view_mode, .. })
        && view_mode == SessionTabView::Conversation
}

/// The log of the active session is looked for while its tab shows the conversation,
/// unless it was read to its end.
pub open spec fn log_wanted(
    a: App,
    stored: Option<Session>,
    size: Option<u64>,
    r: Option<LogQuery>,
) -> bool {
    match shown_session(a, stored) {
        Some(session) if in_conversation(a) && !log_is_current(a, size) => r matches Some(q) && session_of(a) == Some(
            q.session_id@,
        ) && q.worktree_path@ == session.worktree_path@ && text_option(q.claude_session_id)
            == text_option(session.claude_session_id),
        _ => r is None,
    }
}

impl App {
    fn shows_conversation_view(&self) -> (r: bool)
        ensures
            r == in_conversation(*self),
    {
        if self.nav.active_tab >= self.tabs.len() {
            return false;
        }
        match &self.tabs[self.nav.active_tab] {
            Tab::Session { view_mode, .. } => *view_mode == SessionTabView::Conversation,
            Tab::Dashboard => false,
        }
    }

    /// Where to look for the log of the active session; `stored` is the session that
    /// the database has, `size` that of the file that was read last.
    pub fn refresh_conversation_cache(&self, stored: &Option<Session>, size: Option<u64>) -> (r:
        Option<LogQuery>)
        ensures
            log_wanted(*self, *stored, size, r),
    {
        if !self.shows_conversation_view() {
            return None;
        }
        let session_id = match self.active_session_id() {
            Some(id) => id.clone(),
            None => {
                return None;
            },
        };
        let session = match find_session(&self.sessions, session_id.as_str()) {
            Some(session) => session,
            None => match stored {
                Some(session) => session,
                None => {
                    return None;
                },
            },
        };
        if is_current(&self.conversation, session_id.as_str(), size) {
            return None;
        }
        Some(
            LogQuery {
                session_id,
                worktree_path: session.worktree_path.clone(),
                claude_session_id: clone_text(&session.claude_session_id),
            },
        )
    }

    /// Note that a session has no log yet.
    pub fn conversation_missing(&mut self, session_id: &str)
        requires
            old(self).wf(),
        ensures
            log_missing(*old(self), session_id@, *final(self)),
            final(self).wf(),
    {
        self.conversation = Some(missing_log(session_id));
    }

    /// Take in what was read of a session's log, up to an offset.
    pub fn conversation_read(
        &mut self,
        session_id: &str,
        path: &str,
        entries: Vec<ConversationEntry>,
        offset: u64,
    )
        requires
            old(self).wf(),
        ensures
            log_read(*old(self), session_id@, path@, entries@, offset, *final(self)),
            final(self).wf(),
    {
        let before = self.conversation.take();
        let cache = extend_cache(before, session_id, path, entries, offset);
        self.compose.quick_replies = detect_quick_reply_choices(&cache.entries);
        self.conversation = Some(cache);
    }
}

// ---------------------------------------------------------------------------
// The context
// ---------------------------------------------------------------------------

/// A run of an agent.
pub struct ThreadRun {
    pub id: String,
    pub provider_kind: ProviderKind,
    pub provider_profile: Option<String>,
    pub status: String,
}

impl Clone for ThreadRun {
    fn clone(&self) -> (r: Self)
        ensures
            r == *self,
    {
        ThreadRun {
            id: self.id.clone(),
            provider_kind: self.provider_kind,
            provider_profile: clone_text(&self.provider_profile),
            status: self.status.clone(),
        }
    }
}

pub struct RuntimeState {
    pub profile_name: Option<String>,
    pub build_status: Option<String>,
}

#[derive(Clone, Copy, Debug, PartialEq, Eq, Structural)]
pub enum ServiceStatus {
    Stopped,
    Starting,
    Running,
    Healthy,
    Failed,
}

pub struct WorkflowRun {
    pub status: String,
    pub current_stage: Option<String>,
}

pub struct WorkflowStage {
    pub stage_name: String,
    pub status: String,
}

impl Clone for WorkflowStage {
    fn clone(&self) -> (r: Self)
        ensures
            r == *self,
    {
        WorkflowStage { stage_name: self.stage_name.clone(), status: self.status.clone() }
    }
}

/// What a piece of knowledge belongs to.
pub struct KnowledgeLink {
    pub thread_id: Option<String>,
    pub github_item_id: Option<String>,
}

/// What the database holds of a thread. A listing that failed is `None`.
pub struct ThreadFacts {
    pub messages: Option<Vec<ThreadMessage>>,
    pub runs: Option<Vec<ThreadRun>>,
    pub attachments: Option<Vec<ThreadAttachment>>,
    pub runtime_state: Option<RuntimeState>,
    pub runtime_services: Vec<ServiceStatus>,
    pub workflow_name: Option<String>,
    pub workflow_run: Option<WorkflowRun>,
    pub workflow_stages: Vec<WorkflowStage>,
    pub workflow_artifact_count: usize,
    pub github_item: Option<GitHubItem>,
    pub issue_cache: Option<GitHubIssueCache>,
    pub pr_cache: Option<GitHubPrCache>,
    pub comment_count: usize,
    pub review_count: usize,
    pub review_comment_count: usize,
    /// The knowledge of the thread's project.
    pub cards: Vec<KnowledgeLink>,
    pub drafts: Vec<KnowledgeLink>,
}

pub struct SelectedThreadContext {
    pub thread: Thread,
    pub messages: Vec<ThreadMessage>,
    pub attachments: Vec<ThreadAttachment>,
    pub runs: Vec<ThreadRun>,
    pub latest_run: Option<ThreadRun>,
    pub message_count: usize,
    pub run_count: usize,
    pub attachment_count: usize,
    pub runtime_state: Option<RuntimeState>,
    pub runtime_services: Vec<ServiceStatus>,
    pub workflow_name: Option<String>,
    pub workflow_run: Option<WorkflowRun>,
    pub workflow_stage: Option<WorkflowStage>,
    pub workflow_stages: Vec<WorkflowStage>,
    pub workflow_artifact_count: usize,
    pub github_item: Option<GitHubItem>,
    pub issue_cache: Option<GitHubIssueCache>,
    pub pr_cache: Option<GitHubPrCache>,
    pub comment_count: usize,
    pub review_count: usize,
    pub review_comment_count: usize,
    pub knowledge_card_count: usize,
    pub knowledge_draft_count: usize,
}

pub open spec fn stage_named(stages: Seq<WorkflowStage>, name: Seq<char>, from: int) -> Option<
    WorkflowStage,
>
    decreases stages.len() - from,
{
    if from < 0 || from >= stages.len() {
        None
    } else if stages[from].stage_name@ == name {
        Some(stages[from])
    } else {
        stage_named(stages, name, from + 1)
    }
}

pub open spec fn last_in<A>(s: Seq<A>) -> Option<A> {
    if s.len() == 0 {
        None
    } else {
        Some(s.last())
    }
}

/// The stage that a run is at; the last one where its name is not known.
pub open spec fn stage_of_run(run: WorkflowRun, stages: Seq<WorkflowStage>) -> Option<
    WorkflowStage,
> {
    match run.current_stage {
        Some(name) => match stage_named(stages, name@, 0) {
            Some(stage) => Some(stage),
            None => last_in(stages),
        },
        None => last_in(stages),
    }
}

/// The knowledge belongs to a thread, or to the same item, or both to none.
pub open spec fn is_known_to(link: KnowledgeLink, thread: Thread) -> bool {
    text_option(link.thread_id) == Some(thread.id@) || text_option(link.github_item_id)
        == text_option(thread.github_item_id)
}

/// How many of the first `n` pieces of knowledge belong to a thread.
pub open spec fn known_count(links: Seq<KnowledgeLink>, thread: Thread, n: nat) -> nat
    decreases n,
{
    if n == 0 {
        0
    } else {
        known_count(links, thread, (n - 1) as nat) + if is_known_to(links[n - 1], thread) {
            1nat
        } else {
            0
        }
    }
}

/// The messages, runs and attachments of a thread could be listed.
pub open spec fn is_listed(f: ThreadFacts) -> bool {
    f.messages is Some && f.runs is Some && f.attachments is Some
}

/// The context holds the lists of a thread, their lengths, and the last run.
pub open spec fn lists_in(c: SelectedThreadContext, f: ThreadFacts) -> bool {
    &&& f.messages == Some(c.messages)
    &&& f.attachments == Some(c.attachments)
    &&& f.runs == Some(c.runs)
    &&& c.latest_run == last_in(c.runs@)
    &&& c.message_count == c.messages@.len()
    &&& c.attachment_count == c.attachments@.len()
    &&& c.run_count == c.runs@.len()
}

/// The context holds what belongs to the run of a workflow that the thread names; nothing
/// without one.
pub open spec fn workflow_in(c: SelectedThreadContext, thread: Thread, f: ThreadFacts) -> bool {
    if thread.workflow_run_id is Some && f.workflow_run is Some {
        &&& c.workflow_run == f.workflow_run
        &&& c.workflow_name == f.workflow_name
        &&& c.workflow_stages == f.workflow_stages
        &&& c.workflow_stage == stage_of_run(f.workflow_run->0, f.workflow_stages@)
        &&& c.workflow_artifact_count == f.workflow_artifact_count
    } else {
        &&& c.workflow_run is None
        &&& c.workflow_name is None
        &&& c.workflow_stages@ == Seq::<WorkflowStage>::empty()
        &&& c.workflow_stage is None
        &&& c.workflow_artifact_count == 0
    }
}

/// The context holds what belongs to the GitHub item that the thread names; nothing
/// without one.
pub open spec fn item_in(c: SelectedThreadContext, thread: Thread, f: ThreadFacts) -> bool {
    if thread.github_item_id is Some && f.github_item is Some {
        &&& c.github_item == f.github_item
        &&& c.issue_cache == f.issue_cache
        &&& c.pr_cache == f.pr_cache
        &&& c.comment_count == f.comment_count
        &&& c.review_count == f.review_count
        &&& c.review_comment_count == f.review_comment_count
    } else {
        &&& c.github_item is None
        &&& c.issue_cache is None
        &&& c.pr_cache is None
        &&& c.comment_count == 0
        &&& c.review_count == 0
        &&& c.review_comment_count == 0
    }
}

/// The context holds the state of the runtime; its services only with a state.
pub open spec fn runtime_in(c: SelectedThreadContext, f: ThreadFacts) -> bool {
    &&& c.runtime_state == f.runtime_state
    &&& c.runtime_services@ == (if f.runtime_state is Some {
        f.runtime_services@
    } else {
        Seq::empty()
    })
}

/// The context that the facts make up.
pub open spec fn is_context(c: SelectedThreadContext, thread: Thread, f: ThreadFacts) -> bool {
    &&& c.thread == thread
    &&& lists_in(c, f)
    &&& runtime_in(c, f)
    &&& workflow_in(c, thread, f)
    &&& item_in(c, thread, f)
    &&& c.knowledge_card_count == known_count(f.cards@, thread, f.cards@.len())
    &&& c.knowledge_draft_count == known_count(f.drafts@, thread, f.drafts@.len())
}

/// There is a context unless a list of the thread is missing.
pub open spec fn context_made(
    r: Option<SelectedThreadContext>,
    thread: Thread,
    f: ThreadFacts,
) -> bool {
    match r {
        Some(c) => is_listed(f) && is_context(c, thread, f),
        None => !is_listed(f),
    }
}

fn find_stage(stages: &Vec<WorkflowStage>, name: &str) -> (r: Option<WorkflowStage>)
    ensures
        r == stage_named(stages@, name@, 0),
{
    let mut i: usize = 0;
    while i < stages.len()
        invariant
            i <= stages@.len(),
            stage_named(stages@, name@, 0) == stage_named(stages@, name@, i as int),
        decreases stages@.len() - i,
    {
        if same(stages[i].stage_name.as_str(), name) {
            return Some(stages[i].clone());
        }
        i += 1;
    }
    None
}

fn current_stage(run: &WorkflowRun, stages: &Vec<WorkflowStage>) -> (r: Option<WorkflowStage>)
    ensures
        r == stage_of_run(*run, stages@),
{
    if let Some(name) = &run.current_stage {
        if let Some(stage) = find_stage(stages, name.as_str()) {
            return Some(stage);
        }
    }
    let n: usize = stages.len();
    if n > 0 {
        Some(stages[n - 1].clone())
    } else {
        None
    }
}

fn same_option(a: &Option<String>, b: &Option<String>) -> (r: bool)
    ensures
        r == (text_option(*a) == text_option(*b)),
{
    match (a, b) {
        (Some(x), Some(y)) => same(x.as_str(), y.as_str()),
        (None, None) => true,
        _ => false,
    }
}

fn count_known(links: &Vec<KnowledgeLink>, thread: &Thread) -> (r: usize)
    ensures
        r == known_count(links@, *thread, links@.len()),
{
    let mut n: usize = 0;
    let mut i: usize = 0;
    while i < links.len()
        invariant
            i <= links@.len(),
            n <= i,
            n == known_count(links@, *thread, i as nat),
        decreases links@.len() - i,
    {
        let of_thread = match &links[i].thread_id {
            Some(id) => same(id.as_str(), thread.id.as_str()),
            None => false,
        };
        if of_thread || same_option(&links[i].github_item_id, &thread.github_item_id) {
            n += 1;
        }
        i += 1;
    }
    n
}

/// The facts without what hangs on a run of a workflow or on a GitHub item that is not
/// there.
fn settle_facts(thread: &Thread, facts: ThreadFacts) -> (r: ThreadFacts)
    ensures
        r.messages == facts.messages && r.runs == facts.runs && r.attachments
            == facts.attachments,
        r.cards == facts.cards && r.drafts == facts.drafts,
        r.runtime_state == facts.runtime_state,
        r.runtime_services@ == (if facts.runtime_state is Some {
            facts.runtime_services@
        } else {
            Seq::empty()
        }),
        if thread.workflow_run_id is Some && facts.workflow_run is Some {
            r.workflow_run == facts.workflow_run && r.workflow_name == facts.workflow_name
                && r.workflow_stages == facts.workflow_stages && r.workflow_artifact_count
                == facts.workflow_artifact_count
        } else {
            r.workflow_run is None && r.workflow_name is None && r.workflow_stages@ == Seq::<
                WorkflowStage,
            >::empty() && r.workflow_artifact_count == 0
        },
        if thread.github_item_id is Some && facts.github_item is Some {
            r.github_item == facts.github_item && r.issue_cache == facts.issue_cache && r.pr_cache
                == facts.pr_cache && r.comment_count == facts.comment_count && r.review_count
                == facts.review_count && r.review_comment_count == facts.review_comment_count
        } else {
            r.github_item is None && r.issue_cache is None && r.pr_cache is None
                && r.comment_count == 0 && r.review_count == 0 && r.review_comment_count == 0
        },
{
    let mut r = facts;
    if r.runtime_state.is_none() {
        r.runtime_services = Vec::new();
    }
    if thread.workflow_run_id.is_none() || r.workflow_run.is_none() {
        r.workflow_run = None;
        r.workflow_name = None;
        r.workflow_stages = Vec::new();
        r.workflow_artifact_count = 0;
    }
    if thread.github_item_id.is_none() || r.github_item.is_none() {
        r.github_item = None;
        r.issue_cache = None;
        r.pr_cache = None;
        r.comment_count = 0;
        r.review_count = 0;
        r.review_comment_count = 0;
    }
    r
}

/// Put together what is shown of a thread; nothing where one of its lists is missing.
pub fn build_thread_context(thread: Thread, facts: ThreadFacts) -> (r: Option<
    SelectedThreadContext,
>)
    ensures
        context_made(r, thread, facts),
{
    let facts = settle_facts(&thread, facts);
    let (messages, runs, attachments) = match (facts.messages, facts.runs, facts.attachments) {
        (Some(messages), Some(runs), Some(attachments)) => (messages, runs, attachments),
        _ => {
            return None;
        },
    };
    let message_count: usize = messages.len();
    let attachment_count: usize = attachments.len();
    let run_count: usize = runs.len();
    let latest_run = if run_count > 0 {
        Some(runs[run_count - 1].clone())
    } else {
        None
    };
    let workflow_stage = match &facts.workflow_run {
        Some(run) => current_stage(run, &facts.workflow_stages),
        None => None,
    };
    let knowledge_card_count: usize = count_known(&facts.cards, &thread);
    let knowledge_draft_count: usize = count_known(&facts.drafts, &thread);
    Some(
        SelectedThreadContext {
            thread,
            messages,
            attachments,
            runs,
            latest_run,
            message_count,
            run_count,
            attachment_count,
            runtime_state: facts.runtime_state,
            runtime_services: facts.runtime_services,
            workflow_name: facts.workflow_name,
            workflow_run: facts.workflow_run,
            workflow_stage,
            workflow_stages: facts.workflow_stages,
            workflow_artifact_count: facts.workflow_artifact_count,
            github_item: facts.github_item,
            issue_cache: facts.issue_cache,
            pr_cache: facts.pr_cache,
            comment_count: facts.comment_count,
            review_count: facts.review_count,
            review_comment_count: facts.review_comment_count,
            knowledge_card_count,
            knowledge_draft_count,
        },
    )
}

impl App {
    /// What is shown of the selected thread, from what the database holds of it.
    pub fn selected_thread_context(&self, facts: ThreadFacts) -> (r: Option<SelectedThreadContext>)
        requires
            self.wf(),
        ensures
            match thread_of(*self) {
                Some(thread) => context_made(r, thread, facts),
                None => r is None,
            },
    {
        match self.selected_thread() {
            Some(thread) => build_thread_context(thread.clone(), facts),
            None => None,
        }
    }
}

impl App {
    /// What is shown of the thread of the active tab; `stored` is the thread that the
    /// database has for its session.
    pub fn active_session_thread_context(&self, stored: &Option<Thread>, facts: ThreadFacts) -> (r:
        Option<SelectedThreadContext>)
        ensures
            match active_thread(*self, *stored) {
                Some(thread) => context_made(r, thread, facts),
                None => r is None,
            },
    {
        match self.active_session_thread(stored) {
            Some(thread) => build_thread_context(thread, facts),
            None => None,
        }
    }
}

/// What is shown of the thread of a session tab.
pub struct ContextCache {
    pub session_id: Option<String>,
    pub context: Option<SelectedThreadContext>,
}

impl ContextCache {
    /// Keep what was found for the active session. Another session starts with
    /// nothing; without one the last session's is dropped.
    pub fn refresh_session_thread_context(
        &mut self,
        active: &Option<String>,
        built: Option<SelectedThreadContext>,
    )
        ensures
            text_option(final(self).session_id) == text_option(*active),
            final(self).context == if *active is Some {
                built
            } else if text_option(old(self).session_id) == text_option(*active) {
                old(self).context
            } else {
                None
            },
    {
        if !same_option(&self.session_id, active) {
            self.context = None;
            self.session_id = clone_text(active);
        }
        if active.is_some() {
            self.context = built;
        }
    }
}

// ---------------------------------------------------------------------------
// Summaries
// ---------------------------------------------------------------------------

/// The first eight bytes of an id, or all of a shorter one.
pub open spec fn short_text(id: Seq<char>) -> Seq<char> {
    if byte_len(id) <= 8 {
        id
    } else {
        id.take(chars_within(id, 8) as int)
    }
}

pub open spec fn identity_text(thread: Thread, agent: Seq<char>) -> Seq<char> {
    short_text(thread.id@) + " ["@ + thread.status@ + "] via "@ + provider_text(
        thread.provider_kind,
        agent,
    )
}

pub open spec fn activity_text(c: SelectedThreadContext) -> Seq<char> {
    decimal(c.message_count as nat) + " message(s), "@ + decimal(c.run_count as nat) + " run(s), "@
        + decimal(c.attachment_count as nat) + " attachment(s)"@
}

pub open spec fn text_or_default(o: Option<String>, default: Seq<char>) -> Seq<char> {
    match o {
        Some(text) => text@,
        None => default,
    }
}

pub open spec fn run_text(run: ThreadRun, agent: Seq<char>) -> Seq<char> {
    provider_text(run.provider_kind, agent) + " ["@ + run.status@ + "] profile "@ + text_or_default(
        run.provider_profile,
        "default"@,
    )
}

pub open spec fn is_up(s: ServiceStatus) -> bool {
    s == ServiceStatus::Running || s == ServiceStatus::Healthy
}

/// How many of the first `n` services have a property.
pub open spec fn service_count(
    services: Seq<ServiceStatus>,
    p: spec_fn(ServiceStatus) -> bool,
    n: nat,
) -> nat
    decreases n,
{
    if n == 0 {
        0
    } else {
        service_count(services, p, (n - 1) as nat) + if p(services[n - 1]) {
            1nat
        } else {
            0
        }
    }
}

pub open spec fn up_service() -> spec_fn(ServiceStatus) -> bool {
    |s: ServiceStatus| is_up(s)
}

pub open spec fn failed_service() -> spec_fn(ServiceStatus) -> bool {
    |s: ServiceStatus| s == ServiceStatus::Failed
}

/// The profile and the state of the build, in front of the services.
pub open spec fn runtime_head(c: SelectedThreadContext) -> Seq<char> {
    let profile = match c.runtime_state {
        Some(state) => match state.profile_name {
            Some(name) => name@,
            None => text_or_default(c.thread.runtime_profile, "default"@),
        },
        None => text_or_default(c.thread.runtime_profile, "default"@),
    };
    let build = match c.runtime_state {
        Some(state) => text_or_default(state.build_status, "not_started"@),
        None => "not_started"@,
    };
    profile + " ["@ + build + "] "@
}

pub open spec fn runtime_text(c: SelectedThreadContext) -> Seq<char> {
    let n = c.runtime_services@.len();
    if n == 0 {
        runtime_head(c) + "no services"@
    } else {
        runtime_head(c) + decimal(service_count(c.runtime_services@, up_service(), n)) + "/"@
            + decimal(n) + " healthy, "@ + decimal(
            service_count(c.runtime_services@, failed_service(), n),
        ) + " failed"@
    }
}

pub open spec fn stage_text(stage: Option<WorkflowStage>, run: WorkflowRun) -> Seq<char> {
    match stage {
        Some(s) => s.stage_name@ + " ["@ + s.status@ + "]"@,
        None => text_or_default(run.current_stage, "no stage"@),
    }
}

pub open spec fn workflow_text(c: SelectedThreadContext) -> Option<Seq<char>> {
    match c.workflow_run {
        Some(run) => Some(
            text_or_default(c.workflow_name, "workflow"@) + " ["@ + run.status@ + "] "@ + stage_text(
                c.workflow_stage,
                run,
            ) + ", "@ + decimal(c.workflow_artifact_count as nat) + " artifact(s)"@,
        ),
        None => None,
    }
}

/// The branches of a pull request, where both are known.
pub open spec fn branches_text(pr: Option<GitHubPrCache>) -> Seq<char> {
    match pr {
        Some(cache) => match (cache.base_ref, cache.head_ref) {
            (Some(base), Some(head)) => " "@ + head@ + " -> "@ + base@,
            _ => Seq::empty(),
        },
        None => Seq::empty(),
    }
}

pub open spec fn github_text(c: SelectedThreadContext) -> Option<Seq<char>> {
    match c.github_item {
        Some(item) => Some(
            item.kind_label@ + " #"@ + signed_decimal(item.number as int) + " ["@ + item.state@
                + "]"@ + branches_text(c.pr_cache) + ", "@ + decimal(c.comment_count as nat)
                + " comment(s), "@ + decimal(c.review_count as nat) + " review(s), "@ + decimal(
                c.review_comment_count as nat,
            ) + " inline review comment(s)"@,
        ),
        None => None,
    }
}

/// The text of the thread's item: of the pull request, else of the issue, else of the
/// item itself.
pub open spec fn preview_of(c: SelectedThreadContext) -> Option<String> {
    let of_pr = match c.pr_cache {
        Some(cache) => cache.body_text,
        None => None,
    };
    let of_issue = match c.issue_cache {
        Some(cache) => cache.body_text,
        None => None,
    };
    let of_item = match c.github_item {
        Some(item) => item.body_text,
        None => None,
    };
    if of_pr is Some {
        of_pr
    } else if of_issue is Some {
        of_issue
    } else {
        of_item
    }
}

pub open spec fn knowledge_text(c: SelectedThreadContext) -> Seq<char> {
    decimal(c.knowledge_card_count as nat) + " card(s), "@ + decimal(
        c.knowledge_draft_count as nat,
    ) + " draft(s)"@
}

fn or_default(o: &Option<String>, default: &str) -> (r: String)
    ensures
        r@ == text_or_default(*o, default@),
{
    match o {
        Some(text) => text.clone(),
        None => default.to_owned(),
    }
}

fn count_up(services: &Vec<ServiceStatus>) -> (r: usize)
    ensures
        r == service_count(services@, up_service(), services@.len()),
{
    let mut n: usize = 0;
    let mut i: usize = 0;
    while i < services.len()
        invariant
            i <= services@.len(),
            n <= i,
            n == service_count(services@, up_service(), i as nat),
        decreases services@.len() - i,
    {
        if services[i] == ServiceStatus::Running || services[i] == ServiceStatus::Healthy {
            n += 1;
        }
        i += 1;
    }
    n
}

fn count_failed(services: &Vec<ServiceStatus>) -> (r: usize)
    ensures
        r == service_count(services@, failed_service(), services@.len()),
{
    let mut n: usize = 0;
    let mut i: usize = 0;
    while i < services.len()
        invariant
            i <= services@.len(),
            n <= i,
            n == service_count(services@, failed_service(), i as nat),
        decreases services@.len() - i,
    {
        if services[i] == ServiceStatus::Failed {
            n += 1;
        }
        i += 1;
    }
    n
}

/// A text can be cut behind its eighth byte.
pub open spec fn can_be_cut(id: Seq<char>) -> bool {
    byte_len(id) > 8 ==> byte_len(id.take(chars_within(id, 8) as int)) == 8
}

fn short_id(id: &str) -> (r: String)
    requires
        can_be_cut(id@),
    ensures
        r@ == short_text(id@),
{
    if bytes_in(id) <= 8 {
        return id.to_owned();
    }
    let v = chars_of(id);
    let mut k: usize = 0;
    let mut used: usize = 0;
    assert(v@.skip(0) =~= v@);
    while k < v.len() && width_of(v[k]) <= 8 - used
        invariant
            k <= v@.len(),
            used <= 8,
            v@ == id@,
            chars_within(id@, 8) == k + chars_within(v@.skip(k as int), 8 - used),
        decreases v@.len() - k,
    {
        assert(v@.skip(k as int)[0] == v@[k as int]);
        assert(v@.skip(k as int).drop_first() =~= v@.skip(k + 1));
        used += width_of(v[k]);
        k += 1;
    }
    proof {
        if k < v@.len() {
            assert(v@.skip(k as int)[0] == v@[k as int]);
        }
    }
    let r = text_between(&v, 0, k);
    assert(v@.subrange(0, k as int) =~= id@.take(k as int));
    r
}

impl SelectedThreadContext {
    /// The thread, its status and who works on it; `agent_id` is how the agent is
    /// called.
    pub fn identity_summary(&self, agent_id: &str) -> (r: String)
        requires
            can_be_cut(self.thread.id@),
        ensures
            r@ == identity_text(self.thread, agent_id@),
    {
        let mut r = short_id(self.thread.id.as_str());
        r.append(" [");
        r.append(self.thread.status.as_str());
        r.append("] via ");
        r.append(provider_name(self.thread.provider_kind, agent_id).as_str());
        r
    }

    pub fn activity_summary(&self) -> (r: String)
        ensures
            r@ == activity_text(*self),
    {
        let mut r = format_number(self.message_count as u64);
        r.append(" message(s), ");
        r.append(format_number(self.run_count as u64).as_str());
        r.append(" run(s), ");
        r.append(format_number(self.attachment_count as u64).as_str());
        r.append(" attachment(s)");
        r
    }

    pub fn latest_run_summary(&self, agent_id: &str) -> (r: Option<String>)
        ensures
            text_option(r) == match self.latest_run {
                Some(run) => Some(run_text(run, agent_id@)),
                None => None,
            },
    {
        match &self.latest_run {
            Some(run) => {
                let mut r = provider_name(run.provider_kind, agent_id);
                r.append(" [");
                r.append(run.status.as_str());
                r.append("] profile ");
                r.append(or_default(&run.provider_profile, "default").as_str());
                Some(r)
            },
            None => None,
        }
    }

    fn runtime_heading(&self) -> (r: String)
        ensures
            r@ == runtime_head(*self),
    {
        let named = match &self.runtime_state {
            Some(state) => clone_text(&state.profile_name),
            None => None,
        };
        let mut r = match named {
            Some(name) => name,
            None => or_default(&self.thread.runtime_profile, "default"),
        };
        let build = match &self.runtime_state {
            Some(state) => or_default(&state.build_status, "not_started"),
            None => "not_started".to_owned(),
        };
        r.append(" [");
        r.append(build.as_str());
        r.append("] ");
        r
    }

    pub fn runtime_summary(&self) -> (r: String)
        ensures
            r@ == runtime_text(*self),
    {
        let mut r = self.runtime_heading();
        if self.runtime_services.len() == 0 {
            r.append("no services");
            return r;
        }
        r.append(format_number(count_up(&self.runtime_services) as u64).as_str());
        r.append("/");
        r.append(format_number(self.runtime_services.len() as u64).as_str());
        r.append(" healthy, ");
        r.append(format_number(count_failed(&self.runtime_services) as u64).as_str());
        r.append(" failed");
        r
    }

    pub fn workflow_summary(&self) -> (r: Option<String>)
        ensures
            text_option(r) == workflow_text(*self),
    {
        match &self.workflow_run {
            Some(run) => {
                let mut r = or_default(&self.workflow_name, "workflow");
                r.append(" [");
                r.append(run.status.as_str());
                r.append("] ");
                match &self.workflow_stage {
                    Some(s) => {
                        let mut stage = s.stage_name.clone();
                        stage.append(" [");
                        stage.append(s.status.as_str());
                        stage.append("]");
                        r.append(stage.as_str());
                    },
                    None => {
                        r.append(or_default(&run.current_stage, "no stage").as_str());
                    },
                }
                r.append(", ");
                r.append(format_number(self.workflow_artifact_count as u64).as_str());
                r.append(" artifact(s)");
                Some(r)
            },
            None => None,
        }
    }

    fn branches(&self) -> (r: String)
        ensures
            r@ == branches_text(self.pr_cache),
    {
        let mut r = String::new();
        if let Some(cache) = &self.pr_cache {
            if let (Some(base), Some(head)) = (&cache.base_ref, &cache.head_ref) {
                let mut r = " ".to_owned();
                r.append(head.as_str());
                r.append(" -> ");
                r.append(base.as_str());
                return r;
            }
        }
        assert(r@ =~= Seq::<char>::empty());
        r
    }

    pub fn github_summary(&self) -> (r: Option<String>)
        ensures
            text_option(r) == github_text(*self),
    {
        match &self.github_item {
            Some(item) => {
                let mut r = item.kind_label.clone();
                r.append(" #");
                r.append(format_signed(item.number).as_str());
                r.append(" [");
                r.append(item.state.as_str());
                r.append("]");
                r.append(self.branches().as_str());
                r.append(", ");
                r.append(format_number(self.comment_count as u64).as_str());
                r.append(" comment(s), ");
                r.append(format_number(self.review_count as u64).as_str());
                r.append(" review(s), ");
                r.append(format_number(self.review_comment_count as u64).as_str());
                r.append(" inline review comment(s)");
                Some(r)
            },
            None => None,
        }
    }

    pub fn github_preview(&self) -> (r: Option<&String>)
        ensures
            preview_of(*self) == match r {
                Some(text) => Some(*text),
                None => None,
            },
    {
        if let Some(cache) = &self.pr_cache {
            if let Some(text) = &cache.body_text {
                return Some(text);
            }
        }
        if let Some(cache) = &self.issue_cache {
            if let Some(text) = &cache.body_text {
                return Some(text);
            }
        }
        match &self.github_item {
            Some(item) => match &item.body_text {
                Some(text) => Some(text),
                None => None,
            },
            None => None,
        }
    }

    pub fn knowledge_summary(&self) -> (r: String)
        ensures
            r@ == knowledge_text(*self),
    {
        let mut r = format_number(self.knowledge_card_count as u64);
        r.append(" card(s), ");
        r.append(format_number(self.knowledge_draft_count as u64).as_str());
        r.append(" draft(s)");
        r
    }
}

// ---------------------------------------------------------------------------
// Laws
// ---------------------------------------------------------------------------

/// The context keeps the whole history of runs; the latest one is its last, and each
/// count is the length of its list.
pub proof fn law_context_keeps_all_runs(
    r: Option<SelectedThreadContext>,
    thread: Thread,
    f: ThreadFacts,
)
    requires
        context_made(r, thread, f),
        is_listed(f),
    ensures
        r matches Some(c) && c.runs == f.runs->0 && c.run_count == c.runs@.len() && c.latest_run
            == last_in(c.runs@) && c.message_count == f.messages->0@.len() && c.attachment_count
            == f.attachments->0@.len(),
{
}

/// Without a GitHub item the context has no caches and no counts of it; without a run of a
/// workflow it has no name, no stage and no artifacts of one.
pub proof fn law_context_has_no_orphans(
    r: Option<SelectedThreadContext>,
    thread: Thread,
    f: ThreadFacts,
)
    requires
        context_made(r, thread, f),
    ensures
        r matches Some(c) ==> (c.github_item is None ==> c.issue_cache is None && c.pr_cache is None
            && c.comment_count == 0 && c.review_count == 0 && c.review_comment_count == 0) && (
        c.workflow_run is None ==> c.workflow_name is None && c.workflow_stage is None
            && c.workflow_stages@.len() == 0 && c.workflow_artifact_count == 0),
{
}

/// There is no context where the messages, the runs or the attachments of a thread cannot
/// be listed.
pub proof fn law_no_context_without_lists(
    r: Option<SelectedThreadContext>,
    thread: Thread,
    f: ThreadFacts,
)
    requires
        context_made(r, thread, f),
    ensures
        r is None <==> f.messages is None || f.runs is None || f.attachments is None,
{
}

/// Reading a log in two steps shows the same conversation as reading it in one.
pub proof fn law_log_can_be_read_in_steps(
    pre: App,
    session: Seq<char>,
    path: Seq<char>,
    first: Seq<ConversationEntry>,
    second: Seq<ConversationEntry>,
    middle: u64,
    end: u64,
    mid: App,
    post: App,
    whole: App,
)
    requires
        log_read(pre, session, path, first, middle, mid),
        log_read(mid, session, path, second, end, post),
        log_read(pre, session, path, first + second, end, whole),
    ensures
        post.conversation->0.entries@ == whole.conversation->0.entries@,
        post.conversation->0.file_offset == whole.conversation->0.file_offset,
        views(post.compose.quick_replies@) == views(whole.compose.quick_replies@),
{
    assert(post.conversation->0.entries@ =~= whole.conversation->0.entries@);
}

/// The stage of a run is the first one of the current name; without one of that name it is
/// the last stage.
pub proof fn law_the_current_stage_is_shown(run: WorkflowRun, stages: Seq<WorkflowStage>, k: int)
    requires
        0 <= k <= stages.len(),
        run.current_stage is Some,
        forall|j: int| 0 <= j < k ==> (#[trigger] stages[j]).stage_name@ != run.current_stage->0@,
    ensures
        k < stages.len() && stages[k].stage_name@ == run.current_stage->0@ ==> stage_of_run(
            run,
            stages,
        ) == Some(stages[k]),
        k == stages.len() && k > 0 ==> stage_of_run(run, stages) == Some(stages[k - 1]),
        stages.len() == 0 ==> stage_of_run(run, stages) is None,
{
    lemma_stage_found(stages, run.current_stage->0@, 0, k);
}

proof fn lemma_stage_found(stages: Seq<WorkflowStage>, name: Seq<char>, from: int, k: int)
    requires
        0 <= from <= k <= stages.len(),
        forall|j: int| from <= j < k ==> (#[trigger] stages[j]).stage_name@ != name,
    ensures
        k < stages.len() && stages[k].stage_name@ == name ==> stage_named(stages, name, from)
            == Some(stages[k]),
        k == stages.len() ==> stage_named(stages, name, from) is None,
    decreases k - from,
{
    if from < k {
        assert(stages[from].stage_name@ != name);
        lemma_stage_found(stages, name, from + 1, k);
    }
}

/// A link is counted where it names the thread or the thread's item; one more link counts
/// for one.
pub proof fn law_known_links_are_counted(
    links: Seq<KnowledgeLink>,
    link: KnowledgeLink,
    thread: Thread,
)
    ensures
        link.thread_id matches Some(id) ==> (id@ == thread.id@ ==> known_count(
            links.push(link),
            thread,
            links.len() + 1,
        ) == known_count(links, thread, links.len()) + 1),
        link.github_item_id matches Some(id) ==> (thread.github_item_id matches Some(mine) ==> (id@
            == mine@ ==> known_count(links.push(link), thread, links.len() + 1) == known_count(
            links,
            thread,
            links.len(),
        ) + 1)),
        link.github_item_id is Some && thread.github_item_id is Some
            && link.github_item_id->0@ != thread.github_item_id->0@ && (link.thread_id is None
            || link.thread_id->0@ != thread.id@) ==> known_count(
            links.push(link),
            thread,
            links.len() + 1,
        ) == known_count(links, thread, links.len()),
        known_count(links, thread, links.len()) <= links.len(),
{
    lemma_count_of_front(links, link, thread, links.len());
}

proof fn lemma_count_of_front(
    links: Seq<KnowledgeLink>,
    link: KnowledgeLink,
    thread: Thread,
    n: nat,
)
    requires
        n <= links.len(),
    ensures
        known_count(links.push(link), thread, n) == known_count(links, thread, n),
        known_count(links, thread, n) <= n,
    decreases n,
{
    if n > 0 {
        lemma_count_of_front(links, link, thread, (n - 1) as nat);
        assert(links.push(link)[n - 1] == links[n - 1]);
    }
}

/// The context of a thread holds what is known of it: its messages, runs and attachments
/// with their numbers, and the run that came last.
pub proof fn law_the_context_counts_its_lists(
    c: SelectedThreadContext,
    thread: Thread,
    f: ThreadFacts,
)
    requires
        is_context(c, thread, f),
        f.messages is Some,
        f.runs is Some,
        f.attachments is Some,
    ensures
        c.messages == f.messages->0,
        c.runs == f.runs->0,
        c.attachments == f.attachments->0,
        c.message_count == f.messages->0@.len(),
        c.run_count == f.runs->0@.len(),
        c.attachment_count == f.attachments->0@.len(),
        f.runs->0@.len() > 0 ==> c.latest_run == Some(f.runs->0@[f.runs->0@.len() - 1]),
        f.runs->0@.len() == 0 ==> c.latest_run is None,
        c.runtime_state == f.runtime_state,
        f.runtime_state is Some ==> c.runtime_services@ == f.runtime_services@,
        thread.github_item_id is Some && f.github_item is Some ==> c.github_item == f.github_item
            && c.comment_count == f.comment_count && c.review_count == f.review_count
            && c.review_comment_count == f.review_comment_count,
        thread.workflow_run_id is Some && f.workflow_run is Some ==> c.workflow_run
            == f.workflow_run && c.workflow_name == f.workflow_name && c.workflow_stages
            == f.workflow_stages,
{
}

/// What a list of services says of its members.
pub proof fn law_services_are_counted(services: Seq<ServiceStatus>, s: ServiceStatus)
    ensures
        ({
            let n = services.len();
            let more = services.push(s);
            let up = service_count(more, up_service(), n + 1) - service_count(
                services,
                up_service(),
                n,
            );
            let failed = service_count(more, failed_service(), n + 1) - service_count(
                services,
                failed_service(),
                n,
            );
            &&& up == if s == ServiceStatus::Running || s == ServiceStatus::Healthy {
                1int
            } else {
                0
            }
            &&& failed == if s == ServiceStatus::Failed {
                1int
            } else {
                0
            }
        }),
{
    lemma_services_of_front(services, s, up_service(), services.len());
    lemma_services_of_front(services, s, failed_service(), services.len());
}

proof fn lemma_services_of_front(
    services: Seq<ServiceStatus>,
    s: ServiceStatus,
    p: spec_fn(ServiceStatus) -> bool,
    n: nat,
)
    requires
        n <= services.len(),
    ensures
        service_count(services.push(s), p, n) == service_count(services, p, n),
    decreases n,
{
    if n > 0 {
        lemma_services_of_front(services, s, p, (n - 1) as nat);
        assert(services.push(s)[n - 1] == services[n - 1]);
    }
}

/// The activity of a thread tells its messages, runs and attachments in this order.
pub proof fn law_activity_tells_the_counts(c: SelectedThreadContext)
    ensures
        activity_text(c) == decimal(c.message_count as nat) + " message(s), "@ + decimal(
            c.run_count as nat,
        ) + " run(s), "@ + decimal(c.attachment_count as nat) + " attachment(s)"@,
        knowledge_text(c) == decimal(c.knowledge_card_count as nat) + " card(s), "@ + decimal(
            c.knowledge_draft_count as nat,
        ) + " draft(s)"@,
{
}

/// The preview of a thread is the plain text of its pull request, else that of its issue,
/// else that of the item.
pub proof fn law_the_preview_prefers_the_pr(c: SelectedThreadContext)
    ensures
        c.pr_cache matches Some(p) ==> (p.body_text is Some ==> preview_of(c) == p.body_text),
        c.pr_cache is None || c.pr_cache->0.body_text is None ==> (c.issue_cache matches Some(i)
            ==> (i.body_text is Some ==> preview_of(c) == i.body_text)),
        c.pr_cache is None && c.issue_cache is None ==> (c.github_item matches Some(g)
            ==> preview_of(c) == g.body_text),
        c.pr_cache is None && c.issue_cache is None && c.github_item is None ==> preview_of(c)
            is None,
{
}

/// What is told of a thread's item: its kind and number, its state, its branches and the
/// numbers of comments, reviews and inline comments.
pub proof fn law_the_item_is_told(c: SelectedThreadContext)
    requires
        c.github_item is Some,
    ensures
        github_text(c) matches Some(t) && {
            let item = c.github_item->0;
            &&& begins_with(t, item.kind_label@ + " #"@ + signed_decimal(item.number as int))
            &&& contains_text(t, item.state@)
            &&& contains_text(t, branches_text(c.pr_cache))
            &&& contains_text(t, decimal(c.comment_count as nat))
            &&& contains_text(t, decimal(c.review_count as nat))
            &&& contains_text(t, decimal(c.review_comment_count as nat))
        },
        c.pr_cache matches Some(p) ==> (p.base_ref matches Some(b) ==> (p.head_ref matches Some(h)
            ==> branches_text(c.pr_cache) == " "@ + h@ + " -> "@ + b@)),
{
    let item = c.github_item->0;
    let n = signed_decimal(item.number as int);
    let a = item.kind_label@ + " #"@ + n;
    let d = a + " ["@ + item.state@;
    let e = d + "]"@ + branches_text(c.pr_cache) + ", "@;
    let f = e + decimal(c.comment_count as nat);
    let t = github_text(c)->0;
    lemma_found_beside(a + " ["@, item.state@);
    lemma_found_beside(d, "]"@);
    lemma_found_beside(d + "]"@, branches_text(c.pr_cache));
    lemma_found_beside(d + "]"@ + branches_text(c.pr_cache), ", "@);
    lemma_found_beside(e, decimal(c.comment_count as nat));
    let g = f + " comment(s), "@;
    lemma_found_beside(f, " comment(s), "@);
    let h = g + decimal(c.review_count as nat);
    lemma_found_beside(g, decimal(c.review_count as nat));
    let i = h + " review(s), "@;
    lemma_found_beside(h, " review(s), "@);
    let j = i + decimal(c.review_comment_count as nat);
    lemma_found_beside(i, decimal(c.review_comment_count as nat));
    lemma_found_beside(j, " inline review comment(s)"@);
    assert(t == j + " inline review comment(s)"@);
    assert(t.take(a.len() as int) =~= a);
}

/// A thread is told by the beginning of its id, its status and the provider that runs it.
pub proof fn law_the_thread_is_told(thread: Thread, agent: Seq<char>)
    ensures
        contains_text(identity_text(thread, agent), thread.status@),
        thread.provider_kind == ProviderKind::Claude ==> contains_text(
            identity_text(thread, agent),
            agent,
        ),
        thread.provider_kind == ProviderKind::Codex ==> contains_text(
            identity_text(thread, agent),
            "codex"@,
        ),
        begins_with(thread.id@, short_text(thread.id@)),
        begins_with(identity_text(thread, agent), short_text(thread.id@)),
        byte_len(thread.id@) <= 8 ==> short_text(thread.id@) == thread.id@,
        byte_len(short_text(thread.id@)) <= 8,
{
    let id = thread.id@;
    crate::text_input::lemma_chars_within_longest(id, 8);
    let s = short_text(id);
    assert(id.take(id.len() as int) =~= id);
    assert(id.take(s.len() as int) =~= s);
    let p = provider_text(thread.provider_kind, agent);
    let a = s + " ["@;
    lemma_found_beside(a, thread.status@);
    lemma_found_beside(a + thread.status@, "] via "@);
    lemma_found_beside(a + thread.status@ + "] via "@, p);
    assert(identity_text(thread, agent).take(s.len() as int) =~= s);
}

/// What is read of a log stands behind what was read before, where it is the same file of
/// the same session; otherwise it stands alone. The quick replies are made anew.
pub proof fn law_logs_grow(
    pre: App,
    session: Seq<char>,
    path: Seq<char>,
    entries: Seq<ConversationEntry>,
    offset: u64,
    post: App,
)
    requires
        log_read(pre, session, path, entries, offset, post),
    ensures
        post.conversation matches Some(c) && c.session_id@ == session && c.file_offset == offset
            && text_option(c.path) == Some(path),
        pre.conversation matches Some(old_log) ==> (old_log.session_id@ == session && text_option(
            old_log.path,
        ) == Some(path) ==> post.conversation->0.entries@ =~= old_log.entries@ + entries),
        pre.conversation matches Some(old_log) ==> (old_log.session_id@ != session || text_option(
            old_log.path,
        ) != Some(path) ==> post.conversation->0.entries@ == entries),
        pre.conversation is None ==> post.conversation->0.entries@ == entries,
        post.nav == pre.nav && post.input == pre.input,
{
}

/// A log is read where the conversation of a session is shown and the file has changed since
/// it was read.
pub proof fn law_changed_logs_are_read(
    a: App,
    stored: Option<Session>,
    size: Option<u64>,
    r: Option<LogQuery>,
)
    requires
        log_wanted(a, stored, size, r),
    ensures
        a.nav.active_tab < a.tabs@.len() ==> (a.tabs@[a.nav.active_tab as int] matches Tab::Session {
            view_mode,
            ..
        } ==> (view_mode == SessionTabView::Terminal ==> r is None)),
        session_of(a) is None ==> r is None,
        a.conversation matches Some(c) ==> (session_of(a) == Some(c.session_id@) && c.path is Some
            && size == Some(c.file_offset) ==> r is None),
        a.conversation is None && in_conversation(a) && shown_session(a, stored) is Some ==> (
        r matches Some(q) && Some(q.session_id@) == session_of(a)),
        r matches Some(q) ==> Some(q.session_id@) == session_of(a),
{
}

/// The context holds the caches of its item, and of its workflow the current stage and the
/// number of artifacts.
pub proof fn law_the_context_holds_the_caches(
    c: SelectedThreadContext,
    thread: Thread,
    f: ThreadFacts,
)
    requires
        is_context(c, thread, f),
    ensures
        c.thread == thread,
        thread.github_item_id is Some && f.github_item is Some ==> c.pr_cache == f.pr_cache
            && c.issue_cache == f.issue_cache,
        thread.github_item_id is None ==> c.github_item is None && c.pr_cache is None
            && c.issue_cache is None && c.comment_count == 0,
        thread.workflow_run_id is Some && f.workflow_run is Some ==> c.workflow_artifact_count
            == f.workflow_artifact_count && c.workflow_stage == stage_of_run(
            f.workflow_run->0,
            f.workflow_stages@,
        ),
        thread.workflow_run_id is None ==> c.workflow_run is None && c.workflow_stages@.len() == 0,
        c.knowledge_card_count == known_count(f.cards@, thread, f.cards@.len()),
        c.knowledge_draft_count == known_count(f.drafts@, thread, f.drafts@.len()),
{
}

/// What is told of a run: its provider, its status and its profile.
pub proof fn law_runs_are_told(run: ThreadRun, agent: Seq<char>)
    ensures
        run.provider_profile matches Some(p) ==> run_text(run, agent) == provider_text(
            run.provider_kind,
            agent,
        ) + " ["@ + run.status@ + "] profile "@ + p@,
        run.provider_profile is None ==> run_text(run, agent) == provider_text(
            run.provider_kind,
            agent,
        ) + " ["@ + run.status@ + "] profile default"@,
{
    let a = provider_text(run.provider_kind, agent) + " ["@ + run.status@;
    reveal_strlit("] profile ");
    reveal_strlit("default");
    reveal_strlit("] profile default");
    assert("] profile "@ + "default"@ =~= "] profile default"@);
    assert(a + "] profile "@ + "default"@ =~= a + ("] profile "@ + "default"@));
}

/// What is told of the services: their profile and build, and how many of them are up, how
/// many there are, and how many have failed.
pub proof fn law_services_are_told(c: SelectedThreadContext)
    ensures
        c.runtime_services@.len() == 0 ==> runtime_text(c) == runtime_head(c) + "no services"@,
        c.runtime_services@.len() > 0 ==> runtime_text(c) == runtime_head(c) + decimal(
            service_count(c.runtime_services@, up_service(), c.runtime_services@.len()),
        ) + "/"@ + decimal(c.runtime_services@.len()) + " healthy, "@ + decimal(
            service_count(c.runtime_services@, failed_service(), c.runtime_services@.len()),
        ) + " failed"@,
        c.runtime_state matches Some(s) ==> (s.profile_name matches Some(p) ==> begins_with(
            runtime_head(c),
            p@,
        )),
        c.runtime_state is None ==> (c.thread.runtime_profile matches Some(p) ==> begins_with(
            runtime_head(c),
            p@,
        )),
        c.runtime_state is None && c.thread.runtime_profile is None ==> begins_with(
            runtime_head(c),
            "default"@,
        ),
        c.runtime_state matches Some(s) ==> (s.build_status matches Some(b) ==> contains_text(
            runtime_head(c),
            b@,
        )),
        c.runtime_state is None ==> contains_text(runtime_head(c), "not_started"@),
{
    let profile = match c.runtime_state {
        Some(state) => match state.profile_name {
            Some(name) => name@,
            None => text_or_default(c.thread.runtime_profile, "default"@),
        },
        None => text_or_default(c.thread.runtime_profile, "default"@),
    };
    let build = match c.runtime_state {
        Some(state) => text_or_default(state.build_status, "not_started"@),
        None => "not_started"@,
    };
    lemma_found_beside(profile + " ["@, build);
    lemma_found_beside(profile + " ["@ + build, "] "@);
    assert(runtime_head(c).take(profile.len() as int) =~= profile);
}

/// What is told of a workflow: its name, its status, its stage with that one's status, and
/// its artifacts.
pub proof fn law_workflows_are_told(c: SelectedThreadContext)
    requires
        c.workflow_run is Some,
    ensures
        workflow_text(c) matches Some(t) && {
            &&& c.workflow_name matches Some(n) ==> begins_with(t, n@)
            &&& contains_text(t, c.workflow_run->0.status@)
            &&& c.workflow_stage matches Some(s) ==> contains_text(
                t,
                s.stage_name@ + " ["@ + s.status@ + "]"@,
            )
            &&& c.workflow_stage is None ==> (c.workflow_run->0.current_stage matches Some(s)
                ==> contains_text(t, s@))
            &&& contains_text(t, decimal(c.workflow_artifact_count as nat))
        },
{
    let run = c.workflow_run->0;
    let name = text_or_default(c.workflow_name, "workflow"@);
    let stage = stage_text(c.workflow_stage, run);
    let a = name + " ["@ + run.status@;
    lemma_found_beside(name + " ["@, run.status@);
    let b = a + "] "@;
    lemma_found_beside(a, "] "@);
    let d = b + stage;
    lemma_found_beside(b, stage);
    let e = d + ", "@;
    lemma_found_beside(d, ", "@);
    let f = e + decimal(c.workflow_artifact_count as nat);
    lemma_found_beside(e, decimal(c.workflow_artifact_count as nat));
    lemma_found_beside(f, " artifact(s)"@);
    let t = f + " artifact(s)"@;
    assert(workflow_text(c)->0 == t);
    assert(t.take(name.len() as int) =~= name);
}

/// A session without a log shows no conversation.
pub proof fn law_missing_logs_show_nothing(pre: App, session: Seq<char>, post: App)
    requires
        log_missing(pre, session, post),
    ensures
        post.conversation matches Some(c) && c.session_id@ == session && c.entries@.len() == 0
            && c.file_offset == 0 && c.path is None,
        post.nav == pre.nav && post.compose == pre.compose,
{
}

} // verus!
