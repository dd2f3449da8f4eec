//! Workflows: the stages of a thread's run are handed to its agent one by one, each
//! once the agent has worked on the one before.

use vstd::prelude::*;
use vstd::string::*;

use crate::app::{
    law_a_session_has_its_listed_status, law_the_first_tab_counts, says, status_of_session,
    tab_place, App, InjectedStage, Tab,
};
use crate::conversation::{recent_answers, summarize_conversation, ConversationCache};
use crate::effects::Effect;
use crate::settings::text_option;
use crate::store::{ClaudeStatus, Thread, ThreadMessage, WorkflowRunStatus, WorkflowStageStatus};
use crate::tasks::list_contains;
use crate::text::{
    blank, byte_len, bytes_in, chars_of, contains_text, is_blank, lemma_byte_len_concat,
    lemma_part_is_found, same, text_between, trimmed, views, width_of,
};
use crate::text_input::{chars_within, lemma_chars_within_bound, lemma_chars_within_longest};
use crate::views::ToastStyle;

verus! {

/// A stage of a run.
pub struct StageRun {
    pub id: String,
    pub stage_name: String,
    pub status: WorkflowStageStatus,
    pub prompt: Option<String>,
}

/// What is to be done for a run.
pub enum WorkflowAction {
    Wait,
    /// Hand the prompt of a stage to the agent.
    Inject { stage_id: String, stage_name: String, prompt: String },
    /// Go on: the stage has nothing to hand over.
    Skip,
    /// Go on: the agent has worked on the stage.
    Advance { stage_id: String },
}

// ---------------------------------------------------------------------------
// Whose turn it is
// ---------------------------------------------------------------------------

/// The thread has a workflow and a session with a tab.
pub open spec fn is_candidate(a: App, thread: Thread) -> bool {
    thread.workflow_run_id is Some && (thread.session_id matches Some(id) && tab_place(
        a.tabs@,
        id@,
    ) is Some)
}

/// The places of the first `n` threads that have a workflow to look at.
pub open spec fn candidates(a: App, n: nat) -> Seq<usize>
    decreases n,
{
    if n == 0 {
        Seq::empty()
    } else {
        let rest = candidates(a, (n - 1) as nat);
        if is_candidate(a, a.threads@[n - 1]) {
            rest.push((n - 1) as usize)
        } else {
            rest
        }
    }
}

/// The turn of an agent is over: it is idle, or has ended.
pub open spec fn turn_over(a: App, session: Seq<char>, ended: bool) -> bool {
    status_of_session(a, session) == Some(ClaudeStatus::Idle) || views(a.pty_idle@).contains(
        session,
    ) || ended
}

/// The first stage that runs.
pub open spec fn running_stage(stages: Seq<StageRun>, from: int) -> Option<int>
    decreases stages.len() - from,
{
    if from < 0 || from >= stages.len() {
        None
    } else if stages[from].status == WorkflowStageStatus::Running {
        Some(from)
    } else {
        running_stage(stages, from + 1)
    }
}

/// Whether the prompt of a stage was handed over, and the agent seen at work since.
pub open spec fn injected_at(list: Seq<InjectedStage>, id: Seq<char>, from: int) -> Option<int>
    decreases list.len() - from,
{
    if from < 0 || from >= list.len() {
        None
    } else if list[from].stage_id@ == id {
        Some(from)
    } else {
        injected_at(list, id, from + 1)
    }
}

pub open spec fn of_other_stage(id: Seq<char>) -> spec_fn(InjectedStage) -> bool {
    |s: InjectedStage| s.stage_id@ != id
}

/// The stage has something to hand over.
pub open spec fn has_prompt(stage: StageRun) -> bool {
    stage.prompt matches Some(p) && p@.len() > 0
}

/// The agent was seen at work on a stage.
pub open spec fn seen_at_work(pre: App, i: int, post: App) -> bool {
    post.injected@ == pre.injected@.update(
        i,
        InjectedStage { seen_working: true, ..pre.injected@[i] },
    ) && post == (App { injected: post.injected, ..pre })
}

/// The prompt of a stage was handed over, the store says that the agent works, and
/// nothing was noted of that yet.
pub open spec fn just_started(pre: App, session: Seq<char>, i: int) -> bool {
    !pre.injected@[i].seen_working && status_of_session(pre, session) == Some(
        ClaudeStatus::Working,
    )
}

/// What is to be done for a stage whose agent's turn is over.
pub open spec fn stage_step(
    pre: App,
    session: Seq<char>,
    stage: StageRun,
    post: App,
    action: WorkflowAction,
) -> bool {
    match injected_at(pre.injected@, stage.id@, 0) {
        Some(i) => if just_started(pre, session, i) {
            action == WorkflowAction::Wait && seen_at_work(pre, i, post)
        } else {
            action == (WorkflowAction::Advance { stage_id: stage.id }) && post.injected@
                == pre.injected@.filter(of_other_stage(stage.id@)) && post == (App {
                injected: post.injected,
                ..pre
            })
        },
        None => post == pre && action == (if has_prompt(stage) {
            WorkflowAction::Inject {
                stage_id: stage.id,
                stage_name: stage.stage_name,
                prompt: stage.prompt->0,
            }
        } else {
            WorkflowAction::Skip
        }),
    }
}

/// A stage is noted as handed over, in its place where it was noted before.
pub open spec fn prompt_handed_over(pre: App, stage_id: String, post: App) -> bool {
    let entry = InjectedStage { stage_id: stage_id, seen_working: false };
    post.injected@ == (match injected_at(pre.injected@, stage_id@, 0) {
        Some(i) => pre.injected@.update(i, entry),
        None => pre.injected@.push(entry),
    }) && post == (App { injected: post.injected, ..pre })
}

/// No stage is noted twice.
pub open spec fn stages_distinct(list: Seq<InjectedStage>) -> bool {
    forall|i: int, j: int|
        0 <= i < j < list.len() ==> (#[trigger] list[i]).stage_id@ != (
        #[trigger] list[j]).stage_id@
}

/// What is to be done for a run whose agent's turn is over.
pub open spec fn run_step(
    pre: App,
    session: Seq<char>,
    status: WorkflowRunStatus,
    stages: Seq<StageRun>,
    post: App,
    action: WorkflowAction,
) -> bool {
    match running_stage(stages, 0) {
        Some(i) if status == WorkflowRunStatus::Running => stage_step(
            pre,
            session,
            stages[i],
            post,
            action,
        ),
        _ => action == WorkflowAction::Wait && post == pre,
    }
}

fn find_running(stages: &Vec<StageRun>) -> (r: Option<usize>)
    ensures
        running_stage(stages@, 0) == match r {
            Some(i) => Some(i as int),
            None => None,
        },
        r matches Some(i) ==> i < stages@.len(),
{
    let mut i: usize = 0;
    while i < stages.len()
        invariant
            i <= stages@.len(),
            running_stage(stages@, 0) == running_stage(stages@, i as int),
        decreases stages@.len() - i,
    {
        if stages[i].status == WorkflowStageStatus::Running {
            return Some(i);
        }
        i += 1;
    }
    None
}

fn find_injected(list: &Vec<InjectedStage>, id: &str) -> (r: Option<usize>)
    ensures
        injected_at(list@, id@, 0) == match r {
            Some(i) => Some(i as int),
            None => None,
        },
        r matches Some(i) ==> i < list@.len(),
{
    let mut i: usize = 0;
    while i < list.len()
        invariant
            i <= list@.len(),
            injected_at(list@, id@, 0) == injected_at(list@, id@, i as int),
        decreases list@.len() - i,
    {
        if same(list[i].stage_id.as_str(), id) {
            return Some(i);
        }
        i += 1;
    }
    None
}

fn copy_stage(s: &InjectedStage) -> (r: InjectedStage)
    ensures
        r == *s,
{
    InjectedStage { stage_id: s.stage_id.clone(), seen_working: s.seen_working }
}

fn without_stage(list: &Vec<InjectedStage>, id: &str) -> (r: Vec<InjectedStage>)
    ensures
        r@ == list@.filter(of_other_stage(id@)),
{
    let mut r: Vec<InjectedStage> = Vec::new();
    let mut i: usize = 0;
    proof {
        reveal(Seq::filter);
        assert(list@.take(0) =~= Seq::<InjectedStage>::empty());
    }
    while i < list.len()
        invariant
            i <= list@.len(),
            r@ == list@.take(i as int).filter(of_other_stage(id@)),
        decreases list@.len() - i,
    {
        proof {
            reveal(Seq::filter);
            assert(list@.take(i + 1).drop_last() =~= list@.take(i as int));
            assert(list@.take(i + 1).last() == list@[i as int]);
        }
        if !same(list[i].stage_id.as_str(), id) {
            r.push(copy_stage(&list[i]));
        }
        i += 1;
    }
    assert(list@.take(i as int) =~= list@);
    r
}

impl App {
    /// The places of the threads that have a workflow to look at.
    pub fn workflow_candidates(&self) -> (r: Vec<usize>)
        ensures
            r@ == candidates(*self, self.threads@.len()),
    {
        let mut r: Vec<usize> = Vec::new();
        let mut i: usize = 0;
        while i < self.threads.len()
            invariant
                i <= self.threads@.len(),
                r@ == candidates(*self, i as nat),
            decreases self.threads@.len() - i,
        {
            let thread = &self.threads[i];
            let has_tab = match &thread.session_id {
                Some(id) => self.find_session_tab(id.as_str()).is_some(),
                None => false,
            };
            if thread.workflow_run_id.is_some() && has_tab {
                r.push(i);
            }
            i += 1;
        }
        r
    }

    /// The turn of a session's agent is over. `ended` tells whether its pane has ended.
    pub fn agent_turn_over(&self, session_id: &str, ended: bool) -> (r: bool)
        ensures
            r == turn_over(*self, session_id@, ended),
    {
        let idle = match self.session_status(session_id) {
            Some(status) => status == ClaudeStatus::Idle,
            None => false,
        };
        idle || list_contains(&self.pty_idle, session_id) || ended
    }

    /// Whether a stage has just started; that its agent works is noted then.
    fn watch_stage(&mut self, session_id: &str, i: usize) -> (started: bool)
        requires
            old(self).wf(),
            i < old(self).injected@.len(),
        ensures
            started == just_started(*old(self), session_id@, i as int),
            if started {
                seen_at_work(*old(self), i as int, *final(self))
            } else {
                *final(self) == *old(self)
            },
            final(self).wf(),
    {
        let working = match self.session_status(session_id) {
            Some(status) => status == ClaudeStatus::Working,
            None => false,
        };
        if working && !self.injected[i].seen_working {
            let id = self.injected[i].stage_id.clone();
            self.injected.set(i, InjectedStage { stage_id: id, seen_working: true });
            return true;
        }
        false
    }

    fn advance_stage(&mut self, session_id: &str, stage: &StageRun) -> (action: WorkflowAction)
        requires
            old(self).wf(),
        ensures
            stage_step(*old(self), session_id@, *stage, *final(self), action),
            final(self).wf(),
    {
        match find_injected(&self.injected, stage.id.as_str()) {
            Some(i) => {
                if self.watch_stage(session_id, i) {
                    return WorkflowAction::Wait;
                }
                self.injected = without_stage(&self.injected, stage.id.as_str());
                WorkflowAction::Advance { stage_id: stage.id.clone() }
            },
            None => {
                if let Some(prompt) = &stage.prompt {
                    if !prompt.as_str().is_empty() {
                        return WorkflowAction::Inject {
                            stage_id: stage.id.clone(),
                            stage_name: stage.stage_name.clone(),
                            prompt: prompt.clone(),
                        };
                    }
                }
                WorkflowAction::Skip
            },
        }
    }

    /// Decide what is to be done for a run of a session whose agent's turn is over.
    pub fn maybe_advance_workflow_stages(
        &mut self,
        session_id: &str,
        status: WorkflowRunStatus,
        stages: &Vec<StageRun>,
    ) -> (action: WorkflowAction)
        requires
            old(self).wf(),
        ensures
            run_step(*old(self), session_id@, status, stages@, *final(self), action),
            final(self).wf(),
    {
        if status != WorkflowRunStatus::Running {
            return WorkflowAction::Wait;
        }
        match find_running(stages) {
            Some(i) => self.advance_stage(session_id, &stages[i]),
            None => WorkflowAction::Wait,
        }
    }

    /// The prompt of a stage was handed to the agent.
    pub fn stage_injected(&mut self, stage_id: String)
        requires
            old(self).wf(),
        ensures
            prompt_handed_over(*old(self), stage_id, *final(self)),
            final(self).wf(),
    {
        let place = find_injected(&self.injected, stage_id.as_str());
        let entry = InjectedStage { stage_id, seen_working: false };
        match place {
            Some(i) => {
                self.injected.set(i, entry);
            },
            None => {
                self.injected.push(entry);
            },
        }
    }
}

// ---------------------------------------------------------------------------
// Notes
// ---------------------------------------------------------------------------

/// What the conversation shows for a stage.
pub fn stage_message(stage_name: &str) -> (r: String)
    ensures
        r@ == "[Workflow] Stage: "@ + stage_name@,
{
    "[Workflow] Stage: ".to_owned().concat(stage_name)
}

/// What the session shows while its agent works on a stage.
pub fn stage_activity(stage_name: &str) -> (r: String)
    ensures
        r@ == "Stage: "@ + stage_name@,
{
    "Stage: ".to_owned().concat(stage_name)
}

pub open spec fn is_told(n: ThreadMessage) -> bool {
    n.role@ == "assistant"@ && !is_blank(n.content@)
}

/// The last message of the agent that says something.
pub open spec fn last_told(notes: Seq<ThreadMessage>) -> Option<Seq<char>>
    decreases notes.len(),
{
    if notes.len() == 0 {
        None
    } else if is_told(notes.last()) {
        Some(notes.last().content@)
    } else {
        last_told(notes.drop_last())
    }
}

/// What the conversation of a session says.
pub open spec fn conversation_told(cache: Option<ConversationCache>, session: Seq<char>) -> Option<
    Seq<char>,
> {
    match cache {
        Some(c) if c.session_id@ == session => recent_answers(c.entries@),
        _ => None,
    }
}

/// What an agent said at the end of a stage: its last message, else what its
/// conversation says, else what its screen says.
pub open spec fn stage_summary(
    notes: Seq<ThreadMessage>,
    cache: Option<ConversationCache>,
    session: Seq<char>,
    screen: Option<Seq<char>>,
) -> Option<Seq<char>> {
    match last_told(notes) {
        Some(text) => Some(text),
        None => match conversation_told(cache, session) {
            Some(text) => Some(text),
            None => screen,
        },
    }
}

fn find_told(notes: &Vec<ThreadMessage>) -> (r: Option<String>)
    ensures
        text_option(r) == last_told(notes@),
{
    let mut i: usize = notes.len();
    assert(notes@.take(i as int) =~= notes@);
    while i > 0
        invariant
            i <= notes@.len(),
            last_told(notes@) == last_told(notes@.take(i as int)),
        decreases i,
    {
        assert(notes@.take(i as int).drop_last() =~= notes@.take(i - 1));
        assert(notes@.take(i as int).last() == notes@[i - 1]);
        i -= 1;
        if same(notes[i].role.as_str(), "assistant") && !blank(notes[i].content.as_str()) {
            return Some(notes[i].content.clone());
        }
    }
    None
}

/// What an agent said at the end of a stage. `screen` is what its screen says.
pub fn summarize_stage(
    notes: &Vec<ThreadMessage>,
    cache: &Option<ConversationCache>,
    session_id: &str,
    screen: Option<String>,
) -> (r: Option<String>)
    ensures
        text_option(r) == stage_summary(notes@, *cache, session_id@, text_option(screen)),
{
    if let Some(text) = find_told(notes) {
        return Some(text);
    }
    let told = match cache {
        Some(c) => {
            if same(c.session_id.as_str(), session_id) {
                summarize_conversation(&c.entries)
            } else {
                None
            }
        },
        None => None,
    };
    match told {
        Some(text) => Some(text),
        None => screen,
    }
}

/// A summary of at most 2000 bytes; a longer one is cut and marked.
pub open spec fn shortened(s: Seq<char>) -> Seq<char> {
    if byte_len(s) > 2000 {
        s.take(chars_within(s, 1997) as int) + "..."@
    } else {
        s
    }
}

/// How many characters at the start of a text fit into a number of bytes.
fn fitting(v: &Vec<char>, limit: usize) -> (r: usize)
    requires
        limit <= 2000,
    ensures
        r == chars_within(v@, limit as int),
        r <= v@.len(),
{
    let mut k: usize = 0;
    let mut used: usize = 0;
    assert(v@.skip(0) =~= v@);
    proof {
        lemma_chars_within_bound(v@, limit as int);
    }
    while k < v.len()
        invariant
            k <= v@.len(),
            used <= limit <= 2000,
            chars_within(v@, limit as int) == k + chars_within(v@.skip(k as int), limit - used),
        decreases v@.len() - k,
    {
        let w: usize = width_of(v[k]);
        assert(v@.skip(k as int)[0] == v@[k as int]);
        assert(v@.skip(k as int).drop_first() =~= v@.skip(k + 1));
        if w > limit - used {
            return k;
        }
        used += w;
        k += 1;
    }
    k
}

/// Cut a summary to 2000 bytes.
pub fn shorten_summary(s: &str) -> (r: String)
    ensures
        r@ == shortened(s@),
{
    if bytes_in(s) > 2000 {
        let v = chars_of(s);
        let k: usize = fitting(&v, 1997);
        let mut r = text_between(&v, 0, k);
        assert(v@.subrange(0, k as int) =~= v@.take(k as int));
        r.append("...");
        r
    } else {
        s.to_owned()
    }
}

// ---------------------------------------------------------------------------
// Outcomes
// ---------------------------------------------------------------------------

/// A run after it went on.
pub struct RunState {
    pub status: WorkflowRunStatus,
    pub workflow: String,
    pub stage: Option<String>,
}

pub open spec fn stage_or_unknown(stage: Option<String>) -> Seq<char> {
    match stage {
        Some(name) => name@,
        None => "unknown"@,
    }
}

/// The run went on, or could not.
pub open spec fn run_shown(pre: App, run: Option<RunState>, post: App, e: Effect) -> bool {
    match run {
        None => e == Effect::Nothing && post == pre,
        Some(r) => e == Effect::Refresh && match r.status {
            WorkflowRunStatus::Completed => says(
                pre,
                post,
                "Workflow completed: "@ + r.workflow@,
                ToastStyle::Success,
            ),
            WorkflowRunStatus::WaitingApproval => says(
                pre,
                post,
                "Workflow paused: approve '"@ + stage_or_unknown(r.stage) + "' to continue (g)"@,
                ToastStyle::Info,
            ),
            _ => post == pre,
        },
    }
}

impl App {
    /// Tell what became of a run after a stage was done.
    pub fn workflow_resumed(&mut self, run: Option<RunState>) -> (e: Effect)
        requires
            old(self).wf(),
        ensures
            run_shown(*old(self), run, *final(self), e),
            final(self).wf(),
    {
        match run {
            None => Effect::Nothing,
            Some(r) => {
                match r.status {
                    WorkflowRunStatus::Completed => {
                        let message = "Workflow completed: ".to_owned().concat(
                            r.workflow.as_str(),
                        );
                        self.show_toast(message, ToastStyle::Success);
                    },
                    WorkflowRunStatus::WaitingApproval => {
                        let mut message = "Workflow paused: approve '".to_owned();
                        match &r.stage {
                            Some(name) => {
                                message.append(name.as_str());
                            },
                            None => {
                                message.append("unknown");
                            },
                        }
                        message.append("' to continue (g)");
                        self.show_toast(message, ToastStyle::Info);
                    },
                    _ => {},
                }
                Effect::Refresh
            },
        }
    }
}

// ---------------------------------------------------------------------------
// Laws
// ---------------------------------------------------------------------------

/// A workflow goes on behind a stage only after the prompt of the stage was handed
/// over, and not on the first look that finds its agent at work.
pub proof fn law_no_advance_before_work(
    pre: App,
    session: Seq<char>,
    status: WorkflowRunStatus,
    stages: Seq<StageRun>,
    post: App,
    action: WorkflowAction,
)
    requires
        run_step(pre, session, status, stages, post, action),
        action is Advance,
    ensures
        status == WorkflowRunStatus::Running,
        injected_at(pre.injected@, action->Advance_stage_id@, 0) matches Some(i) && (
        pre.injected@[i].seen_working || status_of_session(pre, session) != Some(
            ClaudeStatus::Working,
        )),
{
}

/// Behind a running stage whose prompt was handed over the workflow goes on as soon as the
/// session is idle: the prompt is not handed over again, and the stage is forgotten.
pub proof fn law_idle_stage_advances(
    pre: App,
    session: Seq<char>,
    stages: Seq<StageRun>,
    post: App,
    action: WorkflowAction,
)
    requires
        run_step(pre, session, WorkflowRunStatus::Running, stages, post, action),
        running_stage(stages, 0) matches Some(i) && injected_at(
            pre.injected@,
            stages[i].id@,
            0,
        ) is Some,
        status_of_session(pre, session) == Some(ClaudeStatus::Idle),
    ensures
        action == (WorkflowAction::Advance { stage_id: stages[running_stage(stages, 0)->0].id }),
        injected_at(post.injected@, stages[running_stage(stages, 0)->0].id@, 0) is None,
{
    let id = stages[running_stage(stages, 0)->0].id@;
    lemma_forgotten(pre.injected@, id);
    lemma_none_injected(post.injected@, id, 0);
}

proof fn lemma_forgotten(list: Seq<InjectedStage>, id: Seq<char>)
    ensures
        forall|k: int|
            0 <= k < list.filter(of_other_stage(id)).len() ==> (#[trigger] list.filter(
                of_other_stage(id),
            )[k]).stage_id@ != id,
{
    let kept = list.filter(of_other_stage(id));
    assert forall|k: int| 0 <= k < kept.len() implies (#[trigger] kept[k]).stage_id@ != id by {
        list.lemma_filter_pred(of_other_stage(id), k);
    }
}

proof fn lemma_none_injected(list: Seq<InjectedStage>, id: Seq<char>, from: int)
    requires
        0 <= from <= list.len(),
        forall|k: int| from <= k < list.len() ==> (#[trigger] list[k]).stage_id@ != id,
    ensures
        injected_at(list, id, from) is None,
    decreases list.len() - from,
{
    if from < list.len() {
        lemma_none_injected(list, id, from + 1);
    }
}

proof fn lemma_injected_place(list: Seq<InjectedStage>, id: Seq<char>, from: int)
    requires
        0 <= from <= list.len(),
    ensures
        match injected_at(list, id, from) {
            Some(i) => from <= i < list.len() && list[i].stage_id@ == id && forall|k: int|
                from <= k < i ==> (#[trigger] list[k]).stage_id@ != id,
            None => forall|k: int| from <= k < list.len() ==> (#[trigger] list[k]).stage_id@ != id,
        },
    decreases list.len() - from,
{
    if from < list.len() && list[from].stage_id@ != id {
        lemma_injected_place(list, id, from + 1);
    }
}

proof fn lemma_first_injected(list: Seq<InjectedStage>, id: Seq<char>, from: int, i: int)
    requires
        0 <= from <= i < list.len(),
        list[i].stage_id@ == id,
        forall|k: int| from <= k < i ==> (#[trigger] list[k]).stage_id@ != id,
    ensures
        injected_at(list, id, from) == Some(i),
    decreases i - from,
{
    if from < i {
        lemma_first_injected(list, id, from + 1, i);
    }
}

/// A stage whose prompt was just handed over waits as long as the store says that its
/// agent works: the next look does not go on behind it, and no look hands the prompt
/// over again.
pub proof fn law_injected_stage_waits(
    a: App,
    session: Seq<char>,
    stage: StageRun,
    b: App,
    c: App,
    action: WorkflowAction,
)
    requires
        prompt_handed_over(a, stage.id, b),
        stage_step(b, session, stage, c, action),
    ensures
        action == WorkflowAction::Wait <==> status_of_session(b, session) == Some(
            ClaudeStatus::Working,
        ),
        !(action is Inject) && !(action is Skip),
{
    lemma_injected_place(a.injected@, stage.id@, 0);
    let i = match injected_at(a.injected@, stage.id@, 0) {
        Some(i) => i,
        None => a.injected@.len() as int,
    };
    lemma_first_injected(b.injected@, stage.id@, 0, i);
}

/// Handing over a prompt notes its stage once, whatever was noted before.
pub proof fn law_stages_stay_distinct(a: App, stage_id: String, b: App)
    requires
        stages_distinct(a.injected@),
        prompt_handed_over(a, stage_id, b),
    ensures
        stages_distinct(b.injected@),
{
    lemma_injected_place(a.injected@, stage_id@, 0);
}

/// A summary never takes more than 2000 bytes.
pub proof fn law_summaries_are_short(s: Seq<char>)
    ensures
        byte_len(shortened(s)) <= 2000,
{
    lemma_chars_within_longest(s, 1997);
    reveal_strlit("...");
    if byte_len(s) > 2000 {
        lemma_byte_len_concat(s.take(chars_within(s, 1997) as int), "..."@);
        assert(byte_len("..."@) == 3) by {
            reveal_with_fuel(byte_len, 4);
        }
    }
}

/// The turn of an agent is over as soon as its listed session is idle, its terminal shows
/// that it waits, or its pane has ended; and only then.
pub proof fn law_turns_end_with_the_work(a: App, session: Seq<char>, ended: bool, i: int)
    requires
        0 <= i < a.sessions@.len(),
        a.sessions@[i].id@ == session,
        forall|j: int| 0 <= j < i ==> (#[trigger] a.sessions@[j]).id@ != session,
    ensures
        a.sessions@[i].claude_status == ClaudeStatus::Idle ==> turn_over(a, session, ended),
        ended ==> turn_over(a, session, ended),
        forall|k: int|
            0 <= k < a.pty_idle@.len() && (#[trigger] a.pty_idle@[k])@ == session ==> turn_over(
                a,
                session,
                ended,
            ),
        a.sessions@[i].claude_status != ClaudeStatus::Idle && !ended && (forall|k: int|
            0 <= k < a.pty_idle@.len() ==> (#[trigger] a.pty_idle@[k])@ != session) ==> !turn_over(
            a,
            session,
            ended,
        ),
{
    law_a_session_has_its_listed_status(a, session);
    lemma_seen_idle(a, session);
}

/// The turn of a session that is not listed is over only where its terminal shows it.
pub proof fn law_unlisted_sessions_are_left_alone(a: App, session: Seq<char>)
    requires
        forall|i: int| 0 <= i < a.sessions@.len() ==> (#[trigger] a.sessions@[i]).id@ != session,
        forall|k: int| 0 <= k < a.pty_idle@.len() ==> (#[trigger] a.pty_idle@[k])@ != session,
    ensures
        !turn_over(a, session, false),
        turn_over(a, session, true),
{
    law_a_session_has_its_listed_status(a, session);
    lemma_seen_idle(a, session);
}

proof fn lemma_seen_idle(a: App, session: Seq<char>)
    ensures
        views(a.pty_idle@).contains(session) <==> exists|k: int|
            0 <= k < a.pty_idle@.len() && (#[trigger] a.pty_idle@[k])@ == session,
{
    let list = views(a.pty_idle@);
    if list.contains(session) {
        let k = choose|k: int| 0 <= k < list.len() && list[k] == session;
        assert(a.pty_idle@[k]@ == session);
    }
    if exists|k: int| 0 <= k < a.pty_idle@.len() && (#[trigger] a.pty_idle@[k])@ == session {
        let k = choose|k: int| 0 <= k < a.pty_idle@.len() && (#[trigger] a.pty_idle@[k])@ == session;
        assert(list[k] == session);
    }
}

proof fn lemma_running_stage(stages: Seq<StageRun>, from: int)
    requires
        0 <= from <= stages.len(),
    ensures
        match running_stage(stages, from) {
            Some(i) => from <= i < stages.len() && stages[i].status == WorkflowStageStatus::Running
                && forall|j: int|
                from <= j < i ==> (#[trigger] stages[j]).status != WorkflowStageStatus::Running,
            None => forall|j: int|
                from <= j < stages.len() ==> (#[trigger] stages[j]).status
                    != WorkflowStageStatus::Running,
        },
    decreases stages.len() - from,
{
    if from < stages.len() && stages[from].status != WorkflowStageStatus::Running {
        lemma_running_stage(stages, from + 1);
    }
}

/// A run hands over the prompt of its first running stage where that was not done yet and
/// the prompt is not empty; a stage without a prompt is passed over. Nothing else is
/// handed over, and looking changes nothing then.
pub proof fn law_a_new_stage_gets_its_prompt(
    pre: App,
    session: Seq<char>,
    status: WorkflowRunStatus,
    stages: Seq<StageRun>,
    i: int,
    post: App,
    action: WorkflowAction,
)
    requires
        run_step(pre, session, status, stages, post, action),
        0 <= i < stages.len(),
        stages[i].status == WorkflowStageStatus::Running,
        forall|j: int|
            0 <= j < i ==> (#[trigger] stages[j]).status != WorkflowStageStatus::Running,
        forall|k: int|
            0 <= k < pre.injected@.len() ==> (#[trigger] pre.injected@[k]).stage_id@
                != stages[i].id@,
        status == WorkflowRunStatus::Running,
    ensures
        post == pre,
        match stages[i].prompt {
            Some(p) => if p@.len() > 0 {
                action == (WorkflowAction::Inject {
                    stage_id: stages[i].id,
                    stage_name: stages[i].stage_name,
                    prompt: p,
                })
            } else {
                action == WorkflowAction::Skip
            },
            None => action == WorkflowAction::Skip,
        },
{
    lemma_running_stage(stages, 0);
    let r = running_stage(stages, 0);
    assert(r == Some(i)) by {
        if let Some(k) = r {
            if k < i {
                assert(stages[k].status != WorkflowStageStatus::Running);
            }
        }
    }
    lemma_none_injected(pre.injected@, stages[i].id@, 0);
}

/// A run that does not run, or has no running stage, is left alone.
pub proof fn law_only_running_runs_go_on(
    pre: App,
    session: Seq<char>,
    status: WorkflowRunStatus,
    stages: Seq<StageRun>,
    post: App,
    action: WorkflowAction,
)
    requires
        run_step(pre, session, status, stages, post, action),
        status != WorkflowRunStatus::Running || forall|j: int|
            0 <= j < stages.len() ==> (#[trigger] stages[j]).status
                != WorkflowStageStatus::Running,
    ensures
        action == WorkflowAction::Wait,
        post == pre,
{
    lemma_running_stage(stages, 0);
}

/// A stage that was handed over waits on the first look that finds its session at work,
/// and that look is remembered; on every other look the workflow goes on behind the
/// stage, and the stage is forgotten.
pub proof fn law_a_handed_over_stage_is_left_once(
    pre: App,
    session: Seq<char>,
    stage: StageRun,
    k: int,
    s: int,
    post: App,
    action: WorkflowAction,
)
    requires
        stage_step(pre, session, stage, post, action),
        0 <= k < pre.injected@.len(),
        pre.injected@[k].stage_id@ == stage.id@,
        forall|j: int| 0 <= j < k ==> (#[trigger] pre.injected@[j]).stage_id@ != stage.id@,
        0 <= s < pre.sessions@.len(),
        pre.sessions@[s].id@ == session,
        forall|j: int| 0 <= j < s ==> (#[trigger] pre.sessions@[j]).id@ != session,
    ensures
        if pre.sessions@[s].claude_status == ClaudeStatus::Working
            && !pre.injected@[k].seen_working {
            action == WorkflowAction::Wait && post.injected@.len() == pre.injected@.len()
                && post.injected@[k].seen_working && post.injected@[k].stage_id@ == stage.id@
        } else {
            action == (WorkflowAction::Advance { stage_id: stage.id }) && forall|j: int|
                0 <= j < post.injected@.len() ==> (#[trigger] post.injected@[j]).stage_id@
                    != stage.id@
        },
{
    law_a_session_has_its_listed_status(pre, session);
    lemma_first_injected(pre.injected@, stage.id@, 0, k);
    lemma_forgotten(pre.injected@, stage.id@);
}

/// The threads whose workflows are looked at are those with a run and a session that has
/// a tab, in the order of the list.
pub proof fn law_workflows_need_a_run_and_a_tab(a: App, i: int)
    requires
        a.threads@.len() <= usize::MAX,
    ensures
        forall|j: int|
            0 <= j < candidates(a, a.threads@.len()).len() ==> (#[trigger] candidates(
                a,
                a.threads@.len(),
            )[j]) < a.threads@.len(),
        0 <= i < a.threads@.len() ==> (candidates(a, a.threads@.len()).contains(i as usize) <==> (
        a.threads@[i].workflow_run_id is Some && (a.threads@[i].session_id matches Some(id)
            && exists|t: int|
            0 <= t < a.tabs@.len() && ((#[trigger] a.tabs@[t]) matches Tab::Session {
                session_id,
                ..
            } && session_id@ == id@)))),
        forall|j: int, k: int|
            0 <= j < k < candidates(a, a.threads@.len()).len() ==> (#[trigger] candidates(
                a,
                a.threads@.len(),
            )[j]) < (#[trigger] candidates(a, a.threads@.len())[k]),
{
    lemma_candidates(a, a.threads@.len());
    if 0 <= i < a.threads@.len() {
        if let Some(id) = a.threads@[i].session_id {
            law_the_first_tab_counts(a.tabs@, id@);
        }
    }
}

proof fn lemma_candidates(a: App, n: nat)
    requires
        n <= a.threads@.len() <= usize::MAX,
    ensures
        forall|j: int|
            0 <= j < candidates(a, n).len() ==> (#[trigger] candidates(a, n)[j]) < n
                && is_candidate(a, a.threads@[candidates(a, n)[j] as int]),
        forall|j: int, k: int|
            0 <= j < k < candidates(a, n).len() ==> (#[trigger] candidates(a, n)[j]) < (
            #[trigger] candidates(a, n)[k]),
        forall|i: int|
            0 <= i < n && is_candidate(a, #[trigger] a.threads@[i]) ==> candidates(a, n).contains(
                i as usize,
            ),
    decreases n,
{
    if n > 0 {
        let rest = candidates(a, (n - 1) as nat);
        lemma_candidates(a, (n - 1) as nat);
        let all = candidates(a, n);
        if is_candidate(a, a.threads@[n - 1]) {
            assert(all[rest.len() as int] == n - 1);
        }
        assert forall|i: int| 0 <= i < n && is_candidate(a, #[trigger] a.threads@[i]) implies
            all.contains(i as usize) by {
            if i < n - 1 {
                let j = choose|j: int| 0 <= j < rest.len() && rest[j] == i as usize;
                assert(all[j] == i as usize);
            } else {
                assert(all[rest.len() as int] == i as usize);
            }
        }
    }
}

/// The summary of a stage is the last thing that the agent said in its thread.
pub proof fn law_the_last_word_sums_up(
    notes: Seq<ThreadMessage>,
    cache: Option<ConversationCache>,
    session: Seq<char>,
    screen: Option<Seq<char>>,
    i: int,
)
    requires
        0 <= i < notes.len(),
        notes[i].role@ == "assistant"@,
        trimmed(notes[i].content@).len() > 0,
        forall|j: int|
            i < j < notes.len() ==> (#[trigger] notes[j]).role@ != "assistant"@ || trimmed(
                notes[j].content@,
            ).len() == 0,
    ensures
        stage_summary(notes, cache, session, screen) == Some(notes[i].content@),
    decreases notes.len(),
{
    if i < notes.len() - 1 {
        let rest = notes.drop_last();
        assert(notes.last() == notes[notes.len() - 1]);
        assert forall|j: int| i < j < rest.len() implies (#[trigger] rest[j]).role@
            != "assistant"@ || trimmed(rest[j].content@).len() == 0 by {
            assert(rest[j] == notes[j]);
        }
        law_the_last_word_sums_up(rest, cache, session, screen, i);
    }
}

/// Without a word of the agent in its thread, the summary is what the conversation of this
/// very session says, else what the screen says.
pub proof fn law_a_silent_thread_is_summed_up_otherwise(
    notes: Seq<ThreadMessage>,
    cache: Option<ConversationCache>,
    session: Seq<char>,
    screen: Option<Seq<char>>,
)
    requires
        forall|j: int|
            0 <= j < notes.len() ==> (#[trigger] notes[j]).role@ != "assistant"@ || trimmed(
                notes[j].content@,
            ).len() == 0,
    ensures
        stage_summary(notes, cache, session, screen) == (match cache {
            Some(c) => if c.session_id@ == session && recent_answers(c.entries@) is Some {
                recent_answers(c.entries@)
            } else {
                screen
            },
            None => screen,
        }),
    decreases notes.len(),
{
    if notes.len() > 0 {
        let rest = notes.drop_last();
        assert(notes.last() == notes[notes.len() - 1]);
        assert forall|j: int| 0 <= j < rest.len() implies (#[trigger] rest[j]).role@
            != "assistant"@ || trimmed(rest[j].content@).len() == 0 by {
            assert(rest[j] == notes[j]);
        }
        law_a_silent_thread_is_summed_up_otherwise(rest, cache, session, screen);
    }
}

/// A summary of up to 2000 bytes is kept as it is. Of a longer one the longest beginning
/// of up to 1997 bytes is kept, with three dots behind it.
pub proof fn law_summaries_keep_their_beginning(s: Seq<char>)
    ensures
        byte_len(s) <= 2000 ==> shortened(s) == s,
        byte_len(s) > 2000 ==> exists|k: int|
            0 <= k < s.len() && shortened(s) == (#[trigger] s.take(k)) + seq!['.', '.', '.']
                && byte_len(s.take(k)) <= 1997 && byte_len(s.take(k + 1)) > 1997,
{
    if byte_len(s) > 2000 {
        lemma_chars_within_longest(s, 1997);
        let k = chars_within(s, 1997) as int;
        reveal_strlit("...");
        assert("..."@ =~= seq!['.', '.', '.']);
        assert(s.take(s.len() as int) =~= s);
        assert(shortened(s) == s.take(k) + seq!['.', '.', '.']);
    }
}

/// Of a run that went on the user is told that it is complete, or which stage waits for
/// approval; the records are loaded anew. A run that could not go on changes nothing.
pub proof fn law_runs_tell_where_they_stand(pre: App, run: Option<RunState>, post: App, e: Effect)
    requires
        run_shown(pre, run, post, e),
    ensures
        e == Effect::Refresh <==> run is Some,
        run is None ==> post == pre && e == Effect::Nothing,
        run matches Some(r) ==> (r.status == WorkflowRunStatus::Completed ==> (
        post.toast matches Some(t) && contains_text(t.message@, r.workflow@) && t.style
            == ToastStyle::Success)),
        run matches Some(r) ==> (r.status == WorkflowRunStatus::WaitingApproval
            && r.stage is Some ==> (post.toast matches Some(t) && contains_text(
            t.message@,
            r.stage->0@,
        ) && t.style == ToastStyle::Info)),
        run matches Some(r) ==> (r.status != WorkflowRunStatus::Completed && r.status
            != WorkflowRunStatus::WaitingApproval ==> post == pre),
{
    if let Some(r) = run {
        let start = "Workflow completed: "@;
        lemma_part_is_found(start, r.workflow@, seq![]);
        assert(start + r.workflow@ + Seq::<char>::empty() =~= start + r.workflow@);
        if let Some(name) = r.stage {
            lemma_part_is_found("Workflow paused: approve '"@, name@, "' to continue (g)"@);
        }
    }
}

} // verus!
