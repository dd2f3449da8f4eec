//! What the workbench does between two frames: where an input goes, how long it waits
//! for one, and the work of a tick.

use vstd::prelude::*;
use vstd::string::*;

use crate::actions::Context;
use crate::app::App;
use crate::dashboard::{dashboard_step, paste_step};
use crate::effects::{AppError, Effect};
use crate::input_mouse::{mouse_step, MouseContext, MouseEvent};
use crate::input_session::{paste_forwarded, session_tab_step};
use crate::keys::{KeyCode, KeyModifiers};
use crate::settings::text_option;

verus! {

/// How long the workbench waits for an input, in milliseconds.
pub const DASHBOARD_TICK: u64 = 200;

/// How long a session tab waits for one.
pub const SESSION_TICK: u64 = 16;

/// The time between two rounds of slow work.
pub const SLOW_TICK: u64 = 1000;

/// The time between two looks at what the terminals show.
pub const DETECT_INTERVAL: u64 = 250;

// ---------------------------------------------------------------------------
// Inputs
// ---------------------------------------------------------------------------

pub enum InputEvent {
    Key { code: KeyCode, modifiers: KeyModifiers },
    Paste(String),
    Mouse(MouseEvent),
}

/// What follows an input before the next frame.
pub struct Reaction {
    pub effect: Effect,
    /// The inputs that already wait are handled first.
    pub drains: bool,
    /// The output of the active session is read.
    pub reads_output: bool,
}

/// An input goes to the active tab.
pub open spec fn routed(
    pre: App,
    c: Context,
    mouse: MouseContext,
    event: InputEvent,
    post: App,
    r: Result<Effect, AppError>,
) -> bool {
    let session = pre.nav.active_tab > 0;
    match event {
        InputEvent::Key { code, modifiers } => if session {
            r matches Ok(e) && session_tab_step(pre, c, code, modifiers, post, e)
        } else {
            dashboard_step(pre, c, code, modifiers, post, r)
        },
        InputEvent::Paste(text) => r matches Ok(e) && if session {
            paste_forwarded(pre, text@, post, e)
        } else {
            paste_step(pre, text_option(c.home), text@, post, e)
        },
        InputEvent::Mouse(ev) => r matches Ok(e) && mouse_step(pre, mouse, ev, post, e),
    }
}

/// The inputs that wait are handled before the next frame: after a key of a session
/// tab, and after the mouse on one.
pub open spec fn drains_after(pre: App, event: InputEvent, post: App) -> bool {
    match event {
        InputEvent::Key { .. } => pre.nav.active_tab > 0,
        InputEvent::Paste(_) => false,
        InputEvent::Mouse(_) => post.nav.active_tab > 0,
    }
}

/// What a session answers to an input is on the next frame.
pub open spec fn reads_after(pre: App, event: InputEvent, post: App) -> bool {
    match event {
        InputEvent::Mouse(_) => post.nav.active_tab > 0,
        _ => pre.nav.active_tab > 0,
    }
}

/// An input that had waited goes to the session tab, or to where the mouse is.
pub open spec fn waited(
    pre: App,
    c: Context,
    mouse: MouseContext,
    event: InputEvent,
    post: App,
    e: Effect,
) -> bool {
    match event {
        InputEvent::Key { code, modifiers } => session_tab_step(pre, c, code, modifiers, post, e),
        InputEvent::Paste(text) => paste_forwarded(pre, text@, post, e),
        InputEvent::Mouse(ev) => mouse_step(pre, mouse, ev, post, e),
    }
}

impl App {
    fn handle_key(&mut self, c: &Context, code: KeyCode, m: KeyModifiers) -> (r: Result<
        Effect,
        AppError,
    >)
        requires
            old(self).wf(),
        ensures
            if old(self).nav.active_tab > 0 {
                r matches Ok(e) && session_tab_step(*old(self), *c, code, m, *final(self), e)
            } else {
                dashboard_step(*old(self), *c, code, m, *final(self), r)
            },
            final(self).wf(),
    {
        if self.nav.active_tab > 0 {
            Ok(self.handle_session_tab_key(c, code, m))
        } else {
            self.handle_dashboard_key(c, code, m)
        }
    }

    /// Handle an input. The error is that of a form that was filled in wrongly.
    pub fn handle_event(&mut self, c: &Context, mouse: &MouseContext, event: InputEvent) -> (r:
        Result<Reaction, AppError>)
        requires
            old(self).wf(),
        ensures
            routed(
                *old(self),
                *c,
                *mouse,
                event,
                *final(self),
                match r {
                    Ok(reaction) => Ok(reaction.effect),
                    Err(e) => Err(e),
                },
            ),
            r matches Ok(reaction) ==> reaction.drains == drains_after(
                *old(self),
                event,
                *final(self),
            ) && reaction.reads_output == reads_after(*old(self), event, *final(self)),
            final(self).wf(),
    {
        let session = self.nav.active_tab > 0;
        match event {
            InputEvent::Key { code, modifiers } => match self.handle_key(c, code, modifiers) {
                Ok(effect) => Ok(Reaction { effect, drains: session, reads_output: session }),
                Err(e) => Err(e),
            },
            InputEvent::Paste(text) => {
                let effect = if session {
                    self.handle_session_tab_paste(text.as_str())
                } else {
                    self.handle_dashboard_paste(&c.home, text.as_str())
                };
                Ok(Reaction { effect, drains: false, reads_output: session })
            },
            InputEvent::Mouse(ev) => {
                let effect = self.handle_mouse(mouse, ev);
                let after = self.nav.active_tab > 0;
                Ok(Reaction { effect, drains: after, reads_output: after })
            },
        }
    }

    /// Handle an input that had waited while another was handled on a session tab.
    pub fn handle_waiting_event(
        &mut self,
        c: &Context,
        mouse: &MouseContext,
        event: InputEvent,
    ) -> (e: Effect)
        requires
            old(self).wf(),
        ensures
            waited(*old(self), *c, *mouse, event, *final(self), e),
            final(self).wf(),
    {
        match event {
            InputEvent::Key { code, modifiers } => self.handle_session_tab_key(c, code, modifiers),
            InputEvent::Paste(text) => self.handle_session_tab_paste(text.as_str()),
            InputEvent::Mouse(ev) => self.handle_mouse(mouse, ev),
        }
    }
}

// ---------------------------------------------------------------------------
// Frames
// ---------------------------------------------------------------------------

impl App {
    /// How long the next input is waited for, in milliseconds.
    #[verifier::allow_in_spec]
    pub fn tick_rate(&self) -> (r: u64)
        returns
            if self.nav.active_tab > 0 {
                SESSION_TICK
            } else {
                DASHBOARD_TICK
            },
    {
        if self.nav.active_tab > 0 {
            SESSION_TICK
        } else {
            DASHBOARD_TICK
        }
    }

    /// A session tab has just been opened: all that its terminals have written is read
    /// before the next frame.
    #[verifier::allow_in_spec]
    pub fn flushes_output(&self, previous_tab: usize) -> (r: bool)
        returns
            self.nav.active_tab != previous_tab && self.nav.active_tab > 0,
    {
        self.nav.active_tab != previous_tab && self.nav.active_tab > 0
    }

    /// The conversation of the active tab is read on; `shown` tells whether the tab
    /// shows one.
    #[verifier::allow_in_spec]
    pub fn reads_conversation(&self, shown: bool) -> (r: bool)
        returns
            self.nav.active_tab > 0 && shown,
    {
        self.nav.active_tab > 0 && shown
    }
}

/// Whether the capture of the mouse has to be turned on or off.
pub fn mouse_capture_change(wanted: bool, enabled: bool) -> (r: Option<bool>)
    ensures
        r == if wanted == enabled {
            None
        } else {
            Some(wanted)
        },
        wanted == enabled ==> r is None,
        wanted && !enabled ==> r == Some(true),
        !wanted && enabled ==> r == Some(false),
{
    if wanted == enabled {
        None
    } else {
        Some(wanted)
    }
}

// ---------------------------------------------------------------------------
// Ticks
// ---------------------------------------------------------------------------

/// A piece of work of a tick.
#[derive(Clone, Copy, Debug, PartialEq, Eq, Structural)]
pub enum TickWork {
    LoadRecords,
    ReadAllOutput,
    DetectPauses,
    CachePreviews,
    DrainQueuedMessage,
    AgeToast,
    TakeTitles,
    TakeSessionResults,
    TakeGitHubChanges,
    TakeGitHubSync,
    LaunchPendingTasks,
    TakeMerges,
    TakeGitStats,
    TakeScans,
    TakeGitHubLogin,
    TakeInstallations,
    TakeUpdates,
    ReadConversation,
    CheckMerges,
    CheckGitStats,
    ScanSessions,
    CheckUpdates,
    SyncGitHub,
    TearDownFinished,
    CheckClipboard,
    ReadThreadContext,
    AdvanceWorkflows,
}

/// How long ago the work of longer intervals was done, in milliseconds, and whether it
/// has to wait for a user who is typing.
pub struct TickState {
    pub loading: bool,
    pub deferred: bool,
    pub since_detection: u64,
    pub since_slow_work: u64,
}

/// The first load of the records.
pub open spec fn first_load(t: TickState) -> Seq<TickWork> {
    if t.loading {
        seq![TickWork::LoadRecords]
    } else {
        Seq::empty()
    }
}

/// A look at what the terminals show is due.
pub open spec fn detects(t: TickState) -> bool {
    !t.deferred && t.since_detection >= DETECT_INTERVAL
}

pub open spec fn detection(t: TickState) -> Seq<TickWork> {
    if detects(t) {
        seq![TickWork::ReadAllOutput, TickWork::DetectPauses, TickWork::CachePreviews]
    } else {
        Seq::empty()
    }
}

/// What every tick does.
pub open spec fn fast_work() -> Seq<TickWork> {
    seq![
        TickWork::DrainQueuedMessage,
        TickWork::AgeToast,
        TickWork::TakeTitles,
        TickWork::TakeSessionResults,
        TickWork::TakeGitHubChanges,
        TickWork::TakeGitHubSync,
        TickWork::LaunchPendingTasks,
        TickWork::TakeMerges,
        TickWork::TakeGitStats,
        TickWork::TakeScans,
        TickWork::TakeGitHubLogin,
        TickWork::TakeInstallations,
        TickWork::TakeUpdates,
    ]
}

pub open spec fn conversation_work(t: TickState) -> Seq<TickWork> {
    if t.deferred {
        Seq::empty()
    } else {
        seq![TickWork::ReadConversation]
    }
}

/// The slow work is due.
pub open spec fn is_slow(t: TickState) -> bool {
    !t.deferred && t.since_slow_work >= SLOW_TICK
}

pub open spec fn slow_work(t: TickState) -> Seq<TickWork> {
    if is_slow(t) {
        seq![
            TickWork::ReadAllOutput,
            TickWork::CheckMerges,
            TickWork::CheckGitStats,
            TickWork::ScanSessions,
            TickWork::CheckUpdates,
            TickWork::SyncGitHub,
            TickWork::TearDownFinished,
            TickWork::CheckClipboard,
            TickWork::LoadRecords,
            TickWork::ReadConversation,
            TickWork::ReadThreadContext,
            TickWork::AdvanceWorkflows,
        ]
    } else {
        Seq::empty()
    }
}

/// The work of a tick, in its order.
pub open spec fn work_of(t: TickState) -> Seq<TickWork> {
    first_load(t) + detection(t) + fast_work() + conversation_work(t) + slow_work(t)
}

fn push_fast_work(work: &mut Vec<TickWork>)
    ensures
        final(work)@ == old(work)@ + fast_work(),
{
    work.push(TickWork::DrainQueuedMessage);
    work.push(TickWork::AgeToast);
    work.push(TickWork::TakeTitles);
    work.push(TickWork::TakeSessionResults);
    work.push(TickWork::TakeGitHubChanges);
    work.push(TickWork::TakeGitHubSync);
    work.push(TickWork::LaunchPendingTasks);
    work.push(TickWork::TakeMerges);
    work.push(TickWork::TakeGitStats);
    work.push(TickWork::TakeScans);
    work.push(TickWork::TakeGitHubLogin);
    work.push(TickWork::TakeInstallations);
    work.push(TickWork::TakeUpdates);
    assert(work@ =~= old(work)@ + fast_work());
}

fn push_slow_work(work: &mut Vec<TickWork>, t: &TickState)
    requires
        is_slow(*t),
    ensures
        final(work)@ == old(work)@ + slow_work(*t),
{
    work.push(TickWork::ReadAllOutput);
    work.push(TickWork::CheckMerges);
    work.push(TickWork::CheckGitStats);
    work.push(TickWork::ScanSessions);
    work.push(TickWork::CheckUpdates);
    work.push(TickWork::SyncGitHub);
    work.push(TickWork::TearDownFinished);
    work.push(TickWork::CheckClipboard);
    work.push(TickWork::LoadRecords);
    work.push(TickWork::ReadConversation);
    work.push(TickWork::ReadThreadContext);
    work.push(TickWork::AdvanceWorkflows);
    assert(work@ =~= old(work)@ + slow_work(*t));
}

/// What a tick has to do, in the order in which it does it.
pub fn tick_work(t: &TickState) -> (r: Vec<TickWork>)
    ensures
        r@ == work_of(*t),
{
    let mut work: Vec<TickWork> = Vec::new();
    if t.loading {
        work.push(TickWork::LoadRecords);
    }
    assert(work@ =~= first_load(*t));
    if !t.deferred && t.since_detection >= DETECT_INTERVAL {
        work.push(TickWork::ReadAllOutput);
        work.push(TickWork::DetectPauses);
        work.push(TickWork::CachePreviews);
    }
    assert(work@ =~= first_load(*t) + detection(*t));
    push_fast_work(&mut work);
    if !t.deferred {
        work.push(TickWork::ReadConversation);
    }
    assert(work@ =~= first_load(*t) + detection(*t) + fast_work() + conversation_work(*t));
    if !t.deferred && t.since_slow_work >= SLOW_TICK {
        push_slow_work(&mut work, t);
    }
    assert(work@ =~= work_of(*t));
    work
}

// ---------------------------------------------------------------------------
// Laws
// ---------------------------------------------------------------------------

/// While a user is typing no terminal is read, and no record is loaded but the first
/// time.
pub proof fn law_typing_is_not_disturbed(t: TickState)
    requires
        t.deferred,
    ensures
        !work_of(t).contains(TickWork::ReadAllOutput),
        !work_of(t).contains(TickWork::DetectPauses),
        !work_of(t).contains(TickWork::ReadConversation),
        !t.loading ==> !work_of(t).contains(TickWork::LoadRecords),
{
    let work = work_of(t);
    if t.loading {
        assert(work =~= seq![TickWork::LoadRecords] + fast_work());
    } else {
        assert(work =~= fast_work());
    }
}

/// Every tick hands on the message that waits for an agent.
pub proof fn law_every_tick_drains_the_queue(t: TickState)
    ensures
        work_of(t).contains(TickWork::DrainQueuedMessage),
{
    let i = (first_load(t) + detection(t)).len() as int;
    assert(work_of(t)[i] == TickWork::DrainQueuedMessage);
}

/// What a session tab shows is refreshed more often than the workbench, and both more
/// often than the slow work is done.
pub proof fn law_sessions_tick_faster(session: App, workbench: App)
    requires
        session.nav.active_tab > 0,
        workbench.nav.active_tab == 0,
    ensures
        session.tick_rate() < workbench.tick_rate() < SLOW_TICK,
{
}

/// On the dashboard keys and pastes go to the dashboard, on a session's tab to the session;
/// the mouse goes to both.
pub proof fn law_inputs_go_to_the_active_tab(
    pre: App,
    c: Context,
    mouse: MouseContext,
    event: InputEvent,
    post: App,
    r: Result<Effect, AppError>,
)
    requires
        routed(pre, c, mouse, event, post, r),
    ensures
        event matches InputEvent::Key { code, modifiers } ==> {
            &&& pre.nav.active_tab == 0 ==> dashboard_step(pre, c, code, modifiers, post, r)
            &&& pre.nav.active_tab > 0 ==> (r matches Ok(e) && session_tab_step(
                pre,
                c,
                code,
                modifiers,
                post,
                e,
            ))
        },
        event matches InputEvent::Paste(text) ==> {
            &&& pre.nav.active_tab == 0 ==> (r matches Ok(e) && paste_step(
                pre,
                text_option(c.home),
                text@,
                post,
                e,
            ))
            &&& pre.nav.active_tab > 0 ==> (r matches Ok(e) && paste_forwarded(pre, text@, post, e))
        },
        event matches InputEvent::Mouse(ev) ==> (r matches Ok(e) && mouse_step(
            pre,
            mouse,
            ev,
            post,
            e,
        )),
{
}

/// On a session's tab the waiting keys are handled at once and the output is read; on the
/// dashboard neither is done.
pub proof fn law_sessions_are_read_at_once(pre: App, event: InputEvent, post: App)
    ensures
        event is Key && pre.nav.active_tab > 0 ==> drains_after(pre, event, post) && reads_after(
            pre,
            event,
            post,
        ),
        event is Key && pre.nav.active_tab == 0 ==> !drains_after(pre, event, post) && !reads_after(
            pre,
            event,
            post,
        ),
        event is Paste ==> !drains_after(pre, event, post) && (reads_after(pre, event, post)
            <==> pre.nav.active_tab > 0),
        event is Mouse ==> (drains_after(pre, event, post) <==> post.nav.active_tab > 0) && (
        reads_after(pre, event, post) <==> post.nav.active_tab > 0),
{
}

/// A tick loads the records first while they are not loaded; pauses are looked for every
/// quarter of a second, and every second, unless keys wait, all the slow work is done.
pub proof fn law_ticks_do_their_work(t: TickState)
    ensures
        t.loading ==> work_of(t)[0] == TickWork::LoadRecords,
        !t.deferred && t.since_detection >= 250 ==> work_of(t).contains(TickWork::DetectPauses)
            && work_of(t).contains(TickWork::CachePreviews),
        !t.deferred ==> work_of(t).contains(TickWork::ReadConversation),
        !t.deferred && t.since_slow_work >= 1000 ==> {
            &&& work_of(t).contains(TickWork::CheckMerges)
            &&& work_of(t).contains(TickWork::CheckGitStats)
            &&& work_of(t).contains(TickWork::ScanSessions)
            &&& work_of(t).contains(TickWork::CheckUpdates)
            &&& work_of(t).contains(TickWork::SyncGitHub)
            &&& work_of(t).contains(TickWork::TearDownFinished)
            &&& work_of(t).contains(TickWork::CheckClipboard)
            &&& work_of(t).contains(TickWork::LoadRecords)
            &&& work_of(t).contains(TickWork::ReadThreadContext)
            &&& work_of(t).contains(TickWork::AdvanceWorkflows)
        },
        t.since_detection < 250 ==> !work_of(t).contains(TickWork::DetectPauses),
        t.since_slow_work < 1000 ==> !work_of(t).contains(TickWork::AdvanceWorkflows)
            && !work_of(t).contains(TickWork::SyncGitHub),
{
    let w = work_of(t);
    let a = first_load(t).len() as int;
    let b = a + detection(t).len();
    let c = b + fast_work().len();
    let d = c + conversation_work(t).len();
    if detects(t) {
        assert(w[a + 1] == TickWork::DetectPauses);
        assert(w[a + 2] == TickWork::CachePreviews);
    }
    if !t.deferred {
        assert(w[c] == TickWork::ReadConversation);
    }
    if is_slow(t) {
        assert(w[d + 1] == TickWork::CheckMerges);
        assert(w[d + 2] == TickWork::CheckGitStats);
        assert(w[d + 3] == TickWork::ScanSessions);
        assert(w[d + 4] == TickWork::CheckUpdates);
        assert(w[d + 5] == TickWork::SyncGitHub);
        assert(w[d + 6] == TickWork::TearDownFinished);
        assert(w[d + 7] == TickWork::CheckClipboard);
        assert(w[d + 8] == TickWork::LoadRecords);
        assert(w[d + 10] == TickWork::ReadThreadContext);
        assert(w[d + 11] == TickWork::AdvanceWorkflows);
    }
    lemma_absent_work(t);
}

proof fn lemma_absent_work(t: TickState)
    ensures
        t.since_detection < 250 ==> !work_of(t).contains(TickWork::DetectPauses),
        t.since_slow_work < 1000 ==> !work_of(t).contains(TickWork::AdvanceWorkflows)
            && !work_of(t).contains(TickWork::SyncGitHub),
{
    let w = work_of(t);
    assert forall|i: int| 0 <= i < w.len() implies first_load(t).contains(#[trigger] w[i])
        || detection(t).contains(w[i]) || fast_work().contains(w[i]) || conversation_work(
        t,
    ).contains(w[i]) || slow_work(t).contains(w[i]) by {
        let a = first_load(t).len() as int;
        let b = a + detection(t).len();
        let c = b + fast_work().len();
        let d = c + conversation_work(t).len();
        if i < a {
            assert(first_load(t)[i] == w[i]);
        } else if i < b {
            assert(detection(t)[i - a] == w[i]);
        } else if i < c {
            assert(fast_work()[i - b] == w[i]);
        } else if i < d {
            assert(conversation_work(t)[i - c] == w[i]);
        } else {
            assert(slow_work(t)[i - d] == w[i]);
        }
    }
}

/// Every tick takes what was finished in the background.
pub proof fn law_every_tick_takes_results(t: TickState, k: int)
    requires
        0 <= k < 13,
    ensures
        work_of(t).contains(
            seq![
                TickWork::DrainQueuedMessage,
                TickWork::AgeToast,
                TickWork::TakeTitles,
                TickWork::TakeSessionResults,
                TickWork::TakeGitHubChanges,
                TickWork::TakeGitHubSync,
                TickWork::LaunchPendingTasks,
                TickWork::TakeMerges,
                TickWork::TakeGitStats,
                TickWork::TakeScans,
                TickWork::TakeGitHubLogin,
                TickWork::TakeInstallations,
                TickWork::TakeUpdates,
            ][k],
        ),
{
    let i = (first_load(t) + detection(t)).len() as int;
    assert(work_of(t)[i + k] == fast_work()[k]);
}

/// What waited on a session's tab goes the way of what comes in there.
pub proof fn law_waiting_inputs_go_the_same_way(
    pre: App,
    c: Context,
    mouse: MouseContext,
    event: InputEvent,
    post: App,
    e: Effect,
)
    requires
        waited(pre, c, mouse, event, post, e),
        pre.nav.active_tab > 0,
    ensures
        routed(pre, c, mouse, event, post, Ok(e)),
{
}

} // verus!
