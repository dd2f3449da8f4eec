//! What came of work in the background, and what the terminals report: the tabs and
//! their panes, and what the workbench waits for.

use vstd::prelude::*;
use vstd::string::*;

use crate::app::{tab_place, App, Busy, GitHubState, Nav, Panes, Tab};
use crate::input_mouse::{panes_of, with_panes};
use crate::input_session::on_session_tab;
use crate::panes::{LayoutNode, Rect};
use crate::store::GitHubInstallation;
use crate::views::SessionTabView;

verus! {

// ---------------------------------------------------------------------------
// Tabs
// ---------------------------------------------------------------------------

impl LayoutNode {
    /// Every ratio is a percentage.
    pub fn divides_by_percentages(&self) -> (r: bool)
        ensures
            r == self.wf(),
        decreases self,
    {
        match self {
            LayoutNode::Pane(_) => true,
            LayoutNode::Split { direction, ratio, first, second } => *ratio <= 100
                && first.divides_by_percentages() && second.divides_by_percentages(),
        }
    }
}

/// A tab that has just been opened: its terminals are shown, and nothing is marked.
pub open spec fn new_tab(session_id: String, label: String, layout: LayoutNode, focused: u32) -> Tab {
    Tab::Session {
        session_id,
        label,
        view_mode: SessionTabView::Terminal,
        panes: Panes { layout, focused, selection: None },
    }
}

/// A tab was opened behind the others and is shown.
pub open spec fn tab_added(pre: App, tab: Tab, post: App) -> bool {
    post.tabs@ == pre.tabs@.push(tab) && post == (App {
        tabs: post.tabs,
        nav: Nav { active_tab: pre.tabs@.len() as usize, ..pre.nav },
        ..pre
    })
}

/// The tab of a session is gone. What was shown stays shown; the tab before it is shown in
/// its place, and where it stands first, the one behind it.
pub open spec fn tab_removed(pre: App, id: Seq<char>, post: App) -> bool {
    match tab_place(pre.tabs@, id) {
        Some(i) => post.tabs@ == pre.tabs@.remove(i) && post == (App {
            tabs: post.tabs,
            nav: Nav {
                active_tab: if pre.nav.active_tab >= i && pre.nav.active_tab > 0 {
                    (pre.nav.active_tab - 1) as usize
                } else {
                    pre.nav.active_tab
                },
                ..pre.nav
            },
            ..pre
        }),
        None => post == pre,
    }
}

/// The active tab has other panes.
pub open spec fn repaned(pre: App, panes: Panes, post: App) -> bool {
    post.tabs@ == pre.tabs@.update(
        pre.nav.active_tab as int,
        with_panes(pre.tabs@[pre.nav.active_tab as int], panes),
    ) && post == (App { tabs: post.tabs, ..pre })
}

impl App {
    /// Open a tab for a session. Panes that do not divide their area by percentages
    /// cannot be shown.
    pub fn add_session_tab(
        &mut self,
        session_id: String,
        layout: LayoutNode,
        focused: u32,
        label: String,
    ) -> (added: bool)
        requires
            old(self).wf(),
        ensures
            added == layout.wf(),
            if added {
                tab_added(*old(self), new_tab(session_id, label, layout, focused), *final(self))
            } else {
                *final(self) == *old(self)
            },
            final(self).wf(),
    {
        if !layout.divides_by_percentages() {
            return false;
        }
        let place: usize = self.tabs.len();
        let tab = Tab::Session {
            session_id,
            label,
            view_mode: SessionTabView::Terminal,
            panes: Panes { layout, focused, selection: None },
        };
        self.tabs.push(tab);
        self.nav.active_tab = place;
        true
    }

    /// Close the tab of a session.
    pub fn remove_session_tab(&mut self, session_id: &str)
        requires
            old(self).wf(),
        ensures
            tab_removed(*old(self), session_id@, *final(self)),
            final(self).wf(),
    {
        if let Some(i) = self.find_session_tab(session_id) {
            let _ = self.tabs.remove(i);
            if self.nav.active_tab >= i && self.nav.active_tab > 0 {
                self.nav.active_tab -= 1;
            }
        }
    }

    /// Move the focus to a pane of the active tab.
    pub fn focus_pane(&mut self, pane: u32)
        requires
            old(self).wf(),
        ensures
            if on_session_tab(*old(self)) {
                repaned(
                    *old(self),
                    Panes { focused: pane, ..panes_of(*old(self)) },
                    *final(self),
                )
            } else {
                *final(self) == *old(self)
            },
            final(self).wf(),
    {
        if !self.is_session_tab() {
            return;
        }
        let i: usize = self.nav.active_tab;
        match &mut self.tabs[i] {
            Tab::Session { panes, .. } => {
                panes.focused = pane;
            },
            Tab::Dashboard => {},
        }
    }

    /// The panes of the active tab were split, closed or resized. An arrangement that
    /// does not divide its area by percentages is not taken over.
    pub fn panes_changed(&mut self, layout: LayoutNode, focused: u32) -> (changed: bool)
        requires
            old(self).wf(),
        ensures
            changed == (on_session_tab(*old(self)) && layout.wf()),
            if changed {
                repaned(
                    *old(self),
                    Panes { layout: layout, focused: focused, ..panes_of(*old(self)) },
                    *final(self),
                )
            } else {
                *final(self) == *old(self)
            },
            final(self).wf(),
    {
        if !self.is_session_tab() || !layout.divides_by_percentages() {
            return false;
        }
        let i: usize = self.nav.active_tab;
        match &mut self.tabs[i] {
            Tab::Session { panes, .. } => {
                panes.layout = layout;
                panes.focused = focused;
            },
            Tab::Dashboard => {},
        }
        true
    }
}

// ---------------------------------------------------------------------------
// Work in the background
// ---------------------------------------------------------------------------

impl App {
    /// A session is being set up or torn down.
    pub fn session_work_started(&mut self)
        requires
            old(self).wf(),
        ensures
            *final(self) == (App {
                busy: Busy { session_op: true, ..old(self).busy },
                ..*old(self)
            }),
            final(self).wf(),
    {
        self.busy.session_op = true;
    }

    /// The work on a session is done.
    pub fn session_work_done(&mut self)
        requires
            old(self).wf(),
        ensures
            *final(self) == (App {
                busy: Busy { session_op: false, ..old(self).busy },
                ..*old(self)
            }),
            final(self).wf(),
    {
        self.busy.session_op = false;
    }

    /// These tasks wait for a title.
    pub fn titles_pending(&mut self, tasks: Vec<String>)
        requires
            old(self).wf(),
        ensures
            *final(self) == (App {
                busy: Busy { pending_titles: tasks, ..old(self).busy },
                ..*old(self)
            }),
            final(self).wf(),
    {
        self.busy.pending_titles = tasks;
    }

    /// The agents of `paused` wait for a permission; those of `idle` show their prompt or
    /// have ended.
    pub fn pauses_seen(&mut self, paused: Vec<String>, idle: Vec<String>)
        requires
            old(self).wf(),
        ensures
            *final(self) == (App { paused: paused, pty_idle: idle, ..*old(self) }),
            final(self).wf(),
    {
        self.paused = paused;
        self.pty_idle = idle;
    }

    /// The installations of the GitHub app are known.
    pub fn installations_loaded(&mut self, installations: Vec<GitHubInstallation>)
        requires
            old(self).wf(),
        ensures
            *final(self) == (App {
                github: GitHubState { installations: installations, ..old(self).github },
                busy: Busy { github_installations: false, ..old(self).busy },
                ..*old(self)
            }),
            final(self).wf(),
    {
        self.github.installations = installations;
        self.busy.github_installations = false;
    }

    /// A login at GitHub came to its end.
    pub fn login_done(&mut self, prompt: Option<String>, error: Option<String>)
        requires
            old(self).wf(),
        ensures
            *final(self) == (App {
                github: GitHubState { auth_prompt: prompt, auth_error: error, ..old(self).github },
                busy: Busy { github_auth: false, ..old(self).busy },
                ..*old(self)
            }),
            final(self).wf(),
    {
        self.github.auth_prompt = prompt;
        self.github.auth_error = error;
        self.busy.github_auth = false;
    }

    /// The records of GitHub have been brought up to date.
    pub fn sync_done(&mut self)
        requires
            old(self).wf(),
        ensures
            *final(self) == (App {
                busy: Busy { github_sync: false, ..old(self).busy },
                ..*old(self)
            }),
            final(self).wf(),
    {
        self.busy.github_sync = false;
    }
}

// ---------------------------------------------------------------------------
// The screen
// ---------------------------------------------------------------------------

impl App {
    /// A message has been on the screen long enough.
    pub fn toast_expired(&mut self)
        requires
            old(self).wf(),
        ensures
            *final(self) == (App { toast: None, ..*old(self) }),
            final(self).wf(),
    {
        self.toast = None;
    }

    /// The first records are there.
    pub fn loading_done(&mut self)
        requires
            old(self).wf(),
        ensures
            *final(self) == (App { nav: Nav { loading: false, ..old(self).nav }, ..*old(self) }),
            final(self).wf(),
    {
        self.nav.loading = false;
    }

    /// A frame is drawn on this screen.
    pub fn screen_drawn(&mut self, screen: Rect)
        requires
            old(self).wf(),
        ensures
            *final(self) == (App { nav: Nav { screen: screen, ..old(self).nav }, ..*old(self) }),
            final(self).wf(),
    {
        self.nav.screen = screen;
    }
}

// ---------------------------------------------------------------------------
// Laws
// ---------------------------------------------------------------------------

/// Opening a tab for a session that has none and closing it again leaves the tabs as they
/// were.
pub proof fn law_closing_undoes_opening(a: App, tab: Tab, id: Seq<char>, b: App, c: App)
    requires
        tab_place(a.tabs@, id) is None,
        tab matches Tab::Session { session_id, .. } && session_id@ == id,
        tab_added(a, tab, b),
        tab_removed(b, id, c),
    ensures
        c.tabs@ == a.tabs@,
        a.tabs@.len() > 0 ==> c.nav.active_tab < c.tabs@.len(),
{
    assert(b.tabs@.drop_last() =~= a.tabs@);
    assert(b.tabs@.last() == tab);
    assert(b.tabs@.remove(a.tabs@.len() as int) =~= a.tabs@);
}

/// A new tab stands behind the others and is shown; it shows the terminal first.
pub proof fn law_new_tabs_are_shown(pre: App, tab: Tab, post: App)
    requires
        tab_added(pre, tab, post),
    ensures
        post.tabs@.len() == pre.tabs@.len() + 1,
        post.tabs@.last() == tab,
        post.nav.active_tab == pre.tabs@.len(),
        forall|i: int| 0 <= i < pre.tabs@.len() ==> #[trigger] post.tabs@[i] == pre.tabs@[i],
{
    assert(pre.tabs.len() == pre.tabs@.len());
}

/// A tab that is removed leaves the others in their order. A tab to the left of it stays
/// active; otherwise the one to the left of the active one becomes active.
pub proof fn law_removed_tabs_leave_the_others(pre: App, id: Seq<char>, post: App, k: int)
    requires
        tab_removed(pre, id, post),
        0 <= k < pre.tabs@.len(),
        pre.tabs@[k] matches Tab::Session { session_id, .. } && session_id@ == id,
        forall|j: int|
            0 <= j < k ==> !((#[trigger] pre.tabs@[j]) matches Tab::Session { session_id, .. }
                && session_id@ == id),
    ensures
        post.tabs@ =~= pre.tabs@.remove(k),
        pre.nav.active_tab < k ==> post.nav.active_tab == pre.nav.active_tab,
        pre.nav.active_tab >= k && pre.nav.active_tab > 0 ==> post.nav.active_tab + 1
            == pre.nav.active_tab,
{
    crate::app::law_the_first_tab_counts(pre.tabs@, id);
    assert forall|j: int| 0 <= j < k implies !crate::app::is_tab_of(
        #[trigger] pre.tabs@[j],
        id,
    ) by {}
    assert(crate::app::is_tab_of(pre.tabs@[k], id));
}

/// Panes are changed in the active tab alone; its session and its view stay.
pub proof fn law_panes_change_in_the_active_tab(pre: App, panes: Panes, post: App, i: int)
    requires
        repaned(pre, panes, post),
        pre.nav.active_tab < pre.tabs@.len(),
        pre.tabs@[pre.nav.active_tab as int] is Session,
        0 <= i < pre.tabs@.len(),
    ensures
        i != pre.nav.active_tab ==> post.tabs@[i] == pre.tabs@[i],
        post.tabs@[pre.nav.active_tab as int] matches Tab::Session {
            panes: p,
            session_id,
            view_mode,
            label,
        } && p == panes && session_id == pre.tabs@[pre.nav.active_tab as int]->session_id
            && view_mode == pre.tabs@[pre.nav.active_tab as int]->view_mode && label
            == pre.tabs@[pre.nav.active_tab as int]->label,
        post.nav == pre.nav,
{
}

/// A new tab is that of its session and shows the terminal, with nothing marked.
pub proof fn law_new_tabs_show_the_terminal(
    session_id: String,
    label: String,
    layout: LayoutNode,
    focused: u32,
)
    ensures
        new_tab(session_id, label, layout, focused) matches Tab::Session {
            session_id: s,
            label: l,
            view_mode,
            panes,
        } && s == session_id && l == label && view_mode == SessionTabView::Terminal && panes.layout
            == layout && panes.focused == focused && panes.selection is None,
{
}

} // verus!
