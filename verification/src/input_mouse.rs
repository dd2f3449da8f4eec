//! The mouse: in the terminals of a session, on the tab bar, and in the workbench.

use vstd::prelude::*;
use vstd::string::*;

use crate::app::{
    at, queue, with_focus, App, CellPlace, Nav, Panes, Selection, Tab,
};
use crate::effects::{Effect, PaneEffect};
use crate::input_session::{inspector_at, mark_cleared, on_session_tab};
use crate::keys::{
    encode_mouse_event, mouse_button, mouse_sequence, MouseButton, MouseEventKind,
    MouseProtocolEncoding,
};
use crate::moves::{
    dragged, moved_down, moved_up, on_tab, prefetches, task_list_len, WorkbenchLayout,
};
use crate::panes::{
    capped, collect_pane_inner_areas, first_columns, law_sizes_do_not_depend_on_the_place,
    leading_columns, less, pane_places, place_in, screen_to_terminal_coords, sizes_of,
    terminal_area, Rect,
};
use crate::views::{
    Focus, InputMode, ReviewQueueTab, SettingsSection, WorkbenchDragTarget, WorkbenchView,
};

verus! {

#[derive(Clone, Copy, Debug)]
pub struct MouseEvent {
    pub kind: MouseEventKind,
    pub column: u16,
    pub row: u16,
}

/// How far one step of the wheel scrolls a pane.
pub const WHEEL_ROWS: usize = 5;

/// The place of a tab on the tab bar.
pub struct TabEntry {
    pub x_start: u16,
    pub width: u16,
    pub tab_index: usize,
}

/// A terminal of the active tab.
pub struct PaneState {
    pub id: u32,
    /// Its program runs and has asked for mouse reports.
    pub forwards: bool,
    pub encoding: MouseProtocolEncoding,
}

/// What is drawn where the mouse may be.
pub struct MouseContext {
    pub layout: WorkbenchLayout,
    /// The view has an inspector.
    pub inspector: bool,
    /// The tab bar, from left to right.
    pub entries: Vec<TabEntry>,
    /// The terminals of the active tab.
    pub terminals: Vec<PaneState>,
}

// ---------------------------------------------------------------------------
// The tab bar
// ---------------------------------------------------------------------------

/// The tab that a column of the tab bar belongs to.
pub open spec fn tab_at(entries: Seq<TabEntry>, col: u16, from: int) -> Option<usize>
    decreases entries.len() - from,
{
    if from < 0 || from >= entries.len() {
        None
    } else if entries[from].x_start <= col < entries[from].x_start + entries[from].width {
        Some(entries[from].tab_index)
    } else {
        tab_at(entries, col, from + 1)
    }
}

/// A click on the tab bar.
pub open spec fn tab_bar_clicked(a: App, entries: Seq<TabEntry>, col: u16) -> App {
    match tab_at(entries, col, 0) {
        Some(i) => on_tab(a, i),
        None => a,
    }
}

pub open spec fn on_tab_bar(a: App, row: u16) -> bool {
    a.tabs@.len() > 1 && row == 0
}

fn find_tab(entries: &Vec<TabEntry>, col: u16) -> (r: Option<usize>)
    ensures
        r == tab_at(entries@, col, 0),
{
    let mut i: usize = 0;
    while i < entries.len()
        invariant
            i <= entries@.len(),
            tab_at(entries@, col, 0) == tab_at(entries@, col, i as int),
        decreases entries@.len() - i,
    {
        let start: u32 = entries[i].x_start as u32;
        if start <= col as u32 && (col as u32) < start + entries[i].width as u32 {
            return Some(entries[i].tab_index);
        }
        i += 1;
    }
    None
}

// ---------------------------------------------------------------------------
// Terminals
// ---------------------------------------------------------------------------

/// What the screen leaves for the panes below the tab bar and above the hint bar.
pub open spec fn panes_area(a: App) -> Rect {
    let bar: u16 = if a.tabs@.len() > 1 {
        1
    } else {
        0
    };
    Rect { x: 0, y: bar, width: a.nav.screen.width, height: less(a.nav.screen.height, bar + 1) }
}

/// The areas inside the borders of the panes of the active tab.
pub open spec fn panes_shown(a: App) -> Seq<(u32, Rect)> {
    match at(a.tabs@, a.nav.active_tab as int) {
        Some(Tab::Session { panes, .. }) => pane_places(panes.layout, panes_area(a)),
        _ => Seq::empty(),
    }
}

pub open spec fn terminal_of(terminals: Seq<PaneState>, id: u32, from: int) -> Option<int>
    decreases terminals.len() - from,
{
    if from < 0 || from >= terminals.len() {
        None
    } else if terminals[from].id == id {
        Some(from)
    } else {
        terminal_of(terminals, id, from + 1)
    }
}

pub open spec fn area_of(areas: Seq<(u32, Rect)>, id: u32, from: int) -> Option<Rect>
    decreases areas.len() - from,
{
    if from < 0 || from >= areas.len() {
        None
    } else if areas[from].0 == id {
        Some(areas[from].1)
    } else {
        area_of(areas, id, from + 1)
    }
}

/// The tab with these panes in place of its own.
pub open spec fn with_panes(tab: Tab, panes: Panes) -> Tab {
    match tab {
        Tab::Session { session_id, label, view_mode, panes: _ } => Tab::Session {
            session_id,
            label,
            view_mode,
            panes,
        },
        Tab::Dashboard => Tab::Dashboard,
    }
}

/// The panes of the active tab.
pub open spec fn panes_of(a: App) -> Panes {
    a.tabs@[a.nav.active_tab as int]->panes
}

/// The active tab is a session and has other panes.
pub open spec fn panes_set(pre: App, panes: Panes, post: App) -> bool {
    post.tabs@ == pre.tabs@.update(
        pre.nav.active_tab as int,
        with_panes(pre.tabs@[pre.nav.active_tab as int], panes),
    ) && post == (App { tabs: post.tabs, ..pre })
}

/// The program under the mouse gets a report of it; a press focuses its pane.
pub open spec fn reported(
    pre: App,
    ev: MouseEvent,
    pane: u32,
    row: u16,
    col: u16,
    encoding: MouseProtocolEncoding,
    post: App,
    e: Effect,
) -> bool {
    match mouse_button(ev.kind) {
        None => e == Effect::Nothing && post == pre,
        Some((button, release)) => {
            &&& e matches Effect::Pane(p) && p matches PaneEffect::SendTo { pane: to, bytes } && to
                == pane && bytes@ == mouse_sequence(button, release, col, row, encoding)
            &&& panes_set(
                pre,
                Panes {
                    focused: if ev.kind is Down {
                        pane
                    } else {
                        panes_of(pre).focused
                    },
                    selection: None,
                    ..panes_of(pre)
                },
                post,
            )
        },
    }
}

/// A press starts a mark in the pane under the mouse; elsewhere it ends one.
pub open spec fn mark_started(pre: App, place: Option<(u32, u16, u16)>, post: App) -> bool {
    if !on_session_tab(pre) {
        post == pre
    } else {
        match place {
            Some((pane, row, col)) => panes_set(
                pre,
                Panes {
                    focused: pane,
                    selection: Some(
                        Selection {
                            pane: pane,
                            start: CellPlace { row: row, col: col },
                            end: CellPlace { row: row, col: col },
                        },
                    ),
                    ..panes_of(pre)
                },
                post,
            ),
            None => mark_cleared(pre, post),
        }
    }
}

/// A place, kept inside an area, and counted from its corner.
pub open spec fn kept_inside(area: Rect, col: u16, row: u16) -> CellPlace {
    CellPlace {
        row: if less(row, area.y as int) < less(area.height, 1) {
            less(row, area.y as int)
        } else {
            less(area.height, 1)
        },
        col: if less(col, area.x as int) < less(area.width, 1) {
            less(col, area.x as int)
        } else {
            less(area.width, 1)
        },
    }
}

/// A mark is drawn to the mouse, inside the pane that it started in.
pub open spec fn mark_drawn(
    pre: App,
    areas: Seq<(u32, Rect)>,
    ev: MouseEvent,
    post: App,
) -> bool {
    match at(pre.tabs@, pre.nav.active_tab as int) {
        Some(Tab::Session { panes, .. }) => match panes.selection {
            Some(sel) => match area_of(areas, sel.pane, 0) {
                Some(area) => panes_set(
                    pre,
                    Panes {
                        selection: Some(
                            Selection { end: kept_inside(area, ev.column, ev.row), ..sel },
                        ),
                        ..panes
                    },
                    post,
                ),
                None => post == pre,
            },
            None => post == pre,
        },
        _ => post == pre,
    }
}

/// The marked text is copied when the button is let go; a mark of one cell is
/// forgotten.
pub open spec fn mark_ended(pre: App, terminals: Seq<PaneState>, post: App, e: Effect) -> bool {
    match at(pre.tabs@, pre.nav.active_tab as int) {
        Some(Tab::Session { panes, .. }) => match panes.selection {
            Some(sel) => if sel.start == sel.end || terminal_of(terminals, sel.pane, 0) is None {
                e == Effect::Nothing && mark_cleared(pre, post)
            } else {
                post == pre && e == Effect::Pane(PaneEffect::Copy(sel))
            },
            None => e == Effect::Nothing && post == pre,
        },
        _ => e == Effect::Nothing && post == pre,
    }
}

/// The pane under the mouse is scrolled.
pub open spec fn scrolls(
    a: App,
    terminals: Seq<PaneState>,
    place: Option<(u32, u16, u16)>,
    up: bool,
) -> Effect {
    match place {
        Some((pane, row, col)) => if on_session_tab(a) && terminal_of(terminals, pane, 0) is Some {
            Effect::Pane(PaneEffect::Scroll { pane: pane, up: up, rows: WHEEL_ROWS })
        } else {
            Effect::Nothing
        },
        None => Effect::Nothing,
    }
}

/// The terminal under the mouse, where its program gets reports.
pub open spec fn reporting(
    a: App,
    terminals: Seq<PaneState>,
    place: Option<(u32, u16, u16)>,
) -> Option<PaneState> {
    match place {
        Some((pane, row, col)) => match terminal_of(terminals, pane, 0) {
            Some(i) => if on_session_tab(a) && terminals[i].forwards {
                Some(terminals[i])
            } else {
                None
            },
            None => None,
        },
        None => None,
    }
}

/// The mouse where no program gets reports of it.
pub open spec fn unreported(
    pre: App,
    c: MouseContext,
    areas: Seq<(u32, Rect)>,
    ev: MouseEvent,
    post: App,
    e: Effect,
) -> bool {
    let place = place_in(areas, ev.column, ev.row);
    match ev.kind {
        MouseEventKind::Down(MouseButton::Left) => e == Effect::Nothing && mark_started(
            pre,
            place,
            post,
        ),
        MouseEventKind::Drag(MouseButton::Left) => e == Effect::Nothing && mark_drawn(
            pre,
            areas,
            ev,
            post,
        ),
        MouseEventKind::Up(MouseButton::Left) => mark_ended(pre, c.terminals@, post, e),
        MouseEventKind::ScrollUp => post == pre && e == scrolls(pre, c.terminals@, place, true),
        MouseEventKind::ScrollDown => post == pre && e == scrolls(pre, c.terminals@, place, false),
        _ => e == Effect::Nothing && post == pre,
    }
}

/// The mouse on a session tab; `areas` are the areas of its panes.
pub open spec fn session_mouse_step(
    pre: App,
    c: MouseContext,
    areas: Seq<(u32, Rect)>,
    ev: MouseEvent,
    post: App,
    e: Effect,
) -> bool {
    let place = place_in(areas, ev.column, ev.row);
    if ev.kind == MouseEventKind::Down(MouseButton::Left) && on_tab_bar(pre, ev.row) {
        e == Effect::Nothing && post == tab_bar_clicked(pre, c.entries@, ev.column)
    } else {
        match reporting(pre, c.terminals@, place) {
            Some(t) => reported(
                pre,
                ev,
                (place->0).0,
                (place->0).1,
                (place->0).2,
                t.encoding,
                post,
                e,
            ),
            None => unreported(pre, c, areas, ev, post, e),
        }
    }
}

fn find_terminal(terminals: &Vec<PaneState>, id: u32) -> (r: Option<usize>)
    ensures
        terminal_of(terminals@, id, 0) == match r {
            Some(i) => Some(i as int),
            None => None,
        },
        r matches Some(i) ==> i < terminals@.len(),
{
    let mut i: usize = 0;
    while i < terminals.len()
        invariant
            i <= terminals@.len(),
            terminal_of(terminals@, id, 0) == terminal_of(terminals@, id, i as int),
        decreases terminals@.len() - i,
    {
        if terminals[i].id == id {
            return Some(i);
        }
        i += 1;
    }
    None
}

fn find_area(areas: &Vec<(u32, Rect)>, id: u32) -> (r: Option<Rect>)
    ensures
        r == area_of(areas@, id, 0),
{
    let mut i: usize = 0;
    while i < areas.len()
        invariant
            i <= areas@.len(),
            area_of(areas@, id, 0) == area_of(areas@, id, i as int),
        decreases areas@.len() - i,
    {
        let (pane, area) = areas[i];
        if pane == id {
            return Some(area);
        }
        i += 1;
    }
    None
}

fn lesser(a: u16, b: u16) -> (r: u16)
    ensures
        r == if a < b {
            a
        } else {
            b
        },
{
    if a < b {
        a
    } else {
        b
    }
}

fn keep_inside(area: Rect, col: u16, row: u16) -> (r: CellPlace)
    ensures
        r == kept_inside(area, col, row),
{
    CellPlace {
        row: lesser(row.saturating_sub(area.y), area.height.saturating_sub(1)),
        col: lesser(col.saturating_sub(area.x), area.width.saturating_sub(1)),
    }
}

impl App {
    /// The areas inside the borders of the panes of the active tab.
    pub fn session_pane_inner_areas(&self) -> (r: Vec<(u32, Rect)>)
        requires
            self.wf(),
        ensures
            r@ == panes_shown(*self),
    {
        let bar: u16 = if self.tabs.len() > 1 {
            1
        } else {
            0
        };
        let area = Rect {
            x: 0,
            y: bar,
            width: self.nav.screen.width,
            height: self.nav.screen.height.saturating_sub(bar + 1),
        };
        if self.nav.active_tab < self.tabs.len() {
            assert(crate::app::tab_wf(self.tabs@[self.nav.active_tab as int]));
            match &self.tabs[self.nav.active_tab] {
                Tab::Session { panes, .. } => {
                    return collect_pane_inner_areas(&panes.layout, area);
                },
                Tab::Dashboard => {},
            }
        }
        Vec::new()
    }

    fn click_tab_bar(&mut self, entries: &Vec<TabEntry>, col: u16)
        requires
            old(self).wf(),
        ensures
            *final(self) == tab_bar_clicked(*old(self), entries@, col),
            final(self).wf(),
    {
        if let Some(i) = find_tab(entries, col) {
            self.nav.active_tab = i;
        }
    }

    fn set_mark(&mut self, focused: Option<u32>, selection: Option<Selection>)
        requires
            old(self).wf(),
            on_session_tab(*old(self)),
        ensures
            panes_set(
                *old(self),
                (Panes {
                    focused: match focused {
                        Some(pane) => pane,
                        None => panes_of(*old(self)).focused,
                    },
                    selection: selection,
                    ..panes_of(*old(self))
                }),
                *final(self),
            ),
            final(self).wf(),
    {
        let i: usize = self.nav.active_tab;
        assert(crate::app::tab_wf(self.tabs@[i as int]));
        match &mut self.tabs[i] {
            Tab::Session { panes, .. } => {
                if let Some(pane) = focused {
                    panes.focused = pane;
                }
                panes.selection = selection;
            },
            Tab::Dashboard => {},
        }
    }

    fn current_mark(&self) -> (r: Option<Selection>)
        ensures
            r == match at(self.tabs@, self.nav.active_tab as int) {
                Some(Tab::Session { panes, .. }) => panes.selection,
                _ => None,
            },
    {
        if self.nav.active_tab < self.tabs.len() {
            match &self.tabs[self.nav.active_tab] {
                Tab::Session { panes, .. } => panes.selection,
                Tab::Dashboard => None,
            }
        } else {
            None
        }
    }

    fn report_mouse(
        &mut self,
        ev: MouseEvent,
        place: (u32, u16, u16),
        encoding: MouseProtocolEncoding,
    ) -> (e: Effect)
        requires
            old(self).wf(),
            on_session_tab(*old(self)),
        ensures
            reported(
                *old(self),
                ev,
                place.0,
                place.1,
                place.2,
                encoding,
                *final(self),
                e,
            ),
            final(self).wf(),
    {
        let (pane, row, col) = place;
        match encode_mouse_event(&ev.kind, col, row, encoding) {
            Some(bytes) => {
                let press = matches!(ev.kind, MouseEventKind::Down(_));
                let focused = if press {
                    Some(pane)
                } else {
                    None
                };
                self.set_mark(focused, None);
                Effect::Pane(PaneEffect::SendTo { pane, bytes })
            },
            None => Effect::Nothing,
        }
    }

    fn start_mark(&mut self, place: Option<(u32, u16, u16)>)
        requires
            old(self).wf(),
        ensures
            mark_started(*old(self), place, *final(self)),
            final(self).wf(),
    {
        match place {
            Some((pane, row, col)) => {
                if self.is_session_tab() {
                    let cell = CellPlace { row, col };
                    self.set_mark(Some(pane), Some(Selection { pane, start: cell, end: cell }));
                }
            },
            None => {
                self.clear_mark();
            },
        }
    }

    fn draw_mark(&mut self, areas: &Vec<(u32, Rect)>, ev: MouseEvent)
        requires
            old(self).wf(),
        ensures
            mark_drawn(*old(self), areas@, ev, *final(self)),
            final(self).wf(),
    {
        if let Some(sel) = self.current_mark() {
            if let Some(area) = find_area(areas, sel.pane) {
                let end = keep_inside(area, ev.column, ev.row);
                self.set_mark(None, Some(Selection { pane: sel.pane, start: sel.start, end }));
            }
        }
    }

    fn end_mark(&mut self, terminals: &Vec<PaneState>) -> (e: Effect)
        requires
            old(self).wf(),
        ensures
            mark_ended(*old(self), terminals@, *final(self), e),
            final(self).wf(),
    {
        match self.current_mark() {
            Some(sel) => {
                if sel.start == sel.end || find_terminal(terminals, sel.pane).is_none() {
                    self.clear_mark();
                    Effect::Nothing
                } else {
                    Effect::Pane(PaneEffect::Copy(sel))
                }
            },
            None => Effect::Nothing,
        }
    }

    fn scroll_pane(
        &self,
        terminals: &Vec<PaneState>,
        place: Option<(u32, u16, u16)>,
        up: bool,
    ) -> (e: Effect)
        ensures
            e == scrolls(*self, terminals@, place, up),
    {
        match place {
            Some((pane, row, col)) => {
                if self.is_session_tab() && find_terminal(terminals, pane).is_some() {
                    Effect::Pane(PaneEffect::Scroll { pane, up, rows: WHEEL_ROWS })
                } else {
                    Effect::Nothing
                }
            },
            None => Effect::Nothing,
        }
    }

    fn mark_with_mouse(&mut self, c: &MouseContext, areas: &Vec<(u32, Rect)>, ev: MouseEvent) -> (e:
        Effect)
        requires
            old(self).wf(),
        ensures
            unreported(*old(self), *c, areas@, ev, *final(self), e),
            final(self).wf(),
    {
        let place = screen_to_terminal_coords(areas, ev.column, ev.row);
        match ev.kind {
            MouseEventKind::Down(MouseButton::Left) => {
                self.start_mark(place);
                Effect::Nothing
            },
            MouseEventKind::Drag(MouseButton::Left) => {
                self.draw_mark(areas, ev);
                Effect::Nothing
            },
            MouseEventKind::Up(MouseButton::Left) => self.end_mark(&c.terminals),
            MouseEventKind::ScrollUp => self.scroll_pane(&c.terminals, place, true),
            MouseEventKind::ScrollDown => self.scroll_pane(&c.terminals, place, false),
            _ => Effect::Nothing,
        }
    }

    fn find_reporting(&self, terminals: &Vec<PaneState>, place: Option<(u32, u16, u16)>) -> (r:
        Option<MouseProtocolEncoding>)
        ensures
            r == match reporting(*self, terminals@, place) {
                Some(t) => Some(t.encoding),
                None => None,
            },
    {
        match place {
            Some((pane, row, col)) => match find_terminal(terminals, pane) {
                Some(i) => {
                    if self.is_session_tab() && terminals[i].forwards {
                        Some(terminals[i].encoding)
                    } else {
                        None
                    }
                },
                None => None,
            },
            None => None,
        }
    }

    /// Handle the mouse on a session tab whose panes have these areas.
    pub fn handle_session_mouse(
        &mut self,
        c: &MouseContext,
        areas: &Vec<(u32, Rect)>,
        ev: MouseEvent,
    ) -> (e: Effect)
        requires
            old(self).wf(),
        ensures
            session_mouse_step(*old(self), *c, areas@, ev, *final(self), e),
            final(self).wf(),
    {
        if ev.kind == MouseEventKind::Down(MouseButton::Left) && self.tabs.len() > 1 && ev.row == 0 {
            self.click_tab_bar(&c.entries, ev.column);
            return Effect::Nothing;
        }
        let place = screen_to_terminal_coords(areas, ev.column, ev.row);
        if let Some(encoding) = self.find_reporting(&c.terminals, place) {
            if let Some(p) = place {
                return self.report_mouse(ev, p, encoding);
            }
        }
        self.mark_with_mouse(c, areas, ev)
    }
}

// ---------------------------------------------------------------------------
// The workbench
// ---------------------------------------------------------------------------

/// A column or row lies between a start and a start plus an extent.
pub open spec fn within(n: u16, start: u16, extent: u16) -> bool {
    start <= n < capped(start + extent)
}

pub open spec fn inside(area: Rect, col: u16, row: u16) -> bool {
    within(col, area.x, area.width) && within(row, area.y, area.height)
}

/// What a border leaves of an area.
pub open spec fn framed(area: Rect) -> Rect {
    Rect {
        x: capped(area.x + 1),
        y: capped(area.y + 1),
        width: less(area.width, 2),
        height: less(area.height, 2),
    }
}

/// A column at a divider: the last one before it, or the first one behind it.
pub open spec fn at_divider(col: u16, divider: u16) -> bool {
    capped(col + 1) >= divider && col <= divider
}

pub open spec fn drag_begun(a: App, target: WorkbenchDragTarget) -> App {
    App {
        nav: Nav {
            drag_target: Some(target),
            focus: match target {
                WorkbenchDragTarget::SidebarDivider => Focus::Projects,
                WorkbenchDragTarget::InspectorDivider => Focus::Inspector,
            },
            ..a.nav
        },
        ..a
    }
}

/// The place of the sidebar's cursor after a click into one of its rows: the views
/// follow a heading, the repositories a blank row and another heading.
pub open spec fn sidebar_place(a: App, clicked: int) -> Option<usize> {
    let n = WorkbenchView::all().len() as int;
    if 1 <= clicked < 1 + n {
        Some((clicked - 1) as usize)
    } else if n + 3 <= clicked < n + 3 + a.projects@.len() {
        Some((n + (clicked - (n + 3))) as usize)
    } else {
        None
    }
}

pub open spec fn sidebar_clicked(a: App, sidebar: Rect, col: u16, row: u16) -> App {
    let inner = framed(sidebar);
    let focused = with_focus(a, Focus::Projects);
    if inside(inner, col, row) {
        match sidebar_place(a, row - inner.y) {
            Some(i) => App { nav: Nav { sidebar_cursor: i, ..focused.nav }, ..focused },
            None => focused,
        }
    } else {
        focused
    }
}

/// The section of the settings that a row of their list stands for.
pub open spec fn section_at(list: Rect, col: u16, row: u16) -> Option<usize> {
    let inner = Rect { x: capped(list.x + 1), width: less(list.width, 1), ..list };
    if inside(list, col, row) && inside(inner, col, row) && 1 <= row - inner.y
        <= SettingsSection::all().len() {
        Some((row - inner.y - 1) as usize)
    } else {
        None
    }
}

/// A click into the settings; `list` is the area of their sections.
pub open spec fn settings_clicked(
    pre: App,
    list: Rect,
    col: u16,
    row: u16,
    post: App,
    e: Effect,
) -> bool {
    let focused = with_focus(pre, Focus::Tasks);
    match section_at(list, col, row) {
        Some(i) => prefetches(post, e) && post == (App {
            nav: Nav { settings_section_index: i, ..focused.nav },
            ..focused
        }),
        None => e == Effect::Nothing && post == focused,
    }
}

pub open spec fn in_queue(nav: Nav, tab: ReviewQueueTab) -> Nav {
    Nav { review_queue_tab: tab, review_index: 0, ..nav }
}

/// The selections after a click into the queues of pull requests: the first row has
/// their tabs, the others an item each.
pub open spec fn reviews_place(a: App, inner: Rect, col: u16, row: u16) -> Nav {
    let tabs = capped(inner.x + 2);
    let second = capped(capped(tabs + 18) + 1);
    if row == inner.y {
        if within(col, tabs, 18) {
            in_queue(a.nav, ReviewQueueTab::Authored)
        } else if within(col, second, 18) {
            in_queue(a.nav, ReviewQueueTab::NeedsReview)
        } else {
            a.nav
        }
    } else if row - inner.y - 1 < queue(a).len() {
        Nav { review_index: (row - inner.y - 1) as usize, ..a.nav }
    } else {
        a.nav
    }
}

pub open spec fn reviews_clicked(a: App, inner: Rect, col: u16, row: u16) -> App {
    App { nav: reviews_place(a, inner, col, row), ..a }
}

/// A click into the list of tasks or pull requests.
pub open spec fn list_clicked(a: App, main: Rect, col: u16, row: u16) -> App {
    let inner = framed(main);
    let focused = with_focus(a, Focus::Tasks);
    if !within(row, inner.y, inner.height) {
        focused
    } else if a.nav.workbench_view == WorkbenchView::Reviews {
        reviews_clicked(focused, inner, col, row)
    } else if a.nav.workbench_view == WorkbenchView::MyTasks && row - inner.y < task_list_len(a) {
        App { nav: Nav { task_index: (row - inner.y) as usize, ..focused.nav }, ..focused }
    } else {
        focused
    }
}

/// A click into the main pane. In the settings the area of their sections is what a
/// layout leaves of the pane.
pub open spec fn main_clicked(
    pre: App,
    main: Rect,
    col: u16,
    row: u16,
    post: App,
    e: Effect,
) -> bool {
    if pre.nav.workbench_view == WorkbenchView::Settings {
        settings_clicked(pre, first_columns(framed(main), 28), col, row, post, e)
    } else {
        e == Effect::Nothing && post == list_clicked(pre, main, col, row)
    }
}

/// A click into the workbench.
pub open spec fn workbench_clicked(
    pre: App,
    c: MouseContext,
    col: u16,
    row: u16,
    post: App,
    e: Effect,
) -> bool {
    let l = c.layout;
    if !within(row, l.body.y, l.body.height) {
        e == Effect::Nothing && post == pre
    } else if at_divider(col, capped(l.sidebar.x + l.sidebar.width)) {
        e == Effect::Nothing && post == drag_begun(pre, WorkbenchDragTarget::SidebarDivider)
    } else if c.inspector && at_divider(col, capped(l.main.x + l.main.width)) {
        e == Effect::Nothing && post == drag_begun(pre, WorkbenchDragTarget::InspectorDivider)
    } else if within(col, l.sidebar.x, l.sidebar.width) {
        e == Effect::Nothing && post == sidebar_clicked(pre, l.sidebar, col, row)
    } else if within(col, l.inspector.x, l.inspector.width) {
        e == Effect::Nothing && post == with_focus(pre, Focus::Inspector)
    } else if within(col, l.main.x, l.main.width) {
        main_clicked(pre, l.main, col, row, post, e)
    } else {
        e == Effect::Nothing && post == pre
    }
}

/// The wheel scrolls the inspector under the mouse, else moves the selection.
pub open spec fn wheel_turned(
    pre: App,
    layout: WorkbenchLayout,
    ev: MouseEvent,
    up: bool,
    post: App,
    e: Effect,
) -> bool {
    if pre.nav.input_mode != InputMode::Normal {
        e == Effect::Nothing && post == pre
    } else if layout.inspector.width > 0 && inside(layout.inspector, ev.column, ev.row) {
        e == Effect::Nothing && post == inspector_at(
            pre,
            if up {
                less(pre.nav.inspector_scroll, 3)
            } else {
                capped(pre.nav.inspector_scroll + 3)
            },
        )
    } else if up {
        moved_up(pre, post, e)
    } else {
        moved_down(pre, post, e)
    }
}

/// The mouse on the dashboard.
pub open spec fn dashboard_mouse_step(
    pre: App,
    c: MouseContext,
    ev: MouseEvent,
    post: App,
    e: Effect,
) -> bool {
    let dragging = pre.nav.drag_target is Some;
    if dragging && ev.kind == MouseEventKind::Up(MouseButton::Left) {
        e == Effect::Nothing && post == (App { nav: Nav { drag_target: None, ..pre.nav }, ..pre })
    } else if dragging && ev.kind == MouseEventKind::Drag(MouseButton::Left) {
        post == pre && e == dragged(pre, c.layout, ev.column)
    } else {
        match ev.kind {
            MouseEventKind::Down(MouseButton::Left) => if on_tab_bar(pre, ev.row) {
                e == Effect::Nothing && post == tab_bar_clicked(pre, c.entries@, ev.column)
            } else if pre.nav.input_mode != InputMode::Normal {
                e == Effect::Nothing && post == pre
            } else {
                workbench_clicked(pre, c, ev.column, ev.row, post, e)
            },
            MouseEventKind::ScrollUp => wheel_turned(pre, c.layout, ev, true, post, e),
            MouseEventKind::ScrollDown => wheel_turned(pre, c.layout, ev, false, post, e),
            _ => e == Effect::Nothing && post == pre,
        }
    }
}

/// What the mouse does.
pub open spec fn mouse_step(
    pre: App,
    c: MouseContext,
    ev: MouseEvent,
    post: App,
    e: Effect,
) -> bool {
    if pre.nav.screen.width == 0 || pre.nav.screen.height == 0 {
        e == Effect::Nothing && post == pre
    } else if pre.nav.active_tab > 0 {
        session_mouse_step(pre, c, panes_shown(pre), ev, post, e)
    } else {
        dashboard_mouse_step(pre, c, ev, post, e)
    }
}

fn is_within(n: u16, start: u16, extent: u16) -> (r: bool)
    ensures
        r == within(n, start, extent),
{
    start <= n && n < start.saturating_add(extent)
}

fn is_inside(area: Rect, col: u16, row: u16) -> (r: bool)
    ensures
        r == inside(area, col, row),
{
    is_within(col, area.x, area.width) && is_within(row, area.y, area.height)
}

fn frame(area: Rect) -> (r: Rect)
    ensures
        r == framed(area),
{
    Rect {
        x: area.x.saturating_add(1),
        y: area.y.saturating_add(1),
        width: area.width.saturating_sub(2),
        height: area.height.saturating_sub(2),
    }
}

fn is_at_divider(col: u16, divider: u16) -> (r: bool)
    ensures
        r == at_divider(col, divider),
{
    col.saturating_add(1) >= divider && col <= divider
}

impl App {
    fn sidebar_row(&self, clicked: u16) -> (r: Option<usize>)
        requires
            self.wf(),
        ensures
            r == sidebar_place(*self, clicked as int),
    {
        let n: usize = App::sidebar_nav_count();
        let row: usize = clicked as usize;
        let count: usize = self.projects.len();
        if 1 <= row && row - 1 < n {
            Some(row - 1)
        } else if row >= 3 && row - 3 >= n && row - 3 - n < count {
            Some(row - 3)
        } else {
            None
        }
    }

    fn click_sidebar(&mut self, sidebar: Rect, col: u16, row: u16)
        requires
            old(self).wf(),
        ensures
            *final(self) == sidebar_clicked(*old(self), sidebar, col, row),
            final(self).wf(),
    {
        let inner = frame(sidebar);
        self.nav.focus = Focus::Projects;
        if is_inside(inner, col, row) {
            if let Some(i) = self.sidebar_row(row - inner.y) {
                self.nav.sidebar_cursor = i;
            }
        }
    }

    /// Handle a click into the settings; `list` is the area of their sections.
    pub fn click_settings(&mut self, list: Rect, col: u16, row: u16) -> (e: Effect)
        requires
            old(self).wf(),
        ensures
            settings_clicked(*old(self), list, col, row, *final(self), e),
            final(self).wf(),
    {
        self.nav.focus = Focus::Tasks;
        let inner = Rect {
            x: list.x.saturating_add(1),
            y: list.y,
            width: list.width.saturating_sub(1),
            height: list.height,
        };
        if is_inside(list, col, row) && is_inside(inner, col, row) {
            let clicked: u16 = row - inner.y;
            if clicked > 0 && SettingsSection::at((clicked - 1) as usize).is_some() {
                self.nav.settings_section_index = (clicked - 1) as usize;
                return self.maybe_prefetch_github_installations();
            }
        }
        Effect::Nothing
    }

    fn place_in_reviews(&self, inner: Rect, col: u16, row: u16) -> (nav: Nav)
        requires
            self.wf(),
            row >= inner.y,
        ensures
            nav == reviews_place(*self, inner, col, row),
    {
        let tabs: u16 = inner.x.saturating_add(2);
        let second: u16 = tabs.saturating_add(18).saturating_add(1);
        let mut nav = self.nav;
        if row == inner.y {
            if is_within(col, tabs, 18) {
                nav.review_queue_tab = ReviewQueueTab::Authored;
                nav.review_index = 0;
            } else if is_within(col, second, 18) {
                nav.review_queue_tab = ReviewQueueTab::NeedsReview;
                nav.review_index = 0;
            }
        } else {
            let i: usize = (row - inner.y - 1) as usize;
            if i < self.review_items().len() {
                nav.review_index = i;
            }
        }
        nav
    }

    fn click_reviews(&mut self, inner: Rect, col: u16, row: u16)
        requires
            old(self).wf(),
            row >= inner.y,
        ensures
            *final(self) == reviews_clicked(*old(self), inner, col, row),
            final(self).wf(),
    {
        self.nav = self.place_in_reviews(inner, col, row);
    }

    fn click_tasks(&mut self, inner: Rect, row: u16)
        requires
            old(self).wf(),
            row >= inner.y,
        ensures
            *final(self) == (if row - inner.y < task_list_len(*old(self)) {
                App {
                    nav: Nav { task_index: (row - inner.y) as usize, ..old(self).nav },
                    ..*old(self)
                }
            } else {
                *old(self)
            }),
            final(self).wf(),
    {
        let i: usize = (row - inner.y) as usize;
        if i < self.listed_tasks() {
            self.nav.task_index = i;
        }
    }

    fn click_list(&mut self, main: Rect, col: u16, row: u16)
        requires
            old(self).wf(),
        ensures
            *final(self) == list_clicked(*old(self), main, col, row),
            final(self).wf(),
    {
        let inner = frame(main);
        self.move_focus(Focus::Tasks);
        if !is_within(row, inner.y, inner.height) {
            return;
        }
        if self.nav.workbench_view == WorkbenchView::Reviews {
            self.click_reviews(inner, col, row);
        } else if self.nav.workbench_view == WorkbenchView::MyTasks {
            self.click_tasks(inner, row);
        }
    }

    fn click_main(&mut self, main: Rect, col: u16, row: u16) -> (e: Effect)
        requires
            old(self).wf(),
        ensures
            main_clicked(*old(self), main, col, row, *final(self), e),
            final(self).wf(),
    {
        if self.nav.workbench_view == WorkbenchView::Settings {
            let list = leading_columns(frame(main), 28);
            self.click_settings(list, col, row)
        } else {
            self.click_list(main, col, row);
            Effect::Nothing
        }
    }

    fn click_workbench(&mut self, c: &MouseContext, col: u16, row: u16) -> (e: Effect)
        requires
            old(self).wf(),
        ensures
            workbench_clicked(*old(self), *c, col, row, *final(self), e),
            final(self).wf(),
    {
        let l = &c.layout;
        if !is_within(row, l.body.y, l.body.height) {
            return Effect::Nothing;
        }
        if is_at_divider(col, l.sidebar.x.saturating_add(l.sidebar.width)) {
            self.begin_workbench_drag(WorkbenchDragTarget::SidebarDivider);
            return Effect::Nothing;
        }
        if c.inspector && is_at_divider(col, l.main.x.saturating_add(l.main.width)) {
            self.begin_workbench_drag(WorkbenchDragTarget::InspectorDivider);
            return Effect::Nothing;
        }
        if is_within(col, l.sidebar.x, l.sidebar.width) {
            self.click_sidebar(l.sidebar, col, row);
            return Effect::Nothing;
        }
        if is_within(col, l.inspector.x, l.inspector.width) {
            self.nav.focus = Focus::Inspector;
            return Effect::Nothing;
        }
        if is_within(col, l.main.x, l.main.width) {
            return self.click_main(l.main, col, row);
        }
        Effect::Nothing
    }

    fn turn_wheel(&mut self, layout: &WorkbenchLayout, ev: MouseEvent, up: bool) -> (e: Effect)
        requires
            old(self).wf(),
        ensures
            wheel_turned(*old(self), *layout, ev, up, *final(self), e),
            final(self).wf(),
    {
        if self.nav.input_mode != InputMode::Normal {
            return Effect::Nothing;
        }
        if layout.inspector.width > 0 && is_inside(layout.inspector, ev.column, ev.row) {
            self.nav.inspector_scroll = if up {
                self.nav.inspector_scroll.saturating_sub(3)
            } else {
                self.nav.inspector_scroll.saturating_add(3)
            };
            return Effect::Nothing;
        }
        if up {
            self.move_up()
        } else {
            self.move_down()
        }
    }

    /// Handle the mouse on the dashboard.
    pub fn handle_dashboard_mouse(&mut self, c: &MouseContext, ev: MouseEvent) -> (e: Effect)
        requires
            old(self).wf(),
        ensures
            dashboard_mouse_step(*old(self), *c, ev, *final(self), e),
            final(self).wf(),
    {
        if self.nav.drag_target.is_some() {
            if ev.kind == MouseEventKind::Up(MouseButton::Left) {
                self.nav.drag_target = None;
                return Effect::Nothing;
            }
            if ev.kind == MouseEventKind::Drag(MouseButton::Left) {
                return self.update_workbench_drag(&c.layout, ev.column);
            }
        }
        match ev.kind {
            MouseEventKind::Down(MouseButton::Left) => {
                if self.tabs.len() > 1 && ev.row == 0 {
                    self.click_tab_bar(&c.entries, ev.column);
                    return Effect::Nothing;
                }
                if self.nav.input_mode != InputMode::Normal {
                    return Effect::Nothing;
                }
                self.click_workbench(c, ev.column, ev.row)
            },
            MouseEventKind::ScrollUp => self.turn_wheel(&c.layout, ev, true),
            MouseEventKind::ScrollDown => self.turn_wheel(&c.layout, ev, false),
            _ => Effect::Nothing,
        }
    }

    /// Handle the mouse.
    pub fn handle_mouse(&mut self, c: &MouseContext, ev: MouseEvent) -> (e: Effect)
        requires
            old(self).wf(),
        ensures
            mouse_step(*old(self), *c, ev, *final(self), e),
            final(self).wf(),
    {
        if self.nav.screen.width == 0 || self.nav.screen.height == 0 {
            return Effect::Nothing;
        }
        if self.nav.active_tab > 0 {
            let areas = self.session_pane_inner_areas();
            return self.handle_session_mouse(c, &areas, ev);
        }
        self.handle_dashboard_mouse(c, ev)
    }
}

// ---------------------------------------------------------------------------
// Laws
// ---------------------------------------------------------------------------

/// The terminals are as large as what is drawn of them: a resize gives the panes of the
/// active tab the sizes of the areas that they are shown in.
pub proof fn law_terminals_fit_what_is_drawn(a: App)
    requires
        a.wf(),
        a.tabs@.len() > 1,
        on_session_tab(a),
    ensures
        a.tabs@[a.nav.active_tab as int] matches Tab::Session { panes, .. } && sizes_of(
            panes_shown(a),
        ) == sizes_of(
            pane_places(panes.layout, terminal_area(a.nav.screen.width, a.nav.screen.height)),
        ),
{
    let tab = a.tabs@[a.nav.active_tab as int];
    assert(crate::app::tab_wf(tab));
    law_sizes_do_not_depend_on_the_place(
        tab->panes.layout,
        panes_area(a),
        terminal_area(a.nav.screen.width, a.nav.screen.height),
    );
}

/// A mark stays inside the pane that it was started in.
pub proof fn law_marks_stay_inside(area: Rect, col: u16, row: u16)
    requires
        area.width > 0,
        area.height > 0,
    ensures
        kept_inside(area, col, row).row < area.height,
        kept_inside(area, col, row).col < area.width,
{
}

/// A press and a release on one cell copy nothing.
pub proof fn law_plain_click_copies_nothing(
    a: App,
    place: (u32, u16, u16),
    b: App,
    terminals: Seq<PaneState>,
    c: App,
    e: Effect,
)
    requires
        on_session_tab(a),
        mark_started(a, Some(place), b),
        mark_ended(b, terminals, c, e),
    ensures
        e == Effect::Nothing,
{
    let i = a.nav.active_tab as int;
    assert(b.tabs@[i] == with_panes(
        a.tabs@[i],
        Panes {
            focused: place.0,
            selection: Some(
                Selection {
                    pane: place.0,
                    start: CellPlace { row: place.1, col: place.2 },
                    end: CellPlace { row: place.1, col: place.2 },
                },
            ),
            ..panes_of(a)
        },
    ));
}

/// A click on the tab bar shows the first tab whose cells hold the column.
pub proof fn law_clicks_on_the_bar_show_the_tab(a: App, entries: Seq<TabEntry>, col: u16, k: int)
    requires
        0 <= k <= entries.len(),
        forall|j: int|
            0 <= j < k ==> !((#[trigger] entries[j]).x_start <= col && col < entries[j].x_start
                + entries[j].width),
    ensures
        k < entries.len() && entries[k].x_start <= col < entries[k].x_start + entries[k].width
            ==> tab_bar_clicked(a, entries, col).nav.active_tab == entries[k].tab_index,
        k == entries.len() ==> tab_bar_clicked(a, entries, col) == a,
{
    lemma_tab_at(entries, col, 0, k);
}

proof fn lemma_tab_at(entries: Seq<TabEntry>, col: u16, from: int, k: int)
    requires
        0 <= from <= k <= entries.len(),
        forall|j: int|
            from <= j < k ==> !((#[trigger] entries[j]).x_start <= col && col < entries[j].x_start
                + entries[j].width),
    ensures
        k < entries.len() && entries[k].x_start <= col < entries[k].x_start + entries[k].width
            ==> tab_at(entries, col, from) == Some(entries[k].tab_index),
        k == entries.len() ==> tab_at(entries, col, from) is None,
    decreases k - from,
{
    if from < k {
        assert(!(entries[from].x_start <= col && col < entries[from].x_start
            + entries[from].width));
        lemma_tab_at(entries, col, from + 1, k);
    }
}

/// The panes fill the screen but for its last row and, where there are tabs to choose from,
/// its first one.
pub proof fn law_panes_fill_the_screen(a: App)
    requires
        a.nav.screen.height >= 2,
    ensures
        a.tabs@.len() > 1 ==> panes_area(a).y == 1 && panes_area(a).height == a.nav.screen.height
            - 2,
        a.tabs@.len() <= 1 ==> panes_area(a).y == 0 && panes_area(a).height == a.nav.screen.height
            - 1,
        panes_area(a).x == 0 && panes_area(a).width == a.nav.screen.width,
{
}

/// A press in a pane whose program does not ask for the mouse starts a mark at that cell
/// and gives the pane the focus; the wheel scrolls the pane under it by five rows.
pub proof fn law_presses_start_a_mark(
    pre: App,
    c: MouseContext,
    areas: Seq<(u32, Rect)>,
    ev: MouseEvent,
    post: App,
    e: Effect,
)
    requires
        unreported(pre, c, areas, ev, post, e),
        at(pre.tabs@, pre.nav.active_tab as int) matches Some(Tab::Session { .. }),
        place_in(areas, ev.column, ev.row) is Some,
    ensures
        ({
            let (pane, row, col) = place_in(areas, ev.column, ev.row)->0;
            &&& ev.kind == MouseEventKind::Down(MouseButton::Left) ==> {
                let p = post.tabs@[pre.nav.active_tab as int]->panes;
                &&& p.focused == pane
                &&& p.selection matches Some(s) && s.pane == pane && s.start.row == row
                    && s.start.col == col && s.end == s.start
                &&& e == Effect::Nothing
            }
            &&& ev.kind == MouseEventKind::ScrollUp && (exists|k: int|
                0 <= k < c.terminals@.len() && (#[trigger] c.terminals@[k]).id == pane) ==> e
                == Effect::Pane(PaneEffect::Scroll { pane: pane, up: true, rows: 5 })
            &&& ev.kind == MouseEventKind::ScrollDown && (exists|k: int|
                0 <= k < c.terminals@.len() && (#[trigger] c.terminals@[k]).id == pane) ==> e
                == Effect::Pane(PaneEffect::Scroll { pane: pane, up: false, rows: 5 })
        }),
{
    let (pane, row, col) = place_in(areas, ev.column, ev.row)->0;
    if exists|k: int| 0 <= k < c.terminals@.len() && (#[trigger] c.terminals@[k]).id == pane {
        let k = choose|k: int| 0 <= k < c.terminals@.len() && (#[trigger] c.terminals@[k]).id
            == pane;
        lemma_terminal_found(c.terminals@, pane, 0, k);
    }
}

proof fn lemma_terminal_found(terminals: Seq<PaneState>, id: u32, from: int, k: int)
    requires
        0 <= from <= k < terminals.len(),
        terminals[k].id == id,
    ensures
        terminal_of(terminals, id, from) matches Some(i) && from <= i <= k && terminals[i].id == id
            && forall|j: int| from <= j < i ==> (#[trigger] terminals[j]).id != id,
    decreases k - from,
{
    if terminals[from].id != id {
        lemma_terminal_found(terminals, id, from + 1, k);
    }
}

/// A drag moves the end of the mark to the cell under the pointer, kept inside the pane
/// where the mark was started.
pub proof fn law_marks_follow_the_pointer(area: Rect, col: u16, row: u16)
    requires
        area.width > 0,
        area.height > 0,
    ensures
        area.x <= col < area.x + area.width ==> area.x + kept_inside(area, col, row).col == col,
        area.y <= row < area.y + area.height ==> area.y + kept_inside(area, col, row).row == row,
        col < area.x ==> kept_inside(area, col, row).col == 0,
        row < area.y ==> kept_inside(area, col, row).row == 0,
        col >= area.x + area.width ==> kept_inside(area, col, row).col == area.width - 1,
        row >= area.y + area.height ==> kept_inside(area, col, row).row == area.height - 1,
{
}

/// A release copies what is marked, where it is more than a click.
pub proof fn law_releases_copy_the_mark(
    pre: App,
    terminals: Seq<PaneState>,
    post: App,
    e: Effect,
    k: int,
)
    requires
        mark_ended(pre, terminals, post, e),
        at(pre.tabs@, pre.nav.active_tab as int) matches Some(Tab::Session { .. }),
        0 <= k < terminals.len(),
    ensures
        at(pre.tabs@, pre.nav.active_tab as int)->0->panes.selection matches Some(sel) ==> {
            &&& sel.start != sel.end && terminals[k].id == sel.pane ==> e == Effect::Pane(
                PaneEffect::Copy(sel),
            )
            &&& sel.start == sel.end ==> e == Effect::Nothing
        },
        at(pre.tabs@, pre.nav.active_tab as int)->0->panes.selection is None ==> e
            == Effect::Nothing && post == pre,
{
    if let Some(sel) = at(pre.tabs@, pre.nav.active_tab as int)->0->panes.selection {
        if terminals[k].id == sel.pane {
            lemma_terminal_found(terminals, sel.pane, 0, k);
        }
    }
}

/// A program that asked for the mouse is told what happens in its pane, in its own cells
/// and its own encoding.
pub proof fn law_programs_are_told_of_the_mouse(
    pre: App,
    ev: MouseEvent,
    pane: u32,
    row: u16,
    col: u16,
    encoding: MouseProtocolEncoding,
    post: App,
    e: Effect,
)
    requires
        reported(pre, ev, pane, row, col, encoding, post, e),
    ensures
        mouse_button(ev.kind) is None ==> e == Effect::Nothing && post == pre,
        mouse_button(ev.kind) matches Some((button, release)) ==> (e matches Effect::Pane(p)
            && p matches PaneEffect::SendTo { pane: to, bytes } && to == pane && bytes@
            == mouse_sequence(button, release, col, row, encoding)),
{
}

/// A click in the sidebar chooses the view or the project of its row: the views stand below
/// one row, the projects three rows below the views.
pub proof fn law_clicks_in_the_sidebar(a: App, clicked: int)
    requires
        a.projects@.len() < 1000,
    ensures
        1 <= clicked <= 5 ==> sidebar_place(a, clicked) == Some((clicked - 1) as usize),
        8 <= clicked < 8 + a.projects@.len() ==> sidebar_place(a, clicked) == Some(
            (clicked - 3) as usize,
        ),
        clicked == 0 || clicked == 6 || clicked == 7 || clicked >= 8 + a.projects@.len()
            ==> sidebar_place(a, clicked) is None,
{
}

/// A click in the list of one's tasks selects the task of its row, and one in a review queue
/// the pull request below the tabs of the queues.
pub proof fn law_clicks_in_the_list(a: App, main: Rect, col: u16, row: u16)
    requires
        main.y + main.height <= u16::MAX,
        main.height >= 2,
        main.y < row < main.y + main.height - 1,
    ensures
        a.nav.workbench_view == WorkbenchView::MyTasks && row - main.y - 1 < task_list_len(a)
            ==> list_clicked(a, main, col, row).nav.task_index == row - main.y - 1,
        a.nav.workbench_view == WorkbenchView::Reviews && row > main.y + 1 && row - main.y - 2
            < queue(a).len() ==> list_clicked(a, main, col, row).nav.review_index == row - main.y
            - 2,
        list_clicked(a, main, col, row).nav.focus == Focus::Tasks,
        list_clicked(a, main, col, row).nav.workbench_view == a.nav.workbench_view,
{
}

/// A click on a tab of the review queues turns to that queue: the left one holds one's own
/// pull requests, the right one those to review.
pub proof fn law_clicks_turn_the_queue(a: App, inner: Rect, col: u16, row: u16)
    requires
        inner.x < 60000,
        row == inner.y,
    ensures
        inner.x + 2 <= col < inner.x + 20 ==> reviews_place(a, inner, col, row).review_queue_tab
            == ReviewQueueTab::Authored && reviews_place(a, inner, col, row).review_index == 0,
        inner.x + 21 <= col < inner.x + 39 ==> reviews_place(a, inner, col, row).review_queue_tab
            == ReviewQueueTab::NeedsReview && reviews_place(a, inner, col, row).review_index == 0,
        col < inner.x + 2 || col == inner.x + 20 || col >= inner.x + 39 ==> reviews_place(
            a,
            inner,
            col,
            row,
        ) == a.nav,
{
}

/// A click in the list of settings chooses the section of its row.
pub proof fn law_clicks_choose_the_section(list: Rect, col: u16, row: u16)
    requires
        list.x + list.width <= u16::MAX,
        list.y + list.height <= u16::MAX,
        list.x < col < list.x + list.width,
        list.y <= row < list.y + list.height,
    ensures
        1 <= row - list.y <= 9 ==> section_at(list, col, row) == Some((row - list.y - 1) as usize),
        row == list.y || row - list.y > 9 ==> section_at(list, col, row) is None,
{
}

/// The wheel over the inspector scrolls it by three lines, elsewhere it moves the selection;
/// while a form is open it does nothing.
pub proof fn law_the_wheel(
    pre: App,
    layout: WorkbenchLayout,
    ev: MouseEvent,
    up: bool,
    post: App,
    e: Effect,
)
    requires
        wheel_turned(pre, layout, ev, up, post, e),
        layout.inspector.x + layout.inspector.width <= u16::MAX,
        layout.inspector.y + layout.inspector.height <= u16::MAX,
    ensures
        pre.nav.input_mode != InputMode::Normal ==> post == pre && e == Effect::Nothing,
        pre.nav.input_mode == InputMode::Normal && layout.inspector.x <= ev.column
            < layout.inspector.x + layout.inspector.width && layout.inspector.y <= ev.row
            < layout.inspector.y + layout.inspector.height ==> {
            &&& up && pre.nav.inspector_scroll >= 3 ==> post.nav.inspector_scroll + 3
                == pre.nav.inspector_scroll
            &&& !up && pre.nav.inspector_scroll <= 60000 ==> post.nav.inspector_scroll
                == pre.nav.inspector_scroll + 3
        },
{
}

/// A drag of a divider resizes until the button is released.
pub proof fn law_dividers_are_dragged(
    pre: App,
    c: MouseContext,
    ev: MouseEvent,
    post: App,
    e: Effect,
)
    requires
        dashboard_mouse_step(pre, c, ev, post, e),
        pre.nav.drag_target is Some,
    ensures
        ev.kind == MouseEventKind::Up(MouseButton::Left) ==> post.nav.drag_target is None && e
            == Effect::Nothing,
        ev.kind == MouseEventKind::Drag(MouseButton::Left) ==> post == pre && e == dragged(
            pre,
            c.layout,
            ev.column,
        ),
{
}

/// A click on the dashboard goes to the part under it: a divider is grabbed, the sidebar and
/// the inspector get the focus; while a form is open, and outside the body, nothing happens.
pub proof fn law_clicks_go_to_their_part(
    pre: App,
    c: MouseContext,
    ev: MouseEvent,
    post: App,
    e: Effect,
)
    requires
        dashboard_mouse_step(pre, c, ev, post, e),
        pre.nav.drag_target is None,
        ev.kind == MouseEventKind::Down(MouseButton::Left),
        pre.tabs@.len() <= 1 || ev.row > 0,
        c.layout.body.y + c.layout.body.height <= u16::MAX,
        c.layout.sidebar.x + c.layout.sidebar.width <= u16::MAX,
        c.layout.main.x + c.layout.main.width <= u16::MAX,
        c.layout.inspector.x + c.layout.inspector.width <= u16::MAX,
        c.layout.sidebar.x + c.layout.sidebar.width <= c.layout.main.x,
        c.layout.main.x + c.layout.main.width <= c.layout.inspector.x,
        c.layout.main.width >= 4,
    ensures
        pre.nav.input_mode != InputMode::Normal ==> post == pre && e == Effect::Nothing,
        pre.nav.input_mode == InputMode::Normal && (ev.row < c.layout.body.y || ev.row
            >= c.layout.body.y + c.layout.body.height) ==> post == pre && e == Effect::Nothing,
        pre.nav.input_mode == InputMode::Normal && c.layout.body.y <= ev.row < c.layout.body.y
            + c.layout.body.height ==> {
            &&& ev.column == c.layout.sidebar.x + c.layout.sidebar.width ==> post.nav.drag_target
                == Some(WorkbenchDragTarget::SidebarDivider)
            &&& c.layout.sidebar.x <= ev.column && ev.column + 1 < c.layout.sidebar.x
                + c.layout.sidebar.width ==> post.nav.focus == Focus::Projects
                && post.nav.drag_target is None
            &&& c.inspector && ev.column == c.layout.main.x + c.layout.main.width
                ==> post.nav.drag_target == Some(WorkbenchDragTarget::InspectorDivider)
            &&& c.layout.inspector.x < ev.column < c.layout.inspector.x + c.layout.inspector.width
                ==> post.nav.focus == Focus::Inspector && post.nav.drag_target is None
        },
{
}

/// Before the first screen is drawn the mouse does nothing; on a session's tab it goes to
/// the panes, on the dashboard to the workbench.
pub proof fn law_the_mouse_goes_to_the_active_tab(
    pre: App,
    c: MouseContext,
    ev: MouseEvent,
    post: App,
    e: Effect,
)
    requires
        mouse_step(pre, c, ev, post, e),
    ensures
        pre.nav.screen.width == 0 || pre.nav.screen.height == 0 ==> post == pre && e
            == Effect::Nothing,
        pre.nav.screen.width > 0 && pre.nav.screen.height > 0 && pre.nav.active_tab > 0
            ==> session_mouse_step(pre, c, panes_shown(pre), ev, post, e),
        pre.nav.screen.width > 0 && pre.nav.screen.height > 0 && pre.nav.active_tab == 0
            ==> dashboard_mouse_step(pre, c, ev, post, e),
        panes_shown(pre).len() > 0 ==> (at(pre.tabs@, pre.nav.active_tab as int) matches Some(
            Tab::Session { panes, .. },
        ) && panes_shown(pre) == pane_places(panes.layout, panes_area(pre))),
{
}

} // verus!
