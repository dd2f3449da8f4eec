//! The panes of a session tab: how they divide the screen, and which one a place on
//! the screen belongs to.

use vstd::prelude::*;

verus! {

/// An area of the screen, in cells.
#[derive(Clone, Copy, Debug, PartialEq, Eq, Structural)]
pub struct Rect {
    pub x: u16,
    pub y: u16,
    pub width: u16,
    pub height: u16,
}

#[derive(Clone, Copy, Debug, PartialEq, Eq, Structural)]
pub enum SplitDirection {
    Horizontal,
    Vertical,
}

/// How the panes of a tab are arranged.
#[derive(Debug)]
pub enum LayoutNode {
    Pane(u32),
    /// The first part takes `ratio` percent of the area.
    Split { direction: SplitDirection, ratio: u16, first: Box<LayoutNode>, second: Box<LayoutNode> },
}

impl LayoutNode {
    /// Every ratio is a percentage.
    pub open spec fn wf(self) -> bool
        decreases self,
    {
        match self {
            LayoutNode::Pane(_) => true,
            LayoutNode::Split { direction, ratio, first, second } => ratio <= 100 && first.wf()
                && second.wf(),
        }
    }

    /// The panes in the order of the layout.
    pub open spec fn leaves(self) -> Seq<u32>
        decreases self,
    {
        match self {
            LayoutNode::Pane(id) => seq![id],
            LayoutNode::Split { direction, ratio, first, second } => first.leaves()
                + second.leaves(),
        }
    }
}

pub open spec fn capped(n: int) -> u16 {
    if n > u16::MAX {
        u16::MAX
    } else {
        n as u16
    }
}

pub open spec fn less(n: u16, by: int) -> u16 {
    if n < by {
        0
    } else {
        (n - by) as u16
    }
}

/// One step to the right of `start`, but not behind the area's end.
pub open spec fn behind_border(start: u16, size: u16) -> u16 {
    if size == 0 {
        start
    } else {
        capped(start + 1)
    }
}

/// What a border leaves of an area.
pub open spec fn inside_border(area: Rect) -> Rect {
    Rect {
        x: behind_border(area.x, area.width),
        y: behind_border(area.y, area.height),
        width: less(area.width, 2),
        height: less(area.height, 2),
    }
}

/// Calls `Block::inner` of ratatui on a block with borders on all sides: the area
/// without its outermost cells.
#[verifier::external_body]
pub(crate) fn block_inner(area: Rect) -> (r: Rect)
    ensures
        r == inside_border(area),
{
    let outer = ratatui::layout::Rect { x: area.x, y: area.y, width: area.width, height: area.height };
    let inner = ratatui::widgets::Block::default().borders(ratatui::widgets::Borders::ALL).inner(
        outer,
    );
    Rect { x: inner.x, y: inner.y, width: inner.width, height: inner.height }
}

/// What of an extent lies in front of the last cell that a place can have.
pub open spec fn on_screen(start: u16, size: u16) -> u16 {
    if start + size > u16::MAX {
        (u16::MAX - start) as u16
    } else {
        size
    }
}

/// A percentage of an extent, to the nearest cell.
pub open spec fn share(size: u16, ratio: u16) -> u16 {
    ((size * ratio + 50) / 100) as u16
}

/// The two parts of an area: the first takes a percentage of it, the second the rest.
pub open spec fn split_parts(direction: SplitDirection, ratio: u16, area: Rect) -> (Rect, Rect) {
    match direction {
        SplitDirection::Horizontal => {
            let width = on_screen(area.x, area.width);
            let first = share(width, ratio);
            (
                Rect { width: first, ..area },
                Rect { x: (area.x + first) as u16, width: (width - first) as u16, ..area },
            )
        },
        SplitDirection::Vertical => {
            let height = on_screen(area.y, area.height);
            let first = share(height, ratio);
            (
                Rect { height: first, ..area },
                Rect { y: (area.y + first) as u16, height: (height - first) as u16, ..area },
            )
        },
    }
}

/// Calls `Layout::split` of ratatui with two percentages, which make a hundred. Each part
/// gets its percentage of the area, rounded to a cell; the parts follow each other, and
/// the second ends where the area does. Across the split both keep the area's extent.
#[verifier::external_body]
pub(crate) fn split_area(direction: SplitDirection, ratio: u16, rest: u16, area: Rect) -> (r: (
    Rect,
    Rect,
))
    requires
        ratio + rest == 100,
    ensures
        r == split_parts(direction, ratio, area),
{
    let direction = match direction {
        SplitDirection::Horizontal => ratatui::layout::Direction::Horizontal,
        SplitDirection::Vertical => ratatui::layout::Direction::Vertical,
    };
    let percent = ratatui::layout::Constraint::Percentage;
    let parts = ratatui::layout::Layout::default()
        .direction(direction)
        .constraints([percent(ratio), percent(rest)])
        .split(ratatui::layout::Rect { x: area.x, y: area.y, width: area.width, height: area.height });
    let (a, b) = (parts[0], parts[1]);
    (
        Rect { x: a.x, y: a.y, width: a.width, height: a.height },
        Rect { x: b.x, y: b.y, width: b.width, height: b.height },
    )
}

/// The first columns of an area, or all of a narrower one.
pub open spec fn first_columns(area: Rect, columns: u16) -> Rect {
    let width = on_screen(area.x, area.width);
    Rect {
        width: if columns < width {
            columns
        } else {
            width
        },
        ..area
    }
}

/// Calls `Layout::split` of ratatui with a fixed number of columns and the rest, and
/// hands back the first part: it starts where the area does and is as wide as asked
/// for, or as wide as the area where that is narrower.
#[verifier::external_body]
pub(crate) fn leading_columns(area: Rect, columns: u16) -> (r: Rect)
    ensures
        r == first_columns(area, columns),
{
    let parts = ratatui::layout::Layout::default()
        .direction(ratatui::layout::Direction::Horizontal)
        .constraints([
            ratatui::layout::Constraint::Length(columns),
            ratatui::layout::Constraint::Min(0),
        ])
        .split(ratatui::layout::Rect { x: area.x, y: area.y, width: area.width, height: area.height });
    Rect { x: parts[0].x, y: parts[0].y, width: parts[0].width, height: parts[0].height }
}

/// Every pane of a layout, in order, with what the borders leave of its part of an
/// area.
pub open spec fn pane_places(node: LayoutNode, area: Rect) -> Seq<(u32, Rect)>
    decreases node,
{
    match node {
        LayoutNode::Pane(id) => seq![(id, inside_border(area))],
        LayoutNode::Split { direction, ratio, first, second } => {
            let parts = split_parts(direction, ratio, area);
            pane_places(*first, parts.0) + pane_places(*second, parts.1)
        },
    }
}

/// The area inside the borders of every pane.
pub fn collect_pane_inner_areas(node: &LayoutNode, area: Rect) -> (r: Vec<(u32, Rect)>)
    requires
        node.wf(),
    ensures
        r@ == pane_places(*node, area),
    decreases *node,
{
    match node {
        LayoutNode::Pane(id) => {
            let r = vec![(*id, block_inner(area))];
            assert(r@ =~= seq![(*id, inside_border(area))]);
            r
        },
        LayoutNode::Split { direction, ratio, first, second } => {
            let parts = split_area(*direction, *ratio, 100 - *ratio, area);
            let mut r = collect_pane_inner_areas(first, parts.0);
            let mut rest = collect_pane_inner_areas(second, parts.1);
            r.append(&mut rest);
            r
        },
    }
}

/// What a terminal of a size leaves for the panes: the tab bar and the hint bar take
/// one row each.
pub open spec fn terminal_area(cols: u16, rows: u16) -> Rect {
    Rect { x: 0, y: 0, width: cols, height: less(rows, 2) }
}

/// A list of panes with their rows and columns comes from a list of areas.
pub open spec fn sizes_of(areas: Seq<(u32, Rect)>) -> Seq<(u32, u16, u16)> {
    areas.map_values(|p: (u32, Rect)| (p.0, p.1.height, p.1.width))
}

/// The rows and columns of every pane in a terminal of a size.
pub fn compute_pane_sizes_for_resize(layout: &LayoutNode, total_cols: u16, total_rows: u16) -> (r:
    Vec<(u32, u16, u16)>)
    requires
        layout.wf(),
    ensures
        r@ == sizes_of(pane_places(*layout, terminal_area(total_cols, total_rows))),
{
    let area = Rect { x: 0, y: 0, width: total_cols, height: total_rows.saturating_sub(2) };
    let areas = collect_pane_inner_areas(layout, area);
    let mut r: Vec<(u32, u16, u16)> = Vec::new();
    let mut i: usize = 0;
    while i < areas.len()
        invariant
            i <= areas@.len(),
            r@ == sizes_of(areas@).take(i as int),
        decreases areas@.len() - i,
    {
        let (id, rect) = areas[i];
        r.push((id, rect.height, rect.width));
        i += 1;
        assert(sizes_of(areas@).take(i as int) =~= sizes_of(areas@).take(i - 1).push(
            sizes_of(areas@)[i - 1],
        ));
    }
    assert(r@ =~= sizes_of(areas@));
    r
}

/// A place on the screen lies in an area.
pub open spec fn holds_place(area: Rect, col: u16, row: u16) -> bool {
    area.x <= col < area.x + area.width && area.y <= row < area.y + area.height
}

pub fn contains_place(area: Rect, col: u16, row: u16) -> (r: bool)
    ensures
        r == holds_place(area, col, row),
{
    col >= area.x && (col as u32) < area.x as u32 + area.width as u32 && row >= area.y && (
    row as u32) < area.y as u32 + area.height as u32
}

/// The first pane that a place on the screen belongs to, with the row and the column
/// inside it.
pub open spec fn place_in(areas: Seq<(u32, Rect)>, col: u16, row: u16) -> Option<(u32, u16, u16)>
    decreases areas.len(),
{
    if areas.len() == 0 {
        None
    } else {
        let (id, area) = areas[0];
        if holds_place(area, col, row) {
            Some((id, (row - area.y) as u16, (col - area.x) as u16))
        } else {
            place_in(areas.drop_first(), col, row)
        }
    }
}

/// Translate a place on the screen into the pane under it.
pub fn screen_to_terminal_coords(areas: &Vec<(u32, Rect)>, col: u16, row: u16) -> (r: Option<
    (u32, u16, u16),
>)
    ensures
        r == place_in(areas@, col, row),
{
    let mut i: usize = 0;
    assert(areas@.skip(0) =~= areas@);
    while i < areas.len()
        invariant
            i <= areas@.len(),
            place_in(areas@, col, row) == place_in(areas@.skip(i as int), col, row),
        decreases areas@.len() - i,
    {
        let (id, area) = areas[i];
        assert(areas@.skip(i as int)[0] == areas@[i as int]);
        assert(areas@.skip(i as int).drop_first() =~= areas@.skip(i + 1));
        if contains_place(area, col, row) {
            return Some((id, row - area.y, col - area.x));
        }
        i += 1;
    }
    None
}

// ---------------------------------------------------------------------------
// Laws
// ---------------------------------------------------------------------------

proof fn lemma_share_fits(size: u16, ratio: u16)
    requires
        ratio <= 100,
    ensures
        share(size, ratio) <= size,
        (size * ratio + 50) / 100 == share(size, ratio),
{
    assert(0 <= size * ratio <= size * 100) by (nonlinear_arith)
        requires
            0 <= size,
            0 <= ratio <= 100,
    ;
}

/// A split leaves no cell of an area out and gives none to both parts.
pub proof fn law_splits_share_every_cell(
    direction: SplitDirection,
    ratio: u16,
    area: Rect,
    col: u16,
    row: u16,
)
    requires
        ratio <= 100,
        area.x + area.width <= u16::MAX,
        area.y + area.height <= u16::MAX,
    ensures
        ({
            let parts = split_parts(direction, ratio, area);
            &&& holds_place(area, col, row) <==> holds_place(parts.0, col, row) || holds_place(
                parts.1,
                col,
                row,
            )
            &&& !(holds_place(parts.0, col, row) && holds_place(parts.1, col, row))
        }),
{
    lemma_share_fits(area.width, ratio);
    lemma_share_fits(area.height, ratio);
}

/// Every pane of a layout is given an area, in the order of the layout.
pub proof fn law_every_pane_has_a_place(node: LayoutNode, area: Rect)
    ensures
        pane_places(node, area).map_values(|p: (u32, Rect)| p.0) == node.leaves(),
    decreases node,
{
    let ids = |p: (u32, Rect)| p.0;
    match node {
        LayoutNode::Pane(id) => {
            assert(pane_places(node, area).map_values(ids) =~= seq![id]);
        },
        LayoutNode::Split { direction, ratio, first, second } => {
            let parts = split_parts(direction, ratio, area);
            law_every_pane_has_a_place(*first, parts.0);
            law_every_pane_has_a_place(*second, parts.1);
            assert(pane_places(node, area).map_values(ids) =~= pane_places(
                *first,
                parts.0,
            ).map_values(ids) + pane_places(*second, parts.1).map_values(ids));
        },
    }
}

/// How large the panes are does not depend on where their area lies.
pub proof fn law_sizes_do_not_depend_on_the_place(node: LayoutNode, a: Rect, b: Rect)
    requires
        node.wf(),
        a.width == b.width,
        a.height == b.height,
        a.x + a.width <= u16::MAX,
        a.y + a.height <= u16::MAX,
        b.x + b.width <= u16::MAX,
        b.y + b.height <= u16::MAX,
    ensures
        sizes_of(pane_places(node, a)) == sizes_of(pane_places(node, b)),
    decreases node,
{
    match node {
        LayoutNode::Pane(id) => {
            assert(sizes_of(pane_places(node, a)) =~= sizes_of(pane_places(node, b)));
        },
        LayoutNode::Split { direction, ratio, first, second } => {
            lemma_share_fits(a.width, ratio);
            lemma_share_fits(a.height, ratio);
            let p = split_parts(direction, ratio, a);
            let q = split_parts(direction, ratio, b);
            law_sizes_do_not_depend_on_the_place(*first, p.0, q.0);
            law_sizes_do_not_depend_on_the_place(*second, p.1, q.1);
            assert(sizes_of(pane_places(node, a)) =~= sizes_of(pane_places(*first, p.0))
                + sizes_of(pane_places(*second, p.1)));
            assert(sizes_of(pane_places(node, b)) =~= sizes_of(pane_places(*first, q.0))
                + sizes_of(pane_places(*second, q.1)));
        },
    }
}

/// A place keeps inside the area it is found in.
pub proof fn law_places_stay_inside(areas: Seq<(u32, Rect)>, col: u16, row: u16)
    ensures
        place_in(areas, col, row) matches Some((id, r, c)) ==> exists|i: int|
            0 <= i < areas.len() && (#[trigger] areas[i]).0 == id && r < areas[i].1.height && c
                < areas[i].1.width,
    decreases areas.len(),
{
    if areas.len() > 0 {
        let (id, area) = areas[0];
        if !holds_place(area, col, row) {
            law_places_stay_inside(areas.drop_first(), col, row);
            if place_in(areas, col, row) is Some {
                let found = place_in(areas.drop_first(), col, row)->0;
                let k = choose|k: int|
                    0 <= k < areas.drop_first().len() && (#[trigger] areas.drop_first()[k]).0
                        == found.0 && found.1 < areas.drop_first()[k].1.height && found.2
                        < areas.drop_first()[k].1.width;
                assert(areas[k + 1] == areas.drop_first()[k]);
            }
        } else {
            assert(areas[0].0 == id);
        }
    }
}

/// A split gives its first part the ratio's share, rounded to the nearest cell, and puts
/// the second part beside it: to the right where it is horizontal, below where it is
/// vertical.
pub proof fn law_a_split_gives_the_first_its_share(
    direction: SplitDirection,
    ratio: u16,
    area: Rect,
)
    requires
        ratio <= 100,
        area.x + area.width <= u16::MAX,
        area.y + area.height <= u16::MAX,
    ensures
        ({
            let (a, b) = split_parts(direction, ratio, area);
            &&& direction == SplitDirection::Horizontal ==> {
                &&& a.x == area.x && b.x == area.x + a.width
                &&& a.width + b.width == area.width
                &&& area.width * ratio - 50 <= a.width * 100 <= area.width * ratio + 50
                &&& a.y == area.y && b.y == area.y
                &&& a.height == area.height && b.height == area.height
            }
            &&& direction == SplitDirection::Vertical ==> {
                &&& a.y == area.y && b.y == area.y + a.height
                &&& a.height + b.height == area.height
                &&& area.height * ratio - 50 <= a.height * 100 <= area.height * ratio + 50
                &&& a.x == area.x && b.x == area.x
                &&& a.width == area.width && b.width == area.width
            }
        }),
{
    lemma_share(area.width, ratio);
    lemma_share(area.height, ratio);
}

proof fn lemma_share(size: u16, ratio: u16)
    requires
        ratio <= 100,
    ensures
        share(size, ratio) <= size,
        size * ratio - 50 <= share(size, ratio) * 100 <= size * ratio + 50,
{
    let p: int = size * ratio;
    assert(0 <= p <= size * 100) by (nonlinear_arith)
        requires
            0 <= ratio <= 100,
            0 <= size,
            p == size * ratio,
    ;
    assert((p + 50) / 100 <= size);
    assert((p + 50) / 100 * 100 <= p + 50);
}

/// A pane is drawn one cell inside its part on every side.
pub proof fn law_borders_take_one_cell(id: u32, area: Rect)
    requires
        area.width >= 2,
        area.height >= 2,
        area.x < u16::MAX,
        area.y < u16::MAX,
    ensures
        pane_places(LayoutNode::Pane(id), area) =~= seq![
            (
                id,
                Rect {
                    x: (area.x + 1) as u16,
                    y: (area.y + 1) as u16,
                    width: (area.width - 2) as u16,
                    height: (area.height - 2) as u16,
                },
            ),
        ],
        terminal_area(area.width, area.height).x == 0,
        terminal_area(area.width, area.height).y == 0,
        terminal_area(area.width, area.height).width == area.width,
        terminal_area(area.width, area.height).height == area.height - 2,
{
}

/// A place on the screen is that of the first pane whose cells hold it, told from the
/// pane's own corner, the row before the column; a place that no pane holds is none.
pub proof fn law_the_pane_under_a_place(areas: Seq<(u32, Rect)>, col: u16, row: u16, k: int)
    requires
        0 <= k <= areas.len(),
        forall|j: int|
            0 <= j < k ==> !({
                let r = (#[trigger] areas[j]).1;
                r.x <= col && col < r.x + r.width && r.y <= row && row < r.y + r.height
            }),
    ensures
        k == areas.len() ==> place_in(areas, col, row) is None,
        k < areas.len() && areas[k].1.x <= col < areas[k].1.x + areas[k].1.width && areas[k].1.y
            <= row < areas[k].1.y + areas[k].1.height ==> (place_in(areas, col, row) matches Some(
            (id, r, c),
        ) && id == areas[k].0 && areas[k].1.y + r == row && areas[k].1.x + c == col),
    decreases areas.len(),
{
    if areas.len() > 0 && k > 0 {
        assert(!holds_place(areas[0].1, col, row));
        let rest = areas.drop_first();
        assert forall|j: int| 0 <= j < k - 1 implies !({
            let r = (#[trigger] rest[j]).1;
            r.x <= col && col < r.x + r.width && r.y <= row && row < r.y + r.height
        }) by {
            assert(rest[j] == areas[j + 1]);
        }
        law_the_pane_under_a_place(rest, col, row, k - 1);
    }
}

/// The size of a terminal is its pane's, the rows before the columns.
pub proof fn law_sizes_are_those_of_the_panes(areas: Seq<(u32, Rect)>, k: int)
    requires
        0 <= k < areas.len(),
    ensures
        sizes_of(areas).len() == areas.len(),
        sizes_of(areas)[k].0 == areas[k].0,
        sizes_of(areas)[k].1 == areas[k].1.height,
        sizes_of(areas)[k].2 == areas[k].1.width,
{
}

/// A layout can be drawn where every split gives at most all of its area to its first part.
pub proof fn law_drawable_layouts(
    id: u32,
    direction: SplitDirection,
    ratio: u16,
    first: Box<LayoutNode>,
    second: Box<LayoutNode>,
)
    ensures
        LayoutNode::Pane(id).wf(),
        (LayoutNode::Split { direction, ratio, first, second }).wf() <==> ratio <= 100
            && first.wf() && second.wf(),
        LayoutNode::Pane(id).leaves() =~= seq![id],
        (LayoutNode::Split { direction, ratio, first, second }).leaves() =~= first.leaves()
            + second.leaves(),
{
}

/// The first columns of an area are as many as are asked for, where it has them.
pub proof fn law_the_first_columns(area: Rect, columns: u16)
    requires
        area.x + area.width <= u16::MAX,
    ensures
        columns <= area.width ==> first_columns(area, columns).width == columns,
        columns > area.width ==> first_columns(area, columns).width == area.width,
        first_columns(area, columns).x == area.x && first_columns(area, columns).y == area.y
            && first_columns(area, columns).height == area.height,
{
}

} // verus!
