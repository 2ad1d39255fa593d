//! Screen geometry shared by the renderer and the pointer hit-test: the nested region partition
//! for a terminal size, the list's scroll window, and what a click at a cell means.
use crate::app::DemoPanel;
use ratatui::layout::{Constraint, Direction, Layout, Rect};
use vstd::prelude::*;

verus! {

/// A rectangle of terminal cells.
#[derive(Debug, Clone, Copy, PartialEq, Eq, Hash, Structural)]
pub struct Area {
    pub x: u16,
    pub y: u16,
    pub width: u16,
    pub height: u16,
}

/// A size constraint on one part of a split.
#[derive(Debug, Clone, Copy, PartialEq, Eq, Structural)]
pub enum LayoutConstraint {
    Length(u16),
    Min(u16),
    Percentage(u16),
}

/// The axis along which an area is split.
#[derive(Debug, Clone, Copy, PartialEq, Eq, Structural)]
pub enum SplitAxis {
    Vertical,
    Horizontal,
}

/// The parts that ratatui's layout solver cuts `area` into.
pub uninterp spec fn split_of(area: Area, axis: SplitAxis, constraints: Seq<LayoutConstraint>) -> Seq<
    Area,
>;

/// Relies on ratatui's `Layout::split` (no margin, no spacing, default flex): one rectangle per
/// constraint, depending on the area, the axis and the constraints alone.
#[verifier::external_body]
fn split_area(area: Area, axis: SplitAxis, constraints: &Vec<LayoutConstraint>) -> (r: Vec<Area>)
    ensures
        r@ == split_of(area, axis, constraints@),
        r@.len() == constraints@.len(),
{
    let direction = match axis {
        SplitAxis::Vertical => Direction::Vertical,
        SplitAxis::Horizontal => Direction::Horizontal,
    };
    let cs = constraints.iter().map(|c| match *c {
        LayoutConstraint::Length(n) => Constraint::Length(n),
        LayoutConstraint::Min(n) => Constraint::Min(n),
        LayoutConstraint::Percentage(n) => Constraint::Percentage(n),
    });
    let rect = Rect { x: area.x, y: area.y, width: area.width, height: area.height };
    let parts = Layout::default().direction(direction).constraints(cs).split(rect);
    parts.iter().map(|p| Area { x: p.x, y: p.y, width: p.width, height: p.height }).collect()
}

pub open spec fn sat_add(a: u16, b: u16) -> u16 {
    if a + b > u16::MAX {
        u16::MAX
    } else {
        (a + b) as u16
    }
}

pub open spec fn sat_sub(a: int, b: int) -> int {
    if a >= b {
        a - b
    } else {
        0
    }
}

/// The terminal rows: a 4-row header, a flexible body, a 3-row footer.
pub open spec fn root_constraints() -> Seq<LayoutConstraint> {
    seq![LayoutConstraint::Length(4), LayoutConstraint::Min(0), LayoutConstraint::Length(3)]
}

/// The narrow body: commands (5 rows), showcase, accessibility (4 rows), stacked.
pub open spec fn stack_constraints() -> Seq<LayoutConstraint> {
    seq![LayoutConstraint::Length(5), LayoutConstraint::Min(0), LayoutConstraint::Length(4)]
}

/// The wide body: commands on the left (52%), panels on the right (48%).
pub open spec fn column_constraints() -> Seq<LayoutConstraint> {
    seq![LayoutConstraint::Percentage(52), LayoutConstraint::Percentage(48)]
}

/// The right column: showcase above (60%), accessibility below (40%).
pub open spec fn right_constraints() -> Seq<LayoutConstraint> {
    seq![LayoutConstraint::Percentage(60), LayoutConstraint::Percentage(40)]
}

/// Inside the showcase border: a 1-row tab strip, then the rest.
pub open spec fn showcase_constraints() -> Seq<LayoutConstraint> {
    seq![LayoutConstraint::Length(1), LayoutConstraint::Min(0)]
}

/// Below the tab strip: a 2-row gap, then the list viewport.
pub open spec fn list_constraints() -> Seq<LayoutConstraint> {
    seq![LayoutConstraint::Length(2), LayoutConstraint::Min(0)]
}

pub open spec fn is_narrow_spec(area: Area) -> bool {
    area.width < 90
}

/// Below 90 columns the body stacks its sections; from 90 on it has two columns.
pub fn is_narrow(area: Area) -> (r: bool)
    ensures
        r == is_narrow_spec(area),
{
    area.width < 90
}

/// The showcase region of the body.
pub open spec fn showcase_of(area: Area, body: Area) -> Area {
    if is_narrow_spec(area) {
        split_of(body, SplitAxis::Vertical, stack_constraints())[1]
    } else {
        let columns = split_of(body, SplitAxis::Horizontal, column_constraints());
        split_of(columns[1], SplitAxis::Vertical, right_constraints())[0]
    }
}

/// The showcase minus its one-cell border.
pub open spec fn inset(a: Area) -> Area {
    Area {
        x: sat_add(a.x, 1),
        y: sat_add(a.y, 1),
        width: sat_sub(a.width as int, 2) as u16,
        height: sat_sub(a.height as int, 2) as u16,
    }
}

/// Where a click can land: the tab strip (its row, first column and width) and the list
/// viewport.
#[derive(Debug, Clone, Copy, PartialEq, Eq, Structural)]
pub struct MouseRegions {
    pub tabs_row: u16,
    pub tabs_x: u16,
    pub tabs_width: u16,
    pub list_area: Area,
}

/// The clickable regions of a terminal of the given area, or none when it is too small for a
/// usable layout.
pub open spec fn regions_spec(area: Area) -> Option<MouseRegions> {
    if area.width <= 2 || area.height <= 2 {
        None
    } else {
        let body = split_of(area, SplitAxis::Vertical, root_constraints())[1];
        if body.height == 0 {
            None
        } else {
            let showcase = showcase_of(area, body);
            if showcase.width <= 2 || showcase.height <= 2 {
                None
            } else {
                let inner = inset(showcase);
                let parts = split_of(inner, SplitAxis::Vertical, showcase_constraints());
                if parts[1].height == 0 {
                    None
                } else {
                    let list = split_of(parts[1], SplitAxis::Vertical, list_constraints());
                    Some(
                        MouseRegions {
                            tabs_row: parts[0].y,
                            tabs_x: parts[0].x,
                            tabs_width: parts[0].width,
                            list_area: list[1],
                        },
                    )
                }
            }
        }
    }
}

impl MouseRegions {
    /// Recomputes the renderer's partition of `area` and returns the clickable regions.
    pub fn for_area(area: Area) -> (r: Option<MouseRegions>)
        ensures
            r == regions_spec(area),
    {
        if area.width <= 2 || area.height <= 2 {
            return None;
        }
        let root_cs = vec![LayoutConstraint::Length(4), LayoutConstraint::Min(0), LayoutConstraint::Length(3)];
        assert(root_cs@ =~= root_constraints());
        let root = split_area(area, SplitAxis::Vertical, &root_cs);
        let body = root[1];
        if body.height == 0 {
            return None;
        }
        let showcase = if is_narrow(area) {
            let stack_cs = vec![LayoutConstraint::Length(5), LayoutConstraint::Min(0), LayoutConstraint::Length(4)];
            assert(stack_cs@ =~= stack_constraints());
            let stack = split_area(body, SplitAxis::Vertical, &stack_cs);
            stack[1]
        } else {
            let column_cs = vec![LayoutConstraint::Percentage(52), LayoutConstraint::Percentage(48)];
            assert(column_cs@ =~= column_constraints());
            let columns = split_area(body, SplitAxis::Horizontal, &column_cs);
            let right_cs = vec![LayoutConstraint::Percentage(60), LayoutConstraint::Percentage(40)];
            assert(right_cs@ =~= right_constraints());
            let right = split_area(columns[1], SplitAxis::Vertical, &right_cs);
            right[0]
        };
        if showcase.width <= 2 || showcase.height <= 2 {
            return None;
        }
        let inner = Area {
            x: showcase.x.saturating_add(1),
            y: showcase.y.saturating_add(1),
            width: showcase.width - 2,
            height: showcase.height - 2,
        };
        assert(inner == inset(showcase));
        let showcase_cs = vec![LayoutConstraint::Length(1), LayoutConstraint::Min(0)];
        assert(showcase_cs@ =~= showcase_constraints());
        let parts = split_area(inner, SplitAxis::Vertical, &showcase_cs);
        if parts[1].height == 0 {
            return None;
        }
        let list_cs = vec![LayoutConstraint::Length(2), LayoutConstraint::Min(0)];
        assert(list_cs@ =~= list_constraints());
        let list = split_area(parts[1], SplitAxis::Vertical, &list_cs);
        Some(
            MouseRegions {
                tabs_row: parts[0].y,
                tabs_x: parts[0].x,
                tabs_width: parts[0].width,
                list_area: list[1],
            },
        )
    }
}

/// First visible index of a list of `total` items shown `viewport` rows at a time, so that
/// `selected` is visible: `max(0, selected + 1 - viewport)`, but never past the list's end.
pub open spec fn viewport_start_spec(selected: int, total: int, viewport: int) -> int {
    if total == 0 || viewport == 0 {
        0
    } else {
        let want = if selected >= viewport {
            selected + 1 - viewport
        } else {
            0
        };
        let last = sat_sub(total, viewport);
        if want < last {
            want
        } else {
            last
        }
    }
}

/// The scroll window's start; shared by drawing and hit-testing.
pub fn list_viewport_start(selected: usize, total: usize, viewport: usize) -> (r: usize)
    ensures
        r == viewport_start_spec(selected as int, total as int, viewport as int),
        total >= viewport ==> r + viewport <= total,
        total < viewport ==> r == 0,
        viewport > 0 && selected < total ==> r <= selected < r + viewport,
{
    if total == 0 || viewport == 0 {
        return 0;
    }
    let mut start = if selected >= viewport {
        selected - viewport + 1
    } else {
        0
    };
    let last = total.saturating_sub(viewport);
    if last < start {
        start = last;
    }
    start
}

pub open spec fn point_in_rect_spec(column: u16, row: u16, rect: Area) -> bool {
    column >= rect.x && column < sat_add(rect.x, rect.width) && row >= rect.y && row < sat_add(
        rect.y,
        rect.height,
    )
}

/// Whether the cell lies inside the rectangle (whose far edges are clamped to the screen).
pub fn point_in_rect(column: u16, row: u16, rect: Area) -> (r: bool)
    ensures
        r == point_in_rect_spec(column, row, rect),
{
    column >= rect.x && column < rect.x.saturating_add(rect.width) && row >= rect.y && row
        < rect.y.saturating_add(rect.height)
}

/// What a left click lands on.
#[derive(Debug, Clone, Copy, PartialEq, Eq, Structural)]
pub enum ClickTarget {
    /// The tab strip: its left half is the overview tab, its right half the list tab.
    Tab(DemoPanel),
    /// A list row, as an absolute item index.
    ListRow(usize),
    Nothing,
}

/// Classifies a click at (`column`, `row`): tab strip first; list rows only while the list
/// panel is shown, translated through the scroll window and clamped to the last item.
pub open spec fn hit_spec(
    column: u16,
    row: u16,
    rg: MouseRegions,
    on_list: bool,
    selected: int,
    total: int,
) -> ClickTarget {
    if row == rg.tabs_row && column >= rg.tabs_x && column < sat_add(rg.tabs_x, rg.tabs_width) {
        if column < sat_add(rg.tabs_x, (rg.tabs_width / 2) as u16) {
            ClickTarget::Tab(DemoPanel::Overview)
        } else {
            ClickTarget::Tab(DemoPanel::List)
        }
    } else if !on_list || !point_in_rect_spec(column, row, rg.list_area) {
        ClickTarget::Nothing
    } else if total == 0 || rg.list_area.height == 0 {
        ClickTarget::Nothing
    } else {
        let start = viewport_start_spec(selected, total, rg.list_area.height as int);
        let index = start + (row - rg.list_area.y);
        ClickTarget::ListRow(
            if index < total - 1 {
                index
            } else {
                total - 1
            } as usize,
        )
    }
}

/// Classifies a click against the regions and the list's current selection.
pub fn hit_test(
    column: u16,
    row: u16,
    regions: &MouseRegions,
    on_list: bool,
    selected: usize,
    total: usize,
) -> (r: ClickTarget)
    ensures
        r == hit_spec(column, row, *regions, on_list, selected as int, total as int),
        r matches ClickTarget::ListRow(i) ==> i < total,
{
    if row == regions.tabs_row && column >= regions.tabs_x && column < regions.tabs_x.saturating_add(
        regions.tabs_width,
    ) {
        let split = regions.tabs_x.saturating_add(regions.tabs_width / 2);
        return if column < split {
            ClickTarget::Tab(DemoPanel::Overview)
        } else {
            ClickTarget::Tab(DemoPanel::List)
        };
    }
    if !on_list || !point_in_rect(column, row, regions.list_area) {
        return ClickTarget::Nothing;
    }
    if total == 0 || regions.list_area.height == 0 {
        return ClickTarget::Nothing;
    }
    let viewport = regions.list_area.height as usize;
    let start = list_viewport_start(selected, total, viewport);
    let offset = (row - regions.list_area.y) as usize;
    let index = start + offset;
    ClickTarget::ListRow(
        if index < total - 1 {
            index
        } else {
            total - 1
        },
    )
}

pub open spec fn popup_spec(area: Area) -> Area {
    if area.width <= 2 || area.height <= 2 {
        area
    } else {
        let max_width = sat_sub(area.width as int, 4);
        let max_height = sat_sub(area.height as int, 2);
        let width = if max_width < 20 {
            20
        } else if max_width > 84 {
            84
        } else {
            max_width
        };
        let height = if max_height < 10 {
            10
        } else if max_height > 16 {
            16
        } else {
            max_height
        };
        Area {
            x: (area.x + sat_sub(area.width as int, width) / 2) as u16,
            y: (area.y + sat_sub(area.height as int, height) / 2) as u16,
            width: width as u16,
            height: height as u16,
        }
    }
}

/// The help popup: the area less a margin, at least 20x10 and at most 84x16, centered.
pub fn centered_popup_rect(area: Area) -> (r: Area)
    requires
        area.x + area.width <= u16::MAX,
        area.y + area.height <= u16::MAX,
    ensures
        r == popup_spec(area),
{
    if area.width <= 2 || area.height <= 2 {
        return area;
    }
    let max_width = area.width.saturating_sub(4);
    let max_height = area.height.saturating_sub(2);
    let width = if max_width < 20 {
        20
    } else if max_width > 84 {
        84
    } else {
        max_width
    };
    let height = if max_height < 10 {
        10
    } else if max_height > 16 {
        16
    } else {
        max_height
    };
    let x = area.x + (area.width.saturating_sub(width)) / 2;
    let y = area.y + (area.height.saturating_sub(height)) / 2;
    Area { x, y, width, height }
}

/// The label of a switch.
pub fn on_off(value: bool) -> (r: &'static str)
    ensures
        r@ == (if value {
            "on"@
        } else {
            "off"@
        }),
{
    if value {
        "on"
    } else {
        "off"
    }
}

} // verus!
