//! Where each panel goes on the terminal.
//!
//! The areas come from ratatui's constraint solver. The solver's answer is not
//! pinned down by its inputs alone (its documentation calls some splits
//! indeterminate). The contracts state which question each function puts to
//! the solver and which part of the answer it takes (`solver_answer`), and
//! what holds of every answer: one area per constraint, each spanning the
//! whole area across the direction of the split and lying inside it along
//! that direction.
use vstd::prelude::*;

use ratatui::layout as tui;

verus! {

/// A rectangle of terminal cells.
#[derive(Clone, Copy, Debug, PartialEq, Eq, Structural)]
pub struct Rect {
    pub x: u16,
    pub y: u16,
    pub width: u16,
    pub height: u16,
}

/// How much of an area a part asks for.
#[derive(Clone, Copy, Debug, PartialEq, Eq, Structural)]
pub enum Constraint {
    /// Exactly this many cells.
    Length(u16),
    /// At least this many cells.
    Min(u16),
    /// This percentage of the area.
    Percentage(u16),
}

/// Whether an area is cut into rows or into columns.
#[derive(Clone, Copy, Debug, PartialEq, Eq, Structural)]
pub enum Direction {
    Horizontal,
    Vertical,
}

/// `part` spans all of `area` across the direction of the split: the full
/// width for rows, the full height for columns.
pub open spec fn spans_across(direction: Direction, area: Rect, part: Rect) -> bool {
    match direction {
        Direction::Vertical => part.x == area.x && part.width == area.width,
        Direction::Horizontal => part.y == area.y && part.height == area.height,
    }
}

/// The far edge of a run of cells starting at `start`, clipped to the last
/// coordinate a terminal cell can have.
pub open spec fn far_edge(start: u16, length: u16) -> int {
    if start + length > u16::MAX {
        u16::MAX as int
    } else {
        start + length
    }
}

/// `part` lies inside `area` along the direction of the split: between its top
/// and bottom edges for rows, between its left and right edges for columns.
pub open spec fn within_along(direction: Direction, area: Rect, part: Rect) -> bool {
    match direction {
        Direction::Vertical => area.y <= part.y && part.y + part.height <= far_edge(area.y, area.height),
        Direction::Horizontal => area.x <= part.x && part.x + part.width <= far_edge(area.x, area.width),
    }
}

/// `inner` lies inside `outer` in both directions.
pub open spec fn inside(outer: Rect, inner: Rect) -> bool {
    within_along(Direction::Vertical, outer, inner) && within_along(Direction::Horizontal, outer, inner)
}

/// The outcome of a split as every answer of the solver has it.
pub open spec fn is_split_of(area: Rect, direction: Direction, count: nat, parts: Seq<Rect>) -> bool {
    &&& parts.len() == count
    &&& forall|i: int| 0 <= i < parts.len() ==> #[trigger] spans_across(direction, area, parts[i])
    &&& forall|i: int| 0 <= i < parts.len() ==> #[trigger] within_along(direction, area, parts[i])
}

/// `parts` is an answer that ratatui's layout solver gave when asked to cut
/// `area` in `direction` by `constraints`. This is a relation, not a function
/// of the arguments: the solver walks hash maps, so the same question may get
/// different answers, and all of them satisfy it. Nothing is known of it but
/// that the answers `split` hands back satisfy it.
pub uninterp spec fn solver_answer(area: Rect, direction: Direction, constraints: Seq<Constraint>, parts: Seq<Rect>) -> bool;

/// Cuts `area` with `ratatui::layout::Layout::split` (no margin, no spacing).
/// The answer is one that the solver gave for these arguments
/// (`solver_answer`). In ratatui's source the result has one rectangle per
/// constraint, and each keeps the area's x and width (rows) or y and height
/// (columns). Every cut is bound by `REQUIRED` solver constraints to lie
/// between the area's start and its (saturated) end, which cassowary documents
/// as never violated; the cuts are solved at a hundred times cell resolution
/// and rounded twice, so each part also lies inside the area along the split.
/// Where the cuts fall within it is left open here: the solver may answer
/// differently from one process to the next. `split` panics when the solver
/// rejects a constraint, which these length, minimum and percentage
/// constraints do not provoke.
#[verifier::external_body]
fn split(area: Rect, direction: Direction, constraints: &Vec<Constraint>) -> (parts: Vec<Rect>)
    ensures
        solver_answer(area, direction, constraints@, parts@),
        is_split_of(area, direction, constraints@.len(), parts@),
{
    let direction = match direction {
        Direction::Horizontal => tui::Direction::Horizontal,
        Direction::Vertical => tui::Direction::Vertical,
    };
    let constraints = constraints.iter().map(|c| match *c {
        Constraint::Length(n) => tui::Constraint::Length(n),
        Constraint::Min(n) => tui::Constraint::Min(n),
        Constraint::Percentage(n) => tui::Constraint::Percentage(n),
    });
    let area = tui::Rect { x: area.x, y: area.y, width: area.width, height: area.height };
    let parts = tui::Layout::default().direction(direction).constraints(constraints).split(area);
    parts.iter().map(|r| Rect { x: r.x, y: r.y, width: r.width, height: r.height }).collect()
}

/// Three bands: a part of `percent` in the middle and the rest shared evenly
/// (rounded down) on both sides.
pub open spec fn centered_constraints_of(percent: u16) -> Seq<Constraint> {
    let side = ((100 - percent) / 2) as u16;
    seq![Constraint::Percentage(side), Constraint::Percentage(percent), Constraint::Percentage(side)]
}

/// The constraints that centre a band of `percent` percent.
pub fn centered_constraints(percent: u16) -> (constraints: Vec<Constraint>)
    requires
        percent <= 100,
    ensures
        constraints@ == centered_constraints_of(percent),
{
    let side = (100 - percent) / 2;
    let constraints = vec![
        Constraint::Percentage(side),
        Constraint::Percentage(percent),
        Constraint::Percentage(side),
    ];
    proof {
        assert(constraints@ =~= centered_constraints_of(percent));
    }
    constraints
}

/// `c` is the middle column of the middle row of `r`, where the rows are an
/// answer of the solver to centring a band of `percent_y` percent from top to
/// bottom, and the columns an answer to centring a band of `percent_x` percent
/// of that row from left to right.
pub open spec fn is_centered_rect(r: Rect, percent_x: u16, percent_y: u16, c: Rect) -> bool {
    exists|rows: Seq<Rect>, columns: Seq<Rect>|
        #![trigger solver_answer(r, Direction::Vertical, centered_constraints_of(percent_y), rows),
            solver_answer(rows[1], Direction::Horizontal, centered_constraints_of(percent_x), columns)]
        {
            &&& rows.len() == 3
            &&& solver_answer(r, Direction::Vertical, centered_constraints_of(percent_y), rows)
            &&& columns.len() == 3
            &&& solver_answer(rows[1], Direction::Horizontal, centered_constraints_of(percent_x), columns)
            &&& c == columns[1]
        }
}

/// A rectangle of `percent_x` by `percent_y` percent of `r`, centred in it:
/// the middle column of the middle row. It lies inside `r`; where exactly the
/// solver puts the cuts is not stated.
pub fn centered_rect(percent_x: u16, percent_y: u16, r: Rect) -> (c: Rect)
    requires
        percent_x <= 100,
        percent_y <= 100,
    ensures
        is_centered_rect(r, percent_x, percent_y, c),
        inside(r, c),
{
    let rows = split(r, Direction::Vertical, &centered_constraints(percent_y));
    let row = rows[1];
    let columns = split(row, Direction::Horizontal, &centered_constraints(percent_x));
    assert(spans_across(Direction::Vertical, r, rows@[1]));
    assert(within_along(Direction::Vertical, r, rows@[1]));
    assert(spans_across(Direction::Horizontal, row, columns@[1]));
    assert(within_along(Direction::Horizontal, row, columns@[1]));
    assert(is_centered_rect(r, percent_x, percent_y, columns@[1]));
    columns[1]
}

/// The screen's bands: header (3 rows), content (the rest, at least none),
/// footer (1 row), top to bottom.
pub open spec fn screen_constraints_of() -> Seq<Constraint> {
    seq![Constraint::Length(3), Constraint::Min(0), Constraint::Length(1)]
}

/// Cuts the screen into header, content and footer, top to bottom.
pub fn screen_areas(area: Rect) -> (parts: Vec<Rect>)
    ensures
        solver_answer(area, Direction::Vertical, screen_constraints_of(), parts@),
        is_split_of(area, Direction::Vertical, 3, parts@),
{
    let constraints = vec![Constraint::Length(3), Constraint::Min(0), Constraint::Length(1)];
    assert(constraints@ =~= screen_constraints_of());
    split(area, Direction::Vertical, &constraints)
}

/// The dashboard's bands: the chart (at least 10 rows) above the tiles (6 rows).
pub open spec fn dashboard_constraints_of() -> Seq<Constraint> {
    seq![Constraint::Min(10), Constraint::Length(6)]
}

/// Cuts the dashboard into the chart and the tiles, top to bottom.
pub fn dashboard_areas(area: Rect) -> (parts: Vec<Rect>)
    ensures
        solver_answer(area, Direction::Vertical, dashboard_constraints_of(), parts@),
        is_split_of(area, Direction::Vertical, 2, parts@),
{
    let constraints = vec![Constraint::Min(10), Constraint::Length(6)];
    assert(constraints@ =~= dashboard_constraints_of());
    split(area, Direction::Vertical, &constraints)
}

/// The maximised chart screen's bands: the chart (the rest) above the figures
/// bar (3 rows).
pub open spec fn chart_only_constraints_of() -> Seq<Constraint> {
    seq![Constraint::Min(0), Constraint::Length(3)]
}

/// Cuts the maximised chart screen into the chart and the figures bar.
pub fn chart_only_areas(area: Rect) -> (parts: Vec<Rect>)
    ensures
        solver_answer(area, Direction::Vertical, chart_only_constraints_of(), parts@),
        is_split_of(area, Direction::Vertical, 2, parts@),
{
    let constraints = vec![Constraint::Min(0), Constraint::Length(3)];
    assert(constraints@ =~= chart_only_constraints_of());
    split(area, Direction::Vertical, &constraints)
}

/// The tile row's columns, left to right: current, minimum, maximum, mean and
/// jitter at 16 percent each, loss at 20.
pub open spec fn grid_constraints_of() -> Seq<Constraint> {
    seq![
        Constraint::Percentage(16),
        Constraint::Percentage(16),
        Constraint::Percentage(16),
        Constraint::Percentage(16),
        Constraint::Percentage(16),
        Constraint::Percentage(20),
    ]
}

/// Cuts the tile row into its six columns.
pub fn stats_grid_areas(area: Rect) -> (parts: Vec<Rect>)
    ensures
        solver_answer(area, Direction::Horizontal, grid_constraints_of(), parts@),
        is_split_of(area, Direction::Horizontal, 6, parts@),
{
    let constraints = vec![
        Constraint::Percentage(16),
        Constraint::Percentage(16),
        Constraint::Percentage(16),
        Constraint::Percentage(16),
        Constraint::Percentage(16),
        Constraint::Percentage(20),
    ];
    assert(constraints@ =~= grid_constraints_of());
    split(area, Direction::Horizontal, &constraints)
}

/// Where the help window goes: 60 percent of the width and 40 percent of the
/// height of the screen, centred; it lies inside the screen.
pub fn help_area(screen: Rect) -> (c: Rect)
    ensures
        is_centered_rect(screen, 60, 40, c),
        inside(screen, c),
{
    centered_rect(60, 40, screen)
}

} // verus!
