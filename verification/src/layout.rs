//! Screen areas: rectangles, the split of the terminal into the canvas, the
//! log panel, the command input and the footer, and what lies under a
//! mouse position.

use vstd::prelude::*;
use crate::state::{AppState, Focus};

verus! {

/// A rectangle of terminal cells.
#[derive(Clone, Copy, PartialEq, Eq, Structural, Debug, Default)]
pub struct Rect {
    pub x: u16,
    pub y: u16,
    pub width: u16,
    pub height: u16,
}

/// A terminal cell position.
#[derive(Clone, Copy, PartialEq, Eq, Structural, Debug)]
pub struct Position {
    pub x: u16,
    pub y: u16,
}

impl Position {
    pub fn new(x: u16, y: u16) -> (r: Position)
        ensures
            r == (Position { x, y }),
    {
        Position { x, y }
    }
}

/// `a + b`, held at `u16::MAX`.
pub open spec fn sat_add_u16(a: u16, b: u16) -> u16 {
    if a + b > u16::MAX { u16::MAX } else { (a + b) as u16 }
}

/// The rectangle with a margin removed on each side, or the empty rectangle
/// at the origin when the margins do not fit (what `ratatui`'s `Rect::inner`
/// computes).
pub open spec fn inner_spec(r: Rect, horizontal: u16, vertical: u16) -> Rect {
    let dh = if 2 * horizontal > u16::MAX { u16::MAX as int } else { 2 * horizontal };
    let dv = if 2 * vertical > u16::MAX { u16::MAX as int } else { 2 * vertical };
    if r.width < dh || r.height < dv {
        Rect { x: 0, y: 0, width: 0, height: 0 }
    } else {
        Rect {
            x: sat_add_u16(r.x, horizontal),
            y: sat_add_u16(r.y, vertical),
            width: (r.width - dh) as u16,
            height: (r.height - dv) as u16,
        }
    }
}

/// Whether the rectangle holds the position (`ratatui`'s `Rect::contains`).
pub open spec fn contains_spec(r: Rect, p: Position) -> bool {
    p.x >= r.x && p.x < sat_add_u16(r.x, r.width) && p.y >= r.y && p.y < sat_add_u16(r.y, r.height)
}

impl Rect {
    pub fn new(x: u16, y: u16, width: u16, height: u16) -> (r: Rect)
        ensures
            r == (Rect { x, y, width, height }),
    {
        Rect { x, y, width, height }
    }

    /// The rectangle without a margin of `horizontal` cells on the left and
    /// right and `vertical` cells on the top and bottom.
    pub fn inner(self, horizontal: u16, vertical: u16) -> (r: Rect)
        ensures
            r == inner_spec(self, horizontal, vertical),
    {
        let dh: u16 = if horizontal > 32767 { u16::MAX } else { 2 * horizontal };
        let dv: u16 = if vertical > 32767 { u16::MAX } else { 2 * vertical };
        if self.width < dh || self.height < dv {
            Rect { x: 0, y: 0, width: 0, height: 0 }
        } else {
            Rect {
                x: self.x.saturating_add(horizontal),
                y: self.y.saturating_add(vertical),
                width: self.width - dh,
                height: self.height - dv,
            }
        }
    }

    /// Whether the rectangle holds the position.
    pub fn contains(self, p: Position) -> (r: bool)
        ensures
            r == contains_spec(self, p),
    {
        p.x >= self.x && p.x < self.x.saturating_add(self.width) && p.y >= self.y
            && p.y < self.y.saturating_add(self.height)
    }
}

/// A constraint on the size of one part of a layout.
#[derive(Clone, Copy, PartialEq, Eq, Structural, Debug)]
pub enum Constraint {
    Min(u16),
    Length(u16),
    Percentage(u16),
}

/// The direction in which a layout splits an area.
#[derive(Clone, Copy, PartialEq, Eq, Structural, Debug)]
pub enum Direction {
    Horizontal,
    Vertical,
}

/// `part` lies across the whole of `area` in the direction other than
/// `direction`: the same columns for a vertical split, the same rows for a
/// horizontal one.
pub open spec fn spans_across(part: Rect, area: Rect, direction: Direction) -> bool {
    match direction {
        Direction::Vertical => part.x == area.x && part.width == area.width,
        Direction::Horizontal => part.y == area.y && part.height == area.height,
    }
}

/// Where `r` starts along `direction`.
pub open spec fn start_along(r: Rect, direction: Direction) -> int {
    match direction {
        Direction::Vertical => r.y as int,
        Direction::Horizontal => r.x as int,
    }
}

/// Where `r` ends along `direction`.
pub open spec fn end_along(r: Rect, direction: Direction) -> int {
    match direction {
        Direction::Vertical => r.y + r.height,
        Direction::Horizontal => r.x + r.width,
    }
}

/// Where `area` ends along `direction`, held at `u16::MAX` as ratatui's
/// `bottom` and `right` do.
pub open spec fn area_end_along(area: Rect, direction: Direction) -> int {
    if end_along(area, direction) > u16::MAX { u16::MAX as int } else { end_along(area, direction) }
}

/// `parts` follow one another within `area` along `direction`: the first
/// starts at or after the area's start, each ends at or before the next
/// starts, and the last ends at or before the area's end.
pub open spec fn in_order_within(parts: Seq<Rect>, area: Rect, direction: Direction) -> bool {
    &&& forall|i: int| 0 <= i < parts.len() ==> start_along(area, direction) <= #[trigger] start_along(parts[i], direction)
    &&& forall|i: int| 0 <= i < parts.len() ==> #[trigger] end_along(parts[i], direction) <= area_end_along(area, direction)
    &&& forall|i: int| 0 <= i < parts.len() - 1 ==> #[trigger] end_along(parts[i], direction) <= start_along(parts[i + 1], direction)
}

/// `ratatui::layout::Layout::split` of a default layout (no margin, flex
/// `Start`) with the given direction and constraints. The contract states
/// what holds whatever the solver finds:
/// - one part per constraint, each across the whole area in the other
///   direction (`changes_to_rects` takes those coordinates from the area);
/// - the parts in order within the area: every solver variable lies in the
///   area and each part's start is at most its end (required constraints),
///   and the gap between two parts is held at zero with a strength
///   (`SPACER_SIZE_EQ`, a tenth of `REQUIRED`) above that of every `Min`,
///   `Length` and `Percentage` constraint, so the solver's optimum never
///   lets two parts overlap; `changes_to_rects` rounds each position in a
///   way that keeps that order.
/// Where each part starts and ends is left unsaid: the solver picks its
/// pivots in the order of hash maps seeded in each process.
#[verifier::external_body]
fn split_area(area: Rect, direction: Direction, constraints: Vec<Constraint>) -> (r: Vec<Rect>)
    ensures
        r@.len() == constraints@.len(),
        forall|i: int| 0 <= i < r@.len() ==> spans_across(#[trigger] r@[i], area, direction),
        in_order_within(r@, area, direction),
{
    let cs = constraints.iter().map(|c| match *c {
        Constraint::Min(v) => ratatui::layout::Constraint::Min(v),
        Constraint::Length(v) => ratatui::layout::Constraint::Length(v),
        Constraint::Percentage(v) => ratatui::layout::Constraint::Percentage(v),
    });
    let dir = match direction {
        Direction::Horizontal => ratatui::layout::Direction::Horizontal,
        Direction::Vertical => ratatui::layout::Direction::Vertical,
    };
    let parts = ratatui::layout::Layout::default().direction(dir).constraints(cs).split(ratatui::layout::Rect::new(area.x, area.y, area.width, area.height));
    parts.iter().map(|p| Rect { x: p.x, y: p.y, width: p.width, height: p.height }).collect()
}

/// The areas of the components.
#[derive(Clone, Copy, PartialEq, Eq, Structural, Debug, Default)]
pub struct Chunks {
    pub body: Rect,
    pub footer: Rect,
    pub canvas: Rect,
    pub canvas_inner: Rect,
    pub side: Rect,
    pub log_panel: Rect,
    pub input: Rect,
}

/// The component under `pos`, if any.
pub open spec fn component_at(c: Chunks, pos: Position) -> Option<Focus> {
    if contains_spec(c.canvas, pos) {
        Some(Focus::Canvas)
    } else if contains_spec(c.log_panel, pos) {
        Some(Focus::LogPanel)
    } else if contains_spec(c.input, pos) {
        Some(Focus::Input)
    } else {
        None
    }
}

/// The state of the application that the library holds: the component
/// areas, the logic state and the divergence matrix of the canvas.
pub struct App {
    /// Area of each component.
    pub chunks: Chunks,
    /// The logic state.
    pub app_state: AppState,
    /// The iteration count at each canvas point, by row (bottom first).
    pub diverg_matrix: Vec<Vec<i32>>,
}

/// The areas before the first layout: all empty, at the origin.
pub open spec fn no_chunks() -> Chunks {
    let z = Rect { x: 0, y: 0, width: 0, height: 0 };
    Chunks { body: z, footer: z, canvas: z, canvas_inner: z, side: z, log_panel: z, input: z }
}

impl Default for App {
    fn default() -> (r: Self)
        ensures
            r.chunks == no_chunks(),
            crate::state::is_default_state(r.app_state),
            r.diverg_matrix@.len() == 0,
    {
        App {
            chunks: Chunks {
                body: Rect::new(0, 0, 0, 0),
                footer: Rect::new(0, 0, 0, 0),
                canvas: Rect::new(0, 0, 0, 0),
                canvas_inner: Rect::new(0, 0, 0, 0),
                side: Rect::new(0, 0, 0, 0),
                log_panel: Rect::new(0, 0, 0, 0),
                input: Rect::new(0, 0, 0, 0),
            },
            app_state: AppState::default(),
            diverg_matrix: Vec::new(),
        }
    }
}

/// A key that the application handles before the focused component.
#[derive(Clone, Copy, PartialEq, Eq, Structural, Debug)]
pub enum GlobalKey {
    /// `Ctrl+C`: exits.
    CtrlC,
    /// Moves the focus to the next component.
    Tab,
    /// Any other key.
    Other,
}

/// The component focused after `Tab`.
pub open spec fn next_focus(f: Focus) -> Focus {
    match f {
        Focus::Input => Focus::Canvas,
        Focus::Canvas => Focus::LogPanel,
        Focus::LogPanel => Focus::Input,
    }
}

/// The direction of the split of the body: vertical (canvas above the side
/// panel) when the area is at most twice as wide as high, horizontal
/// (side by side) otherwise.
pub open spec fn body_direction_spec(area: Rect) -> Direction {
    if area.width <= 2 * area.height { Direction::Vertical } else { Direction::Horizontal }
}

/// The direction of the split of the body (see `body_direction_spec`).
pub fn body_direction(area: Rect) -> (d: Direction)
    ensures
        d == body_direction_spec(area),
{
    if (area.width as u32) <= 2 * (area.height as u32) { Direction::Vertical } else { Direction::Horizontal }
}

/// The constraints of the whole area: the body, then the footer on two lines.
pub fn frame_constraints() -> (r: Vec<Constraint>)
    ensures
        r@ == seq![Constraint::Min(0), Constraint::Length(2)],
{
    vec![Constraint::Min(0), Constraint::Length(2)]
}

/// The constraints of the body: the canvas on 70%, the side panel on 30%.
pub fn body_constraints() -> (r: Vec<Constraint>)
    ensures
        r@ == seq![Constraint::Percentage(70), Constraint::Percentage(30)],
{
    vec![Constraint::Percentage(70), Constraint::Percentage(30)]
}

/// The constraints of the side panel: the log panel, then the command input
/// on three lines.
pub fn side_constraints() -> (r: Vec<Constraint>)
    ensures
        r@ == seq![Constraint::Min(0), Constraint::Length(3)],
{
    vec![Constraint::Min(0), Constraint::Length(3)]
}

/// The component areas from the parts of the three splits: the whole area
/// into body and footer, the body into canvas and side panel, the side
/// panel into log panel and input.
pub open spec fn chunks_of(top: Seq<Rect>, body: Seq<Rect>, side: Seq<Rect>) -> Chunks {
    Chunks {
        body: top[0],
        footer: top[1],
        canvas: body[0],
        canvas_inner: inner_spec(body[0], 1, 1),
        side: body[1],
        log_panel: side[0],
        input: side[1],
    }
}

/// Assigns the parts of the three splits to the components (see
/// `chunks_of`).
pub fn assign_chunks(top: &Vec<Rect>, body: &Vec<Rect>, side: &Vec<Rect>) -> (c: Chunks)
    requires
        top@.len() == 2,
        body@.len() == 2,
        side@.len() == 2,
    ensures
        c == chunks_of(top@, body@, side@),
{
    Chunks {
        body: top[0],
        footer: top[1],
        canvas: body[0],
        canvas_inner: body[0].inner(1, 1),
        side: body[1],
        log_panel: side[0],
        input: side[1],
    }
}

/// The areas of the components laid out in `area`, as far as they are known
/// whatever the layout solver finds: each part spans its parent across the
/// direction of the split that made it; the body lies above the footer,
/// the canvas before the side panel and the log panel above the input,
/// each pair within its parent; and the canvas has a border of one cell.
pub open spec fn laid_out_in(c: Chunks, area: Rect) -> bool {
    &&& in_order_within(seq![c.body, c.footer], area, Direction::Vertical)
    &&& in_order_within(seq![c.canvas, c.side], c.body, body_direction_spec(area))
    &&& in_order_within(seq![c.log_panel, c.input], c.side, Direction::Vertical)
    &&& spans_across(c.body, area, Direction::Vertical)
    &&& spans_across(c.footer, area, Direction::Vertical)
    &&& spans_across(c.canvas, c.body, body_direction_spec(area))
    &&& spans_across(c.side, c.body, body_direction_spec(area))
    &&& spans_across(c.log_panel, c.side, Direction::Vertical)
    &&& spans_across(c.input, c.side, Direction::Vertical)
    &&& c.canvas_inner == inner_spec(c.canvas, 1, 1)
}

impl App {
    /// Splits the frame area into the areas of the components: the footer
    /// (two lines) below the body; the body split into the canvas (70%) and
    /// the side panel (30%), side by side when the area is more than twice
    /// as wide as high and stacked otherwise; the side panel split into the
    /// log panel and the command input (three lines). The whole area goes to
    /// the first split, the body to the second, the side panel to the third.
    pub fn build_chunks(&mut self, area: Rect)
        requires
            area.height * 2 <= u16::MAX,
        ensures
            laid_out_in(final(self).chunks, area),
            final(self).app_state == old(self).app_state,
            final(self).diverg_matrix == old(self).diverg_matrix,
    {
        let top = split_area(area, Direction::Vertical, frame_constraints());
        let body = split_area(top[0], body_direction(area), body_constraints());
        let side = split_area(body[1], Direction::Vertical, side_constraints());
        proof {
            assert(spans_across(top@[0], area, Direction::Vertical));
            assert(spans_across(top@[1], area, Direction::Vertical));
            assert(spans_across(body@[0], top@[0], body_direction_spec(area)));
            assert(spans_across(body@[1], top@[0], body_direction_spec(area)));
            assert(spans_across(side@[0], body@[1], Direction::Vertical));
            assert(spans_across(side@[1], body@[1], Direction::Vertical));
            assert(top@ =~= seq![top@[0], top@[1]]);
            assert(body@ =~= seq![body@[0], body@[1]]);
            assert(side@ =~= seq![side@[0], side@[1]]);
        }
        self.chunks = assign_chunks(&top, &body, &side);
    }

    /// The component under `pos`, as the focus it would take.
    pub fn get_component_at_pos(&self, pos: Position) -> (r: Option<Focus>)
        ensures
            r == component_at(self.chunks, pos),
    {
        if self.chunks.canvas.contains(pos) {
            Some(Focus::Canvas)
        } else if self.chunks.log_panel.contains(pos) {
            Some(Focus::LogPanel)
        } else if self.chunks.input.contains(pos) {
            Some(Focus::Input)
        } else {
            None
        }
    }

    /// Handles the keys that work everywhere; returns `false` for the others,
    /// which go to the focused component.
    pub fn handle_event(&mut self, key: GlobalKey) -> (r: bool)
        ensures
            r == (key != GlobalKey::Other),
            key == GlobalKey::CtrlC ==> final(self).app_state == (AppState { quit: true, ..old(self).app_state }),
            key == GlobalKey::Tab ==> final(self).app_state == (AppState {
                focused: next_focus(old(self).app_state.focused), ..old(self).app_state }),
            key == GlobalKey::Other ==> final(self).app_state == old(self).app_state,
            final(self).chunks == old(self).chunks,
            final(self).diverg_matrix == old(self).diverg_matrix,
    {
        match key {
            GlobalKey::CtrlC => {
                self.app_state.quit = true;
            },
            GlobalKey::Tab => {
                self.app_state.focused = match self.app_state.focused {
                    Focus::Input => Focus::Canvas,
                    Focus::Canvas => Focus::LogPanel,
                    Focus::LogPanel => Focus::Input,
                };
            },
            GlobalKey::Other => {
                return false;
            },
        }
        true
    }
}

} // verus!
