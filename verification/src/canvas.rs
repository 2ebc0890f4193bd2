//! Keyboard and mouse handling of the canvas. The library changes the
//! integer settings and reports the changes of the view (moves, zooms,
//! resets) that the front end applies to its floating-point position.

use vstd::prelude::*;
use crate::click_modes::ClickMode;
use crate::colors::{PALETTE_COUNT, PALETTE_SIZE};
use crate::layout::App;
use crate::text::{i64_to_text, int_text};
use crate::selectable::{SELECTABLE_COUNT, SelectedVariable};
use crate::state::{
    AppState, CanvasCoords, Focus, HSLSettings, MAX_HSL_VALUE, RenderSettings, ZoomDirection,
    first_visible_from, redrawn, repainted, with_rs,
};

verus! {

/// The canvas keys shown in the footer.
pub open spec fn canvas_keys() -> Seq<&'static str> {
    seq![
        "Move[arrow/Vim keys]", "Zoom-[s]", "Zoom+[d]", "NextVar[t]", "SelectedVar+[+]", "Selectedvar-[-]",
        "MxDiv-[y]", "Prec-[u]", "Prec+[i]", "MxDiv+[o]", "Color[c]", "Frac[f]", "VoidFill[v]", "Rst[r]",
        "HSLMode[n]", "ToggleSidepanel[b]",
    ]
}

/// The canvas keys shown in the footer, as a list.
pub fn canvas_footer_text() -> (r: Vec<&'static str>)
    ensures
        r@ == canvas_keys(),
{
    let r = vec![
        "Move[arrow/Vim keys]", "Zoom-[s]", "Zoom+[d]", "NextVar[t]", "SelectedVar+[+]", "Selectedvar-[-]",
        "MxDiv-[y]", "Prec-[u]", "Prec+[i]", "MxDiv+[o]", "Color[c]", "Frac[f]", "VoidFill[v]", "Rst[r]",
        "HSLMode[n]", "ToggleSidepanel[b]",
    ];
    assert(r@ =~= canvas_keys());
    r
}

/// `v + 1`, or `0` past `max - 1`.
pub open spec fn wrap_up(v: int, max: int) -> int {
    if v >= max - 1 { 0 } else { v + 1 }
}

/// `v - 1`, or `max - 1` below `0`.
pub open spec fn wrap_down(v: int, max: int) -> int {
    if v <= 0 { max - 1 } else { v - 1 }
}

/// Steps `v` up within `[0, max)`, going round.
pub fn increment_wrap(v: &mut i32, max: i32)
    requires
        max > 0,
    ensures
        *final(v) == wrap_up(*old(v) as int, max as int),
{
    if *v >= max - 1 {
        *v = 0;
    } else {
        *v = *v + 1;
    }
}

/// Steps `v` down within `[0, max)`, going round.
pub fn decrement_wrap(v: &mut i32, max: i32)
    requires
        max > 0,
    ensures
        *final(v) == wrap_down(*old(v) as int, max as int),
{
    if *v <= 0 {
        *v = max - 1;
    } else {
        *v = *v - 1;
    }
}

/// A key of the canvas.
#[derive(Clone, Copy, PartialEq, Eq, Structural, Debug)]
pub enum CanvasKey {
    Left,
    Right,
    Up,
    Down,
    Char(char),
    Other,
}

/// A change of the view that the front end applies to its floating-point
/// position, cell size, precision, fractal or void fill.
#[derive(Clone, Copy, PartialEq, Eq, Structural, Debug)]
pub enum ViewChange {
    /// Nothing to apply.
    Nothing,
    /// Move along the real axis by the move distance, right if `true`.
    MoveReal(bool),
    /// Move along the imaginary axis by the move distance, up if `true`.
    MoveImag(bool),
    /// Zoom around the centre.
    Zoom(ZoomDirection),
    /// Reset the cell size and the position.
    ResetView,
    /// The precision changed: round the numeric values to it.
    PrecisionChanged,
    /// Select the next fractal.
    NextFractal,
    /// Select the next void fill method.
    NextVoidFill,
    /// Show or hide the side panel.
    ToggleSidepanel,
}

/// The HSL settings after `+` (`up`) or `-` on the selected variable `i`.
pub open spec fn stepped_hsl(h: HSLSettings, i: int, up: bool) -> HSLSettings {
    let step = |v: i32| if up { wrap_up(v as int, MAX_HSL_VALUE as int) as i32 } else {
        wrap_down(v as int, MAX_HSL_VALUE as int) as i32 };
    if i == 1 {
        HSLSettings { smoothness: step(h.smoothness), ..h }
    } else if i == 2 {
        HSLSettings { hue_offset: step(h.hue_offset), ..h }
    } else if i == 3 {
        HSLSettings { saturation: step(h.saturation), ..h }
    } else if i == 4 {
        HSLSettings { lum: step(h.lum), ..h }
    } else {
        h
    }
}

/// The settings after `+` (`up`) or `-` on the selected variable `i`: the
/// palette offset steps within the palette size, an HSL setting within
/// `[0, MAX_HSL_VALUE)`.
pub open spec fn stepped_settings(rs: RenderSettings, i: int, up: bool) -> RenderSettings {
    if i == 0 {
        RenderSettings {
            color_scheme_offset: if up {
                wrap_up(rs.color_scheme_offset as int, PALETTE_SIZE as int) as i32
            } else {
                wrap_down(rs.color_scheme_offset as int, PALETTE_SIZE as int) as i32
            },
            ..rs
        }
    } else {
        RenderSettings { hsl_settings: stepped_hsl(rs.hsl_settings, i, up), ..rs }
    }
}

/// `rs` with the precision moved by `inc`, kept within its bounds.
pub open spec fn prec_moved(rs: RenderSettings, inc: int) -> RenderSettings {
    RenderSettings {
        prec: crate::state::clamp(rs.prec + inc, crate::state::MIN_DECIMAL_PREC as int,
            crate::state::MAX_DECIMAL_PREC as int) as u32,
        ..rs
    }
}

/// `rs` with the iteration limit moved by `inc`, kept within its bounds.
pub open spec fn max_iter_moved(rs: RenderSettings, inc: int) -> RenderSettings {
    RenderSettings {
        max_iter: crate::state::clamp(rs.max_iter + inc, crate::state::MIN_MAX_ITER as int,
            crate::state::MAX_MAX_ITER as int) as i32,
        ..rs
    }
}

/// What a canvas key does to the state, and the view change it reports.
pub open spec fn canvas_key_post(old: AppState, key: CanvasKey, new: AppState, change: ViewChange) -> bool {
    let rs = old.render_settings;
    match key {
        CanvasKey::Left => change == ViewChange::MoveReal(false) && new == redrawn(old),
        CanvasKey::Right => change == ViewChange::MoveReal(true) && new == redrawn(old),
        CanvasKey::Down => change == ViewChange::MoveImag(false) && new == redrawn(old),
        CanvasKey::Up => change == ViewChange::MoveImag(true) && new == redrawn(old),
        CanvasKey::Other => change == ViewChange::Nothing && new == old,
        CanvasKey::Char(c) => {
            if c == 'h' {
                change == ViewChange::MoveReal(false) && new == redrawn(old)
            } else if c == 'l' {
                change == ViewChange::MoveReal(true) && new == redrawn(old)
            } else if c == 'j' {
                change == ViewChange::MoveImag(false) && new == redrawn(old)
            } else if c == 'k' {
                change == ViewChange::MoveImag(true) && new == redrawn(old)
            } else if c == 's' {
                change == ViewChange::Zoom(ZoomDirection::Out) && new == redrawn(old)
            } else if c == 'b' {
                change == ViewChange::ToggleSidepanel && new == old
            } else if c == 'd' {
                change == ViewChange::Zoom(ZoomDirection::In) && new == redrawn(old)
            } else if c == 'u' {
                change == ViewChange::PrecisionChanged && new == redrawn(with_rs(old, prec_moved(rs, -10)))
            } else if c == 'i' {
                change == ViewChange::PrecisionChanged && new == redrawn(with_rs(old, prec_moved(rs, 10)))
            } else if c == 'r' {
                change == ViewChange::ResetView && new == redrawn(old)
            } else if c == 'f' {
                change == ViewChange::NextFractal && new == redrawn(old)
            } else if c == 'c' {
                change == ViewChange::Nothing && new == repainted(with_rs(old, RenderSettings {
                    palette_index: ((rs.palette_index + 1) % PALETTE_COUNT as int) as usize, ..rs }))
            } else if c == '-' {
                change == ViewChange::Nothing && new == repainted(with_rs(old,
                    stepped_settings(rs, old.selected_canvas_variable as int, false)))
            } else if c == '+' {
                change == ViewChange::Nothing && new == repainted(with_rs(old,
                    stepped_settings(rs, old.selected_canvas_variable as int, true)))
            } else if c == 'n' {
                let enabled = !rs.hsl_settings.enabled;
                change == ViewChange::Nothing && new == repainted(AppState {
                    render_settings: RenderSettings { hsl_settings: HSLSettings { enabled, ..rs.hsl_settings }, ..rs },
                    selected_canvas_variable: first_visible_from(enabled, old.selected_canvas_variable as int) as usize,
                    ..old
                })
            } else if c == 't' {
                change == ViewChange::Nothing && new == (AppState {
                    selected_canvas_variable: first_visible_from(rs.hsl_settings.enabled,
                        (old.selected_canvas_variable + 1) % SELECTABLE_COUNT as int) as usize,
                    ..old
                })
            } else if c == 'v' {
                change == ViewChange::NextVoidFill && new == repainted(old)
            } else if c == 'o' {
                change == ViewChange::Nothing && new == redrawn(with_rs(old, max_iter_moved(rs, 10)))
            } else if c == 'y' {
                change == ViewChange::Nothing && new == redrawn(with_rs(old, max_iter_moved(rs, -10)))
            } else {
                change == ViewChange::Nothing && new == old
            }
        },
    }
}

/// Handles a key pressed while the canvas is focused.
pub fn handle_key_code(state: &mut AppState, code: CanvasKey) -> (change: ViewChange)
    requires
        code == CanvasKey::Char('c') ==> old(state).render_settings.palette_index < usize::MAX,
        code == CanvasKey::Char('+') || code == CanvasKey::Char('-')
            ==> old(state).selected_canvas_variable < SELECTABLE_COUNT,
        code == CanvasKey::Char('t') ==> old(state).selected_canvas_variable < usize::MAX,
    ensures
        canvas_key_post(*old(state), code, *final(state), change),
{
    match code {
        CanvasKey::Left => { state.request_redraw(); ViewChange::MoveReal(false) },
        CanvasKey::Right => { state.request_redraw(); ViewChange::MoveReal(true) },
        CanvasKey::Down => { state.request_redraw(); ViewChange::MoveImag(false) },
        CanvasKey::Up => { state.request_redraw(); ViewChange::MoveImag(true) },
        CanvasKey::Other => ViewChange::Nothing,
        CanvasKey::Char(c) => {
            if c == 'h' {
                state.request_redraw();
                ViewChange::MoveReal(false)
            } else if c == 'l' {
                state.request_redraw();
                ViewChange::MoveReal(true)
            } else if c == 'j' {
                state.request_redraw();
                ViewChange::MoveImag(false)
            } else if c == 'k' {
                state.request_redraw();
                ViewChange::MoveImag(true)
            } else if c == 's' {
                state.request_redraw();
                ViewChange::Zoom(ZoomDirection::Out)
            } else if c == 'b' {
                ViewChange::ToggleSidepanel
            } else if c == 'd' {
                state.request_redraw();
                ViewChange::Zoom(ZoomDirection::In)
            } else if c == 'u' {
                state.increment_decimal_prec(-10);
                state.request_redraw();
                ViewChange::PrecisionChanged
            } else if c == 'i' {
                state.increment_decimal_prec(10);
                state.request_redraw();
                ViewChange::PrecisionChanged
            } else if c == 'r' {
                state.request_redraw();
                ViewChange::ResetView
            } else if c == 'f' {
                state.request_redraw();
                ViewChange::NextFractal
            } else if c == 'c' {
                state.render_settings.palette_index = (state.render_settings.palette_index + 1) % PALETTE_COUNT;
                state.request_repaint();
                ViewChange::Nothing
            } else if c == '-' || c == '+' {
                let up = c == '+';
                let var = state.selected_canvas_variable;
                if var == 0 {
                    if up {
                        increment_wrap(&mut state.render_settings.color_scheme_offset, PALETTE_SIZE as i32);
                    } else {
                        decrement_wrap(&mut state.render_settings.color_scheme_offset, PALETTE_SIZE as i32);
                    }
                } else if var == 1 {
                    if up {
                        increment_wrap(&mut state.render_settings.hsl_settings.smoothness, MAX_HSL_VALUE);
                    } else {
                        decrement_wrap(&mut state.render_settings.hsl_settings.smoothness, MAX_HSL_VALUE);
                    }
                } else if var == 2 {
                    if up {
                        increment_wrap(&mut state.render_settings.hsl_settings.hue_offset, MAX_HSL_VALUE);
                    } else {
                        decrement_wrap(&mut state.render_settings.hsl_settings.hue_offset, MAX_HSL_VALUE);
                    }
                } else if var == 3 {
                    if up {
                        increment_wrap(&mut state.render_settings.hsl_settings.saturation, MAX_HSL_VALUE);
                    } else {
                        decrement_wrap(&mut state.render_settings.hsl_settings.saturation, MAX_HSL_VALUE);
                    }
                } else {
                    if up {
                        increment_wrap(&mut state.render_settings.hsl_settings.lum, MAX_HSL_VALUE);
                    } else {
                        decrement_wrap(&mut state.render_settings.hsl_settings.lum, MAX_HSL_VALUE);
                    }
                }
                state.request_repaint();
                ViewChange::Nothing
            } else if c == 'n' {
                state.render_settings.hsl_settings.enabled = !state.render_settings.hsl_settings.enabled;
                state.prevent_canvas_var_hidden();
                state.request_repaint();
                ViewChange::Nothing
            } else if c == 't' {
                state.next_canv_var();
                ViewChange::Nothing
            } else if c == 'v' {
                state.request_repaint();
                ViewChange::NextVoidFill
            } else if c == 'o' {
                state.increment_max_iter(10);
                ViewChange::Nothing
            } else if c == 'y' {
                state.increment_max_iter(-10);
                ViewChange::Nothing
            } else {
                ViewChange::Nothing
            }
        },
    }
}

/// The fractal selected by `f`: the one after `current` among `count`, going
/// round.
pub fn next_fractal_index(current: usize, count: usize) -> (r: usize)
    requires
        count > 0,
        current < usize::MAX,
    ensures
        r == (current + 1) % (count as int),
        current < count ==> r == wrap_up(current as int, count as int),
{
    proof {
        if current < count {
            if current + 1 < count {
                vstd::arithmetic::div_mod::lemma_small_mod((current + 1) as nat, count as nat);
            } else {
                vstd::arithmetic::div_mod::lemma_mod_self_0(count as int);
            }
        }
    }
    (current + 1) % count
}

impl AppState {
    /// Selects the void fill method after the current one among `count`
    /// (`v`), going round, and asks a repaint.
    pub fn next_void_fill(&mut self, count: usize)
        requires
            count > 0,
        ensures
            *final(self) == repainted(with_rs(*old(self), RenderSettings {
                void_fill_index: wrap_up(old(self).render_settings.void_fill_index as int, count as int) as usize,
                ..old(self).render_settings
            })),
    {
        if self.render_settings.void_fill_index >= count - 1 {
            self.render_settings.void_fill_index = 0;
        } else {
            self.render_settings.void_fill_index = self.render_settings.void_fill_index + 1;
        }
        self.request_repaint();
    }
}

/// Converts a terminal cell (column, row) into canvas coordinates.
pub open spec fn ratatui_to_canvas_spec(size: CanvasCoords, x: u16, y: u16) -> CanvasCoords {
    CanvasCoords { x: (x - 1 - size.x / 2) as i32, y: (y * -2 + 1 + size.y / 2) as i32 }
}

impl RenderSettings {
    /// Converts a terminal cell (column, row) into canvas coordinates.
    pub fn ratatui_to_canvas_coords(&self, x: u16, y: u16) -> (r: CanvasCoords)
        requires
            0 <= self.canvas_size.x,
            0 <= self.canvas_size.y <= 2 * (i32::MAX - 2 * u16::MAX),
        ensures
            r == ratatui_to_canvas_spec(self.canvas_size, x, y),
    {
        let hy = self.canvas_size.y / 2;
        assert(0 <= hy <= i32::MAX - 2 * u16::MAX);
        let yy = y as i32;
        let ry = 0 - 2 * yy;
        CanvasCoords::new(x as i32 - 1 - self.canvas_size.x / 2, ry + 1 + hy)
    }
}

/// A mouse button pressed on the canvas.
#[derive(Clone, Copy, PartialEq, Eq, Structural, Debug)]
pub enum MouseButton {
    Left,
    Right,
    Middle,
}

/// What a click on the canvas asks the front end to do with the
/// complex-plane point under it.
#[derive(Clone, Copy, PartialEq, Eq, Structural, Debug)]
pub enum ClickAction {
    /// Nothing to do.
    Nothing,
    /// Centre the canvas on the point.
    MoveTo(CanvasCoords),
    /// Zoom, keeping the point in place.
    ZoomAt(CanvasCoords, ZoomDirection),
    /// Make the point the Julia constant.
    SetJuliaConstant(CanvasCoords),
    /// Make the point the Mandelbrot constant.
    SetMandelConstant(CanvasCoords),
    /// Make the modulus of the point the bail-out value.
    SetBailout(CanvasCoords),
    /// Show the point and its divergence.
    Info(CanvasCoords, i32),
}

/// The click mode of a button: each button has its own.
pub open spec fn button_mode(s: AppState, b: MouseButton) -> ClickMode {
    match b {
        MouseButton::Left => s.click_config.left,
        MouseButton::Right => s.click_config.right,
        MouseButton::Middle => s.click_config.middle,
    }
}

/// The divergence shown for a click on cell (column, row): the matrix entry
/// at row `2 * row - 2`, column `column - 1`, if there is one.
pub open spec fn clicked_divergence(m: Seq<Vec<i32>>, column: u16, row: u16) -> Option<i32> {
    if column == 0 || row == 0 {
        None
    } else if 2 * row - 2 < m.len() && column - 1 < m[2 * row - 2]@.len() {
        Some(m[2 * row - 2]@[column - 1])
    } else {
        None
    }
}

/// What a click does: the canvas takes the focus; a press of a button
/// triggers the action bound to it at the clicked point, the state asking a
/// redraw for every action but `Info`.
pub open spec fn canvas_click_post(old: App, button: Option<MouseButton>, column: u16, row: u16, new: App, a: ClickAction) -> bool {
    let s = AppState { focused: Focus::Canvas, ..old.app_state };
    let pos = ratatui_to_canvas_spec(old.app_state.render_settings.canvas_size, column, row);
    &&& new.chunks == old.chunks
    &&& new.diverg_matrix == old.diverg_matrix
    &&& match button {
        None => a == ClickAction::Nothing && new.app_state == s,
        Some(b) => match button_mode(old.app_state, b) {
            ClickMode::Move => a == ClickAction::MoveTo(pos) && new.app_state == redrawn(s),
            ClickMode::ZoomOut => a == ClickAction::ZoomAt(pos, ZoomDirection::Out) && new.app_state == redrawn(s),
            ClickMode::ZoomIn => a == ClickAction::ZoomAt(pos, ZoomDirection::In) && new.app_state == redrawn(s),
            ClickMode::JuliaConstant => a == ClickAction::SetJuliaConstant(pos) && new.app_state == redrawn(s),
            ClickMode::MandelConstant => a == ClickAction::SetMandelConstant(pos) && new.app_state == redrawn(s),
            ClickMode::BailOut => a == ClickAction::SetBailout(pos) && new.app_state == redrawn(s),
            ClickMode::Info => new.app_state == s && match clicked_divergence(old.diverg_matrix@, column, row) {
                Some(d) => a == ClickAction::Info(pos, d),
                None => a == ClickAction::Nothing,
            },
        },
    }
}

/// Handles a mouse event on the canvas: `button` is the button pressed, or
/// `None` for an event that is not a press.
pub fn handle_mouse_event(app: &mut App, button: Option<MouseButton>, column: u16, row: u16) -> (a: ClickAction)
    requires
        0 <= old(app).app_state.render_settings.canvas_size.x,
        0 <= old(app).app_state.render_settings.canvas_size.y <= 2 * (i32::MAX - 2 * u16::MAX),
    ensures
        canvas_click_post(*old(app), button, column, row, *final(app), a),
{
    app.app_state.focused = Focus::Canvas;
    let canvas_pos = app.app_state.render_settings.ratatui_to_canvas_coords(column, row);
    let action = match button {
        Some(MouseButton::Left) => app.app_state.click_config.left,
        Some(MouseButton::Right) => app.app_state.click_config.right,
        Some(MouseButton::Middle) => app.app_state.click_config.middle,
        None => { return ClickAction::Nothing; },
    };
    match action {
        ClickMode::Move => { app.app_state.request_redraw(); ClickAction::MoveTo(canvas_pos) },
        ClickMode::ZoomOut => { app.app_state.request_redraw(); ClickAction::ZoomAt(canvas_pos, ZoomDirection::Out) },
        ClickMode::ZoomIn => { app.app_state.request_redraw(); ClickAction::ZoomAt(canvas_pos, ZoomDirection::In) },
        ClickMode::JuliaConstant => { app.app_state.request_redraw(); ClickAction::SetJuliaConstant(canvas_pos) },
        ClickMode::MandelConstant => { app.app_state.request_redraw(); ClickAction::SetMandelConstant(canvas_pos) },
        ClickMode::BailOut => { app.app_state.request_redraw(); ClickAction::SetBailout(canvas_pos) },
        ClickMode::Info => {
            if column == 0 || row == 0 {
                return ClickAction::Nothing;
            }
            let r = row as usize * 2 - 2;
            if r < app.diverg_matrix.len() {
                let c = column as usize - 1;
                if c < app.diverg_matrix[r].len() {
                    return ClickAction::Info(canvas_pos, app.diverg_matrix[r][c]);
                }
            }
            ClickAction::Nothing
        },
    }
}

/// The pieces of the colour title of the canvas, each with whether it is
/// highlighted (the selected variable is).
pub open spec fn colour_title(s: AppState) -> Seq<(Seq<char>, bool)> {
    let rs = s.render_settings;
    let h = rs.hsl_settings;
    let sel = s.selected_canvas_variable as int;
    if h.enabled {
        seq![
            ("HSLMode["@, false),
            (int_text(h.hue_offset as int), sel == 2),
            (","@, false),
            (int_text(h.saturation as int), sel == 3),
            (","@, false),
            (int_text(h.lum as int), sel == 4),
            (",smtss:"@, false),
            (int_text(h.smoothness as int), sel == 1),
            ("]"@, false),
        ]
    } else {
        seq![
            ("Palette["@, false),
            (crate::colors::palette_name(rs.palette_index as int)@, false),
            ("+"@, false),
            (int_text(rs.color_scheme_offset as int), sel == 0),
            ("]"@, false),
        ]
    }
}

/// The view of title pieces.
pub open spec fn pieces_view(v: Seq<(String, bool)>) -> Seq<(Seq<char>, bool)> {
    v.map_values(|p: (String, bool)| (p.0@, p.1))
}

/// Builds the colour title of the canvas: the HSL settings in HSL mode, the
/// palette and its offset otherwise, the selected variable highlighted.
pub fn colour_title_pieces(state: &AppState) -> (r: Vec<(String, bool)>)
    requires
        state.render_settings.palette_index < PALETTE_COUNT,
    ensures
        pieces_view(r@) == colour_title(*state),
{
    let h = state.render_settings.hsl_settings;
    let mut r: Vec<(String, bool)> = Vec::new();
    if h.enabled {
        r.push((String::from_str("HSLMode["), false));
        r.push((i64_to_text(h.hue_offset as i64), state.is_var_selected(SelectedVariable::HueOffset)));
        r.push((String::from_str(","), false));
        r.push((i64_to_text(h.saturation as i64), state.is_var_selected(SelectedVariable::HSLSat)));
        r.push((String::from_str(","), false));
        r.push((i64_to_text(h.lum as i64), state.is_var_selected(SelectedVariable::HSLLum)));
        r.push((String::from_str(",smtss:"), false));
        r.push((i64_to_text(h.smoothness as i64), state.is_var_selected(SelectedVariable::HSLSmoothness)));
        r.push((String::from_str("]"), false));
    } else {
        let p = crate::colors::palette(state.render_settings.palette_index);
        r.push((String::from_str("Palette["), false));
        r.push((String::from_str(p.name), false));
        r.push((String::from_str("+"), false));
        r.push((i64_to_text(state.render_settings.color_scheme_offset as i64),
            state.is_var_selected(SelectedVariable::PaletteOffset)));
        r.push((String::from_str("]"), false));
    }
    proof {
        assert(pieces_view(r@) =~= colour_title(*state));
    }
    r
}

/// A text of the form `label[value]`.
pub open spec fn bracketed(label: Seq<char>, value: Seq<char>) -> Seq<char> {
    label + "["@ + value + "]"@
}

/// The titles of the canvas border that the state alone gives: the
/// iteration limit, the precision and whether the GPU renders.
pub struct CanvasTitles {
    /// `MxDiv[..]`: the iteration limit.
    pub max_iter: String,
    /// `Prec[..]`: the decimal precision.
    pub prec: String,
    /// `GpuMode[on]` or `GpuMode[off]`.
    pub gpu_mode: String,
}

fn bracketed_text(label: &str, value: &str) -> (r: String)
    ensures
        r@ == bracketed(label@, value@),
{
    let mut s = String::from_str(label);
    s.append("[");
    s.append(value);
    s.append("]");
    s
}

/// Builds the titles of the canvas border from the state.
pub fn canvas_titles(state: &AppState) -> (r: CanvasTitles)
    ensures
        r.max_iter@ == bracketed("MxDiv"@, int_text(state.render_settings.max_iter as int)),
        r.prec@ == bracketed("Prec"@, int_text(state.render_settings.prec as int)),
        r.gpu_mode@ == bracketed("GpuMode"@, if state.render_settings.use_gpu { "on"@ } else { "off"@ }),
{
    let m = i64_to_text(state.render_settings.max_iter as i64);
    let p = i64_to_text(state.render_settings.prec as i64);
    let g = if state.render_settings.use_gpu { "on" } else { "off" };
    CanvasTitles {
        max_iter: bracketed_text("MxDiv", m.as_str()),
        prec: bracketed_text("Prec", p.as_str()),
        gpu_mode: bracketed_text("GpuMode", g),
    }
}

/// Whether the border of `component` is highlighted: it is when the
/// component has the focus.
pub fn border_highlighted(state: &AppState, component: Focus) -> (r: bool)
    ensures
        r == (state.focused == component),
{
    state.focused == component
}

} // verus!
