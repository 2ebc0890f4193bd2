//! The logic state of the application (it can run headless): settings,
//! log, command history, job queue and canvas selection.

use std::collections::HashMap;
use vstd::prelude::*;
use crate::click_modes::{ClickConfig, ClickMode};
use crate::selectable::{SelectedVariable, SELECTABLE_COUNT, var_index};
use crate::text::strings_view;
use crate::commands::capture_format::DEFAULT_IMAGE_FORMAT;

verus! {

/// The scroll position of the log panel's scrolling view, and the sizes
/// the view records when it is drawn: the height of the scrolled content
/// and the height of a page (the visible area). Before the first drawing
/// neither is known.
#[derive(Clone, Copy, PartialEq, Eq, Structural, Debug)]
pub struct LogScroll {
    /// Columns scrolled from the left.
    pub x: u16,
    /// Rows scrolled from the top.
    pub y: u16,
    /// Height of the scrolled content, once drawn.
    pub height: Option<u16>,
    /// Height of a page, once drawn.
    pub page_height: Option<u16>,
}

/// `a + b`, held below `u16::MAX`.
pub open spec fn sat_add16(a: int, b: int) -> u16 {
    if a + b > u16::MAX { u16::MAX } else { (a + b) as u16 }
}

/// `a - b`, held above `0`.
pub open spec fn sat_sub16(a: int, b: int) -> u16 {
    if a - b < 0 { 0 } else { (a - b) as u16 }
}

/// The position at the bottom of the content: its last row, or as far as
/// possible before the first drawing (drawing then brings it back within
/// the content).
pub open spec fn scrolled_to_bottom(s: LogScroll) -> LogScroll {
    LogScroll {
        y: match s.height {
            Some(h) => sat_sub16(h as int, 1),
            None => u16::MAX,
        },
        ..s
    }
}

impl LogScroll {
    /// At the top left, nothing drawn yet.
    pub fn new() -> (r: LogScroll)
        ensures
            r == (LogScroll { x: 0, y: 0, height: None, page_height: None }),
    {
        LogScroll { x: 0, y: 0, height: None, page_height: None }
    }

    /// Moves to the bottom of the content (see `scrolled_to_bottom`).
    pub fn scroll_to_bottom(&mut self)
        ensures
            *final(self) == scrolled_to_bottom(*old(self)),
    {
        self.y = match self.height {
            Some(h) => if h == 0 { 0 } else { h - 1 },
            None => u16::MAX,
        };
    }
}

/// The version of the application, shown by `version` and at start-up.
pub const VERSION: &'static str = "0.1.0";
/// The most log messages kept; older ones are dropped first.
pub const LOG_MESSAGE_LIMIT: usize = 500;
/// Move distance used in CPU mode.
pub const DF_MOVE_DISTANCE_CPU: i32 = 8;
/// Zoom scaling factor (percent) used in CPU mode.
pub const DF_SCALING_FACTOR_CPU: i32 = 20;
/// Move distance used in GPU mode.
pub const DF_MOVE_DISTANCE_GPU: i32 = 4;
/// Zoom scaling factor (percent) used in GPU mode.
pub const DF_SCALING_FACTOR_GPU: i32 = 8;
/// Default decimal precision, in bits.
pub const DEFAULT_PREC: u32 = 32;
/// Default iteration limit.
pub const DEFAULT_MAX_ITER: i32 = 32;
/// Smallest accepted iteration limit.
pub const MIN_MAX_ITER: i32 = 8;
/// Largest accepted iteration limit.
pub const MAX_MAX_ITER: i32 = 100000;
/// Smallest accepted decimal precision.
pub const MIN_DECIMAL_PREC: u32 = 8;
/// Largest accepted decimal precision.
pub const MAX_DECIMAL_PREC: u32 = 65535;
/// Exclusive upper bound of the HSL settings.
pub const MAX_HSL_VALUE: i32 = 100;

/// The component that receives key events.
#[derive(Clone, Copy, PartialEq, Eq, Structural, Debug)]
pub enum Focus {
    Canvas,
    Input,
    LogPanel,
}

/// The direction of a zoom.
#[derive(Clone, Copy, PartialEq, Eq, Structural, Debug)]
pub enum ZoomDirection {
    In,
    Out,
}

/// A pair of integer coordinates.
#[derive(Clone, Copy, PartialEq, Eq, Structural, Debug)]
pub struct Vec2 {
    pub x: i32,
    pub y: i32,
}

impl Vec2 {
    pub fn new(x: i32, y: i32) -> (r: Vec2)
        ensures
            r == (Vec2 { x, y }),
    {
        Vec2 { x, y }
    }
}

/// Coordinates on the canvas: one point is one cell wide and half a cell
/// high, the origin in the middle, `y` growing upwards.
#[derive(Clone, Copy, PartialEq, Eq, Structural, Debug)]
pub struct CanvasCoords {
    pub x: i32,
    pub y: i32,
}

impl CanvasCoords {
    pub fn new(x: i32, y: i32) -> (r: CanvasCoords)
        ensures
            r == (CanvasCoords { x, y }),
    {
        CanvasCoords { x, y }
    }
}

/// Settings of the HSL colouring mode.
#[derive(Clone, Copy, PartialEq, Eq, Structural, Debug)]
pub struct HSLSettings {
    pub enabled: bool,
    pub saturation: i32,
    pub lum: i32,
    pub hue_offset: i32,
    pub smoothness: i32,
}

impl Default for HSLSettings {
    fn default() -> (r: Self)
        ensures
            r == (HSLSettings { enabled: false, saturation: 64, lum: 48, hue_offset: 69, smoothness: 5 }),
    {
        HSLSettings { enabled: false, saturation: 64, lum: 48, hue_offset: 69, smoothness: 5 }
    }
}

/// The integer rendering settings. The complex-plane position, cell size
/// and fractal constants are floating-point values kept beside them by the
/// front end.
#[derive(Clone, Copy, PartialEq, Eq, Structural, Debug)]
pub struct RenderSettings {
    /// The size of the canvas, in canvas coordinates.
    pub canvas_size: CanvasCoords,
    /// Decimal precision of the numeric values, in bits.
    pub prec: u32,
    /// The iteration limit.
    pub max_iter: i32,
    /// Index of the selected fractal.
    pub frac_index: usize,
    /// Index of the selected colour palette.
    pub palette_index: usize,
    /// Offset added to divergences before picking a palette colour.
    pub color_scheme_offset: i32,
    /// Smoothness of the colour palette.
    pub smoothness: i32,
    /// Index of the selected void fill method.
    pub void_fill_index: usize,
    /// Largest number of lines rendered per GPU chunk, if limited.
    pub chunk_size_limit: Option<i32>,
    /// Whether rendering runs on the GPU.
    pub use_gpu: bool,
    /// Whether GPU timeout detection is off.
    pub disable_timeout_detection: bool,
    /// The HSL colouring settings.
    pub hsl_settings: HSLSettings,
    /// The picture format of screenshots, as its position in the image
    /// crate's list of formats.
    pub image_format: usize,
}

/// The default rendering settings.
pub open spec fn default_render_settings() -> RenderSettings {
    RenderSettings {
        canvas_size: CanvasCoords { x: 0, y: 0 },
        prec: DEFAULT_PREC,
        max_iter: DEFAULT_MAX_ITER,
        frac_index: 0,
        palette_index: 0,
        color_scheme_offset: 0,
        smoothness: 1,
        void_fill_index: 0,
        chunk_size_limit: None,
        use_gpu: false,
        disable_timeout_detection: false,
        hsl_settings: HSLSettings { enabled: false, saturation: 64, lum: 48, hue_offset: 69, smoothness: 5 },
        image_format: DEFAULT_IMAGE_FORMAT,
    }
}

impl Default for RenderSettings {
    fn default() -> (r: Self)
        ensures
            r == default_render_settings(),
    {
        RenderSettings {
            canvas_size: CanvasCoords::new(0, 0),
            prec: DEFAULT_PREC,
            max_iter: DEFAULT_MAX_ITER,
            frac_index: 0,
            palette_index: 0,
            color_scheme_offset: 0,
            smoothness: 1,
            void_fill_index: 0,
            chunk_size_limit: None,
            use_gpu: false,
            disable_timeout_detection: false,
            hsl_settings: HSLSettings::default(),
            image_format: DEFAULT_IMAGE_FORMAT,
        }
    }
}

/// A screenshot waiting in the job queue.
pub struct WaitingScreenshot {
    /// Width and height of the picture, in pixels.
    pub size: Vec2,
    /// The rendering settings at the time of the request.
    pub rs: RenderSettings,
    /// The file name to save under, if one was given.
    pub name: Option<String>,
}

/// The logic state of the application.
pub struct AppState {
    /// The divergence matrix must be computed again.
    pub redraw_canvas: bool,
    /// The canvas must be painted again.
    pub repaint_canvas: bool,
    /// The component that receives key events.
    pub focused: Focus,
    /// The application must exit.
    pub quit: bool,
    /// Log messages, oldest first, in markup.
    pub log_messages: Vec<String>,
    /// Messages shown below the log until they are taken away, by key (the
    /// progress of each running job, the size of the job queue).
    pub prioritized_log_messages: HashMap<i64, String>,
    /// Scroll position of the log panel.
    pub log_panel_scroll_state: LogScroll,
    /// Executed commands, the latest first.
    pub last_commands: Vec<String>,
    /// The text of the command input, and where the user is in the command
    /// history (`-1`: entering a new command).
    pub command_input: (String, i32),
    /// The commands that `history` listed last, which `history N` picks from.
    pub listed_commands: Vec<String>,
    /// Distance of a keyboard move, in cells.
    pub move_dist: i32,
    /// Zoom scaling factor, in percent.
    pub scaling_factor: i32,
    /// The integer rendering settings.
    pub render_settings: RenderSettings,
    /// Screenshots waiting to be rendered.
    pub requested_jobs: Vec<WaitingScreenshot>,
    /// The action of each mouse button.
    pub click_config: ClickConfig,
    /// All jobs must be removed.
    pub remove_jobs: bool,
    /// Job execution is paused.
    pub pause_jobs: bool,
    /// The index, in `selectable_variables()`, of the selected variable.
    pub selected_canvas_variable: usize,
    /// State files found by the last `load` without arguments.
    pub detected_state_files: Vec<String>,
    /// The next detected state file that `load cycle` opens.
    pub current_state_file_index: usize,
}

/// `log` with `msg` appended, the oldest message dropped beyond the limit.
pub open spec fn log_after(log: Seq<Seq<char>>, msg: Seq<char>) -> Seq<Seq<char>> {
    let l = log.push(msg);
    if l.len() > LOG_MESSAGE_LIMIT {
        l.drop_first()
    } else {
        l
    }
}

/// `log` with each of `msgs` appended in turn.
pub open spec fn log_after_all(log: Seq<Seq<char>>, msgs: Seq<Seq<char>>) -> Seq<Seq<char>>
    decreases msgs.len(),
{
    if msgs.len() == 0 {
        log
    } else {
        log_after(log_after_all(log, msgs.drop_last()), msgs.last())
    }
}

/// Logging one message is `log_after` of it.
pub proof fn lemma_log_after_one(log: Seq<Seq<char>>, msg: Seq<char>)
    ensures
        log_after_all(log, seq![msg]) == log_after(log, msg),
{
    assert(seq![msg].drop_last() =~= Seq::<Seq<char>>::empty());
    assert(log_after_all(log, Seq::<Seq<char>>::empty()) == log);
}

/// Logging `msgs` then `msg` is logging `msgs.push(msg)`.
pub proof fn lemma_log_after_push(log: Seq<Seq<char>>, msgs: Seq<Seq<char>>, msg: Seq<char>)
    ensures
        log_after_all(log, msgs.push(msg)) == log_after(log_after_all(log, msgs), msg),
{
    assert(msgs.push(msg).drop_last() =~= msgs);
}

/// A log message with a green title.
pub open spec fn success_text(title: Seq<char>, msg: Seq<char>) -> Seq<char> {
    "<bggreen  "@ + title + " >\n"@ + msg
}

/// A log message with an accented title.
pub open spec fn info_text(title: Seq<char>, msg: Seq<char>) -> Seq<char> {
    "<bgacc  "@ + title + " >\n"@ + msg
}

/// A log message with a red title and a red body.
pub open spec fn error_text(title: Seq<char>, msg: Seq<char>) -> Seq<char> {
    "<bgred  "@ + title + " >\n<red "@ + msg + ">"@
}

/// A log message with a yellow title and a yellow body.
pub open spec fn warn_text(title: Seq<char>, msg: Seq<char>) -> Seq<char> {
    "<bgyellow  "@ + title + " >\n<yellow "@ + msg + ">"@
}

/// The message `log_warn` writes.
pub open spec fn warn_msg(msg: Seq<char>) -> Seq<char> {
    warn_text("Warning"@, msg)
}

/// The messages logged at start-up.
pub open spec fn welcome_messages() -> Seq<Seq<char>> {
    seq![
        "<bgacc Welcome to Rsfrac v"@ + VERSION@ + ">\nAuthor: <acc L\u{e9}opold Koprivnik>\nGithub Repo: <acc SkwalExe/rsfrac>"@,
        "If you are experiencing slow rendering, try to reduce the size of your terminal."@,
        "You can switch between the canvas, the log panel and the command input using <acc tab>. Use the <acc help> command for more information."@,
    ]
}

/// The message `log_success` writes.
pub open spec fn success_msg(msg: Seq<char>) -> Seq<char> {
    success_text("Success"@, msg)
}

/// The message `log_info` writes.
pub open spec fn info_msg(msg: Seq<char>) -> Seq<char> {
    info_text("Info"@, msg)
}

/// The message `log_error` writes.
pub open spec fn error_msg(msg: Seq<char>) -> Seq<char> {
    error_text("Error"@, msg)
}

/// The text of each log message.
pub open spec fn log_view(s: AppState) -> Seq<Seq<char>> {
    strings_view(s.log_messages@)
}

/// `s` with its log and log scroll position taken from `from`.
pub open spec fn with_log_of(s: AppState, from: AppState) -> AppState {
    AppState {
        log_messages: from.log_messages,
        log_panel_scroll_state: from.log_panel_scroll_state,
        ..s
    }
}

/// `new` is `base` with `msgs` logged after the messages of `old`, the log
/// panel scrolled to the bottom when a message was logged.
pub open spec fn logged_all(old: AppState, base: AppState, new: AppState, msgs: Seq<Seq<char>>) -> bool {
    &&& new == with_log_of(base, new)
    &&& log_view(new) == log_after_all(log_view(old), msgs)
    &&& new.log_panel_scroll_state == if msgs.len() > 0 {
        scrolled_to_bottom(old.log_panel_scroll_state)
    } else {
        old.log_panel_scroll_state
    }
}

/// `new` is `base` with `msg` logged after the messages of `old`.
pub open spec fn logged(old: AppState, base: AppState, new: AppState, msg: Seq<char>) -> bool {
    logged_all(old, base, new, seq![msg])
}

/// `s` with both redraw flags set.
pub open spec fn redrawn(s: AppState) -> AppState {
    AppState { redraw_canvas: true, repaint_canvas: true, ..s }
}

/// `s` with the repaint flag set.
pub open spec fn repainted(s: AppState) -> AppState {
    AppState { repaint_canvas: true, ..s }
}

/// `s` with its rendering settings replaced.
pub open spec fn with_rs(s: AppState, rs: RenderSettings) -> AppState {
    AppState { render_settings: rs, ..s }
}

/// The entry `index` of the command history, or the empty text.
pub open spec fn command_at(history: Seq<String>, index: int) -> Seq<char> {
    if 0 <= index < history.len() {
        history[index]@
    } else {
        Seq::empty()
    }
}

/// `v` brought into `[lo, hi]`.
pub open spec fn clamp(v: int, lo: int, hi: int) -> int {
    if v < lo {
        lo
    } else if v > hi {
        hi
    } else {
        v
    }
}

/// Whether the variable at position `i` is hidden from the canvas panel:
/// the HSL variables when HSL mode is off, the palette offset when it is on.
pub open spec fn var_hidden(hsl_enabled: bool, i: int) -> bool {
    if !hsl_enabled {
        i == 1 || i == 2 || i == 3 || i == 4
    } else {
        i == 0
    }
}

/// The first visible variable at or after position `i`, going round; a
/// position out of the list is never hidden and stays.
pub open spec fn first_visible_from(hsl_enabled: bool, i: int) -> int {
    if i < 0 || i >= SELECTABLE_COUNT {
        i
    } else if !hsl_enabled {
        0
    } else if i == 0 {
        1
    } else {
        i
    }
}

/// The default application state.
pub open spec fn is_default_state(s: AppState) -> bool {
    &&& s.redraw_canvas
    &&& s.repaint_canvas
    &&& s.focused == Focus::Canvas
    &&& !s.quit
    &&& s.log_messages@.len() == 0
    &&& s.prioritized_log_messages@ == Map::<i64, String>::empty()
    &&& s.last_commands@.len() == 0
    &&& s.command_input.0@.len() == 0
    &&& s.command_input.1 == 0
    &&& s.listed_commands@.len() == 0
    &&& s.move_dist == DF_MOVE_DISTANCE_GPU
    &&& s.scaling_factor == DF_SCALING_FACTOR_GPU
    &&& s.render_settings == default_render_settings()
    &&& s.requested_jobs@.len() == 0
    &&& s.click_config == (ClickConfig { left: ClickMode::ZoomIn, middle: ClickMode::Move, right: ClickMode::ZoomOut })
    &&& !s.remove_jobs
    &&& !s.pause_jobs
    &&& s.selected_canvas_variable == 0
    &&& s.detected_state_files@.len() == 0
    &&& s.current_state_file_index == 0
}

impl Default for AppState {
    fn default() -> (r: Self)
        ensures
            is_default_state(r),
    {
        AppState {
            redraw_canvas: true,
            repaint_canvas: true,
            focused: Focus::Canvas,
            quit: false,
            log_messages: Vec::new(),
            prioritized_log_messages: HashMap::new(),
            log_panel_scroll_state: LogScroll::new(),
            last_commands: Vec::new(),
            command_input: (String::new(), 0),
            listed_commands: Vec::new(),
            move_dist: DF_MOVE_DISTANCE_GPU,
            scaling_factor: DF_SCALING_FACTOR_GPU,
            render_settings: RenderSettings::default(),
            requested_jobs: Vec::new(),
            click_config: ClickConfig::default(),
            remove_jobs: false,
            pause_jobs: false,
            selected_canvas_variable: var_index_exec(SelectedVariable::PaletteOffset),
            detected_state_files: Vec::new(),
            current_state_file_index: 0,
        }
    }
}

/// The position of `v` in `selectable_variables()`.
pub fn var_index_exec(v: SelectedVariable) -> (r: usize)
    ensures
        r == var_index(v),
{
    match v {
        SelectedVariable::PaletteOffset => 0,
        SelectedVariable::HSLSmoothness => 1,
        SelectedVariable::HueOffset => 2,
        SelectedVariable::HSLSat => 3,
        SelectedVariable::HSLLum => 4,
    }
}

impl AppState {
    /// Appends a message to the log, dropping the oldest beyond the limit,
    /// and scrolls the log panel to the bottom.
    pub fn log_raw(&mut self, message: String)
        ensures
            logged(*old(self), *old(self), *final(self), message@),
    {
        let ghost old_log = log_view(*self);
        self.log_messages.push(message);
        if self.log_messages.len() > LOG_MESSAGE_LIMIT {
            self.log_messages.remove(0);
        }
        self.log_panel_scroll_state.scroll_to_bottom();
        proof {
            let l = old_log.push(message@);
            lemma_log_after_one(old_log, message@);
            if l.len() > LOG_MESSAGE_LIMIT {
                assert(log_view(*self) =~= l.drop_first());
            } else {
                assert(log_view(*self) =~= l);
            }
        }
    }

    /// Logs `message` under a green `title`.
    pub fn log_success_title(&mut self, title: &str, message: &str)
        ensures
            logged(*old(self), *old(self), *final(self), success_text(title@, message@)),
    {
        let mut s = String::from_str("<bggreen  ");
        s.append(title);
        s.append(" >\n");
        s.append(message);
        self.log_raw(s);
    }

    /// Logs `message` under the title "Success".
    pub fn log_success(&mut self, message: &str)
        ensures
            logged(*old(self), *old(self), *final(self), success_msg(message@)),
    {
        self.log_success_title("Success", message)
    }

    /// Logs `message` under an accented `title`.
    pub fn log_info_title(&mut self, title: &str, message: &str)
        ensures
            logged(*old(self), *old(self), *final(self), info_text(title@, message@)),
    {
        let mut s = String::from_str("<bgacc  ");
        s.append(title);
        s.append(" >\n");
        s.append(message);
        self.log_raw(s);
    }

    /// Logs `message` under the title "Info".
    pub fn log_info(&mut self, message: &str)
        ensures
            logged(*old(self), *old(self), *final(self), info_msg(message@)),
    {
        self.log_info_title("Info", message)
    }

    /// Logs `message` in red under a red `title`.
    pub fn log_error_title(&mut self, title: &str, message: &str)
        ensures
            logged(*old(self), *old(self), *final(self), error_text(title@, message@)),
    {
        let mut s = String::from_str("<bgred  ");
        s.append(title);
        s.append(" >\n<red ");
        s.append(message);
        s.append(">");
        self.log_raw(s);
    }

    /// Logs `message` in red under the title "Error".
    pub fn log_error(&mut self, message: &str)
        ensures
            logged(*old(self), *old(self), *final(self), error_msg(message@)),
    {
        self.log_error_title("Error", message)
    }

    /// Logs `message` in yellow under a yellow `title`.
    pub fn log_warn_title(&mut self, title: &str, message: &str)
        ensures
            logged(*old(self), *old(self), *final(self), warn_text(title@, message@)),
    {
        let mut s = String::from_str("<bgyellow  ");
        s.append(title);
        s.append(" >\n<yellow ");
        s.append(message);
        s.append(">");
        self.log_raw(s);
    }

    /// Logs `message` in yellow under the title "Warning".
    pub fn log_warn(&mut self, message: &str)
        ensures
            logged(*old(self), *old(self), *final(self), warn_msg(message@)),
    {
        self.log_warn_title("Warning", message)
    }

    /// Logs the welcome messages shown at start-up.
    pub fn initial_message(&mut self)
        ensures
            logged_all(*old(self), *old(self), *final(self), welcome_messages()),
    {
        let ghost s0 = *self;
        let mut s = String::from_str("<bgacc Welcome to Rsfrac v");
        s.append(VERSION);
        s.append(">\nAuthor: <acc L\u{e9}opold Koprivnik>\nGithub Repo: <acc SkwalExe/rsfrac>");
        self.log_raw(s);
        let ghost s1 = *self;
        self.log_raw(String::from_str("If you are experiencing slow rendering, try to reduce the size of your terminal."));
        let ghost s2 = *self;
        self.log_raw(String::from_str("You can switch between the canvas, the log panel and the command input using <acc tab>. Use the <acc help> command for more information."));
        proof {
            let m = welcome_messages();
            lemma_log_after_one(log_view(s0), m[0]);
            lemma_log_after_one(log_view(s1), m[1]);
            lemma_log_after_one(log_view(s2), m[2]);
            lemma_log_after_push(log_view(s0), seq![m[0]], m[1]);
            lemma_log_after_push(log_view(s0), seq![m[0], m[1]], m[2]);
            assert(seq![m[0]].push(m[1]) =~= seq![m[0], m[1]]);
            assert(seq![m[0], m[1]].push(m[2]) =~= m);
        }
    }

    /// Logs the error of a failed command; does nothing on success.
    pub fn handle_res(&mut self, res: Result<(), String>)
        ensures
            res is Ok ==> *final(self) == *old(self),
            res matches Err(e) ==> logged(*old(self), *old(self), *final(self), error_msg(e@)),
    {
        match res {
            Ok(()) => {},
            Err(e) => self.log_error(e.as_str()),
        }
    }

    /// Only repaint the canvas, without computing the divergences again.
    pub fn request_repaint(&mut self)
        ensures
            *final(self) == repainted(*old(self)),
    {
        self.repaint_canvas = true;
    }

    /// Compute the divergences again and repaint the canvas.
    pub fn request_redraw(&mut self)
        ensures
            *final(self) == redrawn(*old(self)),
    {
        self.redraw_canvas = true;
        self.request_repaint();
    }

    /// Returns the entry `index` of the command history (0 is the latest),
    /// or an empty string when there is none.
    pub fn get_command(&self, index: i32) -> (r: String)
        ensures
            r@ == command_at(self.last_commands@, index as int),
    {
        if index < 0 {
            return String::new();
        }
        let i = index as usize;
        if i < self.last_commands.len() {
            self.last_commands[i].clone()
        } else {
            String::new()
        }
    }

    /// Loads the default settings of CPU mode, for when the GPU cannot be
    /// initialised at start-up.
    pub fn cpu_defaults(&mut self)
        ensures
            *final(self) == (AppState {
                move_dist: DF_MOVE_DISTANCE_CPU,
                scaling_factor: DF_SCALING_FACTOR_CPU,
                render_settings: RenderSettings { use_gpu: false, ..old(self).render_settings },
                ..*old(self)
            }),
    {
        self.move_dist = DF_MOVE_DISTANCE_CPU;
        self.scaling_factor = DF_SCALING_FACTOR_CPU;
        self.render_settings.use_gpu = false;
    }

    /// Changes the iteration limit by `increment`, kept within its bounds,
    /// and asks for a redraw.
    pub fn increment_max_iter(&mut self, increment: i32)
        ensures
            *final(self) == redrawn(with_rs(*old(self), RenderSettings {
                max_iter: clamp(old(self).render_settings.max_iter + increment, MIN_MAX_ITER as int,
                    MAX_MAX_ITER as int) as i32,
                ..old(self).render_settings
            })),
    {
        let sum: i64 = self.render_settings.max_iter as i64 + increment as i64;
        let v: i32 = if sum < MIN_MAX_ITER as i64 {
            MIN_MAX_ITER
        } else if sum > MAX_MAX_ITER as i64 {
            MAX_MAX_ITER
        } else {
            sum as i32
        };
        self.render_settings.max_iter = v;
        self.request_redraw();
    }

    /// Sets the decimal precision and asks for a redraw.
    pub fn set_decimal_prec(&mut self, prec: u32)
        ensures
            *final(self) == redrawn(with_rs(*old(self), RenderSettings { prec, ..old(self).render_settings })),
    {
        self.render_settings.prec = prec;
        self.request_redraw();
    }

    /// Changes the decimal precision by `increment`, kept within its bounds,
    /// and asks for a redraw.
    pub fn increment_decimal_prec(&mut self, increment: i32)
        ensures
            *final(self) == redrawn(with_rs(*old(self), RenderSettings {
                prec: clamp(old(self).render_settings.prec + increment, MIN_DECIMAL_PREC as int,
                    MAX_DECIMAL_PREC as int) as u32,
                ..old(self).render_settings
            })),
    {
        let sum: i64 = self.render_settings.prec as i64 + increment as i64;
        let v: u32 = if sum < MIN_DECIMAL_PREC as i64 {
            MIN_DECIMAL_PREC
        } else if sum > MAX_DECIMAL_PREC as i64 {
            MAX_DECIMAL_PREC
        } else {
            sum as u32
        };
        self.set_decimal_prec(v);
    }

    /// Whether `var` is the selected canvas variable.
    pub fn is_var_selected(&self, var: SelectedVariable) -> (r: bool)
        ensures
            r == (var_index(var) == self.selected_canvas_variable),
    {
        var.eq_index(self.selected_canvas_variable)
    }

    /// Whether the selected canvas variable is hidden from the panel.
    pub fn is_selected_var_hidden(&self) -> (r: bool)
        ensures
            r == var_hidden(self.render_settings.hsl_settings.enabled, self.selected_canvas_variable as int),
    {
        if !self.render_settings.hsl_settings.enabled {
            self.is_var_selected(SelectedVariable::HSLSat)
                || self.is_var_selected(SelectedVariable::HSLLum)
                || self.is_var_selected(SelectedVariable::HueOffset)
                || self.is_var_selected(SelectedVariable::HSLSmoothness)
        } else {
            self.is_var_selected(SelectedVariable::PaletteOffset)
        }
    }

    /// Selects the next canvas variable, hidden or not.
    pub fn next_canv_var_(&mut self)
        requires
            old(self).selected_canvas_variable < usize::MAX,
        ensures
            *final(self) == (AppState {
                selected_canvas_variable: ((old(self).selected_canvas_variable + 1) % SELECTABLE_COUNT as int) as usize,
                ..*old(self)
            }),
    {
        self.selected_canvas_variable = (self.selected_canvas_variable + 1) % SELECTABLE_COUNT;
    }

    /// Moves the selection forward, going round, until the selected canvas
    /// variable is visible.
    pub fn prevent_canvas_var_hidden(&mut self)
        ensures
            *final(self) == (AppState {
                selected_canvas_variable: first_visible_from(old(self).render_settings.hsl_settings.enabled,
                    old(self).selected_canvas_variable as int) as usize,
                ..*old(self)
            }),
    {
        let ghost enabled = self.render_settings.hsl_settings.enabled;
        let ghost target = first_visible_from(enabled, self.selected_canvas_variable as int);
        let ghost start = *self;
        while self.is_selected_var_hidden()
            invariant
                self.selected_canvas_variable < SELECTABLE_COUNT
                    || self.selected_canvas_variable == start.selected_canvas_variable,
                enabled == self.render_settings.hsl_settings.enabled,
                *self == (AppState { selected_canvas_variable: self.selected_canvas_variable, ..start }),
                target == first_visible_from(enabled, self.selected_canvas_variable as int),
            decreases
                if enabled { if self.selected_canvas_variable == 0 { 1int } else { 0int } }
                else { (SELECTABLE_COUNT - self.selected_canvas_variable) % SELECTABLE_COUNT as int },
        {
            self.next_canv_var_();
        }
    }

    /// Selects the next visible canvas variable.
    pub fn next_canv_var(&mut self)
        requires
            old(self).selected_canvas_variable < usize::MAX,
        ensures
            *final(self) == (AppState {
                selected_canvas_variable: first_visible_from(old(self).render_settings.hsl_settings.enabled,
                    (old(self).selected_canvas_variable + 1) % SELECTABLE_COUNT as int) as usize,
                ..*old(self)
            }),
    {
        self.next_canv_var_();
        self.prevent_canvas_var_hidden();
    }
}

} // verus!
