//! Properties of the library as a whole: what every operation keeps, and
//! what a sequence of operations gives.

use vstd::prelude::*;
use crate::canvas::{
    CanvasKey, ClickAction, MouseButton, ViewChange, canvas_click_post, canvas_key_post,
    ratatui_to_canvas_spec, max_iter_moved, prec_moved, stepped_settings, wrap_down, wrap_up,
};
use crate::click_modes::{ClickMode, key_matches, mode_lookup_from, mode_name, normalized_mode_name};
use crate::colors::{PALETTE_COUNT, PALETTE_SIZE, palette_lookup_from, palette_name_matches};
use crate::layout::App;
use crate::loading::{
    NumberErrors, SavedState, frac_lookup_from, load_message, load_outcome, position_from,
};
use crate::commands::capture::{capture_post, hq_args, name_view};
use crate::commands::selection::{click_mode_post, color_post};
use crate::text::{case_folded, all_ascii, ascii_lower, ascii_lower_char, without_underscores};
use crate::commands::command_increment::{i32_increment, increment_result, u32_increment, value_set_text};
use crate::commands::values::{
    MAX_MOVE_DIST, MAX_SMOOTHNESS, MIN_MOVE_DIST, MIN_SMOOTHNESS, chunk_size_post, max_iter_post,
    move_dist_post, prec_post, smoothness_post, zoom_factor_post,
};
use crate::commands::toggles::{pause_post, stop_post};
use crate::input::{history_down, history_up};
use crate::jobs::{job_starts, next_job_post, removal_post};
use crate::selectable::SELECTABLE_COUNT;
use crate::state::{
    AppState, LOG_MESSAGE_LIMIT, MAX_DECIMAL_PREC, MAX_HSL_VALUE, MAX_MAX_ITER, MIN_DECIMAL_PREC, MIN_MAX_ITER,
    RenderSettings, Vec2, WaitingScreenshot, first_visible_from, lemma_log_after_one, logged_all, redrawn, log_after, log_view,
    success_msg, var_hidden,
};

verus! {

/// The log never holds more than `LOG_MESSAGE_LIMIT` messages: logging keeps
/// that bound, the new message comes last, and the messages before it are
/// the latest of the old ones, in their order.
pub proof fn law_log_stays_bounded(log: Seq<Seq<char>>, msg: Seq<char>)
    requires
        log.len() <= LOG_MESSAGE_LIMIT,
    ensures
        log_after(log, msg).len() <= LOG_MESSAGE_LIMIT,
        log_after(log, msg).last() == msg,
        log_after(log, msg).drop_last() == log.subrange(log.len() - log_after(log, msg).drop_last().len(), log.len() as int),
{
    let l = log_after(log, msg);
    if log.push(msg).len() > LOG_MESSAGE_LIMIT {
        assert(l.drop_last() =~= log.subrange(1, log.len() as int));
    } else {
        assert(l.drop_last() =~= log.subrange(0, log.len() as int));
    }
}

/// Stepping a value up then down within `[0, max)`, going round, gives it
/// back, and so does stepping it down then up; both steps stay in range.
pub proof fn law_wrap_steps_undo(v: int, max: int)
    requires
        0 <= v < max,
    ensures
        0 <= wrap_up(v, max) < max,
        0 <= wrap_down(v, max) < max,
        wrap_down(wrap_up(v, max), max) == v,
        wrap_up(wrap_down(v, max), max) == v,
{
}

/// `+` and `-` on a canvas variable keep it in its range: the palette offset
/// within the palette size, an HSL setting within `[0, MAX_HSL_VALUE)`; and
/// `-` undoes `+`.
pub proof fn law_canvas_steps_in_range(rs: RenderSettings, i: int, up: bool)
    requires
        0 <= i < SELECTABLE_COUNT,
        0 <= rs.color_scheme_offset < PALETTE_SIZE,
        0 <= rs.hsl_settings.smoothness < MAX_HSL_VALUE,
        0 <= rs.hsl_settings.hue_offset < MAX_HSL_VALUE,
        0 <= rs.hsl_settings.saturation < MAX_HSL_VALUE,
        0 <= rs.hsl_settings.lum < MAX_HSL_VALUE,
    ensures
        ({
            let r = stepped_settings(rs, i, up);
            &&& 0 <= r.color_scheme_offset < PALETTE_SIZE
            &&& 0 <= r.hsl_settings.smoothness < MAX_HSL_VALUE
            &&& 0 <= r.hsl_settings.hue_offset < MAX_HSL_VALUE
            &&& 0 <= r.hsl_settings.saturation < MAX_HSL_VALUE
            &&& 0 <= r.hsl_settings.lum < MAX_HSL_VALUE
        }),
        stepped_settings(stepped_settings(rs, i, true), i, false) == rs,
{
}

/// Whatever the keys press, the iteration limit and the decimal precision
/// stay within their bounds.
pub proof fn law_key_steps_bounded(rs: RenderSettings, inc: int)
    ensures
        MIN_MAX_ITER <= max_iter_moved(rs, inc).max_iter <= MAX_MAX_ITER,
        MIN_DECIMAL_PREC <= prec_moved(rs, inc).prec <= MAX_DECIMAL_PREC,
{
}

/// A bounded-value command that succeeds with arguments gives a value within
/// its bounds; without arguments it keeps the current value.
pub proof fn law_increment_in_bounds(
    cur: int,
    args: Seq<Seq<char>>,
    min: int,
    max: int,
    parse: spec_fn(Seq<char>) -> Option<int>,
    step_up: spec_fn(int, int) -> int,
    step_down: spec_fn(int, int) -> int,
)
    ensures
        increment_result(cur, args, min, max, parse, step_up, step_down) matches Ok(v) ==> {
            ||| args.len() == 0 && v == cur
            ||| args.len() > 0 && min <= v <= max
        },
{
}

/// The canvas selection moves to a variable the panel shows.
pub proof fn law_selection_visible(hsl_enabled: bool, i: int)
    requires
        0 <= i < SELECTABLE_COUNT,
    ensures
        0 <= first_visible_from(hsl_enabled, i) < SELECTABLE_COUNT,
        !var_hidden(hsl_enabled, first_visible_from(hsl_enabled, i)),
        !var_hidden(hsl_enabled, i) ==> first_visible_from(hsl_enabled, i) == i,
{
}

/// Moving in the command history keeps the position between `-1` (a new
/// command) and the oldest command.
pub proof fn law_history_position_bounded(idx: i32, len: nat)
    requires
        -1 <= idx,
        idx < len || idx == -1,
        len < i32::MAX,
    ensures
        -1 <= history_down(idx) <= idx,
        -1 <= history_up(idx, len) < len || (len == 0 && history_up(idx, len) == -1),
{
}

/// After `stop`, the main loop removes every waiting job and starts none.
pub proof fn law_stop_starts_nothing(
    s0: AppState,
    r0: Result<(), Seq<char>>,
    s1: AppState,
    running: Seq<i64>,
    removed: bool,
    s2: AppState,
    n: int,
    job: Option<WaitingScreenshot>,
    s3: AppState,
)
    requires
        stop_post(s0, s1, r0),
        removal_post(s1, running, removed, s2),
        next_job_post(s2, n, job, s3),
    ensures
        removed,
        s2.requested_jobs@.len() == 0,
        !job_starts(s2, n),
        job is None,
{
}

/// `pause` twice leaves job execution as it was.
pub proof fn law_pause_twice(s0: AppState, r1: Result<(), Seq<char>>, s1: AppState, r2: Result<(), Seq<char>>, s2: AppState)
    requires
        pause_post(s0, s1, r1),
        pause_post(s1, s2, r2),
    ensures
        s2.pause_jobs == s0.pause_jobs,
{
}

/// Jobs start in the order they were requested: each start takes the
/// oldest waiting job and leaves the others in order.
pub proof fn law_jobs_first_in_first_out(s0: AppState, n: int, job: Option<WaitingScreenshot>, s1: AppState)
    requires
        next_job_post(s0, n, job, s1),
        job is Some,
    ensures
        job == Some(s0.requested_jobs@[0]),
        s1.requested_jobs@ == s0.requested_jobs@.subrange(1, s0.requested_jobs@.len() as int),
{
}

/// At most one job runs at a time: a job starts only when none is running
/// and execution is not paused, and with the started job running the next
/// pick starts none.
pub proof fn law_one_job_at_a_time(
    s0: AppState,
    n: int,
    job: Option<WaitingScreenshot>,
    s1: AppState,
    next: Option<WaitingScreenshot>,
    s2: AppState,
)
    requires
        next_job_post(s0, n, job, s1),
        next_job_post(s1, n + 1, next, s2),
        job is Some,
    ensures
        n == 0,
        !s0.pause_jobs,
        next is None,
        s2 == s1,
{
}

/// The characters that the canvas binds.
pub open spec fn canvas_bound_char(c: char) -> bool {
    c == 'h' || c == 'l' || c == 'j' || c == 'k' || c == 's' || c == 'b' || c == 'd' || c == 'u'
        || c == 'i' || c == 'r' || c == 'f' || c == 'c' || c == '-' || c == '+' || c == 'n'
        || c == 't' || c == 'v' || c == 'o' || c == 'y'
}

/// A key that the canvas does not bind changes nothing and asks nothing of
/// the front end.
pub proof fn law_unbound_canvas_key(old: AppState, key: CanvasKey, new: AppState, change: ViewChange)
    requires
        canvas_key_post(old, key, new, change),
        key matches CanvasKey::Char(c) ==> !canvas_bound_char(c),
        key is Char || key is Other,
    ensures
        new == old,
        change == ViewChange::Nothing,
{
}

/// After `n` or `t` on the canvas the selected variable is one that the
/// panel shows, still within the list; `n` switches the HSL mode, `t`
/// keeps it.
pub proof fn law_canvas_selection_visible(old: AppState, c: char, new: AppState, change: ViewChange)
    requires
        c == 'n' || c == 't',
        old.selected_canvas_variable < SELECTABLE_COUNT,
        canvas_key_post(old, CanvasKey::Char(c), new, change),
    ensures
        new.selected_canvas_variable < SELECTABLE_COUNT,
        !var_hidden(new.render_settings.hsl_settings.enabled, new.selected_canvas_variable as int),
        new.render_settings.hsl_settings.enabled == if c == 'n' {
            !old.render_settings.hsl_settings.enabled
        } else {
            old.render_settings.hsl_settings.enabled
        },
        change == ViewChange::Nothing,
{
}

/// Removing underscores from a text that holds none gives it back.
proof fn lemma_no_underscores(s: Seq<char>)
    requires
        forall|i: int| 0 <= i < s.len() ==> s[i] != '_',
    ensures
        without_underscores(s) == s,
    decreases s.len(),
{
    reveal(Seq::filter);
    if s.len() > 0 {
        lemma_no_underscores(s.drop_last());
        assert(s.drop_last().push(s.last()) =~= s);
    }
}

/// A name made of ASCII characters whose lower-case form is `key`, which
/// holds no underscore, normalizes to `key`.
proof fn lemma_normalizes_to(name: Seq<char>, key: Seq<char>)
    requires
        crate::text::all_ascii(name),
        crate::text::ascii_lower(name) =~= key,
        forall|i: int| 0 <= i < key.len() ==> key[i] != '_',
    ensures
        crate::click_modes::normalized_mode_name(name) == key,
{
    lemma_no_underscores(key);
}

/// Every click mode is found again by the name under which it is shown.
pub proof fn law_click_mode_found_by_its_name(m: ClickMode)
    ensures
        mode_lookup_from(mode_name(m)@, 0) == Some(m),
{
    reveal_strlit("zoomin");
    reveal_strlit("zoomout");
    reveal_strlit("move");
    reveal_strlit("juliaconstant");
    reveal_strlit("mandelconstant");
    reveal_strlit("bailout");
    reveal_strlit("info");
    reveal_with_fuel(mode_lookup_from, 8);
    let n = mode_name(m)@;
    match m {
        ClickMode::ZoomIn => {
            reveal_strlit("ZoomIn");
            lemma_normalizes_to(n, "zoomin"@);
        },
        ClickMode::ZoomOut => {
            reveal_strlit("ZoomOut");
            lemma_normalizes_to(n, "zoomout"@);
            assert("zoomin"@[4] != "zoomout"@[4]);
        },
        ClickMode::Move => {
            reveal_strlit("Move");
            lemma_normalizes_to(n, "move"@);
            assert("zoomin"@[0] != "move"@[0]);
            assert("zoomout"@[0] != "move"@[0]);
        },
        ClickMode::JuliaConstant => {
            reveal_strlit("JuliaConstant");
            lemma_normalizes_to(n, "juliaconstant"@);
        },
        ClickMode::MandelConstant => {
            reveal_strlit("MandelConstant");
            lemma_normalizes_to(n, "mandelconstant"@);
        },
        ClickMode::BailOut => {
            reveal_strlit("BailOut");
            lemma_normalizes_to(n, "bailout"@);
            assert("zoomout"@[0] != "bailout"@[0]);
        },
        ClickMode::Info => {
            reveal_strlit("Info");
            lemma_normalizes_to(n, "info"@);
            assert("zoomin"@[0] != "info"@[0]);
            assert("zoomout"@[0] != "info"@[0]);
            assert("move"@[0] != "info"@[0]);
            assert("juliaconstant"@[0] != "info"@[0]);
            assert("mandelconstant"@[0] != "info"@[0]);
            assert("bailout"@[0] != "info"@[0]);
        },
    }
}

/// The click-mode lookup reads a name only through its normalized form.
proof fn lemma_lookup_by_normalized(a: Seq<char>, b: Seq<char>, i: int)
    requires
        normalized_mode_name(a) == normalized_mode_name(b),
    ensures
        mode_lookup_from(a, i) == mode_lookup_from(b, i),
    decreases crate::click_modes::CLICK_MODE_COUNT - i,
{
    if 0 <= i < crate::click_modes::CLICK_MODE_COUNT {
        lemma_lookup_by_normalized(a, b, i + 1);
    }
}

/// On ASCII text, lower-casing and removing underscores commute, removing
/// them twice removes nothing more, and what is left is ASCII.
proof fn lemma_lower_without_underscores(s: Seq<char>)
    requires
        all_ascii(s),
    ensures
        all_ascii(without_underscores(s)),
        ascii_lower(without_underscores(s)) == without_underscores(ascii_lower(s)),
        without_underscores(without_underscores(s)) == without_underscores(s),
    decreases s.len(),
{
    reveal(Seq::filter);
    if s.len() > 0 {
        let init = s.drop_last();
        let c = s.last();
        assert(all_ascii(init));
        lemma_lower_without_underscores(init);
        assert(ascii_lower(s).drop_last() =~= ascii_lower(init));
        assert(ascii_lower(s).last() == ascii_lower_char(c));
        assert((ascii_lower_char(c) == '_') == (c == '_'));
        let w = without_underscores(init);
        if c != '_' {
            assert(without_underscores(s) == w.push(c));
            assert(ascii_lower(w.push(c)) =~= ascii_lower(w).push(ascii_lower_char(c)));
            assert(w.push(c).drop_last() =~= w);
        } else {
            assert(without_underscores(s) == w);
        }
    } else {
        assert(ascii_lower(s) =~= s);
    }
}

/// On ASCII text the normalized form of a concatenation is the
/// concatenation of the normalized forms.
proof fn lemma_normalized_concat(s: Seq<char>, t: Seq<char>)
    requires
        all_ascii(s),
        all_ascii(t),
    ensures
        normalized_mode_name(s + t) == normalized_mode_name(s) + normalized_mode_name(t),
{
    assert(all_ascii(s + t));
    assert(ascii_lower(s + t) =~= ascii_lower(s) + ascii_lower(t));
    Seq::filter_distributes_over_add(ascii_lower(s), ascii_lower(t), |c: char| c != '_');
}

/// A name that no lookup key begins with keeps that property when text is
/// appended to it.
proof fn lemma_lookup_none_extends(s: Seq<char>, t: Seq<char>, i: int)
    requires
        all_ascii(s),
        all_ascii(t),
        mode_lookup_from(s, i) is None,
    ensures
        mode_lookup_from(s + t, i) is None,
    decreases crate::click_modes::CLICK_MODE_COUNT - i,
{
    if 0 <= i < crate::click_modes::CLICK_MODE_COUNT {
        lemma_normalized_concat(s, t);
        let ns = normalized_mode_name(s);
        let nt = normalized_mode_name(t);
        let key = crate::click_modes::lookup_key(i)@;
        if key_matches(i, s + t) {
            assert(ns.len() <= key.len());
            assert forall|k: int| 0 <= k < ns.len() implies key.subrange(0, ns.len() as int)[k] == ns[k] by {
                assert((ns + nt)[k] == ns[k]);
                assert(key.subrange(0, (ns + nt).len() as int)[k] == (ns + nt)[k]);
            }
            assert(key.subrange(0, ns.len() as int) =~= ns);
            assert(key_matches(i, s));
        }
        lemma_lookup_none_extends(s, t, i + 1);
    }
}

/// The click-mode lookup ignores the letter case of ASCII names and the
/// underscores in them, and a name that finds no mode finds none with text
/// appended.
pub proof fn law_click_mode_lookup_normalizes(s: Seq<char>, t: Seq<char>)
    requires
        all_ascii(s),
        all_ascii(t),
    ensures
        ascii_lower(s) == ascii_lower(t) ==> mode_lookup_from(s, 0) == mode_lookup_from(t, 0),
        mode_lookup_from(without_underscores(s), 0) == mode_lookup_from(s, 0),
        mode_lookup_from(s, 0) is None ==> mode_lookup_from(s + t, 0) is None,
{
    if ascii_lower(s) == ascii_lower(t) {
        lemma_lookup_by_normalized(s, t, 0);
    }
    lemma_lower_without_underscores(s);
    assert(all_ascii(ascii_lower(s)));
    lemma_lower_without_underscores(ascii_lower(s));
    assert(normalized_mode_name(without_underscores(s)) == normalized_mode_name(s));
    lemma_lookup_by_normalized(without_underscores(s), s, 0);
    if mode_lookup_from(s, 0) is None {
        lemma_lookup_none_extends(s, t, 0);
    }
}

/// A prefix of a sequence that `a + b` is a prefix of is one too.
proof fn lemma_prefix_of_concat(a: Seq<char>, b: Seq<char>, whole: Seq<char>)
    requires
        (a + b).is_prefix_of(whole),
    ensures
        a.is_prefix_of(whole),
{
    assert forall|k: int| 0 <= k < a.len() implies whole.subrange(0, a.len() as int)[k] == a[k] by {
        assert((a + b)[k] == a[k]);
        assert(whole.subrange(0, (a + b).len() as int)[k] == (a + b)[k]);
    }
    assert(whole.subrange(0, a.len() as int) =~= a);
}

/// A palette name that no palette begins with keeps that property when
/// ASCII text is appended to it.
proof fn lemma_palette_none_extends(s: Seq<char>, t: Seq<char>, i: int)
    requires
        all_ascii(s),
        all_ascii(t),
        palette_lookup_from(s, i) is None,
    ensures
        palette_lookup_from(s + t, i) is None,
    decreases PALETTE_COUNT - i,
{
    if 0 <= i < PALETTE_COUNT {
        assert(all_ascii(s + t));
        assert(ascii_lower(s + t) =~= ascii_lower(s) + ascii_lower(t));
        if palette_name_matches(i, s + t) {
            lemma_prefix_of_concat(ascii_lower(s), ascii_lower(t),
                crate::text::case_folded(crate::colors::palette_name(i)@));
        }
        lemma_palette_none_extends(s, t, i + 1);
    }
}

/// The palette lookup reads an ASCII name without regard to letter case.
proof fn lemma_palette_case(s: Seq<char>, t: Seq<char>, i: int)
    requires
        all_ascii(s),
        all_ascii(t),
        ascii_lower(s) == ascii_lower(t),
    ensures
        palette_lookup_from(s, i) == palette_lookup_from(t, i),
    decreases PALETTE_COUNT - i,
{
    if 0 <= i < PALETTE_COUNT {
        lemma_palette_case(s, t, i + 1);
    }
}

/// The palette lookup ignores the letter case of ASCII names, and a name
/// that selects no palette selects none with ASCII text appended.
pub proof fn law_palette_lookup_by_prefix(s: Seq<char>, t: Seq<char>)
    requires
        all_ascii(s),
        all_ascii(t),
    ensures
        ascii_lower(s) == ascii_lower(t) ==> palette_lookup_from(s, 0) == palette_lookup_from(t, 0),
        palette_lookup_from(s, 0) is None ==> palette_lookup_from(s + t, 0) is None,
{
    if ascii_lower(s) == ascii_lower(t) {
        lemma_palette_case(s, t, 0);
    }
    if palette_lookup_from(s, 0) is None {
        lemma_palette_none_extends(s, t, 0);
    }
}

/// The canvas keys that step a setting move it the way their footer label
/// says: `u` lowers the decimal precision by 10 and `i` raises it by 10,
/// `y` lowers the iteration limit by 10 and `o` raises it by 10, each held
/// within its bounds; the key asks a redraw and changes nothing else.
pub proof fn law_canvas_setting_keys(old: AppState, c: char, new: AppState, change: ViewChange)
    requires
        c == 'u' || c == 'i' || c == 'y' || c == 'o',
        canvas_key_post(old, CanvasKey::Char(c), new, change),
    ensures
        ({
            let p = old.render_settings.prec as int;
            let m = old.render_settings.max_iter as int;
            &&& c == 'u' ==> new.render_settings.prec as int == if p - 10 < MIN_DECIMAL_PREC {
                MIN_DECIMAL_PREC as int
            } else if p - 10 > MAX_DECIMAL_PREC {
                MAX_DECIMAL_PREC as int
            } else {
                p - 10
            }
            &&& c == 'i' ==> new.render_settings.prec as int == if p + 10 > MAX_DECIMAL_PREC {
                MAX_DECIMAL_PREC as int
            } else if p + 10 < MIN_DECIMAL_PREC {
                MIN_DECIMAL_PREC as int
            } else {
                p + 10
            }
            &&& c == 'y' ==> new.render_settings.max_iter as int == if m - 10 < MIN_MAX_ITER {
                MIN_MAX_ITER as int
            } else if m - 10 > MAX_MAX_ITER {
                MAX_MAX_ITER as int
            } else {
                m - 10
            }
            &&& c == 'o' ==> new.render_settings.max_iter as int == if m + 10 > MAX_MAX_ITER {
                MAX_MAX_ITER as int
            } else if m + 10 < MIN_MAX_ITER {
                MIN_MAX_ITER as int
            } else {
                m + 10
            }
            &&& MIN_DECIMAL_PREC <= p <= MAX_DECIMAL_PREC ==> {
                &&& c == 'u' ==> new.render_settings.prec <= old.render_settings.prec
                &&& c == 'i' ==> new.render_settings.prec >= old.render_settings.prec
            }
            &&& MIN_MAX_ITER <= m <= MAX_MAX_ITER ==> {
                &&& c == 'y' ==> new.render_settings.max_iter <= old.render_settings.max_iter
                &&& c == 'o' ==> new.render_settings.max_iter >= old.render_settings.max_iter
            }
        }),
        c == 'u' || c == 'i' ==> change == ViewChange::PrecisionChanged
            && new.render_settings == (RenderSettings { prec: new.render_settings.prec, ..old.render_settings }),
        c == 'y' || c == 'o' ==> change == ViewChange::Nothing
            && new.render_settings == (RenderSettings { max_iter: new.render_settings.max_iter, ..old.render_settings }),
        new.redraw_canvas,
        new == (AppState {
            render_settings: new.render_settings,
            redraw_canvas: true,
            repaint_canvas: true,
            ..old
        }),
{
}

/// The movement and zoom keys report the move their footer label says:
/// `h` and Left move left, `l` and Right right, `j` and Down down, `k` and
/// Up up, `s` zooms out and `d` in; each asks a redraw and changes nothing
/// else.
pub proof fn law_canvas_move_keys(old: AppState, key: CanvasKey, new: AppState, change: ViewChange)
    requires
        canvas_key_post(old, key, new, change),
    ensures
        key == CanvasKey::Left || key == CanvasKey::Char('h') ==> change == ViewChange::MoveReal(false),
        key == CanvasKey::Right || key == CanvasKey::Char('l') ==> change == ViewChange::MoveReal(true),
        key == CanvasKey::Down || key == CanvasKey::Char('j') ==> change == ViewChange::MoveImag(false),
        key == CanvasKey::Up || key == CanvasKey::Char('k') ==> change == ViewChange::MoveImag(true),
        key == CanvasKey::Char('s') ==> change == ViewChange::Zoom(crate::state::ZoomDirection::Out),
        key == CanvasKey::Char('d') ==> change == ViewChange::Zoom(crate::state::ZoomDirection::In),
        (key == CanvasKey::Left || key == CanvasKey::Right || key == CanvasKey::Up || key == CanvasKey::Down
            || key == CanvasKey::Char('h') || key == CanvasKey::Char('l') || key == CanvasKey::Char('j')
            || key == CanvasKey::Char('k') || key == CanvasKey::Char('s') || key == CanvasKey::Char('d'))
            ==> new == (AppState { redraw_canvas: true, repaint_canvas: true, ..old }),
{
}

/// `c` selects the next palette, going round after the last; `+` and `-`
/// step the palette offset (variable 0) up and down by one within the
/// palette, going round; only the palette settings change and a repaint is
/// asked.
pub proof fn law_canvas_palette_keys(old: AppState, c: char, new: AppState, change: ViewChange)
    requires
        c == 'c' || c == '+' || c == '-',
        canvas_key_post(old, CanvasKey::Char(c), new, change),
        old.render_settings.palette_index < PALETTE_COUNT,
        0 <= old.render_settings.color_scheme_offset < PALETTE_SIZE,
        c != 'c' ==> old.selected_canvas_variable == 0,
    ensures
        change == ViewChange::Nothing,
        new.repaint_canvas,
        c == 'c' ==> new.render_settings.palette_index == if old.render_settings.palette_index + 1 == PALETTE_COUNT {
            0
        } else {
            old.render_settings.palette_index + 1
        },
        c == '+' ==> new.render_settings.color_scheme_offset == if old.render_settings.color_scheme_offset + 1
            == PALETTE_SIZE {
            0
        } else {
            old.render_settings.color_scheme_offset + 1
        },
        c == '-' ==> new.render_settings.color_scheme_offset == if old.render_settings.color_scheme_offset == 0 {
            PALETTE_SIZE - 1
        } else {
            old.render_settings.color_scheme_offset - 1
        },
        c == 'c' ==> new.render_settings.color_scheme_offset == old.render_settings.color_scheme_offset,
        c != 'c' ==> new.render_settings.palette_index == old.render_settings.palette_index,
        new == (AppState {
            render_settings: RenderSettings {
                palette_index: new.render_settings.palette_index,
                color_scheme_offset: new.render_settings.color_scheme_offset,
                ..old.render_settings
            },
            repaint_canvas: true,
            ..old
        }),
{
    if c == 'c' {
        let n = old.render_settings.palette_index + 1;
        if n < PALETTE_COUNT {
            vstd::arithmetic::div_mod::lemma_small_mod(n as nat, PALETTE_COUNT as nat);
        } else {
            vstd::arithmetic::div_mod::lemma_mod_self_0(PALETTE_COUNT as int);
        }
    }
}

/// Each bounded-value command, given arguments, sets its own setting to
/// the value that the bounded-value computation gives (the value its
/// success message reports) and leaves the other settings alone; on an
/// error nothing changes. Shown here for `smoothness`, `max_iter`,
/// `move_dist` and `prec`.
pub proof fn law_value_commands_set_the_value(
    old: AppState,
    args: Seq<Seq<char>>,
    new: AppState,
    r: Result<(), Seq<char>>,
    v: int,
)
    requires
        args.len() > 0,
    ensures
        smoothness_post(old, args, new, r) && i32_increment(old.render_settings.smoothness, args,
            MIN_SMOOTHNESS, MAX_SMOOTHNESS) == Ok::<int, Seq<char>>(v) ==> {
            &&& r is Ok
            &&& new.render_settings == (RenderSettings { smoothness: v as i32, ..old.render_settings })
            &&& new.redraw_canvas
            &&& new.move_dist == old.move_dist
            &&& log_view(new).last() == success_msg(value_set_text(v))
        },
        max_iter_post(old, args, new, r) && i32_increment(old.render_settings.max_iter, args,
            MIN_MAX_ITER, MAX_MAX_ITER) == Ok::<int, Seq<char>>(v) ==> {
            &&& r is Ok
            &&& new.render_settings == (RenderSettings { max_iter: v as i32, ..old.render_settings })
            &&& new.redraw_canvas
            &&& new.move_dist == old.move_dist
            &&& log_view(new).last() == success_msg(value_set_text(v))
        },
        move_dist_post(old, args, new, r) && i32_increment(old.move_dist, args,
            MIN_MOVE_DIST, MAX_MOVE_DIST) == Ok::<int, Seq<char>>(v) ==> {
            &&& r is Ok
            &&& new.move_dist == v
            &&& new.render_settings == old.render_settings
            &&& log_view(new).last() == success_msg(value_set_text(v))
        },
        prec_post(old, args, new, r) && u32_increment(old.render_settings.prec, args,
            MIN_DECIMAL_PREC, MAX_DECIMAL_PREC) == Ok::<int, Seq<char>>(v) ==> {
            &&& r is Ok
            &&& new.render_settings == (RenderSettings { prec: v as u32, ..old.render_settings })
            &&& new.redraw_canvas
            &&& new.move_dist == old.move_dist
            &&& !old.render_settings.use_gpu ==> log_view(new).last() == success_msg(value_set_text(v))
        },
        smoothness_post(old, args, new, r) && i32_increment(old.render_settings.smoothness, args,
            MIN_SMOOTHNESS, MAX_SMOOTHNESS) is Err ==> r is Err && new == old,
        max_iter_post(old, args, new, r) && i32_increment(old.render_settings.max_iter, args,
            MIN_MAX_ITER, MAX_MAX_ITER) is Err ==> r is Err && new == old,
        move_dist_post(old, args, new, r) && i32_increment(old.move_dist, args,
            MIN_MOVE_DIST, MAX_MOVE_DIST) is Err ==> r is Err && new == old,
        prec_post(old, args, new, r) && u32_increment(old.render_settings.prec, args,
            MIN_DECIMAL_PREC, MAX_DECIMAL_PREC) is Err ==> r is Err && new == old,
{
    let msg = success_msg(value_set_text(v));
    lemma_log_after_one(log_view(old), msg);
}

/// `click_mode <button> <action>` binds the action its second argument
/// names to the button its first argument names (`left`, `middle` or
/// `right` in any case), and leaves the two other buttons as they were; an
/// unknown action or button changes nothing.
pub proof fn law_click_mode_binds_the_named_button(
    old: AppState,
    args: Seq<Seq<char>>,
    new: AppState,
    r: Result<(), Seq<char>>,
)
    requires
        args.len() >= 2,
        click_mode_post(old, args, new, r),
    ensures
        ({
            let button = case_folded(args[0]);
            let c = old.click_config;
            let d = new.click_config;
            &&& r is Ok <==> (mode_lookup_from(args[1], 0) is Some
                && (button == "left"@ || button == "middle"@ || button == "right"@))
            &&& r is Err ==> new == old
            &&& r is Ok && button == "left"@ ==> Some(d.left) == mode_lookup_from(args[1], 0)
                && d.middle == c.middle && d.right == c.right
            &&& r is Ok && button == "middle"@ ==> Some(d.middle) == mode_lookup_from(args[1], 0)
                && d.left == c.left && d.right == c.right
            &&& r is Ok && button == "right"@ ==> Some(d.right) == mode_lookup_from(args[1], 0)
                && d.left == c.left && d.middle == c.middle
        }),
{
    reveal_strlit("left");
    reveal_strlit("middle");
    reveal_strlit("right");
}

/// The text of a four-digit number reads as that number.
proof fn lemma_four_digits(s: Seq<char>, a: char, b: char, c: char, d: char)
    requires
        s == seq![a, b, c, d],
        '0' <= a <= '9',
        '0' <= b <= '9',
        '0' <= c <= '9',
        '0' <= d <= '9',
    ensures
        crate::text::parse_i32_spec(s) == Some(((a as int - 48) * 1000 + (b as int - 48) * 100
            + (c as int - 48) * 10 + (d as int - 48)) as i32),
{
    assert(s.drop_last() =~= seq![a, b, c]);
    assert(s.drop_last().drop_last() =~= seq![a, b]);
    assert(s.drop_last().drop_last().drop_last() =~= seq![a]);
    assert(s.drop_last().drop_last().drop_last().drop_last() =~= Seq::<char>::empty());
    assert(crate::text::all_digits(s));
    reveal_with_fuel(crate::text::digits_value, 5);
    assert(s.last() == d);
    assert(s.drop_last().last() == c);
    assert(s.drop_last().drop_last().last() == b);
    assert(s.drop_last().drop_last().drop_last().last() == a);
}

/// `capture` and `capture_hq` queue one screenshot job, at the end of the
/// queue, with the current settings: one argument of `capture` names it at
/// the default size; `capture_hq` takes 7680x4320 and, given one argument,
/// names the job after it, and leaves it unnamed otherwise.
pub proof fn law_capture_names_the_job(
    old: AppState,
    args: Seq<Seq<char>>,
    new: AppState,
    r: Result<(), Seq<char>>,
    hq_new: AppState,
    hq_r: Result<(), Seq<char>>,
)
    requires
        args.len() <= 1,
        capture_post(old, args, new, r),
        capture_post(old, hq_args(args), hq_new, hq_r),
    ensures
        r is Ok,
        new.requested_jobs@.len() == old.requested_jobs@.len() + 1,
        new.requested_jobs@.drop_last() == old.requested_jobs@,
        new.requested_jobs@.last().rs == old.render_settings,
        new.requested_jobs@.last().size == (Vec2 { x: 1920, y: 1080 }),
        args.len() == 1 ==> name_view(new.requested_jobs@.last().name) == Some(args[0]),
        args.len() == 0 ==> new.requested_jobs@.last().name is None,
        hq_r is Ok,
        hq_new.requested_jobs@.len() == old.requested_jobs@.len() + 1,
        hq_new.requested_jobs@.drop_last() == old.requested_jobs@,
        hq_new.requested_jobs@.last().rs == old.render_settings,
        hq_new.requested_jobs@.last().size == (Vec2 { x: 7680, y: 4320 }),
        args.len() == 1 ==> name_view(hq_new.requested_jobs@.last().name) == Some(args[0]),
        args.len() == 0 ==> hq_new.requested_jobs@.last().name is None,
{
    reveal_strlit("7680");
    reveal_strlit("4320");
    assert("7680"@ =~= seq!['7', '6', '8', '0']);
    assert("4320"@ =~= seq!['4', '3', '2', '0']);
    lemma_four_digits("7680"@, '7', '6', '8', '0');
    lemma_four_digits("4320"@, '4', '3', '2', '0');
    let h = hq_args(args);
    assert(h[0] == "7680"@ && h[1] == "4320"@);
}

/// Loading a state file whose fractal is known applies its palette: a
/// palette name that finds palette `i` makes `i` the palette index, and
/// the palette offset, precision and smoothness it holds are applied; a
/// palette name that finds none stops the loading with an error before any
/// setting changes. When the loading finishes, the iteration limit it holds
/// is applied too, and so is the position of its void fill among `voids`.
pub proof fn law_load_applies_the_settings(
    old: AppState,
    saved: SavedState,
    filename: Seq<char>,
    names: Seq<Seq<char>>,
    select_res: Result<(), Seq<char>>,
    errs: NumberErrors,
    voids: Seq<Seq<char>>,
    new: AppState,
)
    requires
        saved.frac_name matches Some(f) ==> frac_lookup_from(names, f@, 0) is Some,
        ({
            let out = load_outcome(old, saved, names, select_res, errs, voids);
            logged_all(old, redrawn(out.0), new, out.3.push(load_message(filename, out.1)))
        }),
    ensures
        ({
            let out = load_outcome(old, saved, names, select_res, errs, voids);
            let rs = new.render_settings;
            &&& (saved.color_palette_name matches Some(n) && (palette_lookup_from(n@, 0) is None)) ==> {
                &&& out.1 is Err
                &&& rs == old.render_settings
            }
            &&& (saved.color_palette_name matches Some(n) ==> (palette_lookup_from(n@, 0) is Some)) ==> {
                &&& (saved.color_palette_name matches Some(n) ==> Some(rs.palette_index) == palette_lookup_from(n@, 0))
                &&& ((saved.color_palette_name is None) ==> rs.palette_index == old.render_settings.palette_index)
                &&& (saved.palette_offset matches Some(o) ==> rs.color_scheme_offset == o)
                &&& (saved.precision matches Some(p) ==> rs.prec == p)
                &&& (saved.smoothness matches Some(m) ==> rs.smoothness == m)
            }
            &&& (out.1 is Ok) ==> {
                &&& (saved.max_iter matches Some(m) ==> rs.max_iter == m)
                &&& (saved.void_fill matches Some(v) ==> Some(rs.void_fill_index) == position_from(voids, v@, 0))
            }
        }),
{
}

/// `zoom_factor <v>` makes the scaling factor `v` when `v` reads as an
/// integer in `(1, 500]` and refuses it otherwise; `chunk_size <v>` makes
/// the chunk size limit `v` when `v` reads as an integer in `[1, 10000]`,
/// and `reset` removes the limit; `color <name>` selects the palette the
/// name finds. Nothing else among the settings changes.
pub proof fn law_setting_commands_take_the_value(
    old: AppState,
    args: Seq<Seq<char>>,
    new: AppState,
    r: Result<(), Seq<char>>,
)
    requires
        args.len() > 0,
    ensures
        zoom_factor_post(old, args, new, r) ==> match crate::text::parse_i32_spec(args[0]) {
            Some(v) => if 1 < v <= 500 {
                r is Ok && new.scaling_factor == v && new.render_settings == old.render_settings
            } else {
                r is Err && new == old
            },
            None => r is Err && new == old,
        },
        chunk_size_post(old, args, new, r) && case_folded(args[0]) != "reset"@ ==> match crate::text::parse_i32_spec(args[0]) {
            Some(v) => if 1 <= v <= 10000 {
                r is Ok && new.render_settings == (RenderSettings { chunk_size_limit: Some(v), ..old.render_settings })
            } else {
                r is Err && new == old
            },
            None => r is Err && new == old,
        },
        chunk_size_post(old, args, new, r) && case_folded(args[0]) == "reset"@ ==> r is Ok
            && new.render_settings == (RenderSettings { chunk_size_limit: None, ..old.render_settings }),
        color_post(old, args, new, r) ==> match palette_lookup_from(args[0], 0) {
            Some(i) => r is Ok && new.render_settings == (RenderSettings { palette_index: i, ..old.render_settings })
                && new.repaint_canvas,
            None => r is Err && new == old,
        },
{
}

/// A press of a mouse button on the canvas triggers the action bound to
/// that button (the left, middle or right one) at the point under the
/// cursor; the canvas takes the focus.
pub proof fn law_click_triggers_the_button_action(
    old: App,
    b: MouseButton,
    column: u16,
    row: u16,
    new: App,
    a: ClickAction,
)
    requires
        canvas_click_post(old, Some(b), column, row, new, a),
    ensures
        ({
            let c = old.app_state.click_config;
            let m = match b {
                MouseButton::Left => c.left,
                MouseButton::Middle => c.middle,
                MouseButton::Right => c.right,
            };
            let pos = ratatui_to_canvas_spec(old.app_state.render_settings.canvas_size, column, row);
            &&& new.app_state.focused == crate::state::Focus::Canvas
            &&& m == ClickMode::Move ==> a == ClickAction::MoveTo(pos)
            &&& m == ClickMode::ZoomIn ==> a == ClickAction::ZoomAt(pos, crate::state::ZoomDirection::In)
            &&& m == ClickMode::ZoomOut ==> a == ClickAction::ZoomAt(pos, crate::state::ZoomDirection::Out)
            &&& m == ClickMode::JuliaConstant ==> a == ClickAction::SetJuliaConstant(pos)
            &&& m == ClickMode::MandelConstant ==> a == ClickAction::SetMandelConstant(pos)
            &&& m == ClickMode::BailOut ==> a == ClickAction::SetBailout(pos)
            &&& m == ClickMode::Info ==> (a is Info || a is Nothing)
            &&& new.app_state.click_config == c
        }),
{
}

/// The other canvas keys: `r` resets the view, `f` selects the next
/// fractal, `v` the next void fill, each asking a redraw or a repaint, and
/// `b` shows or hides the side panel without touching the state.
pub proof fn law_canvas_view_keys(old: AppState, c: char, new: AppState, change: ViewChange)
    requires
        c == 'r' || c == 'f' || c == 'v' || c == 'b',
        canvas_key_post(old, CanvasKey::Char(c), new, change),
    ensures
        c == 'r' ==> change == ViewChange::ResetView && new == (AppState { redraw_canvas: true, repaint_canvas: true, ..old }),
        c == 'f' ==> change == ViewChange::NextFractal && new == (AppState { redraw_canvas: true, repaint_canvas: true, ..old }),
        c == 'v' ==> change == ViewChange::NextVoidFill && new == (AppState { repaint_canvas: true, ..old }),
        c == 'b' ==> change == ViewChange::ToggleSidepanel && new == old,
{
}

/// `+` and `-` step the selected HSL variable (1 the smoothness, 2 the hue
/// offset, 3 the saturation, 4 the luminosity) up or down by one within
/// `[0, MAX_HSL_VALUE)`, going round, and change no other setting.
pub proof fn law_canvas_hsl_keys(old: AppState, c: char, new: AppState, change: ViewChange)
    requires
        c == '+' || c == '-',
        canvas_key_post(old, CanvasKey::Char(c), new, change),
        1 <= old.selected_canvas_variable <= 4,
    ensures
        ({
            let h = old.render_settings.hsl_settings;
            let n = new.render_settings.hsl_settings;
            let i = old.selected_canvas_variable;
            let v = if i == 1 { h.smoothness } else if i == 2 { h.hue_offset } else if i == 3 { h.saturation } else { h.lum };
            let w = if i == 1 { n.smoothness } else if i == 2 { n.hue_offset } else if i == 3 { n.saturation } else { n.lum };
            &&& c == '+' ==> w == if v >= MAX_HSL_VALUE - 1 { 0 } else { v + 1 }
            &&& c == '-' ==> w == if v <= 0 { MAX_HSL_VALUE - 1 } else { v - 1 }
            &&& i != 1 ==> n.smoothness == h.smoothness
            &&& i != 2 ==> n.hue_offset == h.hue_offset
            &&& i != 3 ==> n.saturation == h.saturation
            &&& i != 4 ==> n.lum == h.lum
            &&& n.enabled == h.enabled
            &&& new.render_settings == (RenderSettings { hsl_settings: n, ..old.render_settings })
            &&& new == (AppState { render_settings: new.render_settings, repaint_canvas: true, ..old })
            &&& change == ViewChange::Nothing
        }),
{
}

/// `capture <width> <height> [name]` queues a job of that size, named
/// after the third argument when there is one, when both sides read as
/// integers in `[16, 65535]`; otherwise nothing is queued.
pub proof fn law_capture_takes_the_size(old: AppState, args: Seq<Seq<char>>, new: AppState, r: Result<(), Seq<char>>)
    requires
        args.len() == 2 || args.len() == 3,
        capture_post(old, args, new, r),
    ensures
        match (crate::text::parse_i32_spec(args[0]), crate::text::parse_i32_spec(args[1])) {
            (Some(w), Some(h)) => if 16 <= w <= 65535 && 16 <= h <= 65535 {
                &&& r is Ok
                &&& new.requested_jobs@.drop_last() == old.requested_jobs@
                &&& new.requested_jobs@.len() == old.requested_jobs@.len() + 1
                &&& new.requested_jobs@.last().size == (Vec2 { x: w, y: h })
                &&& new.requested_jobs@.last().rs == old.render_settings
                &&& name_view(new.requested_jobs@.last().name) == if args.len() == 3 { Some(args[2]) } else { None }
            } else {
                r is Err && new == old
            },
            _ => r is Err && new == old,
        },
{
}

} // verus!
