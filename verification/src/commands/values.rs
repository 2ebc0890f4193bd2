//! Commands that display or change a bounded value: `max_iter`,
//! `move_dist`, `smoothness`, `prec`, `zoom_factor` and `chunk_size`.

use vstd::prelude::*;
use crate::commands::command_increment::{
    command_increment, command_increment_u32, i32_increment, increment_log, int_message,
    result_view, u32_increment, uint_result_view,
};
use crate::state::{
    AppState, MAX_DECIMAL_PREC, MAX_MAX_ITER, MIN_DECIMAL_PREC, MIN_MAX_ITER, RenderSettings,
    info_msg, info_text, lemma_log_after_one, lemma_log_after_push, log_view, logged,
    logged_all, redrawn, success_msg, with_rs,
};
use crate::text::{
    escaped, esc, i32_parse_error_text, int_text, case_folded, parse_i32, parse_i32_spec, str_eq,
    strs_view, to_lowercase,
};

verus! {

/// Smallest move distance.
pub const MIN_MOVE_DIST: i32 = 1;
/// Largest move distance.
pub const MAX_MOVE_DIST: i32 = 100;
/// Smallest palette smoothness.
pub const MIN_SMOOTHNESS: i32 = 1;
/// Largest palette smoothness.
pub const MAX_SMOOTHNESS: i32 = 100;
/// Smallest GPU chunk size limit.
pub const MIN_LIMIT: i32 = 1;
/// Largest GPU chunk size limit.
pub const MAX_LIMIT: i32 = 10000;

/// `max_iter`: the bounded-value outcome; on success the iteration limit
/// takes the value and a redraw is asked.
pub open spec fn max_iter_post(old: AppState, args: Seq<Seq<char>>, new: AppState, r: Result<(), Seq<char>>) -> bool {
    let out = i32_increment(old.render_settings.max_iter, args, MIN_MAX_ITER, MAX_MAX_ITER);
    match out {
        Err(e) => r == Err::<(), Seq<char>>(e) && new == old,
        Ok(v) => r is Ok && logged_all(old,
            redrawn(with_rs(old, RenderSettings { max_iter: v as i32, ..old.render_settings })), new,
            increment_log(old.render_settings.max_iter as int, args, out)),
    }
}

/// Displays, sets or steps the iteration limit (between 8 and 100000).
pub fn execute_max_iter(state: &mut AppState, args: Vec<&str>) -> (r: Result<(), String>)
    ensures
        max_iter_post(*old(state), strs_view(args@), *final(state), result_view(r)),
{
    let val = command_increment(state, state.render_settings.max_iter, args, MIN_MAX_ITER, MAX_MAX_ITER);
    match val {
        Err(e) => Err(e),
        Ok(v) => {
            state.render_settings.max_iter = v;
            state.request_redraw();
            Ok(())
        },
    }
}

/// `move_dist`: the bounded-value outcome; on success the move distance
/// takes the value and a redraw is asked.
pub open spec fn move_dist_post(old: AppState, args: Seq<Seq<char>>, new: AppState, r: Result<(), Seq<char>>) -> bool {
    let out = i32_increment(old.move_dist, args, MIN_MOVE_DIST, MAX_MOVE_DIST);
    match out {
        Err(e) => r == Err::<(), Seq<char>>(e) && new == old,
        Ok(v) => r is Ok && logged_all(old, redrawn(AppState { move_dist: v as i32, ..old }), new,
            increment_log(old.move_dist as int, args, out)),
    }
}

/// Displays, sets or steps the move distance (between 1 and 100 cells).
pub fn execute_move_dist(state: &mut AppState, args: Vec<&str>) -> (r: Result<(), String>)
    ensures
        move_dist_post(*old(state), strs_view(args@), *final(state), result_view(r)),
{
    let val = command_increment(state, state.move_dist, args, MIN_MOVE_DIST, MAX_MOVE_DIST);
    match val {
        Err(e) => Err(e),
        Ok(v) => {
            state.move_dist = v;
            state.request_redraw();
            Ok(())
        },
    }
}

/// `smoothness`: the bounded-value outcome; on success the palette
/// smoothness takes the value and a redraw is asked.
pub open spec fn smoothness_post(old: AppState, args: Seq<Seq<char>>, new: AppState, r: Result<(), Seq<char>>) -> bool {
    let out = i32_increment(old.render_settings.smoothness, args, MIN_SMOOTHNESS, MAX_SMOOTHNESS);
    match out {
        Err(e) => r == Err::<(), Seq<char>>(e) && new == old,
        Ok(v) => r is Ok && logged_all(old,
            redrawn(with_rs(old, RenderSettings { smoothness: v as i32, ..old.render_settings })), new,
            increment_log(old.render_settings.smoothness as int, args, out)),
    }
}

/// Displays, sets or steps the smoothness of the colour palette (between 1
/// and 100).
pub fn execute_smoothness(state: &mut AppState, args: Vec<&str>) -> (r: Result<(), String>)
    ensures
        smoothness_post(*old(state), strs_view(args@), *final(state), result_view(r)),
{
    let val = command_increment(state, state.render_settings.smoothness, args, MIN_SMOOTHNESS, MAX_SMOOTHNESS);
    match val {
        Err(e) => Err(e),
        Ok(v) => {
            state.render_settings.smoothness = v;
            state.request_redraw();
            Ok(())
        },
    }
}

/// The note `prec` logs in GPU mode.
pub open spec fn gpu_precision_note() -> Seq<char> {
    "Arbitrary precision if not taken into account when GPU mode is enabled. You can disable GPU mode with the <command gpu> command."@
}

/// `prec`: the bounded-value outcome; on success a note is logged in GPU
/// mode, the precision takes the value and a redraw is asked.
pub open spec fn prec_post(old: AppState, args: Seq<Seq<char>>, new: AppState, r: Result<(), Seq<char>>) -> bool {
    let out = u32_increment(old.render_settings.prec, args, MIN_DECIMAL_PREC, MAX_DECIMAL_PREC);
    let logs = increment_log(old.render_settings.prec as int, args, out);
    match out {
        Err(e) => r == Err::<(), Seq<char>>(e) && new == old,
        Ok(v) => r is Ok && logged_all(old,
            redrawn(with_rs(old, RenderSettings { prec: v as u32, ..old.render_settings })), new,
            if old.render_settings.use_gpu { logs.push(info_msg(gpu_precision_note())) } else { logs }),
    }
}

/// Displays, sets or steps the decimal precision, in bits (between 8 and
/// 65535).
pub fn execute_prec(state: &mut AppState, args: Vec<&str>) -> (r: Result<(), String>)
    ensures
        prec_post(*old(state), strs_view(args@), *final(state), result_view(r)),
{
    let ghost old_state = *state;
    let val = command_increment_u32(state, state.render_settings.prec, args, MIN_DECIMAL_PREC, MAX_DECIMAL_PREC);
    match val {
        Err(e) => Err(e),
        Ok(v) => {
            if state.render_settings.use_gpu {
                proof {
                    lemma_log_after_push(log_view(old_state),
                        increment_log(old_state.render_settings.prec as int, strs_view(args@), uint_result_view(val)),
                        info_msg(gpu_precision_note()));
                    lemma_log_after_one(log_view(*state), info_msg(gpu_precision_note()));
                }
                state.log_info("Arbitrary precision if not taken into account when GPU mode is enabled. You can disable GPU mode with the <command gpu> command.");
            }
            state.set_decimal_prec(v);
            Ok(())
        },
    }
}

/// Error of `zoom_factor` for a value out of bounds.
pub open spec fn zoom_factor_range_text() -> Seq<char> {
    "Please, provide a value between 1 and 500."@
}

/// `zoom_factor`: with no argument the factor is shown; otherwise it is
/// parsed as an `i32` in `(1, 500]` and set.
pub open spec fn zoom_factor_post(old: AppState, args: Seq<Seq<char>>, new: AppState, r: Result<(), Seq<char>>) -> bool {
    if args.len() == 0 {
        r is Ok && logged(old, old, new, info_text("Current Scaling Factor"@,
            "The scaling factor is set to <acc "@ + int_text(old.scaling_factor as int) + "%>"@))
    } else {
        match parse_i32_spec(args[0]) {
            None => r == Err::<(), Seq<char>>("Please provide a valid integer: "@ + escaped(i32_parse_error_text(args[0])))
                && new == old,
            Some(v) => if !(1 < v <= 500) {
                r == Err::<(), Seq<char>>(zoom_factor_range_text()) && new == old
            } else {
                r is Ok && logged(old, AppState { scaling_factor: v, ..old }, new,
                    success_msg("Scaling factor successfully set to <acc "@ + int_text(v as int) + "%>"@))
            },
        }
    }
}

/// Displays or sets the scaling factor (in percent) used when zooming.
pub fn execute_zoom_factor(state: &mut AppState, args: Vec<&str>) -> (r: Result<(), String>)
    ensures
        zoom_factor_post(*old(state), strs_view(args@), *final(state), result_view(r)),
{
    if args.len() == 0 {
        let msg = int_message("The scaling factor is set to <acc ", state.scaling_factor as i64, "%>");
        state.log_info_title("Current Scaling Factor", msg.as_str());
        return Ok(());
    }
    let new_value = match parse_i32(args[0]) {
        Ok(v) => v,
        Err(err) => {
            let mut s = String::from_str("Please provide a valid integer: ");
            let e = esc(err.as_str());
            s.append(e.as_str());
            return Err(s);
        },
    };
    if !(1 < new_value && new_value <= 500) {
        return Err(String::from_str("Please, provide a value between 1 and 500."));
    }
    state.scaling_factor = new_value;
    let msg = int_message("Scaling factor successfully set to <acc ", new_value as i64, "%>");
    state.log_success(msg.as_str());
    Ok(())
}

/// Error of `chunk_size` for an invalid limit.
pub open spec fn chunk_size_error_text() -> Seq<char> {
    "Invalid limit provided. Make sure to enter a valid integer between 1 and 10000."@
}

/// The limit shown by `chunk_size` (`0` for none).
pub open spec fn shown_limit(l: Option<i32>) -> int {
    match l {
        Some(v) => v as int,
        None => 0,
    }
}

/// `chunk_size`: with no argument the limit is shown; `reset` (any case)
/// removes it; an integer in `[1, 10000]` sets it; anything else is an error.
pub open spec fn chunk_size_post(old: AppState, args: Seq<Seq<char>>, new: AppState, r: Result<(), Seq<char>>) -> bool {
    if args.len() == 0 {
        r is Ok && logged(old, old, new, info_msg("Current render chunk size limit (0 = No limit): <acc "@
            + int_text(shown_limit(old.render_settings.chunk_size_limit)) + ">"@))
    } else if case_folded(args[0]) == "reset"@ {
        r is Ok && new == with_rs(old, RenderSettings { chunk_size_limit: None, ..old.render_settings })
    } else {
        match parse_i32_spec(args[0]) {
            Some(v) if MIN_LIMIT <= v <= MAX_LIMIT => r is Ok && logged(old,
                with_rs(old, RenderSettings { chunk_size_limit: Some(v), ..old.render_settings }), new,
                success_msg("Successfully set chunk size limit to <acc "@ + int_text(v as int) + ">."@)),
            _ => r == Err::<(), Seq<char>>(chunk_size_error_text()) && new == old,
        }
    }
}

/// Displays, resets or sets the largest number of lines rendered per GPU chunk.
pub fn execute_chunk_size(state: &mut AppState, args: Vec<&str>) -> (r: Result<(), String>)
    ensures
        chunk_size_post(*old(state), strs_view(args@), *final(state), result_view(r)),
{
    if args.len() == 0 {
        let shown: i32 = match state.render_settings.chunk_size_limit {
            Some(v) => v,
            None => 0,
        };
        let msg = int_message("Current render chunk size limit (0 = No limit): <acc ", shown as i64, ">");
        state.log_info(msg.as_str());
        return Ok(());
    }
    let lower = to_lowercase(args[0]);
    if str_eq(lower.as_str(), "reset") {
        state.render_settings.chunk_size_limit = None;
        return Ok(());
    }
    if let Ok(new_val) = parse_i32(args[0]) {
        if MIN_LIMIT <= new_val && new_val <= MAX_LIMIT {
            state.render_settings.chunk_size_limit = Some(new_val);
            let msg = int_message("Successfully set chunk size limit to <acc ", new_val as i64, ">.");
            state.log_success(msg.as_str());
            return Ok(());
        }
    }
    Err(String::from_str("Invalid limit provided. Make sure to enter a valid integer between 1 and 10000."))
}

} // verus!
