//! Screenshot commands: `capture`, `capture_hq`, and the argument reading
//! of `capture_fit`.

use vstd::prelude::*;
use crate::commands::command_increment::result_view;
use crate::state::{AppState, RenderSettings, Vec2, WaitingScreenshot};
use crate::text::{escaped, esc, i32_parse_error_text, case_folded, parse_i32, parse_i32_spec, starts_with, strs_view, to_lowercase};

verus! {

/// The size of a screenshot when none is given.
pub open spec fn default_capture_size() -> Vec2 {
    Vec2 { x: 1920, y: 1080 }
}

/// Error when the screenshot size is out of bounds.
pub open spec fn capture_size_error() -> Seq<char> {
    "The screenshot must be at least 16 and at most 65535 pixels in width and height."@
}

/// A side length accepted for a screenshot.
pub open spec fn valid_side(v: int) -> bool {
    16 <= v <= 65535
}

/// The size and name that the arguments of `capture` request: one argument
/// is the name; two or three are the width, the height and, optionally, the
/// name; otherwise the default size and no name.
pub open spec fn capture_request(args: Seq<Seq<char>>) -> Result<(Vec2, Option<Seq<char>>), Seq<char>> {
    if args.len() == 1 {
        Ok((default_capture_size(), Some(args[0])))
    } else if args.len() == 2 || args.len() == 3 {
        match parse_i32_spec(args[0]) {
            None => Err("The provided width could not be parsed, make sure to enter a valid integer: "@
                + escaped(i32_parse_error_text(args[0]))),
            Some(w) => match parse_i32_spec(args[1]) {
                None => Err("The provided height could not be parsed, make sure to enter a valid integer: "@
                    + escaped(i32_parse_error_text(args[1]))),
                Some(h) => if !valid_side(h as int) || !valid_side(w as int) {
                    Err(capture_size_error())
                } else {
                    Ok((Vec2 { x: w, y: h }, if args.len() == 3 { Some(args[2]) } else { None }))
                },
            },
        }
    } else {
        Ok((default_capture_size(), None))
    }
}

/// The view of an optional name.
pub open spec fn name_view(n: Option<String>) -> Option<Seq<char>> {
    match n {
        Some(s) => Some(s@),
        None => None,
    }
}

/// `j` is a screenshot job of the given size, settings and name.
pub open spec fn is_job(j: WaitingScreenshot, size: Vec2, rs: RenderSettings, name: Option<Seq<char>>) -> bool {
    j.size == size && j.rs == rs && name_view(j.name) == name
}

/// `capture`: on a valid request, a screenshot job with the current settings
/// joins the end of the queue; otherwise the error is returned.
pub open spec fn capture_post(old: AppState, args: Seq<Seq<char>>, new: AppState, r: Result<(), Seq<char>>) -> bool {
    match capture_request(args) {
        Err(e) => r == Err::<(), Seq<char>>(e) && new == old,
        Ok((size, name)) => {
            &&& r is Ok
            &&& new == (AppState { requested_jobs: new.requested_jobs, ..old })
            &&& new.requested_jobs@.len() == old.requested_jobs@.len() + 1
            &&& new.requested_jobs@.drop_last() == old.requested_jobs@
            &&& is_job(new.requested_jobs@.last(), size, old.render_settings, name)
        },
    }
}

fn parse_side_error(prefix: &str, err: &String) -> (r: String)
    ensures
        r@ == prefix@ + escaped(err@),
{
    let mut s = String::from_str(prefix);
    let e = esc(err.as_str());
    s.append(e.as_str());
    s
}

/// Queues a screenshot of the given size (1920x1080 by default) and name.
pub fn execute_capture(state: &mut AppState, args: Vec<&str>) -> (r: Result<(), String>)
    ensures
        capture_post(*old(state), strs_view(args@), *final(state), result_view(r)),
{
    let mut name: Option<String> = None;
    let mut size = Vec2::new(1920, 1080);
    if args.len() == 1 {
        name = Some(String::from_str(args[0]));
    } else if args.len() == 2 || args.len() == 3 {
        let parsed_width = match parse_i32(args[0]) {
            Ok(v) => v,
            Err(err) => {
                return Err(parse_side_error(
                    "The provided width could not be parsed, make sure to enter a valid integer: ", &err));
            },
        };
        let parsed_height = match parse_i32(args[1]) {
            Ok(v) => v,
            Err(err) => {
                return Err(parse_side_error(
                    "The provided height could not be parsed, make sure to enter a valid integer: ", &err));
            },
        };
        if !(16 <= parsed_height && parsed_height <= 65535) || !(16 <= parsed_width && parsed_width <= 65535) {
            return Err(String::from_str(
                "The screenshot must be at least 16 and at most 65535 pixels in width and height."));
        }
        size = Vec2::new(parsed_width, parsed_height);
        if args.len() == 3 {
            name = Some(String::from_str(args[2]));
        }
    }
    let ghost old_jobs = state.requested_jobs@;
    state.requested_jobs.push(WaitingScreenshot { size, name, rs: state.render_settings });
    proof {
        assert(state.requested_jobs@.drop_last() =~= old_jobs);
    }
    Ok(())
}

/// The arguments `capture_hq` hands to `capture`: four times 1920x1080, and
/// the name when one is given.
pub open spec fn hq_args(args: Seq<Seq<char>>) -> Seq<Seq<char>> {
    if args.len() == 1 {
        seq!["7680"@, "4320"@, args[0]]
    } else {
        seq!["7680"@, "4320"@]
    }
}

/// Queues a very high quality screenshot (7680x4320), optionally named.
pub fn execute_capture_hq(state: &mut AppState, args: Vec<&str>) -> (r: Result<(), String>)
    ensures
        capture_post(*old(state), hq_args(strs_view(args@)), *final(state), result_view(r)),
{
    let mut capture_args: Vec<&str> = vec!["7680", "4320"];
    if args.len() == 1 {
        capture_args.push(args[0]);
    }
    proof {
        assert(strs_view(capture_args@) =~= hq_args(strs_view(args@)));
    }
    execute_capture(state, capture_args)
}

/// The side of a screenshot that `capture_fit` is given.
#[derive(Clone, Copy, PartialEq, Eq, Structural, Debug)]
pub enum FitDimension {
    Height,
    Width,
}

/// What the arguments of `capture_fit` ask for.
pub struct CaptureFitArgs {
    /// The given side and its length, if any (else a width of 1920).
    pub fixed: Option<(FitDimension, i32)>,
    /// The screenshot name, if any.
    pub name: Option<String>,
}

/// The dimension that `word` designates: the first of `height` and `width`
/// that begins with `word` lower-cased.
pub open spec fn fit_dimension(word: Seq<char>) -> Option<FitDimension> {
    if case_folded(word).is_prefix_of("height"@) {
        Some(FitDimension::Height)
    } else if case_folded(word).is_prefix_of("width"@) {
        Some(FitDimension::Width)
    } else {
        None
    }
}

/// What `capture_fit` reads from its arguments: with one or three, the last
/// is the name; with two or three, the first names a side and the second is
/// its length.
pub open spec fn capture_fit_request(args: Seq<Seq<char>>) -> Result<(Option<(FitDimension, i32)>, Option<Seq<char>>), Seq<char>> {
    let name = if args.len() == 1 || args.len() == 3 { Some(args.last()) } else { None };
    if args.len() == 2 || args.len() == 3 {
        match fit_dimension(args[0]) {
            None => Err("The first argument must be <acc width> or <acc height>."@),
            Some(d) => match parse_i32_spec(args[1]) {
                None => Err("Could not parse the specified size (second argument), make sure it is a valid integer."@),
                Some(v) => Ok((Some((d, v)), name)),
            },
        }
    } else {
        Ok((None, name))
    }
}

/// Reads the arguments of `capture_fit` (see `capture_fit_request`).
pub fn parse_capture_fit_args(args: &Vec<&str>) -> (r: Result<CaptureFitArgs, String>)
    ensures
        match capture_fit_request(strs_view(args@)) {
            Err(e) => r matches Err(s) && s@ == e,
            Ok((fixed, name)) => r matches Ok(a) && a.fixed == fixed && name_view(a.name) == name,
        },
{
    let n = args.len();
    let name: Option<String> = if n == 1 || n == 3 { Some(String::from_str(args[n - 1])) } else { None };
    if n == 2 || n == 3 {
        let word = to_lowercase(args[0]);
        let dimension = if starts_with("height", word.as_str()) {
            FitDimension::Height
        } else if starts_with("width", word.as_str()) {
            FitDimension::Width
        } else {
            return Err(String::from_str("The first argument must be <acc width> or <acc height>."));
        };
        let parsed = match parse_i32(args[1]) {
            Ok(v) => v,
            Err(_) => {
                return Err(String::from_str(
                    "Could not parse the specified size (second argument), make sure it is a valid integer."));
            },
        };
        Ok(CaptureFitArgs { fixed: Some((dimension, parsed)), name })
    } else {
        Ok(CaptureFitArgs { fixed: None, name })
    }
}

} // verus!
