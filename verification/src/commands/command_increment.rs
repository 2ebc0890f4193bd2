//! Shared logic of the commands that display, set or step a bounded value.

use vstd::prelude::*;
use crate::state::{AppState, clamp, info_msg, lemma_log_after_one, log_view, logged_all, success_msg};
use crate::text::{i64_to_text, int_text, parse_i32, parse_i32_spec, parse_u32, parse_u32_spec, str_eq, strs_view};

verus! {

/// `<i32 as num_traits::SaturatingAdd>::saturating_add`: the sum, held
/// within the bounds of `i32`.
#[verifier::external_body]
fn i32_saturating_add(a: i32, b: i32) -> (r: i32)
    ensures
        r == clamp(a + b, i32::MIN as int, i32::MAX as int),
{
    num_traits::SaturatingAdd::saturating_add(&a, &b)
}

/// `<i32 as num_traits::SaturatingSub>::saturating_sub`: the difference,
/// held within the bounds of `i32`.
#[verifier::external_body]
fn i32_saturating_sub(a: i32, b: i32) -> (r: i32)
    ensures
        r == clamp(a - b, i32::MIN as int, i32::MAX as int),
{
    num_traits::SaturatingSub::saturating_sub(&a, &b)
}

/// `<u32 as num_traits::SaturatingAdd>::saturating_add`: the sum, held
/// within the bounds of `u32`.
#[verifier::external_body]
fn u32_saturating_add(a: u32, b: u32) -> (r: u32)
    ensures
        r == clamp(a + b, 0, u32::MAX as int),
{
    num_traits::SaturatingAdd::saturating_add(&a, &b)
}

/// `<u32 as num_traits::SaturatingSub>::saturating_sub`: the difference,
/// held within the bounds of `u32`.
#[verifier::external_body]
fn u32_saturating_sub(a: u32, b: u32) -> (r: u32)
    ensures
        r == clamp(a - b, 0, u32::MAX as int),
{
    num_traits::SaturatingSub::saturating_sub(&a, &b)
}

/// Error when a single argument is not a value.
pub open spec fn bad_value_text() -> Seq<char> {
    "The value you provided could not be interpreted."@
}

/// Error when the increment is not a value.
pub open spec fn bad_increment_text() -> Seq<char> {
    "The given increment value could not be interpreted as an integer."@
}

/// Error when the operator is neither `+` nor `-`.
pub open spec fn bad_operator_text() -> Seq<char> {
    "The first argument must be either <acc +> or <acc ->."@
}

/// Error when the new value is out of bounds.
pub open spec fn out_of_range_text(min: int, max: int) -> Seq<char> {
    "The value must stay remain "@ + int_text(min) + " and "@ + int_text(max)
}

/// Message showing the current value.
pub open spec fn current_value_text(v: int) -> Seq<char> {
    "The value is currently set to <acc "@ + int_text(v) + ">"@
}

/// Message confirming the new value.
pub open spec fn value_set_text(v: int) -> Seq<char> {
    "Value successfully set to <acc "@ + int_text(v) + ">."@
}

/// The value (or the error) that the arguments give, before the bounds are
/// checked: none keeps `cur`; one is the new value; two are an operator
/// (`+` or `-`) and an amount, applied with saturation. `parse` reads a value,
/// `step_up` and `step_down` saturate at the bounds of the type.
pub open spec fn stepped_value(
    cur: int,
    args: Seq<Seq<char>>,
    parse: spec_fn(Seq<char>) -> Option<int>,
    step_up: spec_fn(int, int) -> int,
    step_down: spec_fn(int, int) -> int,
) -> Result<int, Seq<char>> {
    if args.len() == 1 {
        match parse(args[0]) {
            Some(v) => Ok(v),
            None => Err(bad_value_text()),
        }
    } else if args.len() == 2 {
        match parse(args[1]) {
            None => Err(bad_increment_text()),
            Some(inc) => if args[0] == "+"@ {
                Ok(step_up(cur, inc))
            } else if args[0] == "-"@ {
                Ok(step_down(cur, inc))
            } else {
                Err(bad_operator_text())
            },
        }
    } else {
        Ok(cur)
    }
}

/// The result of a bounded-value command: the stepped value, if it lies in
/// `[min, max]`; with no arguments, the current value.
pub open spec fn increment_result(
    cur: int,
    args: Seq<Seq<char>>,
    min: int,
    max: int,
    parse: spec_fn(Seq<char>) -> Option<int>,
    step_up: spec_fn(int, int) -> int,
    step_down: spec_fn(int, int) -> int,
) -> Result<int, Seq<char>> {
    if args.len() == 0 {
        Ok(cur)
    } else {
        match stepped_value(cur, args, parse, step_up, step_down) {
            Err(e) => Err(e),
            Ok(v) => if v < min || v > max {
                Err(out_of_range_text(min, max))
            } else {
                Ok(v)
            },
        }
    }
}

/// The messages a bounded-value command logs: the current value when there
/// are no arguments, the new value on success, nothing on error.
pub open spec fn increment_log(cur: int, args: Seq<Seq<char>>, res: Result<int, Seq<char>>) -> Seq<Seq<char>> {
    if args.len() == 0 {
        seq![info_msg(current_value_text(cur))]
    } else {
        match res {
            Ok(v) => seq![success_msg(value_set_text(v))],
            Err(_) => seq![],
        }
    }
}

/// `s` read as an `i32`.
pub open spec fn i32_value(s: Seq<char>) -> Option<int> {
    match parse_i32_spec(s) {
        Some(v) => Some(v as int),
        None => None,
    }
}

/// `s` read as a `u32`.
pub open spec fn u32_value(s: Seq<char>) -> Option<int> {
    match parse_u32_spec(s) {
        Some(v) => Some(v as int),
        None => None,
    }
}

/// Saturating `i32` addition.
pub open spec fn i32_add(a: int, b: int) -> int {
    clamp(a + b, i32::MIN as int, i32::MAX as int)
}

/// Saturating `i32` subtraction.
pub open spec fn i32_sub(a: int, b: int) -> int {
    clamp(a - b, i32::MIN as int, i32::MAX as int)
}

/// Saturating `u32` addition.
pub open spec fn u32_add(a: int, b: int) -> int {
    clamp(a + b, 0, u32::MAX as int)
}

/// Saturating `u32` subtraction.
pub open spec fn u32_sub(a: int, b: int) -> int {
    clamp(a - b, 0, u32::MAX as int)
}

/// The outcome of an `i32` bounded-value command.
pub open spec fn i32_increment(cur: i32, args: Seq<Seq<char>>, min: i32, max: i32) -> Result<int, Seq<char>> {
    increment_result(cur as int, args, min as int, max as int, |s: Seq<char>| i32_value(s),
        |a: int, b: int| i32_add(a, b), |a: int, b: int| i32_sub(a, b))
}

/// The outcome of a `u32` bounded-value command.
pub open spec fn u32_increment(cur: u32, args: Seq<Seq<char>>, min: u32, max: u32) -> Result<int, Seq<char>> {
    increment_result(cur as int, args, min as int, max as int, |s: Seq<char>| u32_value(s),
        |a: int, b: int| u32_add(a, b), |a: int, b: int| u32_sub(a, b))
}

/// The view of a result.
pub open spec fn result_view<T>(r: Result<T, String>) -> Result<T, Seq<char>> {
    match r {
        Ok(v) => Ok(v),
        Err(e) => Err(e@),
    }
}

/// The view of an integer result.
pub open spec fn int_result_view(r: Result<i32, String>) -> Result<int, Seq<char>> {
    match r {
        Ok(v) => Ok(v as int),
        Err(e) => Err(e@),
    }
}

/// The view of an unsigned integer result.
pub open spec fn uint_result_view(r: Result<u32, String>) -> Result<int, Seq<char>> {
    match r {
        Ok(v) => Ok(v as int),
        Err(e) => Err(e@),
    }
}

/// Builds `prefix`, the decimal text of `v`, then `suffix`.
pub fn int_message(prefix: &str, v: i64, suffix: &str) -> (r: String)
    ensures
        r@ == prefix@ + int_text(v as int) + suffix@,
{
    let mut s = String::from_str(prefix);
    let t = i64_to_text(v);
    s.append(t.as_str());
    s.append(suffix);
    s
}

fn range_error(min: i64, max: i64) -> (r: String)
    ensures
        r@ == out_of_range_text(min as int, max as int),
{
    let mut s = int_message("The value must stay remain ", min, " and ");
    let t = i64_to_text(max);
    s.append(t.as_str());
    s
}

/// Displays, sets, or steps an `i32` value kept within `[min, max]`.
///
/// With no arguments the current value is logged and returned. With one
/// argument it is parsed as the new value. With two, the first must be `+`
/// or `-` and the second the amount to add or subtract (saturating). The new
/// value is logged and returned when it lies in `[min, max]`; otherwise an
/// error is returned and nothing is logged.
pub fn command_increment(state: &mut AppState, current_val: i32, args: Vec<&str>, min: i32, max: i32) -> (r: Result<i32, String>)
    ensures
        int_result_view(r) == i32_increment(current_val, strs_view(args@), min, max),
        logged_all(*old(state), *old(state), *final(state),
            increment_log(current_val as int, strs_view(args@), int_result_view(r))),
        r is Err ==> *final(state) == *old(state),
{
    proof {
        lemma_log_after_one(log_view(*state), info_msg(current_value_text(current_val as int)));
    }
    if args.len() == 0 {
        let msg = int_message("The value is currently set to <acc ", current_val as i64, ">");
        state.log_info(msg.as_str());
        return Ok(current_val);
    }
    let mut new_val = current_val;
    if args.len() == 1 {
        match parse_i32(args[0]) {
            Ok(v) => { new_val = v; },
            Err(_) => { return Err(String::from_str("The value you provided could not be interpreted.")); },
        }
    } else if args.len() == 2 {
        let operator = args[0];
        let increment = args[1];
        let parsed = match parse_i32(increment) {
            Ok(v) => v,
            Err(_) => {
                return Err(String::from_str("The given increment value could not be interpreted as an integer."));
            },
        };
        if str_eq(operator, "+") {
            new_val = i32_saturating_add(new_val, parsed);
        } else if str_eq(operator, "-") {
            new_val = i32_saturating_sub(new_val, parsed);
        } else {
            return Err(String::from_str("The first argument must be either <acc +> or <acc ->."));
        }
    }
    if new_val < min || new_val > max {
        return Err(range_error(min as i64, max as i64));
    }
    let msg = int_message("Value successfully set to <acc ", new_val as i64, ">.");
    proof {
        lemma_log_after_one(log_view(*state), success_msg(value_set_text(new_val as int)));
    }
    state.log_success(msg.as_str());
    Ok(new_val)
}

/// Displays, sets, or steps a `u32` value kept within `[min, max]`, in the
/// same way as `command_increment`.
pub fn command_increment_u32(state: &mut AppState, current_val: u32, args: Vec<&str>, min: u32, max: u32) -> (r: Result<u32, String>)
    ensures
        uint_result_view(r) == u32_increment(current_val, strs_view(args@), min, max),
        logged_all(*old(state), *old(state), *final(state),
            increment_log(current_val as int, strs_view(args@), uint_result_view(r))),
        r is Err ==> *final(state) == *old(state),
{
    proof {
        lemma_log_after_one(log_view(*state), info_msg(current_value_text(current_val as int)));
    }
    if args.len() == 0 {
        let msg = int_message("The value is currently set to <acc ", current_val as i64, ">");
        state.log_info(msg.as_str());
        return Ok(current_val);
    }
    let mut new_val = current_val;
    if args.len() == 1 {
        match parse_u32(args[0]) {
            Some(v) => { new_val = v; },
            None => { return Err(String::from_str("The value you provided could not be interpreted.")); },
        }
    } else if args.len() == 2 {
        let operator = args[0];
        let increment = args[1];
        let parsed = match parse_u32(increment) {
            Some(v) => v,
            None => {
                return Err(String::from_str("The given increment value could not be interpreted as an integer."));
            },
        };
        if str_eq(operator, "+") {
            new_val = u32_saturating_add(new_val, parsed);
        } else if str_eq(operator, "-") {
            new_val = u32_saturating_sub(new_val, parsed);
        } else {
            return Err(String::from_str("The first argument must be either <acc +> or <acc ->."));
        }
    }
    if new_val < min || new_val > max {
        return Err(range_error(min as i64, max as i64));
    }
    let msg = int_message("Value successfully set to <acc ", new_val as i64, ">.");
    proof {
        lemma_log_after_one(log_view(*state), success_msg(value_set_text(new_val as int)));
    }
    state.log_success(msg.as_str());
    Ok(new_val)
}

} // verus!
