//! The decision of `pos REAL IMAG`: which parts of the position to set.
//! The parts are arbitrary-precision numbers, parsed and set by the front
//! end.

use vstd::prelude::*;
use crate::state::{AppState, error_msg, logged};
use crate::text::str_eq;

verus! {

/// Which parts of the position `pos` sets.
#[derive(Clone, Copy, PartialEq, Eq, Structural, Debug)]
pub struct PosUpdate {
    pub re: bool,
    pub im: bool,
}

/// The message of a part that is neither a number nor `~`.
pub open spec fn pos_error_text() -> Seq<char> {
    "The provided real and imaginary parts must be valid floats or <acc ~>."@
}

/// `pos RE IM`: `~` keeps a part; each other part must be a number
/// (`re_ok`, `im_ok` say whether the front end parsed them). On success
/// the parts to set are returned and a redraw asked; otherwise the error is
/// logged and nothing set.
pub fn execute_pos(state: &mut AppState, re: &str, im: &str, re_ok: bool, im_ok: bool) -> (r: Option<PosUpdate>)
    ensures
        ({
            let set_real = re@ != "~"@;
            let set_imag = im@ != "~"@;
            if (set_real && !re_ok) || (set_imag && !im_ok) {
                r is None && logged(*old(state), *old(state), *final(state), error_msg(pos_error_text()))
            } else {
                r == Some(PosUpdate { re: set_real, im: set_imag }) && *final(state) == (AppState {
                    redraw_canvas: true,
                    ..*old(state)
                })
            }
        }),
{
    let set_real = !str_eq(re, "~");
    let set_imag = !str_eq(im, "~");
    if (set_real && !re_ok) || (set_imag && !im_ok) {
        state.log_error("The provided real and imaginary parts must be valid floats or <acc ~>.");
        return None;
    }
    state.redraw_canvas = true;
    Some(PosUpdate { re: set_real, im: set_imag })
}

} // verus!
