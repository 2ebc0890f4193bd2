//! Applying a loaded state file to the application state. The fields are
//! applied in a fixed order and the first invalid one stops the loading;
//! what was applied before it stays. The floating-point fields (position,
//! constants, bailout, width) are parsed and set by the front end, which
//! learns from the number of completed steps which of them to set.

use vstd::prelude::*;
use crate::colors::{get_palette_index_by_name, palette_lookup_from};
use crate::state::{AppState, RenderSettings, error_msg, logged_all, redrawn, success_msg, with_rs};
use crate::text::{esc, escaped, case_folded, starts_with, str_eq, strs_view, to_lowercase};

verus! {

/// The content of a state file. The floating-point values are kept as the
/// text the file holds, and set by the front end.
pub struct SavedState {
    pub frac_name: Option<String>,
    pub color_palette_name: Option<String>,
    pub palette_offset: Option<i32>,
    pub precision: Option<u32>,
    pub smoothness: Option<i32>,
    pub pos: Option<String>,
    pub mandel_constant: Option<String>,
    pub julia_constant: Option<String>,
    /// The bailout, as text.
    pub bailout: Option<String>,
    pub complex_width: Option<String>,
    pub max_iter: Option<i32>,
    pub void_fill: Option<String>,
}

/// For each floating-point text of a state file, the error the number
/// parser gave, if it rejected it.
pub struct NumberErrors {
    pub pos: Option<String>,
    pub mandel_constant: Option<String>,
    pub julia_constant: Option<String>,
    pub complex_width: Option<String>,
}

/// The number of loading steps: fractal, palette, palette offset,
/// precision, smoothness, position, Mandelbrot constant, Julia constant,
/// bailout, width, iteration limit, void fill.
pub const LOAD_STEPS: usize = 12;

/// The first fractal, from the `i`-th on, whose lower-cased name begins with
/// the lower-cased `name`.
pub open spec fn frac_lookup_from(names: Seq<Seq<char>>, name: Seq<char>, i: int) -> Option<usize>
    decreases names.len() - i,
{
    if i < 0 || i >= names.len() {
        None
    } else if case_folded(name).is_prefix_of(case_folded(names[i])) {
        Some(i as usize)
    } else {
        frac_lookup_from(names, name, i + 1)
    }
}

/// A fractal found by the lookup lies in the list.
pub proof fn lemma_frac_lookup_bounds(names: Seq<Seq<char>>, name: Seq<char>, i: int)
    requires
        0 <= i,
        names.len() <= usize::MAX,
    ensures
        frac_lookup_from(names, name, i) matches Some(k) ==> i <= k < names.len(),
    decreases names.len() - i,
{
    if i < names.len() && !case_folded(name).is_prefix_of(case_folded(names[i])) {
        lemma_frac_lookup_bounds(names, name, i + 1);
    }
}

/// The index, in `names`, of the first fractal whose name begins with
/// `name`, letter case aside.
pub fn frac_index_by_name(names: &Vec<&str>, name: &str) -> (r: Option<usize>)
    ensures
        r == frac_lookup_from(strs_view(names@), name@, 0),
{
    let wanted = to_lowercase(name);
    let ghost nv = strs_view(names@);
    let mut i: usize = 0;
    while i < names.len()
        invariant
            i <= names@.len(),
            nv == strs_view(names@),
            wanted@ == case_folded(name@),
            frac_lookup_from(nv, name@, 0) == frac_lookup_from(nv, name@, i as int),
        decreases names@.len() - i,
    {
        let lowered = to_lowercase(names[i]);
        if starts_with(lowered.as_str(), wanted.as_str()) {
            return Some(i);
        }
        i = i + 1;
    }
    None
}

/// The position of `name` in `names`, from the `i`-th on.
pub open spec fn position_from(names: Seq<Seq<char>>, name: Seq<char>, i: int) -> Option<usize>
    decreases names.len() - i,
{
    if i < 0 || i >= names.len() {
        None
    } else if names[i] == name {
        Some(i as usize)
    } else {
        position_from(names, name, i + 1)
    }
}

/// The position of `name` in `names`.
pub fn position_of(names: &Vec<&str>, name: &str) -> (r: Option<usize>)
    ensures
        r == position_from(strs_view(names@), name@, 0),
{
    let ghost nv = strs_view(names@);
    let mut i: usize = 0;
    while i < names.len()
        invariant
            i <= names@.len(),
            nv == strs_view(names@),
            position_from(nv, name@, 0) == position_from(nv, name@, i as int),
        decreases names@.len() - i,
    {
        if str_eq(names[i], name) {
            return Some(i);
        }
        i = i + 1;
    }
    None
}

/// The text of an optional string.
pub open spec fn opt_view(o: Option<String>) -> Option<Seq<char>> {
    match o {
        Some(s) => Some(s@),
        None => None,
    }
}

/// The abort message of a floating-point field: when the field is there and
/// did not parse, `prefix` and the escaped parser error.
pub open spec fn number_abort(field: Option<String>, err: Option<String>, prefix: Seq<char>) -> Option<Seq<char>> {
    match (field, err) {
        (Some(_), Some(e)) => Some(prefix + escaped(e@)),
        _ => None,
    }
}

/// The fractal step: an unknown name stops the loading; a known one was
/// selected by the front end, and the failure `select_res` reports, if any,
/// is logged. Gives the messages logged, or the stop.
pub open spec fn frac_step(name: Option<String>, names: Seq<Seq<char>>, select_res: Result<(), Seq<char>>) -> Result<Seq<Seq<char>>, Seq<char>> {
    match name {
        None => Ok(Seq::empty()),
        Some(n) => match frac_lookup_from(names, n@, 0) {
            None => Err("Invalid fractal name in state file."@),
            Some(_) => match select_res {
                Ok(_) => Ok(Seq::empty()),
                Err(e) => Ok(seq![error_msg(e)]),
            },
        },
    }
}

/// The palette step: the palette the name selects, or a stop.
pub open spec fn palette_step(s: AppState, name: Option<String>) -> Result<AppState, Seq<char>> {
    match name {
        None => Ok(s),
        Some(n) => match palette_lookup_from(n@, 0) {
            None => Err("Invalid color palette name in state file."@),
            Some(i) => Ok(with_rs(s, RenderSettings { palette_index: i, ..s.render_settings })),
        },
    }
}

/// The steps that cannot fail from the palette offset to the smoothness.
pub open spec fn middle_steps(s: AppState, saved: SavedState) -> AppState {
    let s3 = match saved.palette_offset {
        Some(o) => with_rs(s, RenderSettings { color_scheme_offset: o, ..s.render_settings }),
        None => s,
    };
    let s4 = match saved.precision {
        Some(p) => redrawn(with_rs(s3, RenderSettings { prec: p, ..s3.render_settings })),
        None => s3,
    };
    match saved.smoothness {
        Some(m) => with_rs(s4, RenderSettings { smoothness: m, ..s4.render_settings }),
        None => s4,
    }
}

/// The iteration limit step.
pub open spec fn max_iter_step(s: AppState, saved: SavedState) -> AppState {
    match saved.max_iter {
        Some(m) => with_rs(s, RenderSettings { max_iter: m, ..s.render_settings }),
        None => s,
    }
}

/// The void fill step: the position of the name among `voids`, or a stop.
pub open spec fn void_step(s: AppState, name: Option<String>, voids: Seq<Seq<char>>) -> Result<AppState, Seq<char>> {
    match name {
        None => Ok(s),
        Some(n) => match position_from(voids, n@, 0) {
            None => Err("Invalid void fill name in state file."@),
            Some(i) => Ok(with_rs(s, RenderSettings { void_fill_index: i, ..s.render_settings })),
        },
    }
}

/// Loading `saved` into `s`: the state, apart from its log, when loading
/// stopped or ended; its outcome; the number of completed steps; and the
/// messages logged on the way.
pub open spec fn load_outcome(
    s: AppState,
    saved: SavedState,
    names: Seq<Seq<char>>,
    select_res: Result<(), Seq<char>>,
    errs: NumberErrors,
    voids: Seq<Seq<char>>,
) -> (AppState, Result<(), Seq<char>>, int, Seq<Seq<char>>) {
    match frac_step(saved.frac_name, names, select_res) {
        Err(e) => (s, Err(e), 0, Seq::empty()),
        Ok(msgs) => match palette_step(s, saved.color_palette_name) {
            Err(e) => (s, Err(e), 1, msgs),
            Ok(s2) => {
                let s5 = middle_steps(s2, saved);
                match first_number_abort(saved, errs) {
                    Some((e, k)) => (s5, Err(e), k, msgs),
                    None => {
                        let s11 = max_iter_step(s5, saved);
                        match void_step(s11, saved.void_fill, voids) {
                            Err(e) => (s11, Err(e), 11, msgs),
                            Ok(s12) => (s12, Ok(()), 12, msgs),
                        }
                    },
                }
            },
        },
    }
}

/// The message that ends a loading.
pub open spec fn load_message(filename: Seq<char>, res: Result<(), Seq<char>>) -> Seq<char> {
    match res {
        Err(e) => error_msg(
            "Could not finish loading the state file (<command "@ + filename + ">) due to an error: <red "@ + e
                + ">"@,
        ),
        Ok(_) => success_msg("Successfully loaded state from: <command "@ + escaped(filename) + ">."@),
    }
}

/// The abort message of a floating-point field, computed.
fn number_abort_exec(field: &Option<String>, err: &Option<String>, prefix: &str) -> (r: Option<String>)
    ensures
        opt_view(r) == number_abort(*field, *err, prefix@),
{
    match (field, err) {
        (Some(_), Some(e)) => {
            let mut s = String::from_str(prefix);
            let x = esc(e.as_str());
            s.append(x.as_str());
            Some(s)
        },
        _ => None,
    }
}

/// The first floating-point field that did not parse, as the abort message
/// and the number of steps completed before it.
pub open spec fn first_number_abort(saved: SavedState, errs: NumberErrors) -> Option<(Seq<char>, int)> {
    let pos = number_abort(saved.pos, errs.pos, "Invalid canvas position: "@);
    let mandel = number_abort(saved.mandel_constant, errs.mandel_constant, "Invalid mandelbrot constant: "@);
    let julia = number_abort(saved.julia_constant, errs.julia_constant, "Invalid julia constant: "@);
    let width = number_abort(saved.complex_width, errs.complex_width, "Invalid canvas width: "@);
    if pos is Some {
        Some((pos->0, 5))
    } else if mandel is Some {
        Some((mandel->0, 6))
    } else if julia is Some {
        Some((julia->0, 7))
    } else if width is Some {
        Some((width->0, 9))
    } else {
        None
    }
}

/// The first floating-point field that did not parse, computed.
fn first_number_abort_exec(saved: &SavedState, errs: &NumberErrors) -> (r: Option<(String, usize)>)
    ensures
        match first_number_abort(*saved, *errs) {
            None => r is None,
            Some((m, k)) => r matches Some((m2, k2)) && m2@ == m && k2 as int == k,
        },
{
    if let Some(e) = number_abort_exec(&saved.pos, &errs.pos, "Invalid canvas position: ") {
        return Some((e, 5));
    }
    if let Some(e) = number_abort_exec(&saved.mandel_constant, &errs.mandel_constant, "Invalid mandelbrot constant: ") {
        return Some((e, 6));
    }
    if let Some(e) = number_abort_exec(&saved.julia_constant, &errs.julia_constant, "Invalid julia constant: ") {
        return Some((e, 7));
    }
    if let Some(e) = number_abort_exec(&saved.complex_width, &errs.complex_width, "Invalid canvas width: ") {
        return Some((e, 9));
    }
    None
}

impl AppState {
    /// The palette step.
    fn load_palette(&mut self, name: &Option<String>) -> (r: bool)
        ensures
            match palette_step(*old(self), *name) {
                Err(_) => !r && *final(self) == *old(self),
                Ok(s2) => r && *final(self) == s2,
            },
    {
        if let Some(p) = name {
            match get_palette_index_by_name(p.as_str()) {
                None => return false,
                Some(i) => self.render_settings.palette_index = i,
            }
        }
        true
    }

    /// The steps from the palette offset to the smoothness.
    fn load_middle(&mut self, saved: &SavedState)
        ensures
            *final(self) == middle_steps(*old(self), *saved),
    {
        if let Some(o) = saved.palette_offset {
            self.render_settings.color_scheme_offset = o;
        }
        if let Some(p) = saved.precision {
            self.set_decimal_prec(p);
        }
        if let Some(m) = saved.smoothness {
            self.render_settings.smoothness = m;
        }
    }

    /// The iteration limit and void fill steps.
    fn load_tail(&mut self, saved: &SavedState, void_names: &Vec<&str>) -> (r: bool)
        ensures
            match void_step(max_iter_step(*old(self), *saved), saved.void_fill, strs_view(void_names@)) {
                Err(_) => !r && *final(self) == max_iter_step(*old(self), *saved),
                Ok(s2) => r && *final(self) == s2,
            },
    {
        if let Some(m) = saved.max_iter {
            self.render_settings.max_iter = m;
        }
        if let Some(v) = &saved.void_fill {
            match position_of(void_names, v.as_str()) {
                None => return false,
                Some(i) => self.render_settings.void_fill_index = i,
            }
        }
        true
    }

    /// Whether the fractal named in the file, if any, is among `frac_names`.
    fn fractal_known(name: &Option<String>, frac_names: &Vec<&str>) -> (r: bool)
        ensures
            r == (name matches Some(n) ==> frac_lookup_from(strs_view(frac_names@), n@, 0) is Some),
    {
        match name {
            None => true,
            Some(n) => frac_index_by_name(frac_names, n.as_str()).is_some(),
        }
    }

    /// The loading steps; returns the outcome and the number of completed
    /// steps.
    fn load_steps(
        &mut self,
        saved: &SavedState,
        frac_names: &Vec<&str>,
        errs: &NumberErrors,
        void_names: &Vec<&str>,
    ) -> (r: (Result<(), String>, usize))
        ensures
            ({
                let out = load_outcome(*old(self), *saved, strs_view(frac_names@), Ok(()), *errs,
                    strs_view(void_names@));
                &&& *final(self) == out.0
                &&& crate::jobs::unit_result_view(r.0) == out.1
                &&& r.1 as int == out.2
            }),
    {
        if !Self::fractal_known(&saved.frac_name, frac_names) {
            return (Err(String::from_str("Invalid fractal name in state file.")), 0);
        }
        if !self.load_palette(&saved.color_palette_name) {
            return (Err(String::from_str("Invalid color palette name in state file.")), 1);
        }
        self.load_middle(saved);
        if let Some((e, k)) = first_number_abort_exec(saved, errs) {
            return (Err(e), k);
        }
        if !self.load_tail(saved, void_names) {
            return (Err(String::from_str("Invalid void fill name in state file.")), 11);
        }
        (Ok(()), 12)
    }

    /// Applies the state file `filename`, whose content is `saved`: the
    /// fractal named in it (among `frac_names`; `select_res` is what
    /// selecting it gave), the palette, the integer settings, and the void
    /// fill (among `void_names`), in this order, stopping at the first
    /// invalid field (`errs` holds the errors of the floating-point texts).
    /// Then asks for a redraw and logs the outcome. Returns the number of
    /// completed steps, which tells the front end the floating-point fields
    /// to set: the position from 6 steps on, the Mandelbrot constant from 7,
    /// the Julia constant from 8, the bailout from 9, the width from 10.
    pub fn apply(
        &mut self,
        saved: &SavedState,
        filename: &str,
        frac_names: &Vec<&str>,
        select_res: Result<(), String>,
        errs: &NumberErrors,
        void_names: &Vec<&str>,
    ) -> (steps: usize)
        ensures
            ({
                let out = load_outcome(*old(self), *saved, strs_view(frac_names@),
                    crate::jobs::unit_result_view(select_res), *errs, strs_view(void_names@));
                &&& logged_all(*old(self), redrawn(out.0), *final(self), out.3.push(load_message(filename@, out.1)))
                &&& steps as int == out.2
            }),
    {
        let ghost s0 = *self;
        let ghost sel = crate::jobs::unit_result_view(select_res);
        let (res, steps) = self.load_steps(saved, frac_names, errs, void_names);
        let ghost s1 = *self;
        self.request_redraw();
        proof {
            assert(crate::state::log_after_all(crate::state::log_view(s1), Seq::empty())
                == crate::state::log_view(s1));
        }
        if steps > 0 && saved.frac_name.is_some() {
            proof {
                if let Err(e) = sel {
                    crate::state::lemma_log_after_one(crate::state::log_view(s1), error_msg(e));
                }
            }
            self.handle_res(select_res);
        }
        let ghost s2 = *self;
        match res {
            Err(e) => {
                let mut s = String::from_str("Could not finish loading the state file (<command ");
                s.append(filename);
                s.append(">) due to an error: <red ");
                s.append(e.as_str());
                s.append(">");
                self.log_error(s.as_str());
            },
            Ok(()) => {
                let mut s = String::from_str("Successfully loaded state from: <command ");
                let f = esc(filename);
                s.append(f.as_str());
                s.append(">.");
                self.log_success(s.as_str());
            },
        }
        proof {
            let out = load_outcome(s0, *saved, strs_view(frac_names@), sel, *errs, strs_view(void_names@));
            let out0 = load_outcome(s0, *saved, strs_view(frac_names@), Ok(()), *errs, strs_view(void_names@));
            assert(out.0 == out0.0 && out.1 == out0.1 && out.2 == out0.2);
            let m = load_message(filename@, out.1);
            crate::state::lemma_log_after_one(crate::state::log_view(s2), m);
            crate::state::lemma_log_after_push(crate::state::log_view(s0), out.3, m);
        }
        steps
    }
}

} // verus!
