//! The `frac` command. The fractals themselves (their names, descriptions
//! and formulas) are the front end's registry, handed in as lists; selecting
//! one is the front end's too.

use vstd::prelude::*;
use crate::commands::selection::{acc, acc_text};
use crate::loading::{frac_index_by_name, frac_lookup_from};
use crate::state::{AppState, RenderSettings, info_text, logged, redrawn, success_msg};
use crate::text::{esc, escaped, join, join_strings, str_eq, strings_view, strs_view};

verus! {

/// The message `frac` logs without arguments.
pub open spec fn frac_overview(names: Seq<Seq<char>>, current: int) -> Seq<char> {
    "Current fractal: <acc "@ + names[current] + ">\nAvailable fractals: "@
        + join(Seq::new(names.len(), |i: int| acc(names[i])), ", "@)
}

/// What `frac` does with its arguments, before the front end selects a
/// fractal: with none, the fractals are listed; `info NAME` describes the
/// named fractal; `NAME` asks a redraw and returns the fractal to select.
pub open spec fn frac_post(
    old: AppState,
    args: Seq<Seq<char>>,
    names: Seq<Seq<char>>,
    details: Seq<Seq<char>>,
    new: AppState,
    r: Result<Option<usize>, Seq<char>>,
) -> bool {
    if args.len() == 0 {
        r == Ok::<Option<usize>, Seq<char>>(None) && logged(old, old, new, frac_overview(names,
            old.render_settings.frac_index as int))
    } else {
        let info = args[0] == "info"@;
        if info && args.len() != 2 {
            r == Err::<Option<usize>, Seq<char>>("Expected the a fractal name after <command info>"@) && new == old
        } else if !info && args.len() == 2 {
            r == Err::<Option<usize>, Seq<char>>(
                "Expected the first of the two arguments to be <command info>, but got <command "@ + args[0] + ">"@,
            ) && new == old
        } else {
            let name = if info { args[1] } else { args[0] };
            match frac_lookup_from(names, name, 0) {
                None => r == Err::<Option<usize>, Seq<char>>(
                    "Could not find fractal with name: <command "@ + escaped(name) + ">"@,
                ) && new == old,
                Some(i) => if info {
                    r == Ok::<Option<usize>, Seq<char>>(None) && logged(old, old, new, info_text(names[i as int],
                        details[i as int]))
                } else {
                    r == Ok::<Option<usize>, Seq<char>>(Some(i)) && new == redrawn(old)
                },
            }
        }
    }
}

/// The view of the result of `frac`.
pub open spec fn frac_result_view(r: Result<Option<usize>, String>) -> Result<Option<usize>, Seq<char>> {
    match r {
        Ok(o) => Ok(o),
        Err(e) => Err(e@),
    }
}

fn frac_list(names: &Vec<&str>) -> (r: Vec<String>)
    ensures
        strings_view(r@) == Seq::new(names@.len(), |i: int| acc(names@[i]@)),
{
    let ghost want = Seq::new(names@.len(), |i: int| acc(names@[i]@));
    let mut r: Vec<String> = Vec::new();
    let mut i: usize = 0;
    while i < names.len()
        invariant
            i <= names@.len(),
            want == Seq::new(names@.len(), |i: int| acc(names@[i]@)),
            strings_view(r@) == want.take(i as int),
        decreases names@.len() - i,
    {
        let item = acc_text(names[i]);
        proof {
            assert(strings_view(r@.push(item)) =~= strings_view(r@).push(item@));
            assert(want.take(i + 1) =~= want.take(i as int).push(want[i as int]));
        }
        r.push(item);
        i = i + 1;
    }
    proof {
        assert(want.take(names@.len() as int) =~= want);
    }
    r
}

/// Lists the fractals of the registry (`names`, described by `details`),
/// describes one, or asks a redraw and returns the one to select.
pub fn execute_frac(state: &mut AppState, args: Vec<&str>, names: &Vec<&str>, details: &Vec<&str>) -> (r: Result<Option<usize>, String>)
    requires
        old(state).render_settings.frac_index < names@.len(),
        details@.len() == names@.len(),
    ensures
        frac_post(*old(state), strs_view(args@), strs_view(names@), strs_view(details@), *final(state),
            frac_result_view(r)),
        r matches Ok(Some(i)) ==> i < names@.len(),
{
    proof {
        assert(strs_view(names@).len() == names@.len());
        assert(Seq::new(names@.len(), |i: int| acc(names@[i]@)) =~= Seq::new(strs_view(names@).len(),
            |i: int| acc(strs_view(names@)[i])));
    }
    if args.len() == 0 {
        let mut s = String::from_str("Current fractal: <acc ");
        s.append(names[state.render_settings.frac_index]);
        s.append(">\nAvailable fractals: ");
        let items = frac_list(names);
        let list = join_strings(&items, ", ");
        s.append(list.as_str());
        state.log_raw(s);
        return Ok(None);
    }
    let info = str_eq(args[0], "info");
    if info && args.len() != 2 {
        return Err(String::from_str("Expected the a fractal name after <command info>"));
    }
    if !info && args.len() == 2 {
        let mut s = String::from_str("Expected the first of the two arguments to be <command info>, but got <command ");
        s.append(args[0]);
        s.append(">");
        return Err(s);
    }
    let name = if info { args[1] } else { args[0] };
    match frac_index_by_name(names, name) {
        None => {
            let mut s = String::from_str("Could not find fractal with name: <command ");
            let e = esc(name);
            s.append(e.as_str());
            s.append(">");
            Err(s)
        },
        Some(i) => {
            proof {
                assert(strs_view(names@).len() == names.len());
                crate::loading::lemma_frac_lookup_bounds(strs_view(names@), name@, 0);
            }
            if info {
                state.log_info_title(names[i], details[i]);
                Ok(None)
            } else {
                state.request_redraw();
                Ok(Some(i))
            }
        },
    }
}

/// The message `frac` logs once the front end selected the fractal `name`.
pub open spec fn frac_selected_text(name: Seq<char>) -> Seq<char> {
    "Successfully selected fractal: <acc "@ + name + ">."@
}

/// Ends `frac` after the front end selected the fractal `name`, with the
/// outcome `select_res`: a failure is the command's error; a success is
/// logged.
pub fn finish_frac_selection(state: &mut AppState, select_res: Result<(), String>, name: &str) -> (r: Result<(), String>)
    ensures
        match select_res {
            Err(e) => r == Err::<(), String>(e) && *final(state) == *old(state),
            Ok(_) => r is Ok && logged(*old(state), *old(state), *final(state), success_msg(frac_selected_text(name@))),
        },
{
    match select_res {
        Err(e) => Err(e),
        Ok(()) => {
            let mut s = String::from_str("Successfully selected fractal: <acc ");
            s.append(name);
            s.append(">.");
            state.log_success(s.as_str());
            Ok(())
        },
    }
}

/// Error of selecting a fractal that the registry does not hold.
pub open spec fn no_such_fractal_text() -> Seq<char> {
    "There is no such fractal."@
}

/// Selects fractal `i` of the `count` that the registry holds: its index
/// becomes the selected one and nothing else changes; an index past the
/// registry is an error that changes nothing.
pub fn select_frac_index(state: &mut AppState, i: usize, count: usize) -> (r: Result<(), String>)
    ensures
        match r {
            Ok(_) => i < count && *final(state) == (AppState {
                render_settings: RenderSettings { frac_index: i, ..old(state).render_settings },
                ..*old(state)
            }),
            Err(e) => i >= count && e@ == no_such_fractal_text() && *final(state) == *old(state),
        },
{
    if i >= count {
        return Err(String::from_str("There is no such fractal."));
    }
    state.render_settings.frac_index = i;
    Ok(())
}

} // verus!
