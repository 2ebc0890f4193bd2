//! Commands that select a palette or configure the mouse: `color` and
//! `click_mode`.

use vstd::prelude::*;
use crate::click_modes::{ClickConfig, ClickMode, CLICK_MODE_COUNT, listed_mode, mode_lookup_from, mode_name};
use crate::colors::{PALETTE_COUNT, get_palette_index_by_name, palette, palette_lookup_from, palette_name};
use crate::commands::command_increment::result_view;
use crate::state::{AppState, RenderSettings, logged, repainted, success_msg, with_rs};
use crate::text::{join, join_strings, case_folded, str_eq, strings_view, strs_view, to_lowercase};

verus! {

/// `"<acc " + s + ">"`: markup that shows `s` accented.
pub open spec fn acc(s: Seq<char>) -> Seq<char> {
    "<acc "@ + s + ">"@
}

/// Builds `acc(s)`.
pub fn acc_text(s: &str) -> (r: String)
    ensures
        r@ == acc(s@),
{
    let mut r = String::from_str("<acc ");
    r.append(s);
    r.append(">");
    r
}

/// The accented names of all palettes.
pub open spec fn palette_items() -> Seq<Seq<char>> {
    Seq::new(PALETTE_COUNT as nat, |i: int| acc(palette_name(i)@))
}

/// The message `color` logs without arguments.
pub open spec fn colors_overview(current: int) -> Seq<char> {
    "Current colors: <acc "@ + palette_name(current)@ + ">\nAvailable colors: "@ + join(palette_items(), ", "@)
}

/// `color`: without arguments the palettes are listed; otherwise the first
/// palette matching the argument is selected and a repaint asked, or an error
/// is returned when none matches.
pub open spec fn color_post(old: AppState, args: Seq<Seq<char>>, new: AppState, r: Result<(), Seq<char>>) -> bool {
    if args.len() == 0 {
        r is Ok && logged(old, old, new, colors_overview(old.render_settings.palette_index as int))
    } else {
        match palette_lookup_from(args[0], 0) {
            None => r == Err::<(), Seq<char>>("Could not find palette: <red "@ + args[0] + ">"@) && new == old,
            Some(i) => r is Ok && logged(old,
                repainted(with_rs(old, RenderSettings { palette_index: i, ..old.render_settings })), new,
                success_msg("Selected color scheme: <acc "@ + palette_name(i as int)@ + ">"@)),
        }
    }
}

fn palette_list() -> (r: Vec<String>)
    ensures
        strings_view(r@) == palette_items(),
{
    let mut r: Vec<String> = Vec::new();
    let mut i: usize = 0;
    while i < PALETTE_COUNT
        invariant
            i <= PALETTE_COUNT,
            strings_view(r@) == palette_items().take(i as int),
        decreases PALETTE_COUNT - i,
    {
        let p = palette(i);
        let item = acc_text(p.name);
        proof {
            assert(strings_view(r@.push(item)) =~= strings_view(r@).push(item@));
            assert(palette_items().take(i + 1) =~= palette_items().take(i as int).push(palette_items()[i as int]));
        }
        r.push(item);
        i = i + 1;
    }
    proof {
        assert(palette_items().take(PALETTE_COUNT as int) =~= palette_items());
    }
    r
}

/// Lists the colour palettes, or selects the one the argument names.
pub fn execute_color(state: &mut AppState, args: Vec<&str>) -> (r: Result<(), String>)
    requires
        old(state).render_settings.palette_index < PALETTE_COUNT,
    ensures
        color_post(*old(state), strs_view(args@), *final(state), result_view(r)),
{
    if args.len() == 0 {
        let current = palette(state.render_settings.palette_index);
        let mut s = String::from_str("Current colors: <acc ");
        s.append(current.name);
        s.append(">\nAvailable colors: ");
        let items = palette_list();
        let list = join_strings(&items, ", ");
        s.append(list.as_str());
        state.log_raw(s);
        return Ok(());
    }
    let ghost name = args@[0]@;
    match get_palette_index_by_name(args[0]) {
        None => {
            let mut s = String::from_str("Could not find palette: <red ");
            s.append(args[0]);
            s.append(">");
            Err(s)
        },
        Some(pal) => {
            state.render_settings.palette_index = pal;
            let p = palette(pal);
            let mut s = String::from_str("Selected color scheme: <acc ");
            s.append(p.name);
            s.append(">");
            state.log_success(s.as_str());
            state.request_repaint();
            Ok(())
        },
    }
}

/// The accented names of all click modes, in listing order.
pub open spec fn click_mode_items() -> Seq<Seq<char>> {
    Seq::new(CLICK_MODE_COUNT as nat, |i: int| acc(mode_name(listed_mode(i))@))
}

/// The message `click_mode` logs without arguments.
pub open spec fn click_overview(c: ClickConfig) -> Seq<char> {
    "Current click configuration:\nLeft: <acc "@ + mode_name(c.left)@ + ">\nMiddle: <acc "@
        + mode_name(c.middle)@ + ">\nRight: <acc "@ + mode_name(c.right)@
        + ">\nAvailable click actions:\n"@ + join(click_mode_items(), ", "@)
}

/// `click_config` with the action of `button` (`left`, `middle` or
/// `right`) replaced, or `None` for another button.
pub open spec fn configure_button(c: ClickConfig, button: Seq<char>, m: ClickMode) -> Option<ClickConfig> {
    if button == "left"@ {
        Some(ClickConfig { left: m, ..c })
    } else if button == "middle"@ {
        Some(ClickConfig { middle: m, ..c })
    } else if button == "right"@ {
        Some(ClickConfig { right: m, ..c })
    } else {
        None
    }
}

/// `click_mode`: without arguments the configuration is listed; otherwise
/// the button named by the first argument (any case) gets the action the
/// second argument names.
pub open spec fn click_mode_post(old: AppState, args: Seq<Seq<char>>, new: AppState, r: Result<(), Seq<char>>) -> bool {
    if args.len() == 0 {
        r is Ok && logged(old, old, new, click_overview(old.click_config))
    } else {
        let button = case_folded(args[0]);
        match mode_lookup_from(args[1], 0) {
            None => r == Err::<(), Seq<char>>("The given action was not recognized"@) && new == old,
            Some(m) => match configure_button(old.click_config, button, m) {
                None => r == Err::<(), Seq<char>>("The given button identifier could not be interpreted"@)
                    && new == old,
                Some(c) => r is Ok && logged(old, AppState { click_config: c, ..old }, new,
                    success_msg("Successfully configured <acc "@ + button + "> click to trigger <acc "@
                        + mode_name(m)@ + ">"@)),
            },
        }
    }
}

fn click_mode_list() -> (r: Vec<String>)
    ensures
        strings_view(r@) == click_mode_items(),
{
    let modes = ClickMode::all();
    let mut r: Vec<String> = Vec::new();
    let mut i: usize = 0;
    while i < modes.len()
        invariant
            modes@.len() == CLICK_MODE_COUNT,
            forall|k: int| 0 <= k < CLICK_MODE_COUNT ==> #[trigger] modes@[k] == listed_mode(k),
            i <= CLICK_MODE_COUNT,
            strings_view(r@) == click_mode_items().take(i as int),
        decreases CLICK_MODE_COUNT - i,
    {
        let item = acc_text(modes[i].name());
        proof {
            assert(strings_view(r@.push(item)) =~= strings_view(r@).push(item@));
            assert(click_mode_items().take(i + 1) =~= click_mode_items().take(i as int).push(click_mode_items()[i as int]));
        }
        r.push(item);
        i = i + 1;
    }
    proof {
        assert(click_mode_items().take(CLICK_MODE_COUNT as int) =~= click_mode_items());
    }
    r
}

/// Shows the click configuration, or binds an action to a mouse button.
pub fn execute_click_mode(state: &mut AppState, args: Vec<&str>) -> (r: Result<(), String>)
    requires
        args@.len() != 1,
    ensures
        click_mode_post(*old(state), strs_view(args@), *final(state), result_view(r)),
{
    if args.len() == 0 {
        let mut s = String::from_str("Current click configuration:\nLeft: <acc ");
        s.append(state.click_config.left.name());
        s.append(">\nMiddle: <acc ");
        s.append(state.click_config.middle.name());
        s.append(">\nRight: <acc ");
        s.append(state.click_config.right.name());
        s.append(">\nAvailable click actions:\n");
        let items = click_mode_list();
        let list = join_strings(&items, ", ");
        s.append(list.as_str());
        state.log_raw(s);
        return Ok(());
    }
    let button_str = to_lowercase(args[0]);
    let action = match ClickMode::from(args[1]) {
        Some(a) => a,
        None => { return Err(String::from_str("The given action was not recognized")); },
    };
    if str_eq(button_str.as_str(), "left") {
        state.click_config.left = action;
    } else if str_eq(button_str.as_str(), "middle") {
        state.click_config.middle = action;
    } else if str_eq(button_str.as_str(), "right") {
        state.click_config.right = action;
    } else {
        return Err(String::from_str("The given button identifier could not be interpreted"));
    }
    let mut s = String::from_str("Successfully configured <acc ");
    s.append(button_str.as_str());
    s.append("> click to trigger <acc ");
    s.append(action.name());
    s.append(">");
    state.log_success(s.as_str());
    Ok(())
}

} // verus!
