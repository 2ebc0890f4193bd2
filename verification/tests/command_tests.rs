use rsfrac::click_modes::ClickMode;
use rsfrac::commands::capture::{execute_capture, parse_capture_fit_args, FitDimension};
use rsfrac::commands::capture_format::execute_capture_format;
use rsfrac::commands::dispatch::{execute_command, CommandOutcome};
use rsfrac::commands::history::execute_history;
use rsfrac::commands::pos::{execute_pos, PosUpdate};
use rsfrac::commands::selection::{execute_click_mode, execute_color};
use rsfrac::commands::table::{command_index_by_name, get_commands_list};
use rsfrac::commands::toggles::{execute_pause, execute_quit, execute_stop, execute_version};
use rsfrac::commands::values::{execute_chunk_size, execute_move_dist, execute_prec, execute_zoom_factor};
use rsfrac::state::AppState;

fn last_log(state: &AppState) -> &str {
    state.log_messages.last().unwrap().as_str()
}

#[test]
fn move_dist_shows_sets_and_steps() {
    let mut state = AppState::default();
    execute_move_dist(&mut state, vec![]).unwrap();
    assert_eq!(last_log(&state), "<bgacc  Info >\nThe value is currently set to <acc 4>");
    execute_move_dist(&mut state, vec!["10"]).unwrap();
    assert_eq!(state.move_dist, 10);
    assert_eq!(last_log(&state), "<bggreen  Success >\nValue successfully set to <acc 10>.");
    execute_move_dist(&mut state, vec!["+", "5"]).unwrap();
    assert_eq!(state.move_dist, 15);
    assert_eq!(
        execute_move_dist(&mut state, vec!["0"]),
        Err(String::from("The value must stay remain 1 and 100"))
    );
    assert_eq!(
        execute_move_dist(&mut state, vec!["x"]),
        Err(String::from("The value you provided could not be interpreted."))
    );
    assert_eq!(
        execute_move_dist(&mut state, vec!["+", "x"]),
        Err(String::from("The given increment value could not be interpreted as an integer."))
    );
    assert_eq!(
        execute_move_dist(&mut state, vec!["*", "2"]),
        Err(String::from("The first argument must be either <acc +> or <acc ->."))
    );
    assert_eq!(state.move_dist, 15);
}

#[test]
fn increments_saturate_before_the_bounds_check() {
    let mut state = AppState::default();
    assert!(execute_move_dist(&mut state, vec!["+", "2147483647"]).is_err());
    assert!(execute_move_dist(&mut state, vec!["-", "2147483647"]).is_err());
    assert_eq!(state.move_dist, 4);
}

#[test]
fn precision_command() {
    let mut state = AppState::default();
    execute_prec(&mut state, vec!["64"]).unwrap();
    assert_eq!(state.render_settings.prec, 64);
    assert!(execute_prec(&mut state, vec!["4"]).is_err());
    assert_eq!(state.render_settings.prec, 64);
}

#[test]
fn zoom_factor_command() {
    let mut state = AppState::default();
    execute_zoom_factor(&mut state, vec!["30"]).unwrap();
    assert_eq!(state.scaling_factor, 30);
    assert_eq!(last_log(&state), "<bggreen  Success >\nScaling factor successfully set to <acc 30%>");
    assert_eq!(
        execute_zoom_factor(&mut state, vec!["501"]),
        Err(String::from("Please, provide a value between 1 and 500."))
    );
    assert!(execute_zoom_factor(&mut state, vec!["abc"]).is_err());
    assert_eq!(state.scaling_factor, 30);
}

#[test]
fn zoom_factor_excludes_one() {
    let mut state = AppState::default();
    assert_eq!(state.scaling_factor, 8);
    assert_eq!(
        execute_zoom_factor(&mut state, vec!["1"]),
        Err(String::from("Please, provide a value between 1 and 500."))
    );
    assert_eq!(state.scaling_factor, 8);
    execute_zoom_factor(&mut state, vec!["2"]).unwrap();
    assert_eq!(state.scaling_factor, 2);
    execute_zoom_factor(&mut state, vec!["500"]).unwrap();
    assert_eq!(state.scaling_factor, 500);
}

#[test]
fn chunk_size_command() {
    let mut state = AppState::default();
    execute_chunk_size(&mut state, vec!["100"]).unwrap();
    assert_eq!(state.render_settings.chunk_size_limit, Some(100));
    assert!(execute_chunk_size(&mut state, vec!["0"]).is_err());
    execute_chunk_size(&mut state, vec!["ReSeT"]).unwrap();
    assert_eq!(state.render_settings.chunk_size_limit, None);
}

#[test]
fn chunk_size_accepts_its_upper_bound() {
    let mut state = AppState::default();
    execute_chunk_size(&mut state, vec!["10000"]).unwrap();
    assert_eq!(state.render_settings.chunk_size_limit, Some(10000));
    assert_eq!(last_log(&state), "<bggreen  Success >\nSuccessfully set chunk size limit to <acc 10000>.");
    assert_eq!(
        execute_chunk_size(&mut state, vec!["10001"]),
        Err(String::from("Invalid limit provided. Make sure to enter a valid integer between 1 and 10000."))
    );
    assert_eq!(state.render_settings.chunk_size_limit, Some(10000));
}

#[test]
fn quit_pause_stop_version() {
    let mut state = AppState::default();
    execute_quit(&mut state, vec![]).unwrap();
    assert!(state.quit);
    execute_pause(&mut state, vec![]).unwrap();
    assert!(state.pause_jobs);
    execute_pause(&mut state, vec![]).unwrap();
    assert!(!state.pause_jobs);
    execute_stop(&mut state, vec![]).unwrap();
    assert!(state.remove_jobs);
    execute_version(&mut state, vec![]).unwrap();
    assert!(last_log(&state).contains("0.1.0"));
}

#[test]
fn color_command() {
    let mut state = AppState::default();
    execute_color(&mut state, vec!["mount"]).unwrap();
    assert_eq!(last_log(&state), "<bggreen  Success >\nSelected color scheme: <acc Mountain>");
    assert!(state.repaint_canvas);
    assert_eq!(
        execute_color(&mut state, vec!["nothing"]),
        Err(String::from("Could not find palette: <red nothing>"))
    );
    let before = state.log_messages.len();
    execute_color(&mut state, vec![]).unwrap();
    assert_eq!(state.log_messages.len(), before + 1);
    assert!(last_log(&state).starts_with("Current colors: <acc Mountain>\nAvailable colors: "));
}

#[test]
fn click_modes() {
    assert_eq!(ClickMode::from("zoom_in"), Some(ClickMode::ZoomIn));
    assert_eq!(ClickMode::from("ZOOMO"), Some(ClickMode::ZoomOut));
    assert_eq!(ClickMode::from("m"), Some(ClickMode::Move));
    assert_eq!(ClickMode::from("mandel"), Some(ClickMode::MandelConstant));
    assert_eq!(ClickMode::from("xyz"), None);
    assert_eq!(ClickMode::all().len(), 7);
    assert_eq!(ClickMode::BailOut.name(), "BailOut");

    let mut state = AppState::default();
    execute_click_mode(&mut state, vec!["left", "info"]).unwrap();
    assert_eq!(state.click_config.left, ClickMode::Info);
    assert!(execute_click_mode(&mut state, vec!["top", "info"]).is_err());
    assert!(execute_click_mode(&mut state, vec!["left", "nothing"]).is_err());
}

#[test]
fn capture_queues_a_screenshot() {
    let mut state = AppState::default();
    execute_capture(&mut state, vec![]).unwrap();
    assert_eq!(state.requested_jobs.len(), 1);
    assert_eq!(state.requested_jobs[0].size.x, 1920);
    assert_eq!(state.requested_jobs[0].size.y, 1080);
    execute_capture(&mut state, vec!["100", "200", "shot"]).unwrap();
    assert_eq!(state.requested_jobs[1].size.x, 100);
    assert_eq!(state.requested_jobs[1].name.as_deref(), Some("shot"));
    assert!(execute_capture(&mut state, vec!["15", "200"]).is_err());
    assert!(execute_capture(&mut state, vec!["a", "200"]).is_err());
    assert_eq!(state.requested_jobs.len(), 2);
}

#[test]
fn capture_fit_arguments() {
    let a = parse_capture_fit_args(&vec!["He", "500", "name"]).unwrap();
    assert_eq!(a.fixed, Some((FitDimension::Height, 500)));
    assert_eq!(a.name.as_deref(), Some("name"));
    let a = parse_capture_fit_args(&vec!["w", "300"]).unwrap();
    assert_eq!(a.fixed, Some((FitDimension::Width, 300)));
    assert!(parse_capture_fit_args(&vec!["depth", "300"]).is_err());
    assert!(parse_capture_fit_args(&vec!["width", "x"]).is_err());
    let a = parse_capture_fit_args(&vec![]).unwrap();
    assert_eq!(a.fixed, None);
    assert_eq!(a.name, None);
}

#[test]
fn capture_format_command() {
    let mut state = AppState::default();
    execute_capture_format(&mut state, vec![]).unwrap();
    assert!(last_log(&state).starts_with("<bgacc  Info >\nSelected capture format: <acc png>\nAvailable formats:\n<acc gif>, <acc ico>, <acc jpg>"));
    execute_capture_format(&mut state, vec!["JPEG"]).unwrap();
    assert_eq!(state.render_settings.image_format, 2);
    assert_eq!(last_log(&state), "<bggreen  Success >\nSuccessfully selected capture format: <acc jpg>");
    execute_capture_format(&mut state, vec!["tif"]).unwrap();
    assert_eq!(last_log(&state), "<bggreen  Success >\nSuccessfully selected capture format: <acc tiff>");
    assert_eq!(
        execute_capture_format(&mut state, vec!["doc"]),
        Err(String::from("Image format not recognized."))
    );
    assert_eq!(state.render_settings.image_format, 5);
}

#[test]
fn history_command() {
    let mut state = AppState::default();
    state.last_commands = vec![String::from("max_iter 20"), String::from("help")];
    execute_history(&mut state, vec![]).unwrap();
    let before = state.log_messages.len();
    assert!(before > 0);
}

#[test]
fn pos_decisions() {
    let mut state = AppState::default();
    state.redraw_canvas = false;
    assert_eq!(execute_pos(&mut state, "~", "0.5", false, true), Some(PosUpdate { re: false, im: true }));
    assert!(state.redraw_canvas);
    let before = state.log_messages.len();
    assert_eq!(execute_pos(&mut state, "x", "~", false, false), None);
    assert_eq!(state.log_messages.len(), before + 1);
    assert!(last_log(&state).contains("The provided real and imaginary parts must be valid floats or <acc ~>."));
}

#[test]
fn command_table() {
    let list = get_commands_list();
    assert_eq!(list[0].name, "help");
    assert_eq!(command_index_by_name("HELP"), Some(0));
    assert_eq!(command_index_by_name("nothing"), None);
}

#[test]
fn dispatch_runs_or_defers() {
    let mut state = AppState::default();
    let quit = command_index_by_name("quit").unwrap();
    match execute_command(quit, &mut state, vec![]) {
        CommandOutcome::Done(r) => assert!(r.is_ok()),
        CommandOutcome::Deferred => panic!("quit runs in the library"),
    }
    assert!(state.quit);
    let save = command_index_by_name("save").unwrap();
    assert!(matches!(execute_command(save, &mut state, vec![]), CommandOutcome::Deferred));
}

#[test]
fn click_modes_are_found_by_their_names() {
    for mode in ClickMode::all() {
        assert_eq!(ClickMode::from(mode.name()), Some(mode));
    }
}

#[test]
fn click_mode_lookup_ignores_case_and_underscores() {
    assert_eq!(ClickMode::from("JULIA_CONSTANT"), ClickMode::from("juliaconstant"));
    assert_eq!(ClickMode::from("Bail_Out"), Some(ClickMode::BailOut));
    assert_eq!(ClickMode::from("xyz"), None);
    assert_eq!(ClickMode::from("xyzmove"), None);
    assert_eq!(ClickMode::from("zoomin_extra"), None);
}

#[test]
fn palette_lookup_ignores_case_and_keeps_misses() {
    let find = rsfrac::colors::get_palette_index_by_name;
    assert_eq!(find("SUNS"), find("suns"));
    assert_eq!(find("sunset"), Some(1));
    assert_eq!(find("zzz"), None);
    assert_eq!(find("zzzsunset"), None);
    assert_eq!(find("sunsetx"), None);
}

#[test]
fn lookups_that_miss_keep_missing_with_any_text_appended() {
    assert_eq!(ClickMode::from("xyz"), None);
    assert_eq!(ClickMode::from("xyzÉΣ"), None);
    assert_eq!(ClickMode::from("zoomin_ß"), None);
    assert_eq!(rsfrac::colors::get_palette_index_by_name("zzz"), None);
    assert_eq!(rsfrac::colors::get_palette_index_by_name("zzzΣé"), None);
}
