use rsfrac::log_panel::{handle_event as handle_log_key, LogKey};
use rsfrac::canvas::{handle_mouse_event, next_fractal_index, ClickAction, MouseButton};
use rsfrac::canvas::{colour_title_pieces, decrement_wrap, handle_key_code, increment_wrap, CanvasKey, ViewChange};
use rsfrac::commands::frac::{execute_frac, select_frac_index};
use rsfrac::commands::gpu::{
    execute_gpu_info, execute_gpu_select, finish_gpu_init, finish_gpu_select, gpu_toggle, AdapterInfo,
};
use rsfrac::input::{InputKey, InputResponse};
use rsfrac::jobs::{
    screenshot_base_name_at, screenshot_file_names, JobMessage, JobProgress, WAITING_JOBS_MESSAGE_ID,
};
use rsfrac::layout::{
    assign_chunks, body_constraints, body_direction, frame_constraints, side_constraints, App, Constraint, Direction,
    GlobalKey, Position, Rect,
};
use rsfrac::loading::{frac_index_by_name, position_of, NumberErrors, SavedState};
use rsfrac::state_file::{parse_state_file, state_file_text};
use rsfrac::selectable::selectable_variables;
use rsfrac::state::{AppState, CanvasCoords, Focus, ZoomDirection, LOG_MESSAGE_LIMIT, MAX_MAX_ITER, MIN_MAX_ITER};

fn last_log(state: &AppState) -> &str {
    state.log_messages.last().unwrap().as_str()
}

#[test]
fn log_keeps_the_latest_messages() {
    let mut state = AppState::default();
    for i in 0..(LOG_MESSAGE_LIMIT + 3) {
        state.log_raw(format!("m{i}"));
    }
    assert_eq!(state.log_messages.len(), LOG_MESSAGE_LIMIT);
    assert_eq!(state.log_messages[0], "m3");
    assert_eq!(last_log(&state), format!("m{}", LOG_MESSAGE_LIMIT + 2));
}

#[test]
fn log_formats() {
    let mut state = AppState::default();
    state.log_success_title("T", "m");
    assert_eq!(last_log(&state), "<bggreen  T >\nm");
    state.log_info_title("T", "m");
    assert_eq!(last_log(&state), "<bgacc  T >\nm");
    state.log_error_title("T", "m");
    assert_eq!(last_log(&state), "<bgred  T >\n<red m>");
    state.log_warn("w");
    assert_eq!(last_log(&state), "<bgyellow  Warning >\n<yellow w>");
    state.handle_res(Ok(()));
    assert_eq!(state.log_messages.len(), 4);
    state.handle_res(Err(String::from("bad")));
    assert_eq!(last_log(&state), "<bgred  Error >\n<red bad>");
}

#[test]
fn welcome_messages() {
    let mut state = AppState::default();
    state.initial_message();
    assert_eq!(state.log_messages.len(), 3);
    assert!(state.log_messages[0].starts_with("<bgacc Welcome to Rsfrac v0.1.0>"));
}

#[test]
fn max_iter_keys_stay_in_bounds() {
    let mut state = AppState::default();
    state.increment_max_iter(-1000);
    assert_eq!(state.render_settings.max_iter, MIN_MAX_ITER);
    state.increment_max_iter(i32::MAX);
    assert_eq!(state.render_settings.max_iter, MAX_MAX_ITER);
    state.increment_decimal_prec(i32::MIN);
    assert_eq!(state.render_settings.prec, 8);
}

#[test]
fn wrapping_steps_undo_each_other() {
    let mut v = 15;
    increment_wrap(&mut v, 16);
    assert_eq!(v, 0);
    decrement_wrap(&mut v, 16);
    assert_eq!(v, 15);
    let mut w = 3;
    increment_wrap(&mut w, 16);
    decrement_wrap(&mut w, 16);
    assert_eq!(w, 3);
}

#[test]
fn canvas_keys() {
    let mut state = AppState::default();
    assert_eq!(handle_key_code(&mut state, CanvasKey::Left), ViewChange::MoveReal(false));
    assert_eq!(handle_key_code(&mut state, CanvasKey::Other), ViewChange::Nothing);
    let offset = state.render_settings.color_scheme_offset;
    handle_key_code(&mut state, CanvasKey::Char('+'));
    assert_eq!(state.render_settings.color_scheme_offset, (offset + 1) % 16);
    handle_key_code(&mut state, CanvasKey::Char('-'));
    assert_eq!(state.render_settings.color_scheme_offset, offset);
}

#[test]
fn selection_skips_hidden_variables() {
    assert_eq!(selectable_variables().len(), 5);
    let mut state = AppState::default();
    state.selected_canvas_variable = 3;
    state.prevent_canvas_var_hidden();
    assert_eq!(state.selected_canvas_variable, 0);
    state.render_settings.hsl_settings.enabled = true;
    state.prevent_canvas_var_hidden();
    assert_eq!(state.selected_canvas_variable, 1);
    assert!(!state.is_selected_var_hidden());
}

#[test]
fn colour_title() {
    let state = AppState::default();
    let pieces = colour_title_pieces(&state);
    assert_eq!(pieces.len(), 5);
    assert_eq!(pieces[0].0, "Palette[");
    assert_eq!(pieces[3], (String::from("0"), true));
}

#[test]
fn canvas_coordinates() {
    assert_eq!(CanvasCoords::new(3, -4), CanvasCoords { x: 3, y: -4 });
}

#[test]
fn command_history_navigation() {
    let mut state = AppState::default();
    state.last_commands = vec![String::from("b"), String::from("a")];
    state.command_input.1 = -1;
    assert!(matches!(state.handle_input_key(InputKey::Up), InputResponse::Handled(None)));
    assert_eq!(state.command_input, (String::from("b"), 0));
    state.handle_input_key(InputKey::Up);
    assert_eq!(state.command_input, (String::from("a"), 1));
    state.handle_input_key(InputKey::Up);
    assert_eq!(state.command_input.1, 1);
    state.handle_input_key(InputKey::Down);
    state.handle_input_key(InputKey::Down);
    assert_eq!(state.command_input, (String::new(), -1));
}

#[test]
fn running_a_command_line() {
    let mut state = AppState::default();
    let pending = state.run_command(String::from("max_iter 40"));
    assert!(pending.is_none());
    assert_eq!(state.render_settings.max_iter, 40);
    assert_eq!(state.last_commands[0], "max_iter 40");
    let pending = state.run_command(String::from("save file"));
    assert!(pending.is_some());
    let before = state.log_messages.len();
    state.run_command(String::from("nothing"));
    assert!(state.log_messages.len() > before);
}

#[test]
fn global_keys_and_layout() {
    let mut app = App::default();
    app.build_chunks(Rect::new(0, 0, 200, 50));
    assert!(app.handle_event(GlobalKey::Tab));
    assert_eq!(app.app_state.focused, Focus::LogPanel);
    assert!(!app.handle_event(GlobalKey::Other));
    assert_eq!(app.get_component_at_pos(Position::new(10, 10)), Some(Focus::Canvas));
    assert_eq!(app.get_component_at_pos(Position::new(150, 10)), Some(Focus::LogPanel));
    assert!(app.handle_event(GlobalKey::CtrlC));
    assert!(app.app_state.quit);
}

#[test]
fn job_lifecycle() {
    let mut state = AppState::default();
    rsfrac::commands::capture::execute_capture(&mut state, vec!["100", "200", "a"]).unwrap();
    rsfrac::commands::capture::execute_capture(&mut state, vec!["100", "200", "b"]).unwrap();
    state.report_waiting_jobs();
    assert_eq!(
        state.prioritized_log_messages.get(&WAITING_JOBS_MESSAGE_ID).unwrap(),
        "<yellow 2> job(s) waiting in queue. "
    );
    let first = state.next_job(0).unwrap();
    assert_eq!(first.name.as_deref(), Some("a"));
    assert!(state.next_job(1).is_none());
    let mut job = JobProgress::new(7, 200);
    state.handle_job_message(&mut job, JobMessage::LineRender);
    assert_eq!(job.rendered_lines, 1);
    assert_eq!(state.prioritized_log_messages.get(&7).unwrap(), "Screenshot progression:\nline 1/200 (<command 0%>)");
    job.rendered_lines = 99;
    state.handle_job_message(&mut job, JobMessage::LineRender);
    assert_eq!(state.prioritized_log_messages.get(&7).unwrap(), "Screenshot progression:\nline 100/200 (<command 50%>)");
    state.handle_job_message(&mut job, JobMessage::LimitGPUChunkSize(12));
    assert_eq!(state.render_settings.chunk_size_limit, Some(12));
    state.handle_job_message(&mut job, JobMessage::Warning(String::from("careful")));
    assert_eq!(last_log(&state), "<bgyellow  Warning >\n<yellow careful>");
    state.handle_job_message(&mut job, JobMessage::JobFinished);
    assert!(job.finished);
    state.retire_job(7);
    assert!(state.prioritized_log_messages.get(&7).is_none());

    state.pause_jobs = true;
    state.report_waiting_jobs();
    assert_eq!(
        state.prioritized_log_messages.get(&WAITING_JOBS_MESSAGE_ID).unwrap(),
        "<yellow 1> job(s) waiting in queue. Job execution is paused, you can resume with the <command pause> command."
    );
    assert!(state.next_job(0).is_none());
}

#[test]
fn stop_removes_every_job() {
    let mut state = AppState::default();
    rsfrac::commands::capture::execute_capture(&mut state, vec![]).unwrap();
    state.prioritized_log_messages.insert(9, String::from("progress"));
    assert!(!state.take_job_removal(&vec![9]));
    rsfrac::commands::toggles::execute_stop(&mut state, vec![]).unwrap();
    assert!(state.take_job_removal(&vec![9]));
    assert!(state.requested_jobs.is_empty());
    assert!(state.prioritized_log_messages.is_empty());
    assert!(!state.remove_jobs);
    assert!(state.next_job(0).is_none());
    state.report_waiting_jobs();
    assert!(state.prioritized_log_messages.is_empty());
}

#[test]
fn finished_screenshots_are_reported() {
    assert_eq!(screenshot_base_name_at(&Some(String::from("n")), "Julia", "t"), "n");
    assert_eq!(screenshot_base_name_at(&None, "Julia", "t"), "Julia t");
    let (state_file, picture) = screenshot_file_names("shot", "png");
    assert_eq!(state_file, "shot.rsf");
    assert_eq!(picture, "shot.png");
    let mut state = AppState::default();
    state.report_screenshot_saved("shot.rsf", Ok(()), 10, 20, "shot.png", Ok(()));
    assert_eq!(
        state.log_messages[0],
        "<bgacc  Info >\nState file containing capture parameters saved to <acc shot.rsf> in case of failure."
    );
    assert_eq!(state.log_messages[1], "<bggreen  Success >\nScreenshot (10x20) saved to <acc shot.png>");
    state.report_screenshot_saved("s", Err(String::from("e1")), 1, 2, "p", Err(String::from("<e2>")));
    assert_eq!(state.log_messages[2], "<bgred  Error >\n<red e1>");
    assert_eq!(state.log_messages[3], "<bgred  Error >\n<red Could not save screenshot: \\<e2\\>>");
    state.report_screenshot_failure("gpu lost");
    assert_eq!(last_log(&state), "<bgred  Error >\n<red Could not finish screenshot, reason: gpu lost>");
}

fn empty_saved() -> SavedState {
    rsfrac::state_file::empty_saved_state()
}

fn no_errors() -> NumberErrors {
    NumberErrors { pos: None, mandel_constant: None, julia_constant: None, complex_width: None }
}

#[test]
fn state_files_are_applied() {
    let names = vec!["Mandelbrot", "Julia"];
    let voids = vec!["Black", "White"];
    let mut state = AppState::default();
    let mut saved = empty_saved();
    saved.frac_name = Some(String::from("julia"));
    saved.color_palette_name = Some(String::from("mountain"));
    saved.palette_offset = Some(3);
    saved.max_iter = Some(64);
    saved.void_fill = Some(String::from("White"));
    saved.pos = Some(String::from("0.5"));
    let steps = state.apply(&saved, "f.rsf", &names, Ok(()), &no_errors(), &voids);
    assert_eq!(steps, 12);
    assert_eq!(state.render_settings.color_scheme_offset, 3);
    assert_eq!(state.render_settings.max_iter, 64);
    assert_eq!(state.render_settings.void_fill_index, 1);
    assert_eq!(last_log(&state), "<bggreen  Success >\nSuccessfully loaded state from: <command f.rsf>.");
}

#[test]
fn state_file_errors_stop_loading() {
    let names = vec!["Mandelbrot", "Julia"];
    let voids = vec!["Black"];
    let mut state = AppState::default();
    let mut saved = empty_saved();
    saved.palette_offset = Some(5);
    saved.pos = Some(String::from("zz"));
    saved.max_iter = Some(64);
    let errs = NumberErrors { pos: Some(String::from("bad <number>")), ..no_errors() };
    let steps = state.apply(&saved, "f", &names, Ok(()), &errs, &voids);
    assert_eq!(steps, 5);
    assert_eq!(state.render_settings.color_scheme_offset, 5);
    assert_eq!(state.render_settings.max_iter, 32);
    assert_eq!(
        last_log(&state),
        "<bgred  Error >\n<red Could not finish loading the state file (<command f>) due to an error: <red Invalid canvas position: bad \\<number\\>>>"
    );

    let mut saved = empty_saved();
    saved.frac_name = Some(String::from("nothing"));
    saved.max_iter = Some(64);
    let mut state = AppState::default();
    assert_eq!(state.apply(&saved, "f", &names, Ok(()), &no_errors(), &voids), 0);
    assert_eq!(state.render_settings.max_iter, 32);

    let mut saved = empty_saved();
    saved.frac_name = Some(String::from("ju"));
    saved.void_fill = Some(String::from("Grey"));
    let mut state = AppState::default();
    assert_eq!(state.apply(&saved, "f", &names, Err(String::from("no gpu")), &no_errors(), &voids), 11);
    assert_eq!(state.log_messages.len(), 2);
    assert_eq!(state.log_messages[0], "<bgred  Error >\n<red no gpu>");
}

#[test]
fn registry_lookups() {
    let names = vec!["Mandelbrot", "Julia"];
    assert_eq!(frac_index_by_name(&names, "JU"), Some(1));
    assert_eq!(frac_index_by_name(&names, "m"), Some(0));
    assert_eq!(frac_index_by_name(&names, "x"), None);
    assert_eq!(position_of(&vec!["a", "b"], "b"), Some(1));
    assert_eq!(position_of(&vec!["a", "b"], "B"), None);
    let mut state = AppState::default();
    let details = vec!["M", "J"];
    assert_eq!(
        execute_frac(&mut state, vec!["a", "b"], &names, &details),
        Err(String::from("Expected the first of the two arguments to be <command info>, but got <command a>"))
    );
    assert_eq!(
        execute_frac(&mut state, vec!["info"], &names, &details),
        Err(String::from("Expected the a fractal name after <command info>"))
    );
}

#[test]
fn gpu_commands() {
    let mut state = AppState::default();
    assert!(gpu_toggle(&mut state));
    assert_eq!(
        finish_gpu_init(&mut state, Err(String::from("none"))),
        Err(String::from("GPU mode could not be enabled: none"))
    );
    assert!(!state.render_settings.use_gpu);
    finish_gpu_init(&mut state, Ok(())).unwrap();
    assert!(state.render_settings.use_gpu);
    let info = AdapterInfo {
        name: String::from("Card"),
        vendor: 4318,
        device: 7,
        device_type: String::from("DiscreteGpu"),
        driver: String::from("d"),
        driver_info: String::from("i"),
        backend: String::from("vulkan"),
    };
    execute_gpu_info(&mut state, &Some(info)).unwrap();
    assert_eq!(
        last_log(&state),
        "<bgacc  GPU INFO >\n<blue Name>: Card\n<blue VendorID>: 4318\n<blue DeviceID>: 7\n<blue DeviceType>: DiscreteGpu\n<blue Driver>: d\n<blue DriverInfo>: i\n<blue Backend>: vulkan"
    );
    assert!(!gpu_toggle(&mut state));
    assert!(!state.render_settings.use_gpu);
    assert_eq!(last_log(&state), "<bgacc  Info >\nGPU mode disabled.");

    let descs = vec![String::from("A"), String::from("B<")];
    execute_gpu_select(&mut state, vec![], &descs).unwrap();
    assert_eq!(last_log(&state), "<bgacc  Detected adapters >\n<acc 0>: A\n<acc 1>: B\\<");
    assert_eq!(execute_gpu_select(&mut state, vec!["1"], &descs), Ok(Some(1)));
    assert!(execute_gpu_select(&mut state, vec!["2"], &descs).is_err());
    assert!(execute_gpu_select(&mut state, vec!["x"], &descs).is_err());
    assert!(execute_gpu_select(&mut state, vec!["0"], &Vec::new()).is_err());
    finish_gpu_select(&mut state, Ok(()), Ok(String::from("B"))).unwrap();
    assert!(state.render_settings.use_gpu);
    assert_eq!(last_log(&state), "<bggreen  Success >\nSuccessfully enabled GPU mode with adapter: B.");
    assert!(finish_gpu_select(&mut state, Err(String::from("lost")), Ok(String::from("B"))).is_err());
    assert!(!state.render_settings.use_gpu);
}

#[test]
fn log_messages_are_stacked() {
    let l = rsfrac::log_panel::layout_messages(&vec![2, 3, 1], 10);
    assert_eq!(l.first, 0);
    let ys: Vec<u16> = l.areas.iter().map(|a| a.y).collect();
    assert_eq!(ys, vec![0, 3, 7]);
    assert_eq!(l.scrollable_height, 9);
    assert_eq!(l.areas[1], Rect::new(0, 3, 10, 3));
    // A view limited to ten rows keeps the latest messages only.
    let l = rsfrac::log_panel::layout_messages(&vec![3, 3, 3], 6553);
    assert_eq!(l.first, 1);
    assert_eq!(l.areas.len(), 2);
    assert_eq!(l.areas[1].y, 4);
    assert_eq!(l.scrollable_height, 8);
}

#[test]
fn footer_lines_wrap() {
    let (text, lines) = rsfrac::footer::render_text(20, &vec!["Move[a]", "Zoom[b]"]);
    assert_eq!(text, " Actions: Move[a]\n Zoom[b]");
    assert_eq!(lines, 2);
    let state = AppState::default();
    assert_eq!(state.footer_text().len(), 16);
}

#[test]
fn state_file_field_errors() {
    let names = vec!["Mandelbrot", "Julia"];
    let voids = vec!["Black"];
    let mut saved = empty_saved();
    saved.color_palette_name = Some(String::from("nothing"));
    saved.palette_offset = Some(5);
    let mut state = AppState::default();
    assert_eq!(state.apply(&saved, "f", &names, Ok(()), &no_errors(), &voids), 1);
    assert_eq!(state.render_settings.color_scheme_offset, 0);
    assert_eq!(
        last_log(&state),
        "<bgred  Error >\n<red Could not finish loading the state file (<command f>) due to an error: <red Invalid color palette name in state file.>>"
    );

    let mut saved = empty_saved();
    saved.julia_constant = Some(String::from("j"));
    saved.complex_width = Some(String::from("w"));
    let errs = NumberErrors { complex_width: Some(String::from("bad")), ..no_errors() };
    let mut state = AppState::default();
    assert_eq!(state.apply(&saved, "f", &names, Ok(()), &errs, &voids), 9);
    assert!(last_log(&state).contains("Invalid canvas width: bad"));

    // An error for a field the file does not hold is not looked at.
    let errs = NumberErrors { mandel_constant: Some(String::from("bad")), ..no_errors() };
    let mut state = AppState::default();
    assert_eq!(state.apply(&empty_saved(), "f", &names, Ok(()), &errs, &voids), 12);
    assert!(state.redraw_canvas);
}

#[test]
fn state_files_read_back() {
    let mut saved = empty_saved();
    saved.frac_name = Some(String::from("Julia"));
    saved.palette_offset = Some(-3);
    saved.precision = Some(64);
    saved.pos = Some(String::from("(0.25 -1.5e-3)"));
    saved.bailout = Some(String::from("2"));
    saved.max_iter = Some(120);
    let text = state_file_text(&saved);
    assert_eq!(
        text,
        "frac_name=Julia\npalette_offset=-3\nprecision=64\npos=(0.25 -1.5e-3)\nbailout=2\nmax_iter=120\n"
    );
    let back = parse_state_file(&text).unwrap();
    assert_eq!(back.frac_name.as_deref(), Some("Julia"));
    assert_eq!(back.palette_offset, Some(-3));
    assert_eq!(back.precision, Some(64));
    assert_eq!(back.pos.as_deref(), Some("(0.25 -1.5e-3)"));
    assert_eq!(back.bailout.as_deref(), Some("2"));
    assert_eq!(back.max_iter, Some(120));
    assert_eq!(back.void_fill, None);
    assert_eq!(state_file_text(&back), text);
}

#[test]
fn state_file_text_errors() {
    let r = parse_state_file("# a comment\n\nmax_iter=12\nunknown=1\nvoid_fill=Black");
    let s = r.unwrap();
    assert_eq!(s.max_iter, Some(12));
    assert_eq!(s.void_fill.as_deref(), Some("Black"));
    assert_eq!(
        parse_state_file("max_iter=12\nnothing here\n").err(),
        Some(String::from("Invalid line in state file: expected <command key=value>."))
    );
    assert_eq!(
        parse_state_file("precision=-1").err(),
        Some(String::from("Invalid value for <command precision> in state file."))
    );
    assert_eq!(parse_state_file("max_iter=1\nmax_iter=2").unwrap().max_iter, Some(2));
}

#[test]
fn log_panel_scrolls() {
    let mut state = AppState::default();
    handle_log_key(&mut state, LogKey::Up);
    assert_eq!(state.log_panel_scroll_state.y, 0);
    handle_log_key(&mut state, LogKey::Down);
    handle_log_key(&mut state, LogKey::Right);
    assert_eq!((state.log_panel_scroll_state.x, state.log_panel_scroll_state.y), (1, 1));
    state.log_panel_scroll_state.page_height = Some(10);
    handle_log_key(&mut state, LogKey::PageDown);
    assert_eq!(state.log_panel_scroll_state.y, 10);
    handle_log_key(&mut state, LogKey::PageUp);
    assert_eq!(state.log_panel_scroll_state.y, 1);
    handle_log_key(&mut state, LogKey::End);
    assert_eq!(state.log_panel_scroll_state.y, u16::MAX);
    state.log_panel_scroll_state.height = Some(40);
    handle_log_key(&mut state, LogKey::End);
    assert_eq!(state.log_panel_scroll_state.y, 39);
    handle_log_key(&mut state, LogKey::Home);
    assert_eq!((state.log_panel_scroll_state.x, state.log_panel_scroll_state.y), (0, 0));
    let before = state.log_panel_scroll_state;
    handle_log_key(&mut state, LogKey::Other);
    assert_eq!(state.log_panel_scroll_state, before);
}

#[test]
fn each_mouse_button_has_its_own_click_mode() {
    let mut app = App::default();
    app.app_state.render_settings.canvas_size = CanvasCoords::new(10, 10);
    assert_eq!(app.app_state.click_config.middle, rsfrac::click_modes::ClickMode::Move);
    let point = CanvasCoords::new(-3, 2);
    app.app_state.focused = Focus::Input;
    assert_eq!(handle_mouse_event(&mut app, Some(MouseButton::Middle), 3, 2), ClickAction::MoveTo(point));
    assert_eq!(app.app_state.focused, Focus::Canvas);
    assert!(app.app_state.redraw_canvas);
    assert_eq!(
        handle_mouse_event(&mut app, Some(MouseButton::Right), 3, 2),
        ClickAction::ZoomAt(point, ZoomDirection::Out)
    );
    assert_eq!(
        handle_mouse_event(&mut app, Some(MouseButton::Left), 3, 2),
        ClickAction::ZoomAt(point, ZoomDirection::In)
    );
    assert_eq!(handle_mouse_event(&mut app, None, 3, 2), ClickAction::Nothing);
}

#[test]
fn fractal_and_void_fill_steps_go_round() {
    assert_eq!(next_fractal_index(0, 3), 1);
    assert_eq!(next_fractal_index(1, 3), 2);
    assert_eq!(next_fractal_index(2, 3), 0);
    let mut state = AppState::default();
    state.repaint_canvas = false;
    state.next_void_fill(3);
    assert_eq!(state.render_settings.void_fill_index, 1);
    assert!(state.repaint_canvas);
    state.next_void_fill(3);
    state.next_void_fill(3);
    assert_eq!(state.render_settings.void_fill_index, 0);
}

#[test]
fn layout_plan_is_fixed() {
    assert_eq!(body_direction(Rect::new(0, 0, 100, 50)), Direction::Vertical);
    assert_eq!(body_direction(Rect::new(0, 0, 101, 50)), Direction::Horizontal);
    assert_eq!(frame_constraints(), vec![Constraint::Min(0), Constraint::Length(2)]);
    assert_eq!(body_constraints(), vec![Constraint::Percentage(70), Constraint::Percentage(30)]);
    assert_eq!(side_constraints(), vec![Constraint::Min(0), Constraint::Length(3)]);
    let a = Rect::new(0, 0, 10, 8);
    let b = Rect::new(0, 8, 10, 2);
    let c = Rect::new(0, 0, 7, 8);
    let d = Rect::new(7, 0, 3, 8);
    let e = Rect::new(7, 0, 3, 5);
    let f = Rect::new(7, 5, 3, 3);
    let chunks = assign_chunks(&vec![a, b], &vec![c, d], &vec![e, f]);
    assert_eq!(chunks.body, a);
    assert_eq!(chunks.footer, b);
    assert_eq!(chunks.canvas, c);
    assert_eq!(chunks.canvas_inner, Rect::new(1, 1, 5, 6));
    assert_eq!(chunks.side, d);
    assert_eq!(chunks.log_panel, e);
    assert_eq!(chunks.input, f);
}

#[test]
fn fractal_selection_checks_the_registry() {
    let mut state = AppState::default();
    select_frac_index(&mut state, 2, 3).unwrap();
    assert_eq!(state.render_settings.frac_index, 2);
    assert_eq!(select_frac_index(&mut state, 3, 3), Err(String::from("There is no such fractal.")));
    assert_eq!(state.render_settings.frac_index, 2);
}

#[test]
fn logging_scrolls_the_log_panel_down() {
    let mut state = AppState::default();
    state.log_panel_scroll_state.height = Some(40);
    state.log_panel_scroll_state.y = 3;
    state.log_raw(String::from("m"));
    assert_eq!(state.log_panel_scroll_state.y, 39);
}

#[test]
fn scroll_logs_message_scrolls_to_the_bottom() {
    let mut state = AppState::default();
    state.log_panel_scroll_state.height = Some(10);
    let mut job = JobProgress::new(1, 20);
    state.handle_job_message(&mut job, JobMessage::ScrollLogs);
    assert_eq!(state.log_panel_scroll_state.y, 9);
}

#[test]
fn layout_parts_follow_one_another() {
    for (w, h) in [(1u16, 1u16), (3, 2), (80, 24), (200, 50), (17, 90), (500, 7), (0, 0)] {
        let mut app = App::default();
        app.build_chunks(Rect::new(2, 3, w, h));
        let c = app.chunks;
        assert!(3 <= c.body.y && c.body.y + c.body.height <= c.footer.y);
        assert!(c.footer.y + c.footer.height <= 3 + h);
        if body_direction(Rect::new(2, 3, w, h)) == Direction::Vertical {
            assert!(c.body.y <= c.canvas.y && c.canvas.y + c.canvas.height <= c.side.y);
            assert!(c.side.y + c.side.height <= c.body.y + c.body.height);
        } else {
            assert!(c.body.x <= c.canvas.x && c.canvas.x + c.canvas.width <= c.side.x);
            assert!(c.side.x + c.side.width <= c.body.x + c.body.width);
        }
        assert!(c.side.y <= c.log_panel.y && c.log_panel.y + c.log_panel.height <= c.input.y);
        assert!(c.input.y + c.input.height <= c.side.y + c.side.height);
    }
}

#[test]
fn canvas_titles_and_borders() {
    let mut state = AppState::default();
    state.render_settings.max_iter = 64;
    state.render_settings.prec = 128;
    state.render_settings.use_gpu = false;
    let titles = rsfrac::canvas::canvas_titles(&state);
    assert_eq!(titles.max_iter, "MxDiv[64]");
    assert_eq!(titles.prec, "Prec[128]");
    assert_eq!(titles.gpu_mode, "GpuMode[off]");
    state.render_settings.use_gpu = true;
    assert_eq!(rsfrac::canvas::canvas_titles(&state).gpu_mode, "GpuMode[on]");
    state.focused = Focus::LogPanel;
    assert!(rsfrac::canvas::border_highlighted(&state, Focus::LogPanel));
    assert!(!rsfrac::canvas::border_highlighted(&state, Focus::Canvas));
}
