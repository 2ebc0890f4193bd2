use rsfrac::colors::{colors, get_palette_index_by_name, Color};
use rsfrac::commands::frac::{execute_frac, finish_frac_selection, select_frac_index};
use rsfrac::commands::table::get_command_by_name;
use rsfrac::commands::toggles::execute_clear;
use rsfrac::commands::values::execute_max_iter;
use rsfrac::layout::{App, Rect};
use rsfrac::state::AppState;

#[test]
fn test_build_chunks_horizontal() {
    let mut app = App::default();
    app.build_chunks(Rect::new(0, 0, 200, 50));
    assert_eq!(app.chunks.footer, Rect::new(0, 48, 200, 2));
    assert_eq!(app.chunks.canvas, Rect::new(0, 0, 140, 48));
    assert_eq!(app.chunks.canvas_inner, Rect::new(1, 1, 138, 46));
    assert_eq!(app.chunks.log_panel, Rect::new(140, 0, 60, 45));
    assert_eq!(app.chunks.input, Rect::new(140, 45, 60, 3));
}

#[test]
fn test_build_chunks_vertical() {
    let mut app = App::default();
    app.build_chunks(Rect::new(0, 0, 100, 100));
    assert_eq!(app.chunks.footer, Rect::new(0, 98, 100, 2));
    assert_eq!(app.chunks.canvas, Rect::new(0, 0, 100, 69));
    assert_eq!(app.chunks.canvas_inner, Rect::new(1, 1, 98, 67));
    assert_eq!(app.chunks.log_panel, Rect::new(0, 69, 100, 26));
    assert_eq!(app.chunks.input, Rect::new(0, 95, 100, 3));
}

#[test]
fn colors_test_get_palette_index_by_name() {
    // Try to get the index of the `Mountain` palette by name.
    let pal = get_palette_index_by_name("MouNtAIn").unwrap();
    // Check if the name matches.
    assert_eq!(colors()[pal].name, "Mountain");
    // Check if the first color matches.
    assert_eq!(colors()[pal].colors[0], Color::Rgb(15, 20, 25))
}

#[test]
fn mod_test_get_palette_index_by_name() {
    let pal = get_palette_index_by_name("MouNtAIn").unwrap();
    assert_eq!(colors()[pal].name, "Mountain");
    assert_eq!(colors()[pal].colors[0], Color::Rgb(15, 20, 25))
}

#[test]
fn test_clear_command() {
    let mut state = AppState::default();
    state.log_info("This is an info message");
    execute_clear(&mut state, vec![]).unwrap();
    assert_eq!(state.log_messages.len(), 0);
}

#[test]
fn test_max_iter_command() {
    let mut state = AppState::default();

    // `mi -1` should return Err
    assert!(execute_max_iter(&mut state, vec!["-1"]).is_err());

    // `mi 20` should return Ok and set the max iter to 20
    execute_max_iter(&mut state, vec!["20"]).unwrap();
    assert_eq!(state.render_settings.max_iter, 20);

    // `mi + 10` should return Ok and set the max iter to 30
    execute_max_iter(&mut state, vec!["+", "10"]).unwrap();
    assert_eq!(state.render_settings.max_iter, 30);

    // `mi - 5` should return Ok and set the max iter to 25
    execute_max_iter(&mut state, vec!["-", "5"]).unwrap();
    assert_eq!(state.render_settings.max_iter, 25);

    // `mi - 100` should return Err
    assert!(execute_max_iter(&mut state, vec!["-", "100"]).is_err());

    // `mi blahblah 100` should return Err
    assert!(execute_max_iter(&mut state, vec!["blahblah", "100"]).is_err());

    // max_iter should have remained to 25
    assert_eq!(state.render_settings.max_iter, 25);
}

#[test]
fn test_get_command_by_name() {
    assert_eq!(get_command_by_name("help").unwrap().name, "help");
    assert_eq!(get_command_by_name("hElP").unwrap().name, "help");
    assert_eq!(get_command_by_name("h").unwrap().name, "help");
    assert_eq!(get_command_by_name("Q").unwrap().name, "quit");
    assert_eq!(get_command_by_name("mi").unwrap().name, "max_iter");
    assert_eq!(get_command_by_name("cP").unwrap().name, "capture");
    assert_eq!(get_command_by_name("c").unwrap().name, "clear");
    assert_eq!(get_command_by_name("cpf").unwrap().name, "capture_fit");

    assert!(get_command_by_name("blabla").is_none());
}

/// A fractal registry for the tests: names and descriptions.
fn registry() -> (Vec<&'static str>, Vec<&'static str>) {
    (
        vec!["Mandelbrot", "Julia", "Burning Ship"],
        vec!["The Mandelbrot set.", "A Julia set.", "The Burning Ship fractal."],
    )
}

#[test]
fn test_frac_command() {
    let (names, details) = registry();
    let mut state = AppState::default();
    // `frac ju` should return Ok and the Julia fracal should be selected
    let i = execute_frac(&mut state, vec!["ju"], &names, &details).unwrap().unwrap();
    assert_eq!(names[i], "Julia");
    let selected = select_frac_index(&mut state, i, names.len());
    finish_frac_selection(&mut state, selected, names[i]).unwrap();
    assert_eq!(names[state.render_settings.frac_index], "Julia");

    // `frac non_exist` should return Err
    assert!(execute_frac(&mut state, vec!["non_exist"], &names, &details).is_err());

    // `frac info mandel` should return Ok and a log message should have been added
    let count_before = state.log_messages.len();
    execute_frac(&mut state, vec!["info", "mandel"], &names, &details).unwrap();
    assert_eq!(state.log_messages.len(), count_before + 1);

    // `frac` should return Ok and a log message should have been added
    let count_before = state.log_messages.len();
    execute_frac(&mut state, vec![], &names, &details).unwrap();
    assert_eq!(state.log_messages.len(), count_before + 1);

    // `frac info non_exist` should return Err
    assert!(execute_frac(&mut state, vec!["info", "non_exist"], &names, &details).is_err());
}
