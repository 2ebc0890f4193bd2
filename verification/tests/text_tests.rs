use rsfrac::markup::{interleave_rule, log_printout, tag_colour, tag_style, TagStyle};
use rsfrac::commands::history::listing_text;
use rsfrac::input::enumerate_strings;
use rsfrac::commands::files::{entry_action, resolve_load_target, EntryAction, MAX_SEARCH_DEPTH};
use rsfrac::commands::values::{execute_max_iter, execute_prec};
use rsfrac::state::AppState;
use rsfrac::text::{
    esc, i64_to_text, join_strings, remove_underscores, split_whitespace, starts_with, str_eq, trim, u64_to_text,
};

#[test]
fn numbers_render_in_decimal() {
    assert_eq!(u64_to_text(0), "0");
    assert_eq!(u64_to_text(1234), "1234");
    assert_eq!(u64_to_text(u64::MAX), "18446744073709551615");
    assert_eq!(i64_to_text(-42), "-42");
    assert_eq!(i64_to_text(i64::MIN), "-9223372036854775808");
    assert_eq!(i64_to_text(7), "7");
}

#[test]
fn numbers_parse() {
    // Signed values go through the `max_iter` command.
    let mut state = AppState::default();
    execute_max_iter(&mut state, vec!["+12"]).unwrap();
    assert_eq!(state.render_settings.max_iter, 12);
    assert!(execute_max_iter(&mut state, vec!["2147483648"]).is_err());
    assert!(execute_max_iter(&mut state, vec!["1 2"]).is_err());
    assert!(execute_max_iter(&mut state, vec![""]).is_err());
    assert_eq!(state.render_settings.max_iter, 12);
    // Unsigned values go through the `prec` command.
    execute_prec(&mut state, vec!["+64"]).unwrap();
    assert_eq!(state.render_settings.prec, 64);
    assert!(execute_prec(&mut state, vec!["-64"]).is_err());
    assert_eq!(state.render_settings.prec, 64);
}

#[test]
fn rendered_numbers_parse_back() {
    // Indices of detected files go through `load`.
    let mut state = AppState::default();
    state.detected_state_files = (0..12).map(|i| format!("file{i}.rsf")).collect();
    for n in [0usize, 9, 10, 11] {
        assert_eq!(resolve_load_target(&mut state, &u64_to_text(n as u64)), Ok(format!("file{n}.rsf")));
    }
    assert_eq!(resolve_load_target(&mut state, "12"), Ok(String::from("12")));
    assert_eq!(resolve_load_target(&mut state, "-1"), Ok(String::from("-1")));
}

#[test]
fn markup_characters_are_escaped() {
    assert_eq!(esc("a<b>c\\d"), "a\\<b\\>c\\\\d");
    assert_eq!(esc("plain"), "plain");
    assert_eq!(esc(""), "");
}

#[test]
fn trimming_and_splitting() {
    assert_eq!(trim("  max_iter 20  "), "max_iter 20");
    assert_eq!(trim("   "), "");
    assert_eq!(split_whitespace("  a  bc\td "), vec!["a", "bc", "d"]);
    assert!(split_whitespace("   ").is_empty());
}

#[test]
fn string_helpers() {
    assert!(starts_with("height", "he"));
    assert!(!starts_with("he", "height"));
    assert!(str_eq("abc", "abc"));
    assert!(!str_eq("abc", "abd"));
    assert_eq!(remove_underscores("julia_constant_"), "juliaconstant");
    let items = vec![String::from("a"), String::from("b"), String::from("c")];
    assert_eq!(join_strings(&items, ", "), "a, b, c");
    assert_eq!(join_strings(&Vec::new(), ", "), "");
}

#[test]
fn numbers_are_enumerated() {
    assert_eq!(enumerate_strings(&vec![1]), "1");
    assert_eq!(enumerate_strings(&vec![0, 1]), "0 or 1");
    assert_eq!(enumerate_strings(&vec![0, 2, 3]), "0, 2 or 3");
}

#[test]
fn listings_are_numbered() {
    let entries = vec![String::from("help"), String::from("pos <1>")];
    assert_eq!(listing_text(&entries), "<acc 0>: help\n<acc 1>: pos \\<1\\>");
    assert_eq!(listing_text(&Vec::new()), "");
}

#[test]
fn footer_keys_are_highlighted() {
    assert_eq!(rsfrac::footer::highlight_keys("Zoom+[d] Rst[r]"), "Zoom+[<acc d>] Rst[<acc r>]");
    assert_eq!(rsfrac::footer::highlight_keys("plain"), "plain");
}

#[test]
fn pasted_line_breaks_become_spaces() {
    assert_eq!(rsfrac::input::pasted_chars("a\nb c"), vec!['a', ' ', 'b', ' ', 'c']);
    assert!(rsfrac::input::pasted_chars("").is_empty());
}

#[test]
fn state_file_search_entries() {
    assert_eq!(entry_action("a.rsf", true, false, 0), EntryAction::Keep);
    assert_eq!(entry_action("a.rsfx", true, false, 0), EntryAction::Skip);
    assert_eq!(entry_action("rsf", true, false, 0), EntryAction::Skip);
    assert_eq!(entry_action("dir.rsf", false, true, 0), EntryAction::Descend);
    assert_eq!(entry_action("dir", false, true, MAX_SEARCH_DEPTH), EntryAction::Skip);
}

#[test]
fn markup_tags_name_colours() {
    assert_eq!(tag_colour("acc"), Some((255, 170, 60)));
    assert_eq!(tag_colour("dim"), Some((90, 90, 90)));
    assert_eq!(tag_colour("b"), None);
    assert_eq!(tag_style("red"), Some(TagStyle::Foreground(255, 90, 90)));
    assert_eq!(tag_style("bggreen"), Some(TagStyle::Background(120, 220, 120)));
    assert_eq!(tag_style("bgnothing"), None);
    assert_eq!(tag_style("bg"), None);
}

#[test]
fn rules_go_between_the_messages() {
    let rule = String::from("--");
    assert_eq!(interleave_rule(&vec![], &rule), Vec::<String>::new());
    assert_eq!(interleave_rule(&vec![String::from("a")], &rule), vec!["a"]);
    assert_eq!(
        interleave_rule(&vec![String::from("a"), String::from("b"), String::from("c")], &rule),
        vec!["a", "--", "b", "--", "c"]
    );
}

#[test]
fn log_printout_compiles_the_markup() {
    let lines = log_printout(&vec![String::from("plain"), String::from("<red alert>")], 3).unwrap();
    assert_eq!(lines.len(), 3);
    assert_eq!(lines[0], "plain");
    assert!(lines[1].contains("---"));
    assert_ne!(lines[1], "<dim --->");
    assert!(lines[2].contains("alert"));
    assert!(!lines[2].contains("<red"));
    assert!(lines[2].contains("\u{1b}["));
    assert_eq!(log_printout(&vec![String::from("<red unclosed")], 3), None);
    assert_eq!(log_printout(&vec![], 2), Some(vec![]));
}

#[test]
fn unicode_white_space_splits_words() {
    assert_eq!(split_whitespace("a\u{3000}b\u{85}c\u{2009}d"), vec!["a", "b", "c", "d"]);
    assert_eq!(trim("\u{a0} x \u{2028}"), "x");
    assert_eq!(split_whitespace("a\u{200b}b"), vec!["a\u{200b}b"]);
}
