//! The decisions of the `save` and `load` commands: file names, the list of
//! detected state files and `load cycle`. Reading and writing the files is
//! left to the front end.

use vstd::prelude::*;
use crate::commands::history::{listing, listing_text};
use crate::state::{AppState, info_msg, logged, success_msg};
use crate::text::{
    all_digits, digit_char, digits_value, escaped, esc, i64_to_text, int_text, is_digit, nat_text, parse_usize,
    parse_usize_spec, str_eq, strings_view, strs_view, u64_to_text, unsigned_literal,
};

verus! {

/// The extension of state files.
pub const SAVE_EXTENSION: &'static str = ".rsf";

/// `chrono::Local::now()` formatted with `fmt`: the local date and time.
/// Nothing is stated of the text, which depends on the clock and the time
/// zone. The formats admitted are the two the library uses, which chrono
/// renders without error.
#[verifier::external_body]
pub(crate) fn local_timestamp(fmt: &str) -> (r: String)
    requires
        fmt@ == "%F %H-%M-%S"@ || fmt@ == "%F %H-%M-%S%.f"@,
{
    chrono::Local::now().format(fmt).to_string()
}

/// The file `save` writes: the given path, or the fractal name and the time,
/// followed by the state file extension.
pub open spec fn save_file_name_spec(frac_name: Seq<char>, args: Seq<Seq<char>>, timestamp: Seq<char>) -> Seq<char> {
    (if args.len() == 0 { frac_name + " "@ + timestamp } else { args[0] }) + SAVE_EXTENSION@
}

/// The file `save` writes for the given time stamp.
pub fn save_file_name_at(frac_name: &str, args: &Vec<&str>, timestamp: &str) -> (r: String)
    ensures
        r@ == save_file_name_spec(frac_name@, strs_view(args@), timestamp@),
{
    let mut s = if args.len() == 0 {
        let mut s = String::from_str(frac_name);
        s.append(" ");
        s.append(timestamp);
        s
    } else {
        String::from_str(args[0])
    };
    s.append(SAVE_EXTENSION);
    s
}

/// The file `save` writes now: with an argument, that path; otherwise the
/// fractal name, a space and the local time.
pub fn save_file_name(frac_name: &str, args: &Vec<&str>) -> (r: String)
    ensures
        exists|t: Seq<char>| r@ == save_file_name_spec(frac_name@, strs_view(args@), t),
{
    let t = local_timestamp("%F %H-%M-%S");
    save_file_name_at(frac_name, args, t.as_str())
}

/// Logs that the state was saved to `filename`.
pub fn report_state_saved(state: &mut AppState, filename: &str)
    ensures
        logged(*old(state), *old(state), *final(state),
            success_msg("State successfully saved as <command "@ + escaped(filename@) + ">."@)),
{
    let mut s = String::from_str("State successfully saved as <command ");
    let e = esc(filename);
    s.append(e.as_str());
    s.append(">.");
    state.log_success(s.as_str());
}

/// The message that reports the state files found.
pub open spec fn detection_text(files: Seq<Seq<char>>, searched_dirs: int) -> Seq<char> {
    if files.len() == 0 {
        "Looked into <acc "@ + int_text(searched_dirs) + "> directories, but no state file was found."@
    } else {
        "Looked into <acc "@ + int_text(searched_dirs)
            + "> directories, the following state files have been detected:\n"@ + listing(files)
    }
}

/// Remembers the state files found by `load` (already sorted), restarts
/// `load cycle` from the first, and reports them.
pub fn record_detected_state_files(state: &mut AppState, files: Vec<String>, searched_dirs: i32)
    ensures
        strings_view(final(state).detected_state_files@) == strings_view(files@),
        logged(*old(state), AppState {
            detected_state_files: final(state).detected_state_files,
            current_state_file_index: 0,
            ..*old(state)
        }, *final(state), info_msg(detection_text(strings_view(files@), searched_dirs as int))),
{
    state.current_state_file_index = 0;
    let ghost fv = strings_view(files@);
    state.detected_state_files = files;
    let mut s = String::from_str("Looked into <acc ");
    let n = i64_to_text(searched_dirs as i64);
    s.append(n.as_str());
    if state.detected_state_files.len() == 0 {
        s.append("> directories, but no state file was found.");
    } else {
        s.append("> directories, the following state files have been detected:\n");
        let list = listing_text(&state.detected_state_files);
        s.append(list.as_str());
    }
    state.log_info(s.as_str());
}

/// Error of `load cycle` before any state file was found.
pub open spec fn cycle_error_text() -> Seq<char> {
    "No state file has been found in your current working directory, or the detection has not been performed yet. To detect state files, run <command load> with no arugments."@
}

/// `text`, or the detected file it numbers when it is an index of one.
pub open spec fn numbered_file(files: Seq<String>, text: Seq<char>) -> Seq<char> {
    match parse_usize_spec(text) {
        Some(n) => if n < files.len() { files[n as int]@ } else { text },
        None => text,
    }
}

/// What `load ARG` opens: `cycle` takes the next detected file in turn
/// (an error when none was detected); an index of a detected file opens
/// that file; anything else is a path.
pub open spec fn load_target_post(old: AppState, arg: Seq<char>, new: AppState, r: Result<Seq<char>, Seq<char>>) -> bool {
    if arg == "cycle"@ {
        let n = old.detected_state_files@.len();
        if n == 0 {
            r == Err::<Seq<char>, Seq<char>>(cycle_error_text()) && new == old
        } else {
            let idx = old.current_state_file_index;
            &&& new == (AppState { current_state_file_index: ((idx + 1) % n as int) as usize, ..old })
            &&& r == Ok::<Seq<char>, Seq<char>>(numbered_file(old.detected_state_files@, nat_text(idx as nat)))
        }
    } else {
        new == old && r == Ok::<Seq<char>, Seq<char>>(numbered_file(old.detected_state_files@, arg))
    }
}

/// The digit characters have the values of their digits.
pub proof fn lemma_digit_char(d: int)
    requires
        0 <= d < 10,
    ensures
        is_digit(digit_char(d)),
        digit_char(d) as int - '0' as int == d,
{
}

/// The decimal text of a number reads back as that number.
pub proof fn lemma_nat_text_digits(n: nat)
    ensures
        all_digits(nat_text(n)),
        digits_value(nat_text(n)) == n,
        nat_text(n)[0] != '+',
    decreases n,
{
    let t = nat_text(n);
    if n < 10 {
        lemma_digit_char(n as int);
        assert(t.drop_last() =~= Seq::<char>::empty());
        assert(digits_value(t.drop_last()) == 0);
        assert(digits_value(t) == digits_value(t.drop_last()) * 10 + (t.last() as int - '0' as int));
    } else {
        lemma_nat_text_digits(n / 10);
        lemma_digit_char((n % 10) as int);
        assert(t.drop_last() == nat_text(n / 10));
        assert(t.last() == digit_char((n % 10) as int));
        assert(digits_value(t) == digits_value(t.drop_last()) * 10 + (t.last() as int - '0' as int));
        assert((n / 10) as int * 10 + (n % 10) as int == n);
        assert forall|i: int| 0 <= i < t.len() implies is_digit(#[trigger] t[i]) by {
            if i < t.len() - 1 {
                assert(t[i] == nat_text(n / 10)[i]);
            }
        }
    }
}

/// The decimal text of a `usize` parses back to it.
pub proof fn lemma_usize_text_roundtrip(n: usize)
    ensures
        parse_usize_spec(nat_text(n as nat)) == Some(n),
{
    lemma_nat_text_digits(n as nat);
    assert(unsigned_literal(nat_text(n as nat)) == Some(n as int));
}

/// Finds the file that `load ARG` opens (see `load_target_post`).
pub fn resolve_load_target(state: &mut AppState, arg: &str) -> (r: Result<String, String>)
    requires
        old(state).current_state_file_index < usize::MAX,
    ensures
        load_target_post(*old(state), arg@, *final(state), match r { Ok(s) => Ok(s@), Err(e) => Err(e@) }),
{
    let mut filename = String::from_str(arg);
    if str_eq(arg, "cycle") {
        let n = state.detected_state_files.len();
        if n == 0 {
            return Err(String::from_str("No state file has been found in your current working directory, or the detection has not been performed yet. To detect state files, run <command load> with no arugments."));
        }
        proof {
            lemma_usize_text_roundtrip(state.current_state_file_index);
        }
        filename = u64_to_text(state.current_state_file_index as u64);
        state.current_state_file_index = (state.current_state_file_index + 1) % n;
    }
    match parse_usize(filename.as_str()) {
        Some(num) => {
            if num < state.detected_state_files.len() {
                filename = state.detected_state_files[num].clone();
            }
        },
        None => {},
    }
    Ok(filename)
}

/// How deep `load` looks for state files below the working directory.
pub const MAX_SEARCH_DEPTH: i32 = 10;

/// What the search for state files does with a directory entry.
#[derive(Clone, Copy, PartialEq, Eq, Structural, Debug)]
pub enum EntryAction {
    /// A state file: list it.
    Keep,
    /// A directory to search.
    Descend,
    /// Anything else.
    Skip,
}

/// What the search does with an entry named `name` found at depth `depth`:
/// it keeps the files whose name ends with the state file extension and
/// searches the directories above the depth limit.
pub open spec fn entry_action_spec(name: Seq<char>, is_file: bool, is_dir: bool, depth: int) -> EntryAction {
    if is_file && SAVE_EXTENSION@.is_suffix_of(name) {
        EntryAction::Keep
    } else if is_dir && depth < MAX_SEARCH_DEPTH {
        EntryAction::Descend
    } else {
        EntryAction::Skip
    }
}

/// Decides what the search for state files does with an entry (see
/// `entry_action_spec`).
pub fn entry_action(name: &str, is_file: bool, is_dir: bool, depth: i32) -> (r: EntryAction)
    ensures
        r == entry_action_spec(name@, is_file, is_dir, depth as int),
{
    let n = name.unicode_len();
    let e = SAVE_EXTENSION.unicode_len();
    let suffix = if n >= e { str_eq(name.substring_char(n - e, n), SAVE_EXTENSION) } else { false };
    proof {
        if n >= e {
            assert(SAVE_EXTENSION@.is_suffix_of(name@) <==> name@.subrange(n - e, n as int) == SAVE_EXTENSION@);
        }
    }
    if is_file && suffix {
        EntryAction::Keep
    } else if is_dir && depth < MAX_SEARCH_DEPTH {
        EntryAction::Descend
    } else {
        EntryAction::Skip
    }
}

} // verus!
