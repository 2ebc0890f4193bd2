//! The command input: running a command line, the command history, and the
//! keys of the input field.

use vstd::prelude::*;
use crate::colors::PALETTE_COUNT;
use crate::commands::dispatch::{CommandOutcome, command_post, execute_command, runs_in_library};
use crate::commands::table::{
    CommandId, command_counts, command_entry, command_id, command_index_by_name, command_lookup, command_name,
};
use crate::commands::command_increment::result_view;
use crate::state::{
    AppState, Focus, command_at, with_log_of, log_after_all, error_msg, lemma_log_after_one, lemma_log_after_push, log_view,
    logged, logged_all,
};
use crate::text::{
    all_ascii, escaped, esc, int_text, join, join_strings, nat_text, split_whitespace,
    str_eq, strings_view, strs_view, trim, trimmed, u64_to_text, words,
};

verus! {

/// A command that the front end must run, with its arguments.
pub struct PendingCommand {
    pub id: CommandId,
    pub args: Vec<String>,
}

/// The view of a pending command.
pub open spec fn pending_view(p: Option<PendingCommand>) -> Option<(CommandId, Seq<Seq<char>>)> {
    match p {
        Some(c) => Some((c.id, strings_view(c.args@))),
        None => None,
    }
}

/// The decimal texts of the numbers.
pub open spec fn count_items(e: Seq<usize>) -> Seq<Seq<char>> {
    e.map_values(|x: usize| nat_text(x as nat))
}

/// The items listed as "a, b or c" (a single item alone).
pub open spec fn enumerated(items: Seq<Seq<char>>) -> Seq<char> {
    if items.len() == 1 {
        items[0]
    } else {
        join(items.drop_last(), ", "@) + " or "@ + items.last()
    }
}

/// Lists the numbers as "a, b or c".
pub fn enumerate_strings(elements: &Vec<usize>) -> (r: String)
    requires
        elements@.len() > 0,
    ensures
        r@ == enumerated(count_items(elements@)),
{
    let mut items: Vec<String> = Vec::new();
    let mut i: usize = 0;
    while i < elements.len()
        invariant
            i <= elements@.len(),
            strings_view(items@) == count_items(elements@).take(i as int),
        decreases elements@.len() - i,
    {
        let t = u64_to_text(elements[i] as u64);
        proof {
            assert(strings_view(items@.push(t)) =~= strings_view(items@).push(t@));
            assert(count_items(elements@).take(i + 1) =~= count_items(elements@).take(i as int).push(
                count_items(elements@)[i as int]));
        }
        items.push(t);
        i = i + 1;
    }
    proof {
        assert(count_items(elements@).take(elements@.len() as int) =~= count_items(elements@));
    }
    if items.len() == 1 {
        return items[0].clone();
    }
    let ghost all = strings_view(items@);
    let last = items.pop().unwrap();
    proof {
        assert(strings_view(items@) =~= all.drop_last());
        assert(last@ == all.last());
    }
    let mut s = join_strings(&items, ", ");
    s.append(" or ");
    s.append(last.as_str());
    s
}

/// Owned copies of the arguments.
pub fn to_owned_strings(args: &Vec<&str>) -> (r: Vec<String>)
    ensures
        strings_view(r@) == strs_view(args@),
{
    let mut r: Vec<String> = Vec::new();
    let mut i: usize = 0;
    while i < args.len()
        invariant
            i <= args@.len(),
            strings_view(r@) == strs_view(args@).take(i as int),
        decreases args@.len() - i,
    {
        let s = String::from_str(args[i]);
        proof {
            assert(strings_view(r@.push(s)) =~= strings_view(r@).push(s@));
            assert(strs_view(args@).take(i + 1) =~= strs_view(args@).take(i as int).push(args@[i as int]@));
        }
        r.push(s);
        i = i + 1;
    }
    proof {
        assert(strs_view(args@).take(args@.len() as int) =~= strs_view(args@));
    }
    r
}

/// The error for a non-ASCII command line.
pub open spec fn ascii_error_text() -> Seq<char> {
    "Your command cannot contain other than ASCII characters, aborting."@
}

/// The error for an unknown command name.
pub open spec fn not_found_text(name: Seq<char>) -> Seq<char> {
    "Command not found: <bgred,white "@ + escaped(name)
        + ">. Use <command help> for an overview of available commands."@
}

/// The error for an argument count that command `i` does not accept.
pub open spec fn arg_count_text(i: int, n: int) -> Seq<char> {
    "<bg:black,fg:white "@ + command_name(i)@ + "> expects "@ + enumerated(count_items(command_counts(i)))
        + " arguments but got "@ + int_text(n) + ". Use <bg:black,fg:white help "@ + command_name(i)@
        + "> for more details on the usage of this command."@
}

/// The echo of a command line in the log.
pub open spec fn echo_text(input: Seq<char>) -> Seq<char> {
    "<command \\> "@ + escaped(input) + ">"@
}

/// `new` is `s` after the result `r` of a command was handled: nothing on
/// success, the error logged otherwise.
pub open spec fn handled(s: AppState, r: Result<(), Seq<char>>, new: AppState) -> bool {
    match r {
        Ok(_) => new == s,
        Err(e) => logged(s, s, new, error_msg(e)),
    }
}

/// What running the command line `input` does, after it was checked, put in
/// the history and split: `s2` is the state at that point.
pub open spec fn dispatched(s2: AppState, input: Seq<char>, new: AppState, p: Option<(CommandId, Seq<Seq<char>>)>) -> bool {
    let w = words(input);
    if w.len() == 0 {
        p is None && new == s2
    } else {
        match command_lookup(w[0]) {
            None => p is None && logged(s2, s2, new, error_msg(not_found_text(w[0]))),
            Some(i) => {
                let rest = w.drop_first();
                if !command_counts(i).contains(rest.len() as usize) {
                    p is None && logged_all(s2, s2, new, seq![echo_text(input), error_msg(arg_count_text(i, rest.len() as int))])
                } else {
                    exists|s3: AppState| #[trigger] logged(s2, s2, s3, echo_text(input)) && if runs_in_library(command_id(i)) {
                        p is None && exists|s4: AppState, r: Result<(), Seq<char>>|
                            #[trigger] command_post(command_id(i), s3, rest, s4, r) && handled(s4, r, new)
                    } else {
                        p == Some((command_id(i), rest)) && new == s3
                    }
                }
            },
        }
    }
}

/// What running the command line `input` does: the history position goes
/// back to the new command; a non-ASCII line is refused; a line different
/// from the latest command enters the history; then the first word names
/// the command and the others are its arguments.
pub open spec fn run_command_post(old: AppState, input: Seq<char>, new: AppState, p: Option<(CommandId, Seq<Seq<char>>)>) -> bool {
    let s1 = AppState { command_input: (old.command_input.0, -1i32), ..old };
    if !all_ascii(input) {
        p is None && logged(s1, s1, new, error_msg(ascii_error_text()))
    } else {
        let hist = strings_view(old.last_commands@);
        let new_hist = if input != command_at(old.last_commands@, 0) { hist.insert(0, input) } else { hist };
        exists|s2: AppState| #[trigger] strings_view(s2.last_commands@) == new_hist
            && s2 == (AppState { last_commands: s2.last_commands, ..s1 })
            && dispatched(s2, input, new, p)
    }
}

/// Shows `run_command_post` once the line was checked and put in the history.
proof fn lemma_run_post(old: AppState, s2: AppState, input: Seq<char>, new: AppState, p: Option<(CommandId, Seq<Seq<char>>)>)
    requires
        all_ascii(input),
        strings_view(s2.last_commands@) == (if input != command_at(old.last_commands@, 0) {
            strings_view(old.last_commands@).insert(0, input)
        } else {
            strings_view(old.last_commands@)
        }),
        s2 == (AppState { last_commands: s2.last_commands, ..AppState { command_input: (old.command_input.0, -1i32), ..old } }),
        dispatched(s2, input, new, p),
    ensures
        run_command_post(old, input, new, p),
{
}

/// What running a command needs of the state.
pub open spec fn ready_to_run(s: AppState) -> bool {
    &&& s.render_settings.palette_index < PALETTE_COUNT
    &&& s.render_settings.image_format < crate::commands::capture_format::IMAGE_FORMAT_COUNT
}

impl AppState {
    /// Runs the command line `input` (see `run_command_post`). Commands that
    /// the front end runs are handed back.
    #[verifier::rlimit(60)]
    #[verifier::spinoff_prover]
    pub fn run_command(&mut self, input: String) -> (p: Option<PendingCommand>)
        requires
            ready_to_run(*old(self)),
        ensures
            run_command_post(*old(self), input@, *final(self), pending_view(p)),
    {
        let ghost old_self = *self;
        self.command_input.1 = -1;
        let ghost s1 = *self;
        if !input.is_ascii() {
            self.log_error("Your command cannot contain other than ASCII characters, aborting.");
            return None;
        }
        let prev = self.get_command(0);
        let ghost hist = strings_view(self.last_commands@);
        if !str_eq(input.as_str(), prev.as_str()) {
            self.last_commands.insert(0, input.clone());
            proof {
                assert(strings_view(self.last_commands@) =~= hist.insert(0, input@));
            }
        }
        let ghost s2 = *self;
        proof {
            assert(s2 == (AppState { last_commands: s2.last_commands, ..s1 }));
        }
        let mut args = split_whitespace(input.as_str());
        if args.len() == 0 {
            proof {
                lemma_run_post(old_self, s2, input@, *self, None);
            }
            return None;
        }
        let ghost w = strs_view(args@);
        let command_name = args.remove(0);
        proof {
            assert(strs_view(args@) =~= w.drop_first());
            assert(command_name@ == w[0]);
        }
        match command_index_by_name(command_name) {
            None => {
                let mut s = String::from_str("Command not found: <bgred,white ");
                let e = esc(command_name);
                s.append(e.as_str());
                s.append(">. Use <command help> for an overview of available commands.");
                self.log_error(s.as_str());
                proof {
                    lemma_run_post(old_self, s2, input@, *self, None);
                }
                None
            },
            Some(i) => {
                let mut echo = String::from_str("<command \\> ");
                let e = esc(input.as_str());
                echo.append(e.as_str());
                echo.append(">");
                self.log_raw(echo);
                let ghost s3 = *self;
                let command = command_entry(i);
                let n = args.len();
                let mut accepted = false;
                let mut k: usize = 0;
                while k < command.accepted_arg_count.len()
                    invariant
                        k <= command.accepted_arg_count@.len(),
                        command.accepted_arg_count@ == command_counts(i as int),
                        accepted == exists|j: int| 0 <= j < k && command.accepted_arg_count@[j] == n,
                    decreases command.accepted_arg_count@.len() - k,
                {
                    if command.accepted_arg_count[k] == n {
                        accepted = true;
                    }
                    k = k + 1;
                }
                if !accepted {
                    let mut s = String::from_str("<bg:black,fg:white ");
                    s.append(command.name);
                    s.append("> expects ");
                    let list = enumerate_strings(&command.accepted_arg_count);
                    s.append(list.as_str());
                    s.append(" arguments but got ");
                    let num = u64_to_text(n as u64);
                    s.append(num.as_str());
                    s.append(". Use <bg:black,fg:white help ");
                    s.append(command.name);
                    s.append("> for more details on the usage of this command.");
                    proof {
                        lemma_log_after_push(log_view(s2), seq![echo_text(input@)],
                            error_msg(arg_count_text(i as int, n as int)));
                        lemma_log_after_one(log_view(s2), echo_text(input@));
                        lemma_log_after_one(log_view(s3), error_msg(arg_count_text(i as int, n as int)));
                        assert(seq![echo_text(input@)].push(error_msg(arg_count_text(i as int, n as int)))
                            =~= seq![echo_text(input@), error_msg(arg_count_text(i as int, n as int))]);
                        assert(!command_counts(i as int).contains(n));
                    }
                    self.log_error(s.as_str());
                    proof {
                        assert(s@ == arg_count_text(i as int, n as int));
                        assert(command_lookup(w[0]) == Some(i as int));
                        assert(*self == with_log_of(s2, *self));
                        assert(log_view(*self) == log_after_all(log_view(s2), seq![echo_text(input@), error_msg(arg_count_text(i as int, n as int))]));
                        assert(dispatched(s2, input@, *self, None));
                        lemma_run_post(old_self, s2, input@, *self, None);
                    }
                    return None;
                }
                proof {
                    assert(command_counts(i as int).contains(n));
                }
                let ghost rest = strs_view(args@);
                let owned = to_owned_strings(&args);
                let outcome = execute_command(i, self, args);
                match outcome {
                    CommandOutcome::Done(res) => {
                        let ghost s4 = *self;
                        let ghost rv = result_view(res);
                        self.handle_res(res);
                        proof {
                            assert(command_post(command_id(i as int), s3, rest, s4, rv));
                            assert(handled(s4, rv, *self));
                            assert(logged(s2, s2, s3, echo_text(input@)));
                            assert(runs_in_library(command_id(i as int)));
                            assert(dispatched(s2, input@, *self, None));
                            lemma_run_post(old_self, s2, input@, *self, None);
                        }
                        None
                    },
                    CommandOutcome::Deferred => {
                        let p = Some(PendingCommand { id: command.id, args: owned });
                        proof {
                            assert(logged(s2, s2, s3, echo_text(input@)));
                            lemma_run_post(old_self, s2, input@, *self, pending_view(p));
                        }
                        p
                    },
                }
            },
        }
    }
}

/// A key of the command input, as the input handles it.
#[derive(Clone, Copy, PartialEq, Eq, Structural, Debug)]
pub enum InputKey {
    /// Runs the command that is entered.
    Enter,
    /// Goes back in the command history.
    Up,
    /// `Ctrl+E`: goes back in the command history.
    CtrlE,
    /// Goes forward in the command history.
    Down,
    /// `Ctrl+R`: repeats the latest command.
    CtrlR,
    /// Any other key, which edits the text of the input.
    Other,
}

/// What the command input did with a key.
pub enum InputResponse {
    /// The key was handled; a command may be left for the front end to run.
    Handled(Option<PendingCommand>),
    /// The key edits the text of the input, which the front end applies.
    Edit,
}

/// The keys of the command input shown in the footer.
pub fn input_footer_text() -> (r: Vec<&'static str>)
    ensures
        r@ == seq!["Execute the command [Enter]", "Repeat last command [Ctrl+R]", "Edit last commands [Ctrl+E/Arrows]"],
{
    let r = vec!["Execute the command [Enter]", "Repeat last command [Ctrl+R]", "Edit last commands [Ctrl+E/Arrows]"];
    assert(r@ =~= seq!["Execute the command [Enter]", "Repeat last command [Ctrl+R]", "Edit last commands [Ctrl+E/Arrows]"]);
    r
}

/// What running the entered command does: the input is emptied, then its
/// text, without surrounding white space, is run.
pub open spec fn run_current_post(old: AppState, new: AppState, p: Option<(CommandId, Seq<Seq<char>>)>) -> bool {
    exists|s: AppState| #[trigger] s.command_input.0@ == Seq::<char>::empty()
        && s == (AppState { command_input: (s.command_input.0, old.command_input.1), ..old })
        && run_command_post(s, trimmed(old.command_input.0@), new, p)
}

/// The history position after `Down`: one step forward, down to `-1`.
pub open spec fn history_down(idx: i32) -> i32 {
    if idx - 1 < -1 { -1i32 } else { (idx - 1) as i32 }
}

/// The history position after `Up`: one step back, up to the oldest command.
pub open spec fn history_up(idx: i32, len: nat) -> i32 {
    if idx + 1 < len - 1 { (idx + 1) as i32 } else { (len - 1) as i32 }
}

/// What a key of the command input does.
pub open spec fn input_key_post(old: AppState, key: InputKey, new: AppState, resp: Option<Option<(CommandId, Seq<Seq<char>>)>>) -> bool {
    match key {
        InputKey::Enter => resp matches Some(p) && run_current_post(old, new, p),
        InputKey::CtrlR => resp matches Some(p) && run_command_post(old, command_at(old.last_commands@, 0), new, p),
        InputKey::Down => {
            let idx = history_down(old.command_input.1);
            &&& resp == Some(None::<(CommandId, Seq<Seq<char>>)>)
            &&& new == (AppState { command_input: (new.command_input.0, idx), ..old })
            &&& new.command_input.0@ == command_at(old.last_commands@, idx as int)
        },
        InputKey::Up | InputKey::CtrlE => {
            let idx = history_up(old.command_input.1, old.last_commands@.len());
            &&& resp == Some(None::<(CommandId, Seq<Seq<char>>)>)
            &&& new == (AppState { command_input: (new.command_input.0, idx), ..old })
            &&& new.command_input.0@ == command_at(old.last_commands@, idx as int)
        },
        InputKey::Other => resp is None && new == (AppState { command_input: (old.command_input.0, -1i32), ..old }),
    }
}

/// The view of an input response (`None` for an edit).
pub open spec fn response_view(r: InputResponse) -> Option<Option<(CommandId, Seq<Seq<char>>)>> {
    match r {
        InputResponse::Handled(p) => Some(pending_view(p)),
        InputResponse::Edit => None,
    }
}

impl AppState {
    /// Runs the latest command again.
    pub fn run_last_command(&mut self) -> (p: Option<PendingCommand>)
        requires
            ready_to_run(*old(self)),
        ensures
            run_command_post(*old(self), command_at(old(self).last_commands@, 0), *final(self), pending_view(p)),
    {
        let c = self.get_command(0);
        self.run_command(c)
    }

    /// Empties the command input and runs what it held, without surrounding
    /// white space.
    pub fn run_current_command(&mut self) -> (p: Option<PendingCommand>)
        requires
            ready_to_run(*old(self)),
        ensures
            run_current_post(*old(self), *final(self), pending_view(p)),
    {
        let input = String::from_str(trim(self.command_input.0.as_str()));
        self.command_input.0 = String::new();
        let ghost s = *self;
        let p = self.run_command(input);
        proof {
            assert(s.command_input.0@ == Seq::<char>::empty());
        }
        p
    }

    /// Focuses the command input, as a click on it does.
    pub fn focus_input(&mut self)
        ensures
            *final(self) == (AppState { focused: Focus::Input, ..*old(self) }),
    {
        self.focused = Focus::Input;
    }

    /// Handles a key of the command input: runs, recalls or repeats a
    /// command, or leaves the key to the text editing.
    pub fn handle_input_key(&mut self, key: InputKey) -> (r: InputResponse)
        requires
            ready_to_run(*old(self)),
            i32::MIN < old(self).command_input.1 < i32::MAX,
            old(self).last_commands@.len() <= i32::MAX,
        ensures
            input_key_post(*old(self), key, *final(self), response_view(r)),
    {
        match key {
            InputKey::Enter => InputResponse::Handled(self.run_current_command()),
            InputKey::Down => {
                let idx = if self.command_input.1 - 1 < -1 { -1 } else { self.command_input.1 - 1 };
                self.command_input.1 = idx;
                let c = self.get_command(idx);
                self.command_input.0 = c;
                InputResponse::Handled(None)
            },
            InputKey::Up | InputKey::CtrlE => {
                let len = self.last_commands.len() as i32;
                let idx = if self.command_input.1 + 1 < len - 1 { self.command_input.1 + 1 } else { len - 1 };
                self.command_input.1 = idx;
                let c = self.get_command(idx);
                self.command_input.0 = c;
                InputResponse::Handled(None)
            },
            InputKey::CtrlR => InputResponse::Handled(self.run_last_command()),
            InputKey::Other => {
                self.command_input.1 = -1;
                InputResponse::Edit
            },
        }
    }
}

/// Pasted text as the command input takes it: line breaks become spaces.
pub open spec fn pasted(s: Seq<char>) -> Seq<char> {
    s.map_values(|c: char| if c == '\n' { ' ' } else { c })
}

/// The characters that pasting `s` types into the command input.
pub fn pasted_chars(s: &str) -> (r: Vec<char>)
    ensures
        r@ == pasted(s@),
{
    let n = s.unicode_len();
    let mut r: Vec<char> = Vec::new();
    let mut i: usize = 0;
    while i < n
        invariant
            n == s@.len(),
            i <= n,
            r@ == pasted(s@.take(i as int)),
        decreases n - i,
    {
        let c = s.get_char(i);
        r.push(if c == '\n' { ' ' } else { c });
        proof {
            assert(pasted(s@.take(i + 1)) =~= pasted(s@.take(i as int)).push(if c == '\n' { ' ' } else { c }));
        }
        i = i + 1;
    }
    proof {
        assert(s@.take(n as int) =~= s@);
    }
    r
}

} // verus!
