//! The `history` command, and the numbered listings it shares with `load`.

use vstd::prelude::*;
use crate::commands::command_increment::result_view;
use crate::state::{AppState, info_msg, logged};
use crate::text::{concat, escaped, esc, int_text, parse_usize, parse_usize_spec, strings_view, strs_view, trim, trimmed, u64_to_text};

verus! {

/// One numbered line of a listing: the accented index, then the escaped entry.
pub open spec fn listing_line(i: int, entry: Seq<char>) -> Seq<char> {
    "<acc "@ + int_text(i) + ">: "@ + escaped(entry) + "\n"@
}

/// The numbered lines of all entries.
pub open spec fn listing_lines(entries: Seq<Seq<char>>) -> Seq<Seq<char>> {
    Seq::new(entries.len(), |i: int| listing_line(i, entries[i]))
}

/// The listing of `entries`, without surrounding white space.
pub open spec fn listing(entries: Seq<Seq<char>>) -> Seq<char> {
    trimmed(concat(listing_lines(entries)))
}

/// Builds `listing(entries)`.
pub fn listing_text(entries: &Vec<String>) -> (r: String)
    ensures
        r@ == listing(strings_view(entries@)),
{
    let ghost v = strings_view(entries@);
    let mut res = String::new();
    let mut i: usize = 0;
    while i < entries.len()
        invariant
            v == strings_view(entries@),
            i <= entries@.len(),
            res@ == concat(listing_lines(v).take(i as int)),
        decreases entries@.len() - i,
    {
        let mut line = String::from_str("<acc ");
        let num = u64_to_text(i as u64);
        line.append(num.as_str());
        line.append(">: ");
        let e = esc(entries[i].as_str());
        line.append(e.as_str());
        line.append("\n");
        proof {
            let t = listing_lines(v).take(i + 1);
            assert(t.drop_last() =~= listing_lines(v).take(i as int));
            assert(t.last() == listing_line(i as int, v[i as int]));
        }
        res.append(line.as_str());
        i = i + 1;
    }
    proof {
        assert(listing_lines(v).take(entries@.len() as int) =~= listing_lines(v));
    }
    let t = trim(res.as_str());
    String::from_str(t)
}

/// The message `history` logs without arguments.
pub open spec fn history_text(entries: Seq<Seq<char>>) -> Seq<char> {
    if entries.len() == 0 {
        "No previous commands."@
    } else {
        "Below is shown your command history:\n"@ + listing(entries)
    }
}

/// `history`: the latest command (the `history` call itself) leaves the
/// history; without arguments the remaining history is remembered and
/// listed; with an index, the remembered command at that index fills the
/// command input.
pub open spec fn history_post(old: AppState, args: Seq<Seq<char>>, new: AppState, r: Result<(), Seq<char>>) -> bool {
    let hist = strings_view(old.last_commands@).drop_first();
    &&& strings_view(new.last_commands@) == hist
    &&& if args.len() == 0 {
        &&& r is Ok
        &&& strings_view(new.listed_commands@) == hist
        &&& logged(old, AppState { last_commands: new.last_commands, listed_commands: new.listed_commands, ..old },
            new, info_msg(history_text(hist)))
    } else {
        match parse_usize_spec(args[0]) {
            None => r == Err::<(), Seq<char>>("The provided index isn't a valid integer."@)
                && new == (AppState { last_commands: new.last_commands, ..old }),
            Some(n) => if n >= old.listed_commands@.len() {
                r == Err::<(), Seq<char>>("No commands associated with the given index."@)
                    && new == (AppState { last_commands: new.last_commands, ..old })
            } else {
                &&& r is Ok
                &&& new == (AppState { last_commands: new.last_commands,
                    command_input: (new.command_input.0, old.command_input.1), ..old })
                &&& new.command_input.0@ == old.listed_commands@[n as int]@
            },
        }
    }
}

/// Lists the command history, or puts a listed command back in the input.
pub fn execute_history(state: &mut AppState, args: Vec<&str>) -> (r: Result<(), String>)
    requires
        old(state).last_commands@.len() > 0,
    ensures
        history_post(*old(state), strs_view(args@), *final(state), result_view(r)),
{
    let ghost hist = strings_view(state.last_commands@).drop_first();
    state.last_commands.remove(0);
    proof {
        assert(strings_view(state.last_commands@) =~= hist);
    }
    if args.len() == 0 {
        let snapshot = state.last_commands.clone();
        proof {
            assert(strings_view(snapshot@) =~= strings_view(state.last_commands@));
        }
        state.listed_commands = snapshot;
        if state.listed_commands.len() == 0 {
            state.log_info("No previous commands.");
        } else {
            let mut s = String::from_str("Below is shown your command history:\n");
            let list = listing_text(&state.listed_commands);
            s.append(list.as_str());
            state.log_info(s.as_str());
        }
        return Ok(());
    }
    let num = match parse_usize(args[0]) {
        Some(n) => n,
        None => { return Err(String::from_str("The provided index isn't a valid integer.")); },
    };
    if num >= state.listed_commands.len() {
        return Err(String::from_str("No commands associated with the given index."));
    }
    state.command_input.0 = state.listed_commands[num].clone();
    Ok(())
}

} // verus!
