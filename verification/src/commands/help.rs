//! The `help` command.

use vstd::prelude::*;
use crate::commands::command_increment::result_view;
use crate::commands::selection::{acc, acc_text};
use crate::commands::table::{
    COMMAND_COUNT, command_aliases, command_basic, command_detailed, command_entry, command_lookup,
    command_name, get_command_by_name,
};
use crate::state::{AppState, info_text, logged};
use crate::text::{join, join_strings, str_eq, strings_view, strs_view};

verus! {

/// The names of all commands.
pub open spec fn command_name_items() -> Seq<Seq<char>> {
    Seq::new(COMMAND_COUNT as nat, |i: int| command_name(i)@)
}

/// The accented aliases of command `i`.
pub open spec fn alias_items(i: int) -> Seq<Seq<char>> {
    command_aliases(i).map_values(|a: &str| acc(a@))
}

/// The aliases of command `i` in brackets, or nothing when it has none.
pub open spec fn alias_part(i: int) -> Seq<char> {
    if command_aliases(i).len() == 0 {
        Seq::empty()
    } else {
        " ("@ + join(alias_items(i), ", "@) + ")"@
    }
}

/// The line of `help +` for command `i`.
pub open spec fn help_line(i: int) -> Seq<char> {
    "- <acc "@ + command_name(i)@ + ">"@ + alias_part(i) + ": "@ + command_basic(i)@
}

/// The lines of `help +`.
pub open spec fn help_lines() -> Seq<Seq<char>> {
    Seq::new(COMMAND_COUNT as nat, |i: int| help_line(i))
}

/// What `help` without arguments shows.
pub open spec fn help_overview() -> Seq<char> {
    "<acc "@ + join(command_name_items(), ", "@)
        + ">\n<green use <command help +> to get a list of all the commands and a basic description. Use <command help command_name> to get more info about a command.>"@
}

/// What `help +` shows.
pub open spec fn help_list() -> Seq<char> {
    join(help_lines(), "\n"@) + "\n<green Use <command help command_name> to get more info about a command.>"@
}

/// The detailed description of command `i`, or nothing.
pub open spec fn detailed_or_empty(i: int) -> Seq<char> {
    match command_detailed(i) {
        Some(d) => d@,
        None => Seq::empty(),
    }
}

/// What `help NAME` shows for command `i`.
pub open spec fn command_help(i: int) -> Seq<char> {
    "Aliases: "@ + join(alias_items(i), ", "@) + "\n"@ + command_basic(i)@ + "\n"@ + detailed_or_empty(i)
}

/// `help`: lists the command names, every command with its description
/// (`help +`), or the details of one command.
pub open spec fn help_post(old: AppState, args: Seq<Seq<char>>, new: AppState, r: Result<(), Seq<char>>) -> bool {
    if args.len() == 0 {
        r is Ok && logged(old, old, new, info_text("Available commands"@, help_overview()))
    } else if args[0] == "+"@ {
        r is Ok && logged(old, old, new, info_text("Available commands"@, help_list()))
    } else {
        match command_lookup(args[0]) {
            None => r == Err::<(), Seq<char>>("Command not found: <bgred,white "@ + args[0]
                + ">. Use <command help> for an overview of available commands."@) && new == old,
            Some(i) => r is Ok && logged(old, old, new, info_text(command_name(i)@, command_help(i))),
        }
    }
}

fn alias_list(aliases: &Vec<&'static str>) -> (r: Vec<String>)
    ensures
        strings_view(r@) == aliases@.map_values(|a: &str| acc(a@)),
{
    let mut r: Vec<String> = Vec::new();
    let mut i: usize = 0;
    while i < aliases.len()
        invariant
            i <= aliases@.len(),
            strings_view(r@) == aliases@.map_values(|a: &str| acc(a@)).take(i as int),
        decreases aliases@.len() - i,
    {
        let item = acc_text(aliases[i]);
        proof {
            assert(strings_view(r@.push(item)) =~= strings_view(r@).push(item@));
            assert(aliases@.map_values(|a: &str| acc(a@)).take(i + 1) =~= aliases@.map_values(
                |a: &str| acc(a@)).take(i as int).push(acc(aliases@[i as int]@)));
        }
        r.push(item);
        i = i + 1;
    }
    proof {
        assert(aliases@.map_values(|a: &str| acc(a@)).take(aliases@.len() as int) =~= aliases@.map_values(
            |a: &str| acc(a@)));
    }
    r
}

fn names_list() -> (r: Vec<String>)
    ensures
        strings_view(r@) == command_name_items(),
{
    let mut r: Vec<String> = Vec::new();
    let mut i: usize = 0;
    while i < COMMAND_COUNT
        invariant
            i <= COMMAND_COUNT,
            strings_view(r@) == command_name_items().take(i as int),
        decreases COMMAND_COUNT - i,
    {
        let c = command_entry(i);
        let item = String::from_str(c.name);
        proof {
            assert(strings_view(r@.push(item)) =~= strings_view(r@).push(item@));
            assert(command_name_items().take(i + 1) =~= command_name_items().take(i as int).push(
                command_name_items()[i as int]));
        }
        r.push(item);
        i = i + 1;
    }
    proof {
        assert(command_name_items().take(COMMAND_COUNT as int) =~= command_name_items());
    }
    r
}

fn help_line_text(i: usize) -> (r: String)
    requires
        i < COMMAND_COUNT,
    ensures
        r@ == help_line(i as int),
{
    let c = command_entry(i);
    let mut s = String::from_str("- <acc ");
    s.append(c.name);
    s.append(">");
    if c.aliases.len() > 0 {
        s.append(" (");
        let items = alias_list(&c.aliases);
        let list = join_strings(&items, ", ");
        s.append(list.as_str());
        s.append(")");
    }
    s.append(": ");
    s.append(c.basic_desc);
    proof {
        if c.aliases@.len() == 0 {
            assert(alias_part(i as int) =~= Seq::<char>::empty());
        }
    }
    s
}

fn help_lines_list() -> (r: Vec<String>)
    ensures
        strings_view(r@) == help_lines(),
{
    let mut r: Vec<String> = Vec::new();
    let mut i: usize = 0;
    while i < COMMAND_COUNT
        invariant
            i <= COMMAND_COUNT,
            strings_view(r@) == help_lines().take(i as int),
        decreases COMMAND_COUNT - i,
    {
        let item = help_line_text(i);
        proof {
            assert(strings_view(r@.push(item)) =~= strings_view(r@).push(item@));
            assert(help_lines().take(i + 1) =~= help_lines().take(i as int).push(help_lines()[i as int]));
        }
        r.push(item);
        i = i + 1;
    }
    proof {
        assert(help_lines().take(COMMAND_COUNT as int) =~= help_lines());
    }
    r
}

/// Lists the commands, or describes the command the argument names.
pub fn execute_help(state: &mut AppState, args: Vec<&str>) -> (r: Result<(), String>)
    ensures
        help_post(*old(state), strs_view(args@), *final(state), result_view(r)),
{
    if args.len() == 0 {
        let names = names_list();
        let mut s = String::from_str("<acc ");
        let list = join_strings(&names, ", ");
        s.append(list.as_str());
        s.append(">\n<green use <command help +> to get a list of all the commands and a basic description. Use <command help command_name> to get more info about a command.>");
        state.log_info_title("Available commands", s.as_str());
        return Ok(());
    }
    if str_eq(args[0], "+") {
        let lines = help_lines_list();
        let mut s = join_strings(&lines, "\n");
        s.append("\n<green Use <command help command_name> to get more info about a command.>");
        state.log_info_title("Available commands", s.as_str());
        return Ok(());
    }
    let command_name = args[0];
    match get_command_by_name(command_name) {
        None => {
            let mut s = String::from_str("Command not found: <bgred,white ");
            s.append(command_name);
            s.append(">. Use <command help> for an overview of available commands.");
            Err(s)
        },
        Some(command) => {
            let mut s = String::from_str("Aliases: ");
            let items = alias_list(&command.aliases);
            let list = join_strings(&items, ", ");
            s.append(list.as_str());
            s.append("\n");
            s.append(command.basic_desc);
            s.append("\n");
            match command.detailed_desc {
                Some(d) => s.append(d),
                None => {},
            }
            proof {
                if command.detailed_desc is None {
                    assert(s@ =~= s@ + Seq::<char>::empty());
                }
            }
            state.log_info_title(command.name, s.as_str());
            Ok(())
        },
    }
}

} // verus!
