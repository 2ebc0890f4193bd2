//! The markup tags of the log messages (`<tag text>`) and the text that
//! prints the log on a plain terminal at exit.

use vstd::prelude::*;
use crate::text::{starts_with, str_eq, strings_view};

verus! {

/// A colour as red, green and blue.
pub type Rgb = (u8, u8, u8);

/// The accent colour.
pub open spec fn acc_colour() -> Rgb {
    (255, 170, 60)
}

/// The colour that a colour tag names, if it is one.
pub open spec fn tag_colour_spec(tag: Seq<char>) -> Option<Rgb> {
    if tag == "acc"@ {
        Some(acc_colour())
    } else if tag == "command"@ {
        Some((120, 200, 255))
    } else if tag == "red"@ {
        Some((255, 90, 90))
    } else if tag == "green"@ {
        Some((120, 220, 120))
    } else if tag == "blue"@ {
        Some((100, 150, 255))
    } else if tag == "yellow"@ {
        Some((240, 220, 80))
    } else if tag == "dim"@ {
        Some((90, 90, 90))
    } else {
        None
    }
}

/// The colour that a colour tag names (`acc`, `command`, `red`, `green`,
/// `blue`, `yellow`, `dim`).
pub fn tag_colour(tag: &str) -> (r: Option<Rgb>)
    ensures
        r == tag_colour_spec(tag@),
{
    if str_eq(tag, "acc") {
        Some((255, 170, 60))
    } else if str_eq(tag, "command") {
        Some((120, 200, 255))
    } else if str_eq(tag, "red") {
        Some((255, 90, 90))
    } else if str_eq(tag, "green") {
        Some((120, 220, 120))
    } else if str_eq(tag, "blue") {
        Some((100, 150, 255))
    } else if str_eq(tag, "yellow") {
        Some((240, 220, 80))
    } else if str_eq(tag, "dim") {
        Some((90, 90, 90))
    } else {
        None
    }
}

/// The style that a tag gives on a plain terminal.
#[derive(Clone, Copy, PartialEq, Eq, Structural, Debug)]
pub enum TagStyle {
    /// Text in the colour.
    Foreground(u8, u8, u8),
    /// Black text on the colour.
    Background(u8, u8, u8),
}

/// The style of a tag: `bg` followed by a colour tag sets the background,
/// a colour tag the foreground; other tags have none.
pub open spec fn tag_style_spec(tag: Seq<char>) -> Option<TagStyle> {
    if "bg"@.is_prefix_of(tag) && tag_colour_spec(tag.skip(2)) is Some {
        let c = tag_colour_spec(tag.skip(2))->0;
        Some(TagStyle::Background(c.0, c.1, c.2))
    } else {
        match tag_colour_spec(tag) {
            Some(c) => Some(TagStyle::Foreground(c.0, c.1, c.2)),
            None => None,
        }
    }
}

/// The style that `tag` gives on a plain terminal (see `tag_style_spec`).
pub fn tag_style(tag: &str) -> (r: Option<TagStyle>)
    ensures
        r == tag_style_spec(tag@),
{
    proof {
        reveal_strlit("bg");
    }
    if starts_with(tag, "bg") {
        let rest = tag.substring_char(2, tag.unicode_len());
        assert(rest@ =~= tag@.skip(2));
        if let Some(c) = tag_colour(rest) {
            return Some(TagStyle::Background(c.0, c.1, c.2));
        }
    }
    match tag_colour(tag) {
        Some(c) => Some(TagStyle::Foreground(c.0, c.1, c.2)),
        None => None,
    }
}

/// The text, with terminal escape codes, that `tui_markup::compile_with`
/// makes of `message` with the ANSI generator over `tag_style`, or `None`
/// when the message does not parse as markup.
pub uninterp spec fn ansi_markup(message: Seq<char>) -> Option<Seq<char>>;

/// The view of an optional string.
pub open spec fn opt_string_view(s: Option<String>) -> Option<Seq<char>> {
    match s {
        Some(t) => Some(t@),
        None => None,
    }
}

/// `tui_markup::compile_with` with an `ANSIStringsGenerator` whose custom
/// tags are those of `tag_style`, the pieces joined by `ansi_term::ANSIStrings`.
/// The contract names the result, which depends on the message alone.
#[verifier::external_body]
fn compile_ansi(message: &str) -> (r: Option<String>)
    ensures
        opt_string_view(r) == ansi_markup(message@),
{
    let gen = tui_markup::generator::ANSIStringsGenerator::new(|tag: &str| tag_style(tag).map(|t| match t {
        TagStyle::Foreground(r, g, b) => ansi_term::Colour::RGB(r, g, b).normal(),
        TagStyle::Background(r, g, b) => ansi_term::Colour::Black.on(ansi_term::Colour::RGB(r, g, b)),
    }));
    tui_markup::compile_with(message, gen).ok().map(|s| ansi_term::ANSIStrings(&s).to_string())
}

/// The markup of the rule printed between two messages: `width` dashes,
/// dimmed.
pub open spec fn rule_markup(width: nat) -> Seq<char> {
    "<dim "@ + Seq::new(width, |i: int| '-') + ">"@
}

/// `lines` with `rule` between two of them.
pub open spec fn with_rules(lines: Seq<Seq<char>>, rule: Seq<char>) -> Seq<Seq<char>>
    decreases lines.len(),
{
    if lines.len() <= 1 {
        lines
    } else {
        with_rules(lines.drop_last(), rule).push(rule).push(lines.last())
    }
}

/// Puts `rule` between two of the compiled messages.
pub fn interleave_rule(compiled: &Vec<String>, rule: &String) -> (r: Vec<String>)
    ensures
        strings_view(r@) == with_rules(strings_view(compiled@), rule@),
{
    let ghost all = strings_view(compiled@);
    let mut r: Vec<String> = Vec::new();
    let mut i: usize = 0;
    while i < compiled.len()
        invariant
            i <= compiled@.len(),
            all == strings_view(compiled@),
            strings_view(r@) == with_rules(all.take(i as int), rule@),
        decreases compiled@.len() - i,
    {
        let ghost before = strings_view(r@);
        if i > 0 {
            r.push(rule.clone());
        }
        r.push(compiled[i].clone());
        proof {
            assert(all.take(i as int + 1).drop_last() =~= all.take(i as int));
            assert(all[i as int] == compiled@[i as int]@);
            if i == 0 {
                assert(strings_view(r@) =~= all.take(1));
            } else {
                assert(strings_view(r@) =~= before.push(rule@).push(all[i as int]));
            }
        }
        i = i + 1;
    }
    assert(all.take(compiled@.len() as int) =~= all);
    r
}

/// Every message compiles.
pub open spec fn all_compile(messages: Seq<Seq<char>>) -> bool {
    forall|i: int| 0 <= i < messages.len() ==> #[trigger] ansi_markup(messages[i]) is Some
}

/// The compiled messages.
pub open spec fn compiled_messages(messages: Seq<Seq<char>>) -> Seq<Seq<char>> {
    messages.map_values(|m: Seq<char>| ansi_markup(m)->0)
}

/// What printing the log gives: when the rule and every message compile,
/// the compiled messages with the compiled rule between two of them.
pub open spec fn log_printout_spec(messages: Seq<Seq<char>>, width: nat) -> Option<Seq<Seq<char>>> {
    match ansi_markup(rule_markup(width)) {
        Some(rule) => if all_compile(messages) {
            Some(with_rules(compiled_messages(messages), rule))
        } else {
            None
        },
        None => None,
    }
}

/// The lines that print the log on a plain terminal at exit: each message
/// compiled from its markup, a dimmed rule of `width` dashes between two;
/// `None` when a message or the rule is not valid markup.
pub fn log_printout(messages: &Vec<String>, width: u16) -> (r: Option<Vec<String>>)
    ensures
        match r {
            Some(lines) => log_printout_spec(strings_view(messages@), width as nat) == Some(strings_view(lines@)),
            None => log_printout_spec(strings_view(messages@), width as nat) is None,
        },
{
    let mut markup = String::from_str("<dim ");
    let mut k: u16 = 0;
    while k < width
        invariant
            k <= width,
            markup@ == "<dim "@ + Seq::new(k as nat, |i: int| '-'),
        decreases width - k,
    {
        markup.append("-");
        proof {
            reveal_strlit("-");
            assert(markup@ =~= "<dim "@ + Seq::new((k + 1) as nat, |i: int| '-'));
        }
        k = k + 1;
    }
    markup.append(">");
    assert(markup@ == rule_markup(width as nat));
    let rule = match compile_ansi(markup.as_str()) {
        Some(r) => r,
        None => return None,
    };
    let ghost msgs = strings_view(messages@);
    let mut compiled: Vec<String> = Vec::new();
    let mut i: usize = 0;
    while i < messages.len()
        invariant
            i <= messages@.len(),
            msgs == strings_view(messages@),
            compiled@.len() == i,
            forall|j: int| 0 <= j < i ==> #[trigger] ansi_markup(msgs[j]) == Some(compiled@[j]@),
        decreases messages@.len() - i,
    {
        let c = match compile_ansi(messages[i].as_str()) {
            Some(t) => t,
            None => {
                assert(msgs[i as int] == messages@[i as int]@);
                assert(!all_compile(msgs));
                return None;
            },
        };
        assert(msgs[i as int] == messages@[i as int]@);
        compiled.push(c);
        i = i + 1;
    }
    assert(all_compile(msgs));
    assert(strings_view(compiled@) =~= compiled_messages(msgs));
    Some(interleave_rule(&compiled, &rule))
}

} // verus!
