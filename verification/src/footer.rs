//! The footer: the keys of the focused component, wrapped into lines.

use vstd::prelude::*;
use crate::canvas::canvas_footer_text;
use crate::input::input_footer_text;
use crate::log_panel::log_panel_footer_text;
use crate::state::{AppState, Focus};
use vstd::string::StringSliceAdditionalSpecFns;

verus! {

/// The text that the footer starts with.
pub open spec fn footer_start() -> Seq<char> {
    " Actions:"@
}

/// The footer text, the length of its last line, and its line count after
/// the segments `segs` (their lengths in bytes) were added.
pub open spec fn footer_fold(segs: Seq<&str>, max: int) -> (Seq<char>, int, int)
    decreases segs.len(),
{
    if segs.len() == 0 {
        (footer_start(), 9, 1)
    } else {
        let (c, l, k) = footer_fold(segs.drop_last(), max);
        let seg = segs.last();
        let n = seg.spec_bytes().len() as int;
        if l + n > max {
            (c + "\n"@ + " "@ + seg@, n + 1, k + 1)
        } else {
            (c + " "@ + seg@, l + n + 1, k)
        }
    }
}

/// The longest footer line (in bytes) that the segments can reach.
pub open spec fn footer_width_bound(segs: Seq<&str>) -> int
    decreases segs.len(),
{
    if segs.len() == 0 {
        9
    } else {
        footer_width_bound(segs.drop_last()) + segs.last().spec_bytes().len() + 1
    }
}

proof fn lemma_footer_bounds(segs: Seq<&str>, max: int)
    ensures
        footer_fold(segs, max).1 <= footer_width_bound(segs),
        footer_fold(segs, max).2 <= segs.len() + 1,
        footer_fold(segs, max).1 >= 0,
    decreases segs.len(),
{
    if segs.len() > 0 {
        lemma_footer_bounds(segs.drop_last(), max);
    }
}

/// Lays the segments out after " Actions:", separated by spaces, starting a
/// new line before a segment that would take the line beyond `line_wid`
/// bytes. Returns the text and its line count.
pub fn render_text(line_wid: usize, segments: &Vec<&str>) -> (r: (String, u16))
    requires
        footer_width_bound(segments@) <= usize::MAX,
        segments@.len() < u16::MAX,
    ensures
        r.0@ == footer_fold(segments@, line_wid as int).0,
        r.1 == footer_fold(segments@, line_wid as int).2,
{
    let mut content = String::from_str(" Actions:");
    let mut line_len: usize = 9;
    let max_line_len = line_wid;
    let mut line_count: u16 = 1;
    let mut i: usize = 0;
    while i < segments.len()
        invariant
            i <= segments@.len(),
            max_line_len == line_wid,
            footer_width_bound(segments@) <= usize::MAX,
            segments@.len() < u16::MAX,
            footer_fold(segments@.take(i as int), line_wid as int) == (content@, line_len as int, line_count as int),
        decreases segments@.len() - i,
    {
        let seg = segments[i];
        let ghost pre = segments@.take(i as int);
        proof {
            let t = segments@.take(i + 1);
            assert(t.drop_last() =~= pre);
            lemma_footer_bounds(pre, line_wid as int);
            assert(footer_width_bound(t) <= footer_width_bound(segments@)) by {
                lemma_width_bound_prefix(segments@, i + 1);
            }
        }
        let n = seg.len();
        if line_len + n > max_line_len {
            content.append("\n");
            line_len = 0;
            line_count = line_count + 1;
        }
        content.append(" ");
        content.append(seg);
        line_len = line_len + n + 1;
        i = i + 1;
    }
    proof {
        assert(segments@.take(segments@.len() as int) =~= segments@);
    }
    (content, line_count)
}

proof fn lemma_width_bound_prefix(segs: Seq<&str>, i: int)
    requires
        0 <= i <= segs.len(),
    ensures
        footer_width_bound(segs.take(i)) <= footer_width_bound(segs),
    decreases segs.len() - i,
{
    if i < segs.len() {
        lemma_width_bound_prefix(segs, i + 1);
        assert(segs.take(i + 1).drop_last() =~= segs.take(i));
    } else {
        assert(segs.take(i) =~= segs);
    }
}

impl AppState {
    /// The keys of the focused component, for the footer.
    pub fn footer_text(&self) -> (r: Vec<&'static str>)
        ensures
            self.focused == Focus::LogPanel ==> r@ == seq!["ScrollUp[k/up]", "ScrollDown[j/down]"],
            self.focused == Focus::Input ==> r@ == seq!["Execute the command [Enter]",
                "Repeat last command [Ctrl+R]", "Edit last commands [Ctrl+E/Arrows]"],
            self.focused == Focus::Canvas ==> r@ == crate::canvas::canvas_keys(),
    {
        match self.focused {
            Focus::LogPanel => log_panel_footer_text(),
            Focus::Canvas => canvas_footer_text(),
            Focus::Input => input_footer_text(),
        }
    }
}

/// `s` with each key of the footer highlighted: `[` followed by an accent
/// tag, `]` preceded by its end.
pub open spec fn highlighted(s: Seq<char>) -> Seq<char>
    decreases s.len(),
{
    if s.len() == 0 {
        seq![]
    } else {
        let c = s.last();
        highlighted(s.drop_last()) + if c == '[' {
            "[<acc "@
        } else if c == ']' {
            ">]"@
        } else {
            seq![c]
        }
    }
}

/// Highlights the keys of a footer text (see `highlighted`).
pub fn highlight_keys(s: &str) -> (r: String)
    ensures
        r@ == highlighted(s@),
{
    let n = s.unicode_len();
    let mut res = String::new();
    let mut i: usize = 0;
    while i < n
        invariant
            n == s@.len(),
            i <= n,
            res@ == highlighted(s@.take(i as int)),
        decreases n - i,
    {
        let c = s.get_char(i);
        proof {
            let t = s@.take(i + 1);
            assert(t.drop_last() =~= s@.take(i as int));
            assert(t.last() == c);
        }
        if c == '[' {
            res.append("[<acc ");
        } else if c == ']' {
            res.append(">]");
        } else {
            assert(s@.subrange(i as int, i + 1) =~= seq![c]);
            res.append(s.substring_char(i, i + 1));
        }
        i = i + 1;
    }
    proof {
        assert(s@.take(n as int) =~= s@);
    }
    res
}

} // verus!
