//! The text of state files: one `key=value` line per setting held, in a
//! fixed order. Reading skips empty lines and lines that start with `#`,
//! ignores unknown keys, lets a later line of a key override an earlier one,
//! and stops at the first line without `=` or with an integer that does not
//! parse.

use vstd::prelude::*;
use crate::loading::SavedState;
use crate::text::{
    i64_to_text, int_text, parse_i32, parse_i32_spec, parse_u32, parse_u32_spec, str_eq, u64_to_text,
};

verus! {

/// What a state file holds, as values.
pub struct SavedFields {
    pub frac_name: Option<Seq<char>>,
    pub color_palette_name: Option<Seq<char>>,
    pub palette_offset: Option<i32>,
    pub precision: Option<u32>,
    pub smoothness: Option<i32>,
    pub pos: Option<Seq<char>>,
    pub mandel_constant: Option<Seq<char>>,
    pub julia_constant: Option<Seq<char>>,
    pub bailout: Option<Seq<char>>,
    pub complex_width: Option<Seq<char>>,
    pub max_iter: Option<i32>,
    pub void_fill: Option<Seq<char>>,
}

/// The text of an optional string.
pub open spec fn opt_text(o: Option<String>) -> Option<Seq<char>> {
    match o {
        Some(s) => Some(s@),
        None => None,
    }
}

/// The values a `SavedState` holds.
pub open spec fn fields_of(s: SavedState) -> SavedFields {
    SavedFields {
        frac_name: opt_text(s.frac_name),
        color_palette_name: opt_text(s.color_palette_name),
        palette_offset: s.palette_offset,
        precision: s.precision,
        smoothness: s.smoothness,
        pos: opt_text(s.pos),
        mandel_constant: opt_text(s.mandel_constant),
        julia_constant: opt_text(s.julia_constant),
        bailout: opt_text(s.bailout),
        complex_width: opt_text(s.complex_width),
        max_iter: s.max_iter,
        void_fill: opt_text(s.void_fill),
    }
}

/// A state file that holds nothing.
pub open spec fn no_fields() -> SavedFields {
    SavedFields {
        frac_name: None,
        color_palette_name: None,
        palette_offset: None,
        precision: None,
        smoothness: None,
        pos: None,
        mandel_constant: None,
        julia_constant: None,
        bailout: None,
        complex_width: None,
        max_iter: None,
        void_fill: None,
    }
}

/// The error of a line without `=`.
pub open spec fn bad_line_text() -> Seq<char> {
    "Invalid line in state file: expected <command key=value>."@
}

/// The error of an integer setting that does not parse.
pub open spec fn bad_value_text(key: Seq<char>) -> Seq<char> {
    "Invalid value for <command "@ + key + "> in state file."@
}

/// The position of the first `=` of `line` at or after `i`.
pub open spec fn eq_pos(line: Seq<char>, i: int) -> Option<int>
    decreases line.len() - i,
{
    if i < 0 || i >= line.len() {
        None
    } else if line[i] == '=' {
        Some(i)
    } else {
        eq_pos(line, i + 1)
    }
}

/// `f` with the setting `key` read from `v`; unknown keys are ignored.
pub open spec fn set_field(f: SavedFields, key: Seq<char>, v: Seq<char>) -> Result<SavedFields, Seq<char>> {
    if key == "frac_name"@ {
        Ok(SavedFields { frac_name: Some(v), ..f })
    } else if key == "color_palette_name"@ {
        Ok(SavedFields { color_palette_name: Some(v), ..f })
    } else if key == "palette_offset"@ {
        match parse_i32_spec(v) {
            Some(x) => Ok(SavedFields { palette_offset: Some(x), ..f }),
            None => Err(bad_value_text(key)),
        }
    } else if key == "precision"@ {
        match parse_u32_spec(v) {
            Some(x) => Ok(SavedFields { precision: Some(x), ..f }),
            None => Err(bad_value_text(key)),
        }
    } else if key == "smoothness"@ {
        match parse_i32_spec(v) {
            Some(x) => Ok(SavedFields { smoothness: Some(x), ..f }),
            None => Err(bad_value_text(key)),
        }
    } else if key == "pos"@ {
        Ok(SavedFields { pos: Some(v), ..f })
    } else if key == "mandel_constant"@ {
        Ok(SavedFields { mandel_constant: Some(v), ..f })
    } else if key == "julia_constant"@ {
        Ok(SavedFields { julia_constant: Some(v), ..f })
    } else if key == "bailout"@ {
        Ok(SavedFields { bailout: Some(v), ..f })
    } else if key == "complex_width"@ {
        Ok(SavedFields { complex_width: Some(v), ..f })
    } else if key == "max_iter"@ {
        match parse_i32_spec(v) {
            Some(x) => Ok(SavedFields { max_iter: Some(x), ..f }),
            None => Err(bad_value_text(key)),
        }
    } else if key == "void_fill"@ {
        Ok(SavedFields { void_fill: Some(v), ..f })
    } else {
        Ok(f)
    }
}

/// `f` after reading `line`.
pub open spec fn read_line(f: SavedFields, line: Seq<char>) -> Result<SavedFields, Seq<char>> {
    if line.len() == 0 || line[0] == '#' {
        Ok(f)
    } else {
        match eq_pos(line, 0) {
            None => Err(bad_line_text()),
            Some(k) => set_field(f, line.subrange(0, k), line.subrange(k + 1, line.len() as int)),
        }
    }
}

/// The settings that `lines` give, read in order from an empty file.
pub open spec fn read_lines(lines: Seq<Seq<char>>) -> Result<SavedFields, Seq<char>>
    decreases lines.len(),
{
    if lines.len() == 0 {
        Ok(no_fields())
    } else {
        match read_lines(lines.drop_last()) {
            Err(e) => Err(e),
            Ok(f) => read_line(f, lines.last()),
        }
    }
}

/// The lines of `s` ended by a newline, and the text after the last one.
pub open spec fn split_lines(s: Seq<char>) -> (Seq<Seq<char>>, Seq<char>)
    decreases s.len(),
{
    if s.len() == 0 {
        (Seq::empty(), Seq::empty())
    } else {
        let (ls, cur) = split_lines(s.drop_last());
        if s.last() == '\n' {
            (ls.push(cur), Seq::empty())
        } else {
            (ls, cur.push(s.last()))
        }
    }
}

/// The lines of `s`; a last line needs no newline.
pub open spec fn lines(s: Seq<char>) -> Seq<Seq<char>> {
    let (ls, cur) = split_lines(s);
    if cur.len() == 0 {
        ls
    } else {
        ls.push(cur)
    }
}

/// The settings a state file text gives, or the error that stops reading.
pub open spec fn read_state(text: Seq<char>) -> Result<SavedFields, Seq<char>> {
    read_lines(lines(text))
}

/// The line of a setting.
pub open spec fn setting_line(key: Seq<char>, value: Seq<char>) -> Seq<char> {
    key + "="@ + value
}

/// The line of an optional setting, with its newline, or nothing.
pub open spec fn opt_line(key: Seq<char>, v: Option<Seq<char>>) -> Seq<char> {
    match v {
        Some(x) => setting_line(key, x) + "\n"@,
        None => Seq::empty(),
    }
}

/// The text of an optional integer.
pub open spec fn int_opt(v: Option<i32>) -> Option<Seq<char>> {
    match v {
        Some(x) => Some(int_text(x as int)),
        None => None,
    }
}

/// The text of an optional unsigned integer.
pub open spec fn uint_opt(v: Option<u32>) -> Option<Seq<char>> {
    match v {
        Some(x) => Some(int_text(x as int)),
        None => None,
    }
}

/// The text of a state file holding `f`.
pub open spec fn state_text(f: SavedFields) -> Seq<char> {
    opt_line("frac_name"@, f.frac_name) + opt_line("color_palette_name"@, f.color_palette_name)
        + opt_line("palette_offset"@, int_opt(f.palette_offset)) + opt_line("precision"@, uint_opt(f.precision))
        + opt_line("smoothness"@, int_opt(f.smoothness)) + opt_line("pos"@, f.pos)
        + opt_line("mandel_constant"@, f.mandel_constant) + opt_line("julia_constant"@, f.julia_constant)
        + opt_line("bailout"@, f.bailout) + opt_line("complex_width"@, f.complex_width)
        + opt_line("max_iter"@, int_opt(f.max_iter)) + opt_line("void_fill"@, f.void_fill)
}

/// Appends the line of an optional text setting.
fn push_text(out: &mut String, key: &str, v: &Option<String>)
    ensures
        final(out)@ == old(out)@ + opt_line(key@, opt_text(*v)),
{
    match v {
        Some(x) => {
            out.append(key);
            out.append("=");
            out.append(x.as_str());
            out.append("\n");
        },
        None => {
            assert(old(out)@ + opt_line(key@, opt_text(*v)) =~= old(out)@);
        },
    }
}

/// Appends the line of an optional integer setting.
fn push_int(out: &mut String, key: &str, v: Option<i32>)
    ensures
        final(out)@ == old(out)@ + opt_line(key@, int_opt(v)),
{
    match v {
        Some(x) => {
            out.append(key);
            out.append("=");
            let t = i64_to_text(x as i64);
            out.append(t.as_str());
            out.append("\n");
        },
        None => {
            assert(old(out)@ + opt_line(key@, int_opt(v)) =~= old(out)@);
        },
    }
}

/// Appends the line of an optional unsigned integer setting.
fn push_uint(out: &mut String, key: &str, v: Option<u32>)
    ensures
        final(out)@ == old(out)@ + opt_line(key@, uint_opt(v)),
{
    match v {
        Some(x) => {
            out.append(key);
            out.append("=");
            let t = u64_to_text(x as u64);
            out.append(t.as_str());
            out.append("\n");
        },
        None => {
            assert(old(out)@ + opt_line(key@, uint_opt(v)) =~= old(out)@);
        },
    }
}

/// The text of a state file holding `saved`.
pub fn state_file_text(saved: &SavedState) -> (r: String)
    ensures
        r@ == state_text(fields_of(*saved)),
{
    let mut out = String::new();
    push_text(&mut out, "frac_name", &saved.frac_name);
    push_text(&mut out, "color_palette_name", &saved.color_palette_name);
    push_int(&mut out, "palette_offset", saved.palette_offset);
    push_uint(&mut out, "precision", saved.precision);
    push_int(&mut out, "smoothness", saved.smoothness);
    push_text(&mut out, "pos", &saved.pos);
    push_text(&mut out, "mandel_constant", &saved.mandel_constant);
    push_text(&mut out, "julia_constant", &saved.julia_constant);
    push_text(&mut out, "bailout", &saved.bailout);
    push_text(&mut out, "complex_width", &saved.complex_width);
    push_int(&mut out, "max_iter", saved.max_iter);
    push_text(&mut out, "void_fill", &saved.void_fill);
    proof {
        assert(out@ =~= state_text(fields_of(*saved)));
    }
    out
}

/// Reading after an error keeps the error.
proof fn lemma_read_lines_error(p: Seq<Seq<char>>, q: Seq<Seq<char>>)
    requires
        read_lines(p) is Err,
    ensures
        read_lines(p + q) == read_lines(p),
    decreases q.len(),
{
    if q.len() == 0 {
        assert(p + q =~= p);
    } else {
        lemma_read_lines_error(p, q.drop_last());
        assert((p + q).drop_last() =~= p + q.drop_last());
    }
}

/// Splitting a text that follows a complete line: the lines of the first
/// part, then those of the second.
proof fn lemma_split_after_line(a: Seq<char>, b: Seq<char>)
    requires
        split_lines(a).1.len() == 0,
    ensures
        split_lines(a + b) == (split_lines(a).0 + split_lines(b).0, split_lines(b).1),
    decreases b.len(),
{
    if b.len() == 0 {
        assert(a + b =~= a);
        assert(split_lines(a).0 + split_lines(b).0 =~= split_lines(a).0);
    } else {
        lemma_split_after_line(a, b.drop_last());
        assert((a + b).drop_last() =~= a + b.drop_last());
        assert((a + b).last() == b.last());
        let (lb, cb) = split_lines(b.drop_last());
        if b.last() == '\n' {
            assert(split_lines(a).0 + lb.push(cb) =~= (split_lines(a).0 + lb).push(cb));
        }
    }
}

/// The position of the first `=` of `line`.
fn find_eq(line: &str) -> (r: Option<usize>)
    ensures
        r is None <==> eq_pos(line@, 0) is None,
        r matches Some(k) ==> eq_pos(line@, 0) == Some(k as int) && k < line@.len(),
{
    let n = line.unicode_len();
    let mut i: usize = 0;
    while i < n
        invariant
            n == line@.len(),
            i <= n,
            eq_pos(line@, 0) == eq_pos(line@, i as int),
        decreases n - i,
    {
        if line.get_char(i) == '=' {
            return Some(i);
        }
        i = i + 1;
    }
    None
}

/// The error of an integer setting, built.
fn bad_value(key: &str) -> (r: String)
    ensures
        r@ == bad_value_text(key@),
{
    let mut s = String::from_str("Invalid value for <command ");
    s.append(key);
    s.append("> in state file.");
    s
}

/// Reads the setting `key` from `v` into `saved` (see `set_field`).
fn set_field_exec(saved: &mut SavedState, key: &str, v: &str) -> (r: Result<(), String>)
    ensures
        match set_field(fields_of(*old(saved)), key@, v@) {
            Ok(f) => r is Ok && fields_of(*final(saved)) == f,
            Err(e) => r matches Err(m) && m@ == e,
        },
{
    if str_eq(key, "frac_name") {
        saved.frac_name = Some(String::from_str(v));
    } else if str_eq(key, "color_palette_name") {
        saved.color_palette_name = Some(String::from_str(v));
    } else if str_eq(key, "palette_offset") {
        match parse_i32(v) {
            Ok(x) => saved.palette_offset = Some(x),
            Err(_) => return Err(bad_value(key)),
        }
    } else if str_eq(key, "precision") {
        match parse_u32(v) {
            Some(x) => saved.precision = Some(x),
            None => return Err(bad_value(key)),
        }
    } else if str_eq(key, "smoothness") {
        match parse_i32(v) {
            Ok(x) => saved.smoothness = Some(x),
            Err(_) => return Err(bad_value(key)),
        }
    } else if str_eq(key, "pos") {
        saved.pos = Some(String::from_str(v));
    } else if str_eq(key, "mandel_constant") {
        saved.mandel_constant = Some(String::from_str(v));
    } else if str_eq(key, "julia_constant") {
        saved.julia_constant = Some(String::from_str(v));
    } else if str_eq(key, "bailout") {
        saved.bailout = Some(String::from_str(v));
    } else if str_eq(key, "complex_width") {
        saved.complex_width = Some(String::from_str(v));
    } else if str_eq(key, "max_iter") {
        match parse_i32(v) {
            Ok(x) => saved.max_iter = Some(x),
            Err(_) => return Err(bad_value(key)),
        }
    } else if str_eq(key, "void_fill") {
        saved.void_fill = Some(String::from_str(v));
    }
    Ok(())
}

/// Reads one line into `saved` (see `read_line`).
fn read_line_exec(saved: &mut SavedState, line: &str) -> (r: Result<(), String>)
    ensures
        match read_line(fields_of(*old(saved)), line@) {
            Ok(f) => r is Ok && fields_of(*final(saved)) == f,
            Err(e) => r matches Err(m) && m@ == e,
        },
{
    let n = line.unicode_len();
    if n == 0 || line.get_char(0) == '#' {
        return Ok(());
    }
    match find_eq(line) {
        None => Err(String::from_str("Invalid line in state file: expected <command key=value>.")),
        Some(k) => {
            let key = line.substring_char(0, k);
            let v = line.substring_char(k + 1, n);
            assert(read_line(fields_of(*old(saved)), line@) == set_field(fields_of(*old(saved)), key@, v@));
            set_field_exec(saved, key, v)
        },
    }
}

/// A state with no settings.
pub fn empty_saved_state() -> (r: SavedState)
    ensures
        fields_of(r) == no_fields(),
{
    SavedState {
        frac_name: None,
        color_palette_name: None,
        palette_offset: None,
        precision: None,
        smoothness: None,
        pos: None,
        mandel_constant: None,
        julia_constant: None,
        bailout: None,
        complex_width: None,
        max_iter: None,
        void_fill: None,
    }
}

/// Reads the text of a state file (see `read_state`).
pub fn parse_state_file(text: &str) -> (r: Result<SavedState, String>)
    ensures
        match read_state(text@) {
            Ok(f) => r matches Ok(s) && fields_of(s) == f,
            Err(e) => r matches Err(m) && m@ == e,
        },
{
    let n = text.unicode_len();
    let mut saved = empty_saved_state();
    let mut start: usize = 0;
    let mut i: usize = 0;
    let ghost mut done: Seq<Seq<char>> = Seq::empty();
    assert(text@.take(0) =~= Seq::<char>::empty());
    while i < n
        invariant
            n == text@.len(),
            start <= i <= n,
            split_lines(text@.take(i as int)) == (done, text@.subrange(start as int, i as int)),
            read_lines(done) == Ok::<SavedFields, Seq<char>>(fields_of(saved)),
        decreases n - i,
    {
        let c = text.get_char(i);
        assert(text@.take(i + 1).drop_last() =~= text@.take(i as int));
        assert(text@.take(i + 1).last() == c);
        if c == '\n' {
            let line = text.substring_char(start, i);
            let ghost before = fields_of(saved);
            let res = read_line_exec(&mut saved, line);
            proof {
                assert(done.push(line@).drop_last() =~= done);
            }
            if let Err(e) = res {
                proof {
                    let pre = text@.take(i + 1);
                    let rest = text@.subrange(i + 1, n as int);
                    assert(pre + rest =~= text@);
                    assert(split_lines(pre) == (done.push(line@), Seq::<char>::empty()));
                    lemma_split_after_line(pre, rest);
                    let (lr, cr) = split_lines(rest);
                    let tail = if cr.len() == 0 { lr } else { lr.push(cr) };
                    assert(lines(text@) =~= done.push(line@) + tail);
                    lemma_read_lines_error(done.push(line@), tail);
                }
                return Err(e);
            }
            proof {
                done = done.push(line@);
            }
            start = i + 1;
            assert(text@.subrange(start as int, i + 1) =~= Seq::<char>::empty());
        } else {
            assert(text@.subrange(start as int, i + 1) =~= text@.subrange(start as int, i as int).push(c));
        }
        i = i + 1;
    }
    assert(text@.take(n as int) =~= text@);
    if start < n {
        let line = text.substring_char(start, n);
        let res = read_line_exec(&mut saved, line);
        proof {
            assert(done.push(line@).drop_last() =~= done);
        }
        match res {
            Err(e) => return Err(e),
            Ok(()) => {},
        }
    }
    Ok(saved)
}

/// The key of setting `i`, in the order of the file.
pub open spec fn key_at(i: int) -> Seq<char> {
    if i == 0 { "frac_name"@ }
    else if i == 1 { "color_palette_name"@ }
    else if i == 2 { "palette_offset"@ }
    else if i == 3 { "precision"@ }
    else if i == 4 { "smoothness"@ }
    else if i == 5 { "pos"@ }
    else if i == 6 { "mandel_constant"@ }
    else if i == 7 { "julia_constant"@ }
    else if i == 8 { "bailout"@ }
    else if i == 9 { "complex_width"@ }
    else if i == 10 { "max_iter"@ }
    else { "void_fill"@ }
}

/// The text of setting `i` of `f`, if held.
pub open spec fn value_at(f: SavedFields, i: int) -> Option<Seq<char>> {
    if i == 0 { f.frac_name }
    else if i == 1 { f.color_palette_name }
    else if i == 2 { int_opt(f.palette_offset) }
    else if i == 3 { uint_opt(f.precision) }
    else if i == 4 { int_opt(f.smoothness) }
    else if i == 5 { f.pos }
    else if i == 6 { f.mandel_constant }
    else if i == 7 { f.julia_constant }
    else if i == 8 { f.bailout }
    else if i == 9 { f.complex_width }
    else if i == 10 { int_opt(f.max_iter) }
    else { f.void_fill }
}

/// The settings of `f` before setting `n`; the later ones are not held.
pub open spec fn upto(f: SavedFields, n: int) -> SavedFields {
    SavedFields {
        frac_name: if n > 0 { f.frac_name } else { None },
        color_palette_name: if n > 1 { f.color_palette_name } else { None },
        palette_offset: if n > 2 { f.palette_offset } else { None },
        precision: if n > 3 { f.precision } else { None },
        smoothness: if n > 4 { f.smoothness } else { None },
        pos: if n > 5 { f.pos } else { None },
        mandel_constant: if n > 6 { f.mandel_constant } else { None },
        julia_constant: if n > 7 { f.julia_constant } else { None },
        bailout: if n > 8 { f.bailout } else { None },
        complex_width: if n > 9 { f.complex_width } else { None },
        max_iter: if n > 10 { f.max_iter } else { None },
        void_fill: if n > 11 { f.void_fill } else { None },
    }
}

/// The text of the settings of `f` before setting `n`.
pub open spec fn text_upto(f: SavedFields, n: int) -> Seq<char>
    decreases n,
{
    if n <= 0 {
        Seq::empty()
    } else {
        text_upto(f, n - 1) + opt_line(key_at(n - 1), value_at(f, n - 1))
    }
}

/// The line of an optional setting, alone in a list, or nothing.
pub open spec fn opt_setting(key: Seq<char>, v: Option<Seq<char>>) -> Seq<Seq<char>> {
    match v {
        Some(x) => seq![setting_line(key, x)],
        None => Seq::empty(),
    }
}

/// The lines of the settings of `f` before setting `n`.
pub open spec fn lines_upto(f: SavedFields, n: int) -> Seq<Seq<char>>
    decreases n,
{
    if n <= 0 {
        Seq::empty()
    } else {
        lines_upto(f, n - 1) + opt_setting(key_at(n - 1), value_at(f, n - 1))
    }
}

/// A text setting can be written: it holds no newline.
pub open spec fn one_line(o: Option<Seq<char>>) -> bool {
    o matches Some(x) ==> !x.contains('\n')
}

/// Every text setting of `f` can be written.
pub open spec fn writable(f: SavedFields) -> bool {
    &&& one_line(f.frac_name)
    &&& one_line(f.color_palette_name)
    &&& one_line(f.pos)
    &&& one_line(f.mandel_constant)
    &&& one_line(f.julia_constant)
    &&& one_line(f.bailout)
    &&& one_line(f.complex_width)
    &&& one_line(f.void_fill)
}

/// A text without newline is an unfinished line.
proof fn lemma_split_no_newline(t: Seq<char>)
    requires
        !t.contains('\n'),
    ensures
        split_lines(t) == (Seq::<Seq<char>>::empty(), t),
    decreases t.len(),
{
    if t.len() > 0 {
        assert(!t.drop_last().contains('\n')) by {
            if t.drop_last().contains('\n') {
                let k = choose|k: int| 0 <= k < t.drop_last().len() && t.drop_last()[k] == '\n';
                assert(t[k] == '\n');
            }
        }
        lemma_split_no_newline(t.drop_last());
        assert(t[t.len() - 1] != '\n');
        assert(t.drop_last().push(t.last()) =~= t);
    }
}

/// The integers a state file writes read back.
proof fn lemma_int_text_reads_back(v: i32)
    ensures
        parse_i32_spec(int_text(v as int)) == Some(v),
{
    if v < 0 {
        crate::commands::files::lemma_nat_text_digits((-(v as int)) as nat);
        let t = int_text(v as int);
        assert(t.drop_first() =~= crate::text::nat_text((-(v as int)) as nat));
    } else {
        crate::commands::files::lemma_nat_text_digits(v as nat);
    }
}

/// The unsigned integers a state file writes read back.
proof fn lemma_uint_text_reads_back(v: u32)
    ensures
        parse_u32_spec(int_text(v as int)) == Some(v),
{
    crate::commands::files::lemma_nat_text_digits(v as nat);
}

/// The first `=` of a text is found after the characters that are not `=`.
proof fn lemma_eq_pos_after(s: Seq<char>, i: int, m: int)
    requires
        0 <= i <= m < s.len(),
        s[m] == '=',
        forall|j: int| i <= j < m ==> s[j] != '=',
    ensures
        eq_pos(s, i) == Some(m),
    decreases m - i,
{
    if i < m {
        lemma_eq_pos_after(s, i + 1, m);
    }
}

/// The facts about key `i` that reading needs: it is not empty, does not
/// start with `#`, and holds neither `=` nor a newline.
proof fn lemma_key_plain(i: int)
    requires
        0 <= i < 12,
    ensures
        key_at(i).len() > 0,
        key_at(i)[0] != '#',
        forall|j: int| 0 <= j < key_at(i).len() ==> #[trigger] key_at(i)[j] != '=' && key_at(i)[j] != '\n',
{
    reveal_strlit("frac_name");
    reveal_strlit("color_palette_name");
    reveal_strlit("palette_offset");
    reveal_strlit("precision");
    reveal_strlit("smoothness");
    reveal_strlit("pos");
    reveal_strlit("mandel_constant");
    reveal_strlit("julia_constant");
    reveal_strlit("bailout");
    reveal_strlit("complex_width");
    reveal_strlit("max_iter");
    reveal_strlit("void_fill");
}

/// Integers are written without newline.
proof fn lemma_int_text_one_line(v: int)
    ensures
        !int_text(v).contains('\n'),
{
    let n: nat = if v < 0 { (-v) as nat } else { v as nat };
    crate::commands::files::lemma_nat_text_digits(n);
    let t = int_text(v);
    if t.contains('\n') {
        let k = choose|k: int| 0 <= k < t.len() && t[k] == '\n';
        if v < 0 {
            assert(t[k] == (seq!['-'] + crate::text::nat_text(n))[k]);
            if k > 0 {
                assert(t[k] == crate::text::nat_text(n)[k - 1]);
                assert(crate::text::is_digit(crate::text::nat_text(n)[k - 1]));
            }
        } else {
            assert(crate::text::is_digit(crate::text::nat_text(n)[k]));
        }
    }
}

/// Reading the line of setting `i` of `f`, after the settings before it,
/// gives the settings up to it.
proof fn lemma_set_field_at(f: SavedFields, i: int)
    requires
        0 <= i < 12,
        value_at(f, i) is Some,
    ensures
        set_field(upto(f, i), key_at(i), value_at(f, i)->0) == Ok::<SavedFields, Seq<char>>(upto(f, i + 1)),
{
    reveal_strlit("frac_name");
    reveal_strlit("color_palette_name");
    reveal_strlit("palette_offset");
    reveal_strlit("precision");
    reveal_strlit("smoothness");
    reveal_strlit("pos");
    reveal_strlit("mandel_constant");
    reveal_strlit("julia_constant");
    reveal_strlit("bailout");
    reveal_strlit("complex_width");
    reveal_strlit("max_iter");
    reveal_strlit("void_fill");
    assert("precision"@[0] != "frac_name"@[0]);
    assert("void_fill"@[0] != "frac_name"@[0]);
    assert("void_fill"@[0] != "precision"@[0]);
    assert("julia_constant"@[0] != "palette_offset"@[0]);
    assert("frac_name"@.len() == 9 && "color_palette_name"@.len() == 18 && "palette_offset"@.len() == 14);
    assert("precision"@.len() == 9 && "smoothness"@.len() == 10 && "pos"@.len() == 3);
    assert("mandel_constant"@.len() == 15 && "julia_constant"@.len() == 14 && "bailout"@.len() == 7);
    assert("complex_width"@.len() == 13 && "max_iter"@.len() == 8 && "void_fill"@.len() == 9);
    let g = upto(f, i);
    let v = value_at(f, i)->0;
    if i == 0 {
        assert(set_field(g, "frac_name"@, v) == Ok::<SavedFields, Seq<char>>(upto(f, 1)));
    } else if i == 1 {
        assert(set_field(g, "color_palette_name"@, v) == Ok::<SavedFields, Seq<char>>(upto(f, 2)));
    } else if i == 2 {
        lemma_int_text_reads_back(f.palette_offset->0);
        assert(set_field(g, "palette_offset"@, v) == Ok::<SavedFields, Seq<char>>(upto(f, 3)));
    } else if i == 3 {
        lemma_uint_text_reads_back(f.precision->0);
        assert(set_field(g, "precision"@, v) == Ok::<SavedFields, Seq<char>>(upto(f, 4)));
    } else if i == 4 {
        lemma_int_text_reads_back(f.smoothness->0);
        assert(set_field(g, "smoothness"@, v) == Ok::<SavedFields, Seq<char>>(upto(f, 5)));
    } else if i == 5 {
        assert(set_field(g, "pos"@, v) == Ok::<SavedFields, Seq<char>>(upto(f, 6)));
    } else if i == 6 {
        assert(set_field(g, "mandel_constant"@, v) == Ok::<SavedFields, Seq<char>>(upto(f, 7)));
    } else if i == 7 {
        assert(set_field(g, "julia_constant"@, v) == Ok::<SavedFields, Seq<char>>(upto(f, 8)));
    } else if i == 8 {
        assert(set_field(g, "bailout"@, v) == Ok::<SavedFields, Seq<char>>(upto(f, 9)));
    } else if i == 9 {
        assert(set_field(g, "complex_width"@, v) == Ok::<SavedFields, Seq<char>>(upto(f, 10)));
    } else if i == 10 {
        lemma_int_text_reads_back(f.max_iter->0);
        assert(set_field(g, "max_iter"@, v) == Ok::<SavedFields, Seq<char>>(upto(f, 11)));
    } else {
        assert(set_field(g, "void_fill"@, v) == Ok::<SavedFields, Seq<char>>(upto(f, 12)));
    }
}

/// The settings of `f` before setting `n` are written as complete lines,
/// which read back as those settings.
proof fn lemma_upto(f: SavedFields, n: int)
    requires
        writable(f),
        0 <= n <= 12,
    ensures
        split_lines(text_upto(f, n)) == (lines_upto(f, n), Seq::<char>::empty()),
        read_lines(lines_upto(f, n)) == Ok::<SavedFields, Seq<char>>(upto(f, n)),
    decreases n,
{
    if n == 0 {
        assert(upto(f, 0) == no_fields());
    } else {
        let i = n - 1;
        lemma_upto(f, i);
        let key = key_at(i);
        let before = text_upto(f, i);
        let ls = lines_upto(f, i);
        match value_at(f, i) {
            None => {
                assert(text_upto(f, n) =~= before);
                assert(lines_upto(f, n) =~= ls);
                assert(upto(f, n) == upto(f, i));
            },
            Some(x) => {
                lemma_key_plain(i);
                assert(!x.contains('\n')) by {
                    if i == 2 {
                        lemma_int_text_one_line(f.palette_offset->0 as int);
                    } else if i == 3 {
                        lemma_int_text_one_line(f.precision->0 as int);
                    } else if i == 4 {
                        lemma_int_text_one_line(f.smoothness->0 as int);
                    } else if i == 10 {
                        lemma_int_text_one_line(f.max_iter->0 as int);
                    }
                }
                let line = setting_line(key, x);
                reveal_strlit("=");
                reveal_strlit("\n");
                assert(line =~= key + seq!['='] + x);
                assert(!line.contains('\n')) by {
                    if line.contains('\n') {
                        let k = choose|k: int| 0 <= k < line.len() && line[k] == '\n';
                        if k < key.len() {
                            assert(key[k] == line[k]);
                        } else if k > key.len() {
                            assert(x[k - key.len() - 1] == line[k]);
                        }
                    }
                }
                lemma_split_no_newline(line);
                assert(line + "\n"@ =~= line.push('\n'));
                assert(line.push('\n').drop_last() =~= line);
                assert(split_lines(line + "\n"@) == (seq![line], Seq::<char>::empty()));
                lemma_split_after_line(before, line + "\n"@);
                assert(text_upto(f, n) == before + (line + "\n"@));
                assert(ls + seq![line] =~= lines_upto(f, n));
                assert((ls + seq![line]).drop_last() =~= ls);
                assert(line[0] == key[0]);
                lemma_eq_pos_after(line, 0, key.len() as int);
                assert(line.subrange(0, key.len() as int) =~= key);
                assert(line.subrange(key.len() as int + 1, line.len() as int) =~= x);
                lemma_set_field_at(f, i);
            },
        }
    }
}

/// What `load` reads from a file that `save` wrote is what was saved: the
/// text of a state file reads back as the settings it was written from,
/// when no text setting holds a newline.
pub proof fn law_state_file_roundtrip(f: SavedFields)
    requires
        writable(f),
    ensures
        read_state(state_text(f)) == Ok::<SavedFields, Seq<char>>(f),
{
    lemma_upto(f, 12);
    reveal_with_fuel(text_upto, 13);
    reveal_with_fuel(lines_upto, 13);
    assert(state_text(f) =~= text_upto(f, 12));
    assert(upto(f, 12) == f);
}

} // verus!
