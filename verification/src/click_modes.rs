//! The actions that mouse clicks on the canvas can trigger.

use vstd::prelude::*;
use crate::text::{
    all_ascii, ascii_lower, case_folded, lemma_prefix_trans, remove_underscores, starts_with, to_lowercase,
    without_underscores,
};

verus! {

/// An action triggered by a mouse click on the canvas.
#[derive(Clone, Copy, PartialEq, Eq, Structural, Debug)]
pub enum ClickMode {
    ZoomIn,
    ZoomOut,
    JuliaConstant,
    MandelConstant,
    Move,
    BailOut,
    Info,
}

/// How many click modes there are.
pub const CLICK_MODE_COUNT: usize = 7;

/// The click modes in the order in which they are listed to the user.
pub open spec fn listed_mode(i: int) -> ClickMode {
    if i == 0 { ClickMode::ZoomIn }
    else if i == 1 { ClickMode::ZoomOut }
    else if i == 2 { ClickMode::Move }
    else if i == 3 { ClickMode::JuliaConstant }
    else if i == 4 { ClickMode::BailOut }
    else if i == 5 { ClickMode::MandelConstant }
    else { ClickMode::Info }
}

/// The lookup keys of the click modes, in lookup order.
pub open spec fn lookup_key(i: int) -> &'static str {
    if i == 0 { "zoomin" }
    else if i == 1 { "zoomout" }
    else if i == 2 { "move" }
    else if i == 3 { "juliaconstant" }
    else if i == 4 { "mandelconstant" }
    else if i == 5 { "bailout" }
    else { "info" }
}

/// The click mode of each lookup key.
pub open spec fn lookup_mode(i: int) -> ClickMode {
    if i == 0 { ClickMode::ZoomIn }
    else if i == 1 { ClickMode::ZoomOut }
    else if i == 2 { ClickMode::Move }
    else if i == 3 { ClickMode::JuliaConstant }
    else if i == 4 { ClickMode::MandelConstant }
    else if i == 5 { ClickMode::BailOut }
    else { ClickMode::Info }
}

/// `name` with its letters lower-cased and its underscores removed, as the
/// lookup compares it.
pub open spec fn normalized_mode_name(name: Seq<char>) -> Seq<char> {
    without_underscores(case_folded(name))
}

/// Lookup key `i` begins with the normalized `name`.
pub open spec fn key_matches(i: int, name: Seq<char>) -> bool {
    normalized_mode_name(name).is_prefix_of(lookup_key(i)@)
}

/// The mode of the first lookup key, from the `i`-th on, that begins with
/// the normalized `name`.
pub open spec fn mode_lookup_from(name: Seq<char>, i: int) -> Option<ClickMode>
    decreases CLICK_MODE_COUNT - i,
{
    if i < 0 || i >= CLICK_MODE_COUNT {
        None
    } else if key_matches(i, name) {
        Some(lookup_mode(i))
    } else {
        mode_lookup_from(name, i + 1)
    }
}

/// The name under which a click mode is shown.
pub open spec fn mode_name(m: ClickMode) -> &'static str {
    match m {
        ClickMode::ZoomIn => "ZoomIn",
        ClickMode::ZoomOut => "ZoomOut",
        ClickMode::JuliaConstant => "JuliaConstant",
        ClickMode::MandelConstant => "MandelConstant",
        ClickMode::Move => "Move",
        ClickMode::BailOut => "BailOut",
        ClickMode::Info => "Info",
    }
}

fn lookup_entry(i: usize) -> (r: (&'static str, ClickMode))
    requires
        i < CLICK_MODE_COUNT,
    ensures
        r.0 == lookup_key(i as int),
        r.1 == lookup_mode(i as int),
{
    if i == 0 { ("zoomin", ClickMode::ZoomIn) }
    else if i == 1 { ("zoomout", ClickMode::ZoomOut) }
    else if i == 2 { ("move", ClickMode::Move) }
    else if i == 3 { ("juliaconstant", ClickMode::JuliaConstant) }
    else if i == 4 { ("mandelconstant", ClickMode::MandelConstant) }
    else if i == 5 { ("bailout", ClickMode::BailOut) }
    else { ("info", ClickMode::Info) }
}

/// Removing underscores keeps a prefix a prefix.
proof fn lemma_without_underscores_prefix(a: Seq<char>, b: Seq<char>)
    requires
        a.is_prefix_of(b),
    ensures
        without_underscores(a).is_prefix_of(without_underscores(b)),
{
    let rest = b.skip(a.len() as int);
    assert(b =~= a + rest);
    Seq::filter_distributes_over_add(a, rest, |c: char| c != '_');
    let wa = without_underscores(a);
    let wr = without_underscores(rest);
    assert((wa + wr).subrange(0, wa.len() as int) =~= wa);
}

/// A name whose lookup key `i` begins with it finds a mode from any
/// `j <= i` on.
proof fn lemma_mode_found(name: Seq<char>, i: int, j: int)
    requires
        0 <= j <= i < CLICK_MODE_COUNT,
        key_matches(i, name),
    ensures
        mode_lookup_from(name, j) is Some,
    decreases i - j,
{
    if j < i && !key_matches(j, name) {
        lemma_mode_found(name, i, j + 1);
    }
}

impl ClickMode {
    /// All the click modes, in the order in which they are listed.
    pub fn all() -> (r: Vec<ClickMode>)
        ensures
            r@.len() == CLICK_MODE_COUNT,
            forall|i: int| 0 <= i < CLICK_MODE_COUNT ==> #[trigger] r@[i] == listed_mode(i),
    {
        let r = vec![
            ClickMode::ZoomIn,
            ClickMode::ZoomOut,
            ClickMode::Move,
            ClickMode::JuliaConstant,
            ClickMode::BailOut,
            ClickMode::MandelConstant,
            ClickMode::Info,
        ];
        r
    }

    /// The click mode whose lookup key (`zoomin`, `zoomout`, `move`,
    /// `juliaconstant`, `mandelconstant`, `bailout`, `info`, in this order)
    /// first begins with `str_` lower-cased and stripped of underscores.
    pub fn from(str_: &str) -> (r: Option<ClickMode>)
        ensures
            r == mode_lookup_from(str_@, 0),
            forall|k: int| 0 <= k <= str_@.len() && all_ascii(str_@.take(k))
                && #[trigger] mode_lookup_from(str_@.take(k), 0) is None ==> r is None,
    {
        let lower = to_lowercase(str_);
        let wanted = remove_underscores(lower.as_str());
        let mut i: usize = 0;
        while i < CLICK_MODE_COUNT
            invariant
                i <= CLICK_MODE_COUNT,
                wanted@ == normalized_mode_name(str_@),
                wanted@ == without_underscores(lower@),
                forall|k: int| 0 <= k <= str_@.len() && all_ascii(str_@.take(k))
                    ==> #[trigger] ascii_lower(str_@.take(k)).is_prefix_of(lower@),
                mode_lookup_from(str_@, 0) == mode_lookup_from(str_@, i as int),
            decreases CLICK_MODE_COUNT - i,
        {
            let entry = lookup_entry(i);
            if starts_with(entry.0, wanted.as_str()) {
                proof {
                    assert forall|k: int| 0 <= k <= str_@.len() && all_ascii(str_@.take(k))
                        implies #[trigger] mode_lookup_from(str_@.take(k), 0) is Some by {
                        let p = str_@.take(k);
                        lemma_without_underscores_prefix(ascii_lower(p), lower@);
                        lemma_prefix_trans(normalized_mode_name(p), wanted@, lookup_key(i as int)@);
                        lemma_mode_found(p, i as int, 0);
                    }
                }
                return Some(entry.1);
            }
            i = i + 1;
        }
        None
    }

    /// The name under which the click mode is shown.
    pub fn name(&self) -> (r: &'static str)
        ensures
            r == mode_name(*self),
    {
        match self {
            ClickMode::ZoomIn => "ZoomIn",
            ClickMode::ZoomOut => "ZoomOut",
            ClickMode::JuliaConstant => "JuliaConstant",
            ClickMode::MandelConstant => "MandelConstant",
            ClickMode::Move => "Move",
            ClickMode::BailOut => "BailOut",
            ClickMode::Info => "Info",
        }
    }
}

/// The action bound to each mouse button.
#[derive(Clone, Copy, PartialEq, Eq, Structural, Debug)]
pub struct ClickConfig {
    pub left: ClickMode,
    pub middle: ClickMode,
    pub right: ClickMode,
}

impl Default for ClickConfig {
    fn default() -> (r: Self)
        ensures
            r == (ClickConfig { left: ClickMode::ZoomIn, middle: ClickMode::Move, right: ClickMode::ZoomOut }),
    {
        ClickConfig { left: ClickMode::ZoomIn, middle: ClickMode::Move, right: ClickMode::ZoomOut }
    }
}

} // verus!
