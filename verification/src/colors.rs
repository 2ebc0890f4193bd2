//! Colour palettes and the lookup of a palette by name.

use vstd::prelude::*;
use crate::text::{all_ascii, ascii_lower, case_folded, lemma_prefix_trans, starts_with, to_lowercase};

verus! {

/// A terminal colour given by its red, green and blue components.
#[derive(Clone, Copy, PartialEq, Eq, Structural, Debug)]
pub enum Color {
    Rgb(u8, u8, u8),
}

/// A named colour palette, its colours in fixed order.
pub struct Palette {
    /// The palette colours, in order.
    pub colors: Vec<Color>,
    /// The name of the palette.
    pub name: &'static str,
}

/// How many palettes there are.
pub const PALETTE_COUNT: usize = 12;

/// How many colours each palette holds.
pub const PALETTE_SIZE: usize = 16;

/// The name of palette `i`.
pub open spec fn palette_name(i: int) -> &'static str {
    if i == 0 { "Galaxy" }
    else if i == 1 { "Sunset" }
    else if i == 2 { "Forest" }
    else if i == 3 { "Volcano" }
    else if i == 4 { "Neon" }
    else if i == 5 { "Dunes" }
    else if i == 6 { "Iceberg" }
    else if i == 7 { "Autumn" }
    else if i == 8 { "Twilight" }
    else if i == 9 { "Underground" }
    else if i == 10 { "Lava" }
    else { "Mountain" }
}

/// The colours of palette `i`, in order.
pub open spec fn palette_colors(i: int) -> Seq<Color> {
    if i == 0 {
        seq![Color::Rgb(12, 4, 50), Color::Rgb(7, 7, 76), Color::Rgb(3, 10, 103), Color::Rgb(15, 47, 141), Color::Rgb(27, 85, 180), Color::Rgb(60, 128, 212), Color::Rgb(137, 184, 232), Color::Rgb(214, 239, 251), Color::Rgb(244, 236, 194), Color::Rgb(251, 204, 97), Color::Rgb(255, 173, 3), Color::Rgb(207, 131, 3), Color::Rgb(156, 90, 3), Color::Rgb(109, 55, 6), Color::Rgb(69, 33, 19), Color::Rgb(28, 10, 29)]
    }
    else if i == 1 {
        seq![Color::Rgb(25, 7, 26), Color::Rgb(53, 14, 37), Color::Rgb(88, 27, 48), Color::Rgb(135, 54, 72), Color::Rgb(186, 85, 108), Color::Rgb(229, 118, 142), Color::Rgb(252, 165, 177), Color::Rgb(255, 204, 187), Color::Rgb(255, 211, 138), Color::Rgb(255, 187, 90), Color::Rgb(252, 146, 48), Color::Rgb(241, 103, 31), Color::Rgb(208, 66, 29), Color::Rgb(162, 40, 33), Color::Rgb(111, 17, 29), Color::Rgb(54, 7, 20)]
    }
    else if i == 2 {
        seq![Color::Rgb(10, 17, 5), Color::Rgb(14, 30, 9), Color::Rgb(22, 47, 12), Color::Rgb(33, 68, 18), Color::Rgb(50, 91, 25), Color::Rgb(72, 116, 38), Color::Rgb(106, 145, 55), Color::Rgb(139, 174, 81), Color::Rgb(171, 202, 114), Color::Rgb(194, 219, 154), Color::Rgb(182, 190, 129), Color::Rgb(158, 157, 104), Color::Rgb(118, 117, 77), Color::Rgb(85, 80, 56), Color::Rgb(55, 52, 36), Color::Rgb(25, 27, 17)]
    }
    else if i == 3 {
        seq![Color::Rgb(30, 10, 5), Color::Rgb(61, 17, 9), Color::Rgb(94, 23, 10), Color::Rgb(138, 33, 8), Color::Rgb(180, 50, 12), Color::Rgb(213, 84, 19), Color::Rgb(238, 122, 27), Color::Rgb(252, 157, 36), Color::Rgb(255, 192, 54), Color::Rgb(255, 218, 87), Color::Rgb(255, 234, 131), Color::Rgb(249, 213, 107), Color::Rgb(210, 142, 73), Color::Rgb(152, 71, 38), Color::Rgb(89, 35, 18), Color::Rgb(53, 18, 10)]
    }
    else if i == 4 {
        seq![Color::Rgb(5, 5, 25), Color::Rgb(12, 18, 55), Color::Rgb(20, 32, 85), Color::Rgb(45, 52, 112), Color::Rgb(74, 78, 141), Color::Rgb(111, 107, 173), Color::Rgb(152, 145, 204), Color::Rgb(198, 184, 234), Color::Rgb(245, 226, 255), Color::Rgb(238, 197, 255), Color::Rgb(220, 153, 245), Color::Rgb(186, 109, 212), Color::Rgb(138, 63, 173), Color::Rgb(95, 35, 129), Color::Rgb(62, 18, 86), Color::Rgb(34, 10, 55)]
    }
    else if i == 5 {
        seq![Color::Rgb(50, 38, 18), Color::Rgb(73, 57, 27), Color::Rgb(94, 74, 36), Color::Rgb(118, 96, 50), Color::Rgb(153, 126, 68), Color::Rgb(186, 153, 88), Color::Rgb(216, 180, 109), Color::Rgb(236, 203, 135), Color::Rgb(244, 221, 164), Color::Rgb(251, 236, 197), Color::Rgb(247, 239, 206), Color::Rgb(216, 215, 189), Color::Rgb(174, 172, 148), Color::Rgb(127, 120, 106), Color::Rgb(89, 82, 71), Color::Rgb(59, 55, 49)]
    }
    else if i == 6 {
        seq![Color::Rgb(70, 130, 140), Color::Rgb(110, 160, 175), Color::Rgb(170, 210, 215), Color::Rgb(200, 230, 235), Color::Rgb(230, 250, 255), Color::Rgb(200, 245, 255), Color::Rgb(150, 230, 245), Color::Rgb(90, 210, 230), Color::Rgb(50, 185, 210), Color::Rgb(10, 160, 190), Color::Rgb(0, 135, 170), Color::Rgb(0, 110, 150), Color::Rgb(0, 80, 120), Color::Rgb(0, 55, 90), Color::Rgb(0, 30, 60), Color::Rgb(0, 10, 20)]
    }
    else if i == 7 {
        seq![Color::Rgb(45, 20, 5), Color::Rgb(70, 30, 10), Color::Rgb(95, 45, 15), Color::Rgb(130, 65, 20), Color::Rgb(160, 90, 30), Color::Rgb(190, 120, 40), Color::Rgb(220, 150, 60), Color::Rgb(245, 180, 80), Color::Rgb(255, 200, 100), Color::Rgb(255, 220, 140), Color::Rgb(255, 235, 170), Color::Rgb(255, 245, 200), Color::Rgb(230, 200, 160), Color::Rgb(190, 150, 110), Color::Rgb(140, 100, 70), Color::Rgb(90, 60, 40)]
    }
    else if i == 8 {
        seq![Color::Rgb(15, 10, 25), Color::Rgb(30, 20, 45), Color::Rgb(55, 30, 70), Color::Rgb(90, 40, 100), Color::Rgb(130, 60, 130), Color::Rgb(175, 90, 160), Color::Rgb(200, 115, 180), Color::Rgb(225, 145, 195), Color::Rgb(240, 180, 205), Color::Rgb(255, 210, 210), Color::Rgb(255, 190, 150), Color::Rgb(255, 160, 100), Color::Rgb(250, 130, 70), Color::Rgb(200, 100, 50), Color::Rgb(150, 70, 40), Color::Rgb(90, 50, 30)]
    }
    else if i == 9 {
        seq![Color::Rgb(10, 15, 10), Color::Rgb(25, 30, 25), Color::Rgb(40, 50, 35), Color::Rgb(60, 70, 45), Color::Rgb(90, 95, 55), Color::Rgb(110, 120, 75), Color::Rgb(140, 150, 100), Color::Rgb(170, 180, 130), Color::Rgb(190, 200, 160), Color::Rgb(210, 220, 185), Color::Rgb(230, 235, 205), Color::Rgb(215, 220, 180), Color::Rgb(185, 190, 150), Color::Rgb(140, 150, 110), Color::Rgb(90, 100, 75), Color::Rgb(55, 65, 50)]
    }
    else if i == 10 {
        seq![Color::Rgb(30, 10, 5), Color::Rgb(60, 15, 10), Color::Rgb(90, 20, 15), Color::Rgb(120, 30, 20), Color::Rgb(150, 45, 25), Color::Rgb(180, 65, 30), Color::Rgb(210, 90, 40), Color::Rgb(240, 120, 50), Color::Rgb(255, 160, 60), Color::Rgb(255, 190, 80), Color::Rgb(255, 210, 100), Color::Rgb(255, 230, 130), Color::Rgb(240, 200, 110), Color::Rgb(210, 150, 90), Color::Rgb(170, 100, 70), Color::Rgb(120, 60, 50)]
    }
    else {
        seq![Color::Rgb(15, 20, 25), Color::Rgb(30, 35, 40), Color::Rgb(50, 55, 60), Color::Rgb(75, 80, 85), Color::Rgb(100, 110, 120), Color::Rgb(130, 140, 150), Color::Rgb(160, 170, 180), Color::Rgb(190, 200, 210), Color::Rgb(210, 220, 230), Color::Rgb(225, 230, 235), Color::Rgb(240, 240, 245), Color::Rgb(230, 235, 230), Color::Rgb(200, 210, 200), Color::Rgb(170, 185, 170), Color::Rgb(130, 140, 140), Color::Rgb(100, 105, 110)]
    }
}

fn palette_0() -> (p: Palette)
    ensures
        p.name == palette_name(0),
        p.colors@ == palette_colors(0),
{
    let colors = vec![Color::Rgb(12, 4, 50), Color::Rgb(7, 7, 76), Color::Rgb(3, 10, 103), Color::Rgb(15, 47, 141), Color::Rgb(27, 85, 180), Color::Rgb(60, 128, 212), Color::Rgb(137, 184, 232), Color::Rgb(214, 239, 251), Color::Rgb(244, 236, 194), Color::Rgb(251, 204, 97), Color::Rgb(255, 173, 3), Color::Rgb(207, 131, 3), Color::Rgb(156, 90, 3), Color::Rgb(109, 55, 6), Color::Rgb(69, 33, 19), Color::Rgb(28, 10, 29)];
    assert(colors@ =~= palette_colors(0));
    Palette { colors, name: "Galaxy" }
}

fn palette_1() -> (p: Palette)
    ensures
        p.name == palette_name(1),
        p.colors@ == palette_colors(1),
{
    let colors = vec![Color::Rgb(25, 7, 26), Color::Rgb(53, 14, 37), Color::Rgb(88, 27, 48), Color::Rgb(135, 54, 72), Color::Rgb(186, 85, 108), Color::Rgb(229, 118, 142), Color::Rgb(252, 165, 177), Color::Rgb(255, 204, 187), Color::Rgb(255, 211, 138), Color::Rgb(255, 187, 90), Color::Rgb(252, 146, 48), Color::Rgb(241, 103, 31), Color::Rgb(208, 66, 29), Color::Rgb(162, 40, 33), Color::Rgb(111, 17, 29), Color::Rgb(54, 7, 20)];
    assert(colors@ =~= palette_colors(1));
    Palette { colors, name: "Sunset" }
}

fn palette_2() -> (p: Palette)
    ensures
        p.name == palette_name(2),
        p.colors@ == palette_colors(2),
{
    let colors = vec![Color::Rgb(10, 17, 5), Color::Rgb(14, 30, 9), Color::Rgb(22, 47, 12), Color::Rgb(33, 68, 18), Color::Rgb(50, 91, 25), Color::Rgb(72, 116, 38), Color::Rgb(106, 145, 55), Color::Rgb(139, 174, 81), Color::Rgb(171, 202, 114), Color::Rgb(194, 219, 154), Color::Rgb(182, 190, 129), Color::Rgb(158, 157, 104), Color::Rgb(118, 117, 77), Color::Rgb(85, 80, 56), Color::Rgb(55, 52, 36), Color::Rgb(25, 27, 17)];
    assert(colors@ =~= palette_colors(2));
    Palette { colors, name: "Forest" }
}

fn palette_3() -> (p: Palette)
    ensures
        p.name == palette_name(3),
        p.colors@ == palette_colors(3),
{
    let colors = vec![Color::Rgb(30, 10, 5), Color::Rgb(61, 17, 9), Color::Rgb(94, 23, 10), Color::Rgb(138, 33, 8), Color::Rgb(180, 50, 12), Color::Rgb(213, 84, 19), Color::Rgb(238, 122, 27), Color::Rgb(252, 157, 36), Color::Rgb(255, 192, 54), Color::Rgb(255, 218, 87), Color::Rgb(255, 234, 131), Color::Rgb(249, 213, 107), Color::Rgb(210, 142, 73), Color::Rgb(152, 71, 38), Color::Rgb(89, 35, 18), Color::Rgb(53, 18, 10)];
    assert(colors@ =~= palette_colors(3));
    Palette { colors, name: "Volcano" }
}

fn palette_4() -> (p: Palette)
    ensures
        p.name == palette_name(4),
        p.colors@ == palette_colors(4),
{
    let colors = vec![Color::Rgb(5, 5, 25), Color::Rgb(12, 18, 55), Color::Rgb(20, 32, 85), Color::Rgb(45, 52, 112), Color::Rgb(74, 78, 141), Color::Rgb(111, 107, 173), Color::Rgb(152, 145, 204), Color::Rgb(198, 184, 234), Color::Rgb(245, 226, 255), Color::Rgb(238, 197, 255), Color::Rgb(220, 153, 245), Color::Rgb(186, 109, 212), Color::Rgb(138, 63, 173), Color::Rgb(95, 35, 129), Color::Rgb(62, 18, 86), Color::Rgb(34, 10, 55)];
    assert(colors@ =~= palette_colors(4));
    Palette { colors, name: "Neon" }
}

fn palette_5() -> (p: Palette)
    ensures
        p.name == palette_name(5),
        p.colors@ == palette_colors(5),
{
    let colors = vec![Color::Rgb(50, 38, 18), Color::Rgb(73, 57, 27), Color::Rgb(94, 74, 36), Color::Rgb(118, 96, 50), Color::Rgb(153, 126, 68), Color::Rgb(186, 153, 88), Color::Rgb(216, 180, 109), Color::Rgb(236, 203, 135), Color::Rgb(244, 221, 164), Color::Rgb(251, 236, 197), Color::Rgb(247, 239, 206), Color::Rgb(216, 215, 189), Color::Rgb(174, 172, 148), Color::Rgb(127, 120, 106), Color::Rgb(89, 82, 71), Color::Rgb(59, 55, 49)];
    assert(colors@ =~= palette_colors(5));
    Palette { colors, name: "Dunes" }
}

fn palette_6() -> (p: Palette)
    ensures
        p.name == palette_name(6),
        p.colors@ == palette_colors(6),
{
    let colors = vec![Color::Rgb(70, 130, 140), Color::Rgb(110, 160, 175), Color::Rgb(170, 210, 215), Color::Rgb(200, 230, 235), Color::Rgb(230, 250, 255), Color::Rgb(200, 245, 255), Color::Rgb(150, 230, 245), Color::Rgb(90, 210, 230), Color::Rgb(50, 185, 210), Color::Rgb(10, 160, 190), Color::Rgb(0, 135, 170), Color::Rgb(0, 110, 150), Color::Rgb(0, 80, 120), Color::Rgb(0, 55, 90), Color::Rgb(0, 30, 60), Color::Rgb(0, 10, 20)];
    assert(colors@ =~= palette_colors(6));
    Palette { colors, name: "Iceberg" }
}

fn palette_7() -> (p: Palette)
    ensures
        p.name == palette_name(7),
        p.colors@ == palette_colors(7),
{
    let colors = vec![Color::Rgb(45, 20, 5), Color::Rgb(70, 30, 10), Color::Rgb(95, 45, 15), Color::Rgb(130, 65, 20), Color::Rgb(160, 90, 30), Color::Rgb(190, 120, 40), Color::Rgb(220, 150, 60), Color::Rgb(245, 180, 80), Color::Rgb(255, 200, 100), Color::Rgb(255, 220, 140), Color::Rgb(255, 235, 170), Color::Rgb(255, 245, 200), Color::Rgb(230, 200, 160), Color::Rgb(190, 150, 110), Color::Rgb(140, 100, 70), Color::Rgb(90, 60, 40)];
    assert(colors@ =~= palette_colors(7));
    Palette { colors, name: "Autumn" }
}

fn palette_8() -> (p: Palette)
    ensures
        p.name == palette_name(8),
        p.colors@ == palette_colors(8),
{
    let colors = vec![Color::Rgb(15, 10, 25), Color::Rgb(30, 20, 45), Color::Rgb(55, 30, 70), Color::Rgb(90, 40, 100), Color::Rgb(130, 60, 130), Color::Rgb(175, 90, 160), Color::Rgb(200, 115, 180), Color::Rgb(225, 145, 195), Color::Rgb(240, 180, 205), Color::Rgb(255, 210, 210), Color::Rgb(255, 190, 150), Color::Rgb(255, 160, 100), Color::Rgb(250, 130, 70), Color::Rgb(200, 100, 50), Color::Rgb(150, 70, 40), Color::Rgb(90, 50, 30)];
    assert(colors@ =~= palette_colors(8));
    Palette { colors, name: "Twilight" }
}

fn palette_9() -> (p: Palette)
    ensures
        p.name == palette_name(9),
        p.colors@ == palette_colors(9),
{
    let colors = vec![Color::Rgb(10, 15, 10), Color::Rgb(25, 30, 25), Color::Rgb(40, 50, 35), Color::Rgb(60, 70, 45), Color::Rgb(90, 95, 55), Color::Rgb(110, 120, 75), Color::Rgb(140, 150, 100), Color::Rgb(170, 180, 130), Color::Rgb(190, 200, 160), Color::Rgb(210, 220, 185), Color::Rgb(230, 235, 205), Color::Rgb(215, 220, 180), Color::Rgb(185, 190, 150), Color::Rgb(140, 150, 110), Color::Rgb(90, 100, 75), Color::Rgb(55, 65, 50)];
    assert(colors@ =~= palette_colors(9));
    Palette { colors, name: "Underground" }
}

fn palette_10() -> (p: Palette)
    ensures
        p.name == palette_name(10),
        p.colors@ == palette_colors(10),
{
    let colors = vec![Color::Rgb(30, 10, 5), Color::Rgb(60, 15, 10), Color::Rgb(90, 20, 15), Color::Rgb(120, 30, 20), Color::Rgb(150, 45, 25), Color::Rgb(180, 65, 30), Color::Rgb(210, 90, 40), Color::Rgb(240, 120, 50), Color::Rgb(255, 160, 60), Color::Rgb(255, 190, 80), Color::Rgb(255, 210, 100), Color::Rgb(255, 230, 130), Color::Rgb(240, 200, 110), Color::Rgb(210, 150, 90), Color::Rgb(170, 100, 70), Color::Rgb(120, 60, 50)];
    assert(colors@ =~= palette_colors(10));
    Palette { colors, name: "Lava" }
}

fn palette_11() -> (p: Palette)
    ensures
        p.name == palette_name(11),
        p.colors@ == palette_colors(11),
{
    let colors = vec![Color::Rgb(15, 20, 25), Color::Rgb(30, 35, 40), Color::Rgb(50, 55, 60), Color::Rgb(75, 80, 85), Color::Rgb(100, 110, 120), Color::Rgb(130, 140, 150), Color::Rgb(160, 170, 180), Color::Rgb(190, 200, 210), Color::Rgb(210, 220, 230), Color::Rgb(225, 230, 235), Color::Rgb(240, 240, 245), Color::Rgb(230, 235, 230), Color::Rgb(200, 210, 200), Color::Rgb(170, 185, 170), Color::Rgb(130, 140, 140), Color::Rgb(100, 105, 110)];
    assert(colors@ =~= palette_colors(11));
    Palette { colors, name: "Mountain" }
}

/// Palette number `i`.
pub fn palette(i: usize) -> (p: Palette)
    requires
        i < PALETTE_COUNT,
    ensures
        p.name == palette_name(i as int),
        p.colors@ == palette_colors(i as int),
{
    if i == 0 {
        palette_0()
    } else if i == 1 {
        palette_1()
    } else if i == 2 {
        palette_2()
    } else if i == 3 {
        palette_3()
    } else if i == 4 {
        palette_4()
    } else if i == 5 {
        palette_5()
    } else if i == 6 {
        palette_6()
    } else if i == 7 {
        palette_7()
    } else if i == 8 {
        palette_8()
    } else if i == 9 {
        palette_9()
    } else if i == 10 {
        palette_10()
    } else {
        palette_11()
    }
}

/// All palettes, in fixed order.
pub fn colors() -> (r: Vec<Palette>)
    ensures
        r@.len() == PALETTE_COUNT,
        forall|i: int| 0 <= i < PALETTE_COUNT ==> #[trigger] r@[i].name == palette_name(i)
            && r@[i].colors@ == palette_colors(i),
{
    let mut r: Vec<Palette> = Vec::new();
    let mut i: usize = 0;
    while i < PALETTE_COUNT
        invariant
            i <= PALETTE_COUNT,
            r@.len() == i,
            forall|k: int| 0 <= k < i ==> #[trigger] r@[k].name == palette_name(k)
                && r@[k].colors@ == palette_colors(k),
        decreases PALETTE_COUNT - i,
    {
        let p = palette(i);
        let ghost before = r@;
        r.push(p);
        assert forall|k: int| 0 <= k <= i implies #[trigger] r@[k].name == palette_name(k)
            && r@[k].colors@ == palette_colors(k) by {
            if k < i {
                assert(r@[k] == before[k]);
            }
        }
        i = i + 1;
    }
    r
}

/// Every palette holds `PALETTE_SIZE` colours.
pub proof fn lemma_palette_sizes(i: int)
    requires
        0 <= i < PALETTE_COUNT,
    ensures
        palette_colors(i).len() == PALETTE_SIZE,
{
}

/// `Some(i)` is the first index below `n` where `p` holds, or `None` when
/// there is none.
pub open spec fn first_index(n: int, p: spec_fn(int) -> bool, r: Option<usize>) -> bool {
    match r {
        Some(i) => 0 <= i < n && p(i as int) && forall|j: int| 0 <= j < i ==> !#[trigger] p(j),
        None => forall|j: int| 0 <= j < n ==> !#[trigger] p(j),
    }
}

/// Palette `i` is selected by `name`: the lower-cased palette name begins
/// with the lower-cased `name`.
pub open spec fn palette_name_matches(i: int, name: Seq<char>) -> bool {
    case_folded(name).is_prefix_of(case_folded(palette_name(i)@))
}

/// The first palette, from the `i`-th on, selected by `name`.
pub open spec fn palette_lookup_from(name: Seq<char>, i: int) -> Option<usize>
    decreases PALETTE_COUNT - i,
{
    if i < 0 || i >= PALETTE_COUNT {
        None
    } else if palette_name_matches(i, name) {
        Some(i as usize)
    } else {
        palette_lookup_from(name, i + 1)
    }
}

/// A palette found by the lookup is the first one that matches.
pub proof fn lemma_palette_lookup(name: Seq<char>, i: int)
    requires
        0 <= i <= PALETTE_COUNT,
    ensures
        (forall|j: int| 0 <= j < i ==> !palette_name_matches(j, name)) ==> first_index(PALETTE_COUNT as int,
            |j: int| palette_name_matches(j, name), palette_lookup_from(name, i)),
    decreases PALETTE_COUNT - i,
{
    if i < PALETTE_COUNT {
        lemma_palette_lookup(name, i + 1);
    }
}

/// A name that selects palette `i` selects one from any `j <= i` on.
proof fn lemma_palette_found(name: Seq<char>, i: int, j: int)
    requires
        0 <= j <= i < PALETTE_COUNT,
        palette_name_matches(i, name),
    ensures
        palette_lookup_from(name, j) is Some,
    decreases i - j,
{
    if j < i && !palette_name_matches(j, name) {
        lemma_palette_found(name, i, j + 1);
    }
}

/// Returns the index of the first palette whose lower-cased name begins with
/// the lower-cased `name`, and `None` if nothing matched; in particular
/// nothing matches when nothing matches an ASCII beginning of `name`.
pub fn get_palette_index_by_name(name: &str) -> (r: Option<usize>)
    ensures
        r == palette_lookup_from(name@, 0),
        first_index(PALETTE_COUNT as int, |i: int| palette_name_matches(i, name@), r),
        forall|k: int| 0 <= k <= name@.len() && all_ascii(name@.take(k))
            && #[trigger] palette_lookup_from(name@.take(k), 0) is None ==> r is None,
{
    proof {
        lemma_palette_lookup(name@, 0);
    }
    let wanted = to_lowercase(name);
    let mut i: usize = 0;
    while i < PALETTE_COUNT
        invariant
            i <= PALETTE_COUNT,
            wanted@ == case_folded(name@),
            forall|k: int| 0 <= k <= name@.len() && all_ascii(name@.take(k))
                ==> #[trigger] ascii_lower(name@.take(k)).is_prefix_of(wanted@),
            forall|j: int| 0 <= j < i ==> !#[trigger] palette_name_matches(j, name@),
            palette_lookup_from(name@, 0) == palette_lookup_from(name@, i as int),
            first_index(PALETTE_COUNT as int, |j: int| palette_name_matches(j, name@), palette_lookup_from(name@, 0)),
        decreases PALETTE_COUNT - i,
    {
        let pal = palette(i);
        let pal_name = to_lowercase(pal.name);
        if starts_with(pal_name.as_str(), wanted.as_str()) {
            proof {
                assert forall|k: int| 0 <= k <= name@.len() && all_ascii(name@.take(k))
                    implies #[trigger] palette_lookup_from(name@.take(k), 0) is Some by {
                    let p = name@.take(k);
                    assert(ascii_lower(p).is_prefix_of(wanted@));
                    lemma_prefix_trans(ascii_lower(p), wanted@, pal_name@);
                    lemma_palette_found(p, i as int, 0);
                }
            }
            return Some(i);
        }
        i = i + 1;
    }
    None
}

/// Returns the colour at position `i` of `pal`, wrapping around its end
/// (the index being `i` taken as a `usize`).
pub fn palette_color_at(i: i32, pal: &Palette) -> (c: Color)
    requires
        pal.colors@.len() > 0,
    ensures
        c == pal.colors@[(i as usize) as int % pal.colors@.len() as int],
        i >= 0 ==> c == pal.colors@[i as int % pal.colors@.len() as int],
{
    pal.colors[(i as usize) % pal.colors.len()]
}

} // verus!
