//! The variables that the canvas lets the user select and change.

use vstd::prelude::*;

verus! {

/// A value that can be selected and controlled from the canvas.
#[derive(Clone, Copy, PartialEq, Eq, Structural, Debug)]
pub enum SelectedVariable {
    PaletteOffset,
    HSLSmoothness,
    HueOffset,
    HSLSat,
    HSLLum,
}

/// How many selectable variables there are.
pub const SELECTABLE_COUNT: usize = 5;

/// The position of each variable in `selectable_variables()`.
pub open spec fn var_index(v: SelectedVariable) -> int {
    match v {
        SelectedVariable::PaletteOffset => 0,
        SelectedVariable::HSLSmoothness => 1,
        SelectedVariable::HueOffset => 2,
        SelectedVariable::HSLSat => 3,
        SelectedVariable::HSLLum => 4,
    }
}

/// The variable at position `i` of `selectable_variables()`.
pub open spec fn var_at(i: int) -> SelectedVariable {
    if i == 0 { SelectedVariable::PaletteOffset }
    else if i == 1 { SelectedVariable::HSLSmoothness }
    else if i == 2 { SelectedVariable::HueOffset }
    else if i == 3 { SelectedVariable::HSLSat }
    else { SelectedVariable::HSLLum }
}

/// All selectable variables, in declaration order.
pub fn selectable_variables() -> (r: Vec<SelectedVariable>)
    ensures
        r@.len() == SELECTABLE_COUNT,
        forall|i: int| 0 <= i < SELECTABLE_COUNT ==> #[trigger] r@[i] == var_at(i),
{
    vec![
        SelectedVariable::PaletteOffset,
        SelectedVariable::HSLSmoothness,
        SelectedVariable::HueOffset,
        SelectedVariable::HSLSat,
        SelectedVariable::HSLLum,
    ]
}

impl SelectedVariable {
    /// Whether `self` sits at position `other` of `selectable_variables()`.
    pub fn eq_index(&self, other: usize) -> (r: bool)
        ensures
            r == (var_index(*self) == other),
    {
        let vars = selectable_variables();
        let mut i: usize = 0;
        while i < vars.len()
            invariant
                vars@.len() == SELECTABLE_COUNT,
                forall|k: int| 0 <= k < SELECTABLE_COUNT ==> #[trigger] vars@[k] == var_at(k),
                i <= SELECTABLE_COUNT,
                forall|k: int| 0 <= k < i ==> var_at(k) != *self,
            decreases SELECTABLE_COUNT - i,
        {
            if vars[i] == *self {
                return i == other;
            }
            i = i + 1;
        }
        proof {
            assert(var_at(var_index(*self)) == *self);
        }
        false
    }
}

/// Each variable sits at the position `var_index` gives.
pub proof fn lemma_var_index_roundtrip(v: SelectedVariable)
    ensures
        0 <= var_index(v) < SELECTABLE_COUNT,
        var_at(var_index(v)) == v,
{
}

} // verus!
