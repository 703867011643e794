use vstd::prelude::*;

pub mod ingredients;
pub mod timeline;

pub use ingredients::{
    compute_ingredients, effective_hours, estimate_yeast_percent_dry, Ingredients,
    IngredientsInput, YeastKind,
};
pub use timeline::{timeline_no_fridge, timeline_with_fridge, Timeline};

verus! {

/// Restricts `v` to the closed range `[lo, hi]`; a value below `lo` gives
/// `lo`, one above `hi` gives `hi`.
pub fn clamp(v: u64, lo: u64, hi: u64) -> (r: u64)
    ensures
        r == (if v < lo { lo } else if v > hi { hi } else { v }),
{
    if v < lo {
        lo
    } else if v > hi {
        hi
    } else {
        v
    }
}

} // verus!
