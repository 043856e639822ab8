use vstd::prelude::*;

verus! {

/// Reference pixel area used to normalise a change magnitude: a frame is
/// kept only once its accumulated difference reaches this many units.
pub const MAX_DIFF: u128 = 979200;

/// A frame is skipped exactly when its magnitude divided by `max_diff` is zero.
pub open spec fn skip_spec(magnitude: nat, max_diff: nat) -> bool {
    magnitude < max_diff
}

/// Skip decision: integer-divide the magnitude by the threshold and test for zero.
pub fn should_skip(magnitude: u128, max_diff: u128) -> (r: bool)
    requires
        max_diff > 0,
    ensures
        r == skip_spec(magnitude as nat, max_diff as nat),
        r == (magnitude / max_diff == 0),
{
    proof {
        if magnitude < max_diff {
            assert(magnitude / max_diff == 0) by (nonlinear_arith)
                requires magnitude < max_diff, max_diff > 0;
        } else {
            assert(magnitude / max_diff >= 1) by (nonlinear_arith)
                requires magnitude >= max_diff, max_diff > 0;
        }
    }
    magnitude / max_diff == 0
}

} // verus!
