//! Angles and their normalization.
//!
//! An angle is an `i64` count of angle units (one unit is one eighth of a
//! degree, so [`FULL_TURN`] units make a whole circle). [`normalize_angle`]
//! folds any angle into `[0, FULL_TURN)`; the four facing predicates below
//! classify a normalized angle by the quadrant-halves the ray march cares
//! about. The vertical axis grows downward, so "facing down" covers the
//! angles from 0 to a half turn inclusive.

use vstd::prelude::*;

use crate::{FULL_TURN, HALF_TURN, QUARTER_TURN, THREE_QUARTER_TURN};

verus! {

/// `a` folded into `[0, FULL_TURN)`: the unique representative of `a`
/// modulo a full turn.
pub open spec fn spec_normalize_angle(a: int) -> int {
    a % (FULL_TURN as int)
}

/// A normalized angle points into the lower half-plane (y grows downward)
/// when it lies between 0 and a half turn inclusive.
pub open spec fn spec_facing_down(a: int) -> bool {
    0 <= a <= HALF_TURN
}

/// The complement of facing down.
pub open spec fn spec_facing_up(a: int) -> bool {
    !spec_facing_down(a)
}

/// A normalized angle points into the right half-plane when it lies
/// strictly below a quarter turn or strictly above three quarters.
pub open spec fn spec_facing_right(a: int) -> bool {
    a < QUARTER_TURN || a > THREE_QUARTER_TURN
}

/// The complement of facing right.
pub open spec fn spec_facing_left(a: int) -> bool {
    !spec_facing_right(a)
}

/// Folds an arbitrary angle into `[0, FULL_TURN)` by taking the remainder
/// of a full turn and shifting a negative remainder up by one turn.
pub fn normalize_angle(angle: i64) -> (r: i64)
    ensures
        r == spec_normalize_angle(angle as int),
        0 <= r < FULL_TURN,
{
    let m: i64 = angle % FULL_TURN;
    if m < 0 {
        m + FULL_TURN
    } else {
        m
    }
}

/// Normalization is idempotent, and shifting an angle by a whole turn in
/// either direction does not change its normal form.
pub proof fn lemma_normalize_angle_stable(a: int)
    ensures
        spec_normalize_angle(spec_normalize_angle(a)) == spec_normalize_angle(a),
        spec_normalize_angle(a + FULL_TURN) == spec_normalize_angle(a),
        spec_normalize_angle(a - FULL_TURN) == spec_normalize_angle(a),
{
    let t = FULL_TURN as int;
    vstd::arithmetic::div_mod::lemma_mod_twice(a, t);
    vstd::arithmetic::div_mod::lemma_mod_add_multiples_vanish(a, t);
    vstd::arithmetic::div_mod::lemma_mod_sub_multiples_vanish(a, t);
}

} // verus!
