//! Trigonometric samples, supplied by the host.
//!
//! The engine works in exact integer arithmetic and owns no approximation
//! of cosine or sine. Instead the host hands it a [`TrigTable`]: one
//! fixed-point cosine and sine sample per angle unit, each scaled by
//! [`crate::FP`] and bounded by it in magnitude. Every contract downstream
//! is stated over the supplied samples, so the engine's guarantees hold
//! whatever samples the host chose.
//!
//! The ray march needs the tangent and cotangent of a ray's angle as
//! fixed-point ratios; [`tan_from`] and [`inv_tan_from`] derive them from
//! the two samples, and answer `None` where the denominator sample is
//! zero — the axis-aligned ray whose scan the march then skips.

use vstd::prelude::*;

use crate::fixed::{div_trunc, spec_abs, spec_div_trunc};
use crate::{FP, FULL_TURN};

verus! {

/// Fixed-point cosine and sine samples, one per angle unit.
pub struct TrigTable {
    pub cos: Vec<i64>,
    pub sin: Vec<i64>,
}

impl TrigTable {
    /// A well-formed table has one cosine and one sine sample per angle
    /// unit of a full turn, each within ±[`FP`].
    pub open spec fn wf(self) -> bool {
        &&& self.cos@.len() == FULL_TURN
        &&& self.sin@.len() == FULL_TURN
        &&& forall|i: int| 0 <= i < FULL_TURN ==> -FP <= #[trigger] self.cos@[i] <= FP
        &&& forall|i: int| 0 <= i < FULL_TURN ==> -FP <= #[trigger] self.sin@[i] <= FP
    }

    /// Builds a table from host samples; succeeds exactly when both
    /// vectors hold one sample per angle unit, each within ±[`FP`].
    pub fn new(cos: Vec<i64>, sin: Vec<i64>) -> (r: Option<TrigTable>)
        ensures
            match r {
                Some(t) => t.wf() && t.cos@ == cos@ && t.sin@ == sin@,
                None => !(TrigTable { cos, sin }).wf(),
            },
    {
        if cos.len() != FULL_TURN as usize || sin.len() != FULL_TURN as usize {
            return None;
        }
        let mut i: usize = 0;
        while i < cos.len()
            invariant
                i <= cos@.len(),
                cos@.len() == FULL_TURN,
                sin@.len() == FULL_TURN,
                forall|j: int| 0 <= j < i ==> -FP <= #[trigger] cos@[j] <= FP,
                forall|j: int| 0 <= j < i ==> -FP <= #[trigger] sin@[j] <= FP,
            decreases cos@.len() - i,
        {
            let c = cos[i];
            let s = sin[i];
            if c < -FP || c > FP || s < -FP || s > FP {
                return None;
            }
            i += 1;
        }
        Some(TrigTable { cos, sin })
    }

    /// The cosine sample of a normalized angle.
    pub fn cos_at(&self, a: i64) -> (r: i64)
        requires
            self.wf(),
            0 <= a < FULL_TURN,
        ensures
            r == self.cos@[a as int],
            -FP <= r <= FP,
    {
        self.cos[a as usize]
    }

    /// The sine sample of a normalized angle.
    pub fn sin_at(&self, a: i64) -> (r: i64)
        requires
            self.wf(),
            0 <= a < FULL_TURN,
        ensures
            r == self.sin@[a as int],
            -FP <= r <= FP,
    {
        self.sin[a as usize]
    }
}

/// The tangent of an angle as a fixed-point ratio of its samples, or
/// `None` for a vertical ray (cosine sample zero).
pub open spec fn spec_tan_from(cos_a: int, sin_a: int) -> Option<i64> {
    if cos_a == 0 {
        None
    } else {
        Some(spec_div_trunc(sin_a * FP, cos_a) as i64)
    }
}

/// The cotangent of an angle as a fixed-point ratio of its samples, or
/// `None` for a horizontal ray (sine sample zero).
pub open spec fn spec_inv_tan_from(cos_a: int, sin_a: int) -> Option<i64> {
    if sin_a == 0 {
        None
    } else {
        Some(spec_div_trunc(cos_a * FP, sin_a) as i64)
    }
}

/// Derives the fixed-point tangent from an angle's samples.
pub fn tan_from(cos_a: i64, sin_a: i64) -> (r: Option<i64>)
    requires
        -FP <= cos_a <= FP,
        -FP <= sin_a <= FP,
    ensures
        r == spec_tan_from(cos_a as int, sin_a as int),
        r matches Some(t) ==> spec_abs(t as int) <= FP * FP,
{
    if cos_a == 0 {
        None
    } else {
        Some(div_trunc(sin_a * FP, cos_a))
    }
}

/// Derives the fixed-point cotangent from an angle's samples.
pub fn inv_tan_from(cos_a: i64, sin_a: i64) -> (r: Option<i64>)
    requires
        -FP <= cos_a <= FP,
        -FP <= sin_a <= FP,
    ensures
        r == spec_inv_tan_from(cos_a as int, sin_a as int),
        r matches Some(t) ==> spec_abs(t as int) <= FP * FP,
{
    if sin_a == 0 {
        None
    } else {
        Some(div_trunc(cos_a * FP, sin_a))
    }
}

} // verus!
