//! Integer side of a top-of-descent calculator.
//!
//! The horizontal distance and the raw vertical speed are trigonometric and
//! floating-point quantities, computed by the caller. The steps that are exact
//! on whole numbers are stated and proved here: the altitude change between
//! two altitudes in whole feet, the wrapping of a descent angle in whole
//! degrees into the angle from the vertical, and the scaling of a descent rate
//! rounded up to whole hundreds of feet per minute.
use vstd::prelude::*;

verus! {

/// The unit in which a required descent rate is rounded, in feet per minute.
pub const RATE_STEP_FPM: u64 = 100;

/// The descent rate, in feet per minute, for a rate of `hundreds` hundreds of
/// feet per minute.
pub open spec fn rate_fpm_of(hundreds: nat) -> nat {
    hundreds * (RATE_STEP_FPM as nat)
}

/// Whether a rate of `hundreds` hundreds of feet per minute can be written in
/// feet per minute as a `u64`.
pub open spec fn rate_fits(hundreds: nat) -> bool {
    rate_fpm_of(hundreds) <= u64::MAX
}

/// Turns a descent rate rounded up to whole hundreds of feet per minute into
/// feet per minute. `None` when the result does not fit in a `u64`.
pub fn descent_rate_fpm(hundreds_per_minute: u64) -> (r: Option<u64>)
    ensures
        rate_fits(hundreds_per_minute as nat) <==> r.is_some(),
        r matches Some(fpm) ==> fpm as nat == rate_fpm_of(hundreds_per_minute as nat),
{
    if hundreds_per_minute <= u64::MAX / RATE_STEP_FPM {
        Some(hundreds_per_minute * RATE_STEP_FPM)
    } else {
        None
    }
}

/// A descent rate is always a whole number of hundreds of feet per minute,
/// and a larger count of hundreds never gives a smaller rate.
pub proof fn lemma_rate_is_multiple_of_step(hundreds: nat, fewer: nat)
    requires
        fewer <= hundreds,
    ensures
        rate_fpm_of(hundreds) % (RATE_STEP_FPM as nat) == 0,
        rate_fpm_of(fewer) <= rate_fpm_of(hundreds),
{
    assert(rate_fpm_of(hundreds) % 100 == 0) by (nonlinear_arith);
    assert(rate_fpm_of(fewer) <= rate_fpm_of(hundreds)) by (nonlinear_arith)
        requires fewer <= hundreds;
}

/// The altitude change between two altitudes in whole feet: the distance
/// between them, whichever is higher.
pub open spec fn altitude_delta_of(initial: int, target: int) -> nat {
    if initial >= target {
        (initial - target) as nat
    } else {
        (target - initial) as nat
    }
}

/// The remainder of `degrees` by a right angle, with the sign of `degrees`
/// (the remainder of a division that truncates toward zero).
pub open spec fn signed_rem_right_angle(degrees: int) -> int {
    if degrees >= 0 {
        degrees % 90
    } else {
        -((-degrees) % 90)
    }
}

/// The angle from the vertical, in degrees, that a descent angle of
/// `degrees` from the horizontal stands for, after wrapping by a right angle.
pub open spec fn complement_degrees_of(degrees: int) -> int {
    90 - signed_rem_right_angle(degrees)
}

/// The altitude change, in feet, between two altitudes in whole feet.
pub fn altitude_delta(initial: i64, target: i64) -> (r: u64)
    ensures
        r as nat == altitude_delta_of(initial as int, target as int),
{
    if initial >= target {
        (initial as i128 - target as i128) as u64
    } else {
        (target as i128 - initial as i128) as u64
    }
}

/// The angle from the vertical, in degrees, for a descent angle of `degrees`
/// from the horizontal. The angle is first wrapped by a right angle keeping
/// its sign, so a negative angle gives more than a right angle.
pub fn complement_degrees(degrees: i64) -> (r: i64)
    ensures
        r as int == complement_degrees_of(degrees as int),
        0 < r < 180,
{
    if degrees >= 0 {
        90 - degrees % 90
    } else {
        let magnitude: u64 = (0i128 - degrees as i128) as u64;
        90 + (magnitude % 90) as i64
    }
}

/// Equal altitudes give no altitude change, so no distance.
pub proof fn lemma_equal_altitudes_no_delta(altitude: int)
    ensures
        altitude_delta_of(altitude, altitude) == 0,
{
}

/// Swapping the two altitudes leaves the altitude change, and so the
/// distance computed from it, unchanged.
pub proof fn lemma_delta_symmetric(initial: int, target: int)
    ensures
        altitude_delta_of(initial, target) == altitude_delta_of(target, initial),
{
}

} // verus!
