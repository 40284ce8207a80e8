//! The plane's quadrance and cross product at fixed integer widths, for
//! callers that name the type rather than infer it.

use vstd::prelude::*;
use crate::scalar::pair_val;
use crate::model::{cross_fits, quadrance_fits, spec_cross, spec_quadrance};
use crate::trigonom::{cross, quadrance};

verus! {

/// The quadrance between two points with `i64` coordinates.
pub fn quadrance_i64(p_1: (i64, i64), p_2: (i64, i64)) -> (r: i64)
    requires
        quadrance_fits::<i64>(pair_val(p_1), pair_val(p_2)),
    ensures
        r == spec_quadrance(pair_val(p_1), pair_val(p_2)),
{
    quadrance(p_1, p_2)
}

/// The cross product of two vectors with `i64` components.
pub fn cross_i64(v_1: (i64, i64), v_2: (i64, i64)) -> (r: i64)
    requires
        cross_fits::<i64>(pair_val(v_1), pair_val(v_2)),
    ensures
        r == spec_cross(true, pair_val(v_1), pair_val(v_2)),
{
    cross(v_1, v_2)
}

/// The quadrance between two points with `i32` coordinates.
pub fn quadrance_i32(p_1: (i32, i32), p_2: (i32, i32)) -> (r: i32)
    requires
        quadrance_fits::<i32>(pair_val(p_1), pair_val(p_2)),
    ensures
        r == spec_quadrance(pair_val(p_1), pair_val(p_2)),
{
    quadrance(p_1, p_2)
}

/// The cross product of two vectors with `i32` components.
pub fn cross_i32(v_1: (i32, i32), v_2: (i32, i32)) -> (r: i32)
    requires
        cross_fits::<i32>(pair_val(v_1), pair_val(v_2)),
    ensures
        r == spec_cross(true, pair_val(v_1), pair_val(v_2)),
{
    cross(v_1, v_2)
}

} // verus!
