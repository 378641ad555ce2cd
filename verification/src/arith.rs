use vstd::prelude::*;

verus! {

/// `a + b` clamped to the range of `i64`.
pub open spec fn sat_add(a: int, b: int) -> int {
    if a + b > i64::MAX {
        i64::MAX as int
    } else if a + b < i64::MIN {
        i64::MIN as int
    } else {
        a + b
    }
}

/// `a - b` clamped to the range of `i64`.
pub open spec fn sat_sub(a: int, b: int) -> int {
    sat_add(a, -b)
}

/// `a - b` clamped at zero, as `u64::saturating_sub` computes it.
pub open spec fn sat_sub_nat(a: int, b: int) -> int {
    if a < b { 0 } else { a - b }
}

/// Saturating addition on `i64`, as `i64::saturating_add` computes it.
pub fn i64_saturating_add(a: i64, b: i64) -> (r: i64)
    ensures
        r == sat_add(a as int, b as int),
{
    if b > 0 && a > i64::MAX - b {
        i64::MAX
    } else if b < 0 && a < i64::MIN - b {
        i64::MIN
    } else {
        a + b
    }
}

/// Saturating subtraction on `i64`, as `i64::saturating_sub` computes it.
pub fn i64_saturating_sub(a: i64, b: i64) -> (r: i64)
    ensures
        r == sat_sub(a as int, b as int),
{
    if b < 0 && a > i64::MAX + b {
        i64::MAX
    } else if b > 0 && a < i64::MIN + b {
        i64::MIN
    } else {
        a - b
    }
}

} // verus!
