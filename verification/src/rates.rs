use vstd::prelude::*;

verus! {

/// How a rent or fee rate is quoted.
#[derive(Clone, Copy, Debug, PartialEq, Eq, Structural)]
pub enum RateType {
    PerSecond,
    PerHour,
    PerDay,
}

/// Number of seconds in one unit of a rate type.
pub open spec fn seconds_per_unit(rate_type: RateType) -> int {
    match rate_type {
        RateType::PerSecond => 1,
        RateType::PerHour => 3_600,
        RateType::PerDay => 86_400,
    }
}

/// Integer division rounding toward zero, as Rust's `/` does on signed
/// integers (0 for a zero divisor).
pub open spec fn trunc_div(x: int, d: int) -> int {
    if d == 0 {
        0
    } else {
        let q = (if x < 0 { -x } else { x }) / (if d < 0 { -d } else { d });
        if (x < 0) == (d < 0) { q } else { -q }
    }
}

/// Truncating division by cases of sign, as the standard library states
/// checked signed division.
pub proof fn lemma_trunc_div_by_signs(x: int, d: int)
    requires
        d != 0,
    ensures
        trunc_div(x, d) == (if x == 0 {
            0
        } else if x > 0 && d > 0 {
            x / d
        } else if x < 0 && d < 0 {
            (x * -1) / (d * -1)
        } else if x < 0 {
            ((x * -1) / d) * -1
        } else {
            (x / (d * -1)) * -1
        }),
{
}

/// Converts a rate to a per-second rate, rounding toward zero.
pub fn to_per_second(rate: i128, rate_type: RateType) -> (r: i128)
    ensures
        r == trunc_div(rate as int, seconds_per_unit(rate_type)),
{
    match rate_type {
        RateType::PerSecond => rate,
        RateType::PerHour => rate / 3_600,
        RateType::PerDay => rate / 86_400,
    }
}

} // verus!
