use vstd::prelude::*;

verus! {

/// Seconds in one hour.
pub const SECONDS_PER_HOUR: i64 = 3600;

/// The rate that an hourly-rate input stands for once sanitised, in
/// hundredths of a currency unit per hour. `None` stands for an input that
/// was not a finite number.
pub open spec fn sanitized_rate(rate: Option<i64>) -> int {
    match rate {
        Some(c) => if c < 0 { 0 } else { c as int },
        None => 0,
    }
}

/// `n / 3600` rounded to the nearest integer, halves away from zero.
pub open spec fn round_hourly(n: int) -> int {
    if n >= 0 {
        (n + 1800) / 3600
    } else {
        -((-n + 1800) / 3600)
    }
}

/// The amount earned, in hundredths, for `duration` seconds at `rate`
/// hundredths per hour: `duration / 3600 * rate` rounded to the hundredth.
pub open spec fn amount_of(duration: int, rate: int) -> int {
    round_hourly(duration * rate)
}

/// A product of an `i64` and a `u64` fits in an `i128`.
pub proof fn lemma_product_fits(duration: i64, rate: u64)
    ensures
        -0x8000_0000_0000_0000 * 0xffff_ffff_ffff_ffff <= duration as int * rate as int
            <= 0x7fff_ffff_ffff_ffff * 0xffff_ffff_ffff_ffff,
{
    let di = duration as int;
    let ri = rate as int;
    assert(di * ri <= 0x7fff_ffff_ffff_ffff * 0xffff_ffff_ffff_ffff) by (nonlinear_arith)
        requires
            di <= 0x7fff_ffff_ffff_ffff,
            0 <= ri <= 0xffff_ffff_ffff_ffff,
    ;
    assert(di * ri >= -0x8000_0000_0000_0000 * 0xffff_ffff_ffff_ffff) by (nonlinear_arith)
        requires
            -0x8000_0000_0000_0000 <= di,
            0 <= ri <= 0xffff_ffff_ffff_ffff,
    ;
}

/// An amount over an `i64` number of seconds at a `u64` rate fits in an
/// `i128`.
pub proof fn lemma_amount_fits(duration: i64, rate: u64)
    ensures
        i128::MIN <= amount_of(duration as int, rate as int) <= i128::MAX,
{
    lemma_product_fits(duration, rate);
}

/// Sanitises an hourly rate: a non-finite input (`None`) or a negative one
/// becomes zero, any other is kept.
pub fn sanitize_hourly_rate(rate: Option<i64>) -> (r: u64)
    ensures
        r == sanitized_rate(rate),
{
    match rate {
        Some(c) => if c < 0 {
            0
        } else {
            c as u64
        },
        None => 0,
    }
}

/// The amount, in hundredths, earned over `duration_seconds` at
/// `hourly_rate` hundredths per hour, rounded half away from zero.
pub fn calculate_amount(duration_seconds: i64, hourly_rate: u64) -> (r: i128)
    ensures
        r == amount_of(duration_seconds as int, hourly_rate as int),
{
    let d: i128 = duration_seconds as i128;
    let rate: i128 = hourly_rate as i128;
    proof {
        lemma_product_fits(duration_seconds, hourly_rate);
    }
    let n: i128 = d * rate;
    if n >= 0 {
        (n + 1800) / 3600
    } else {
        let m: i128 = -n;
        -((m + 1800) / 3600)
    }
}

} // verus!
