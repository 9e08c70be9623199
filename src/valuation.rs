use vstd::prelude::*;
use crate::error::Error;
use crate::types::{PriceData, MAX_LOAN_LIMIT};

verus! {

/// Percentage of the principal that collateral must be worth when a loan is created.
pub const CREATION_RATIO_PERCENT: i128 = 150;

/// Percentage of the principal below which collateral makes a loan liquidatable.
pub const LIQUIDATION_RATIO_PERCENT: i128 = 120;

/// What the price oracle answered for one asset, as one operation saw it:
/// its liveness version (zero for a dead or uninitialized feed), its decimal
/// precision, and the last quote, if it had one.
#[derive(Clone, Copy, Debug, PartialEq, Eq, Structural)]
pub struct OracleReading {
    pub version: u32,
    pub decimals: u32,
    pub quote: Option<PriceData>,
}

/// `10^e`.
pub open spec fn pow10(e: nat) -> int
    decreases e,
{
    if e == 0 {
        1
    } else {
        10 * pow10((e - 1) as nat)
    }
}

pub open spec fn fits_i128(x: int) -> bool {
    i128::MIN <= x <= i128::MAX
}

/// Division that truncates toward zero, as integer division does on machine integers.
pub open spec fn trunc_div(a: int, b: int) -> int
    recommends
        b > 0,
{
    if a >= 0 {
        a / b
    } else {
        -((-a) / b)
    }
}

/// `part` percent of `amount`, truncated.
pub open spec fn percent_of(amount: int, part: int) -> int {
    trunc_div(amount * part, 100)
}

/// The value of `amount` units of collateral at the reading's price, scaled
/// down by the feed's decimals and truncated. A reading fails with
/// `OracleError` when the feed is dead or has no quote, and also when the
/// scaled value cannot be computed within `i128`.
pub open spec fn value_of(reading: OracleReading, amount: int) -> Result<int, Error> {
    match reading.quote {
        None => Err(Error::OracleError),
        Some(q) => {
            if reading.version == 0 {
                Err(Error::OracleError)
            } else if !fits_i128(pow10(reading.decimals as nat)) || !fits_i128(amount * q.price) {
                Err(Error::OracleError)
            } else {
                Ok(trunc_div(amount * q.price, pow10(reading.decimals as nat)))
            }
        },
    }
}

proof fn lemma_pow10_positive(e: nat)
    ensures
        pow10(e) >= 1,
    decreases e,
{
    if e > 0 {
        lemma_pow10_positive((e - 1) as nat);
    }
}

/// `10^e`, where it fits in `i128`.
pub fn checked_pow10(e: u32) -> (r: Option<i128>)
    ensures
        r == (if fits_i128(pow10(e as nat)) {
            Some(pow10(e as nat) as i128)
        } else {
            None::<i128>
        }),
{
    let mut acc: i128 = 1;
    let mut i: u32 = 0;
    while i < e
        invariant
            i <= e,
            acc as int == pow10(i as nat),
        decreases e - i,
    {
        proof {
            lemma_pow10_positive(i as nat);
        }
        match acc.checked_mul(10) {
            Some(next) => {
                acc = next;
                i = i + 1;
            },
            None => {
                proof {
                    lemma_pow10_monotone(i as nat + 1, e as nat);
                }
                return None;
            },
        }
    }
    Some(acc)
}

proof fn lemma_pow10_monotone(a: nat, b: nat)
    requires
        a <= b,
    ensures
        pow10(a) <= pow10(b),
    decreases b - a,
{
    if a < b {
        lemma_pow10_monotone(a, (b - 1) as nat);
        lemma_pow10_positive((b - 1) as nat);
    }
}

/// The value of `amount` units of collateral at the reading's price.
pub fn collateral_value(reading: &OracleReading, amount: i128) -> (r: Result<i128, Error>)
    ensures
        match r {
            Ok(v) => value_of(*reading, amount as int) == Ok::<int, Error>(v as int),
            Err(e) => value_of(*reading, amount as int) == Err::<int, Error>(e),
        },
{
    let quote = match reading.quote {
        Some(q) => q,
        None => return Err(Error::OracleError),
    };
    if reading.version == 0 {
        return Err(Error::OracleError);
    }
    let scale = match checked_pow10(reading.decimals) {
        Some(s) => s,
        None => return Err(Error::OracleError),
    };
    let product = match amount.checked_mul(quote.price) {
        Some(p) => p,
        None => return Err(Error::OracleError),
    };
    proof {
        lemma_pow10_positive(reading.decimals as nat);
    }
    Ok(product / scale)
}

/// `part` percent of a principal, truncated.
fn percent(amount: i128, part: i128) -> (r: i128)
    requires
        0 < amount <= MAX_LOAN_LIMIT,
        0 <= part <= CREATION_RATIO_PERCENT,
    ensures
        r as int == percent_of(amount as int, part as int),
{
    proof {
        assert(0 <= amount * part <= MAX_LOAN_LIMIT * CREATION_RATIO_PERCENT) by (nonlinear_arith)
            requires
                0 < amount <= MAX_LOAN_LIMIT,
                0 <= part <= CREATION_RATIO_PERCENT,
        ;
    }
    amount * part / 100
}

/// Whether collateral worth `value` may back a new loan of principal `amount`.
pub fn meets_creation_ratio(value: i128, amount: i128) -> (r: bool)
    requires
        0 < amount <= MAX_LOAN_LIMIT,
    ensures
        r == (value >= percent_of(amount as int, CREATION_RATIO_PERCENT as int)),
{
    value >= percent(amount, CREATION_RATIO_PERCENT)
}

/// Whether collateral worth `value` has fallen below the liquidation threshold
/// of a loan of principal `amount`.
pub fn below_liquidation_ratio(value: i128, amount: i128) -> (r: bool)
    requires
        0 < amount <= MAX_LOAN_LIMIT,
    ensures
        r == (value < percent_of(amount as int, LIQUIDATION_RATIO_PERCENT as int)),
{
    value < percent(amount, LIQUIDATION_RATIO_PERCENT)
}

/// The interest owed on a principal at a percentage rate, truncated.
pub fn interest_on(amount: i128, rate: u32) -> (r: i128)
    requires
        0 < amount <= MAX_LOAN_LIMIT,
        rate <= 100,
    ensures
        r as int == percent_of(amount as int, rate as int),
        0 <= r <= amount,
{
    proof {
        assert(0 <= (amount * rate) / 100 <= amount) by (nonlinear_arith)
            requires
                0 < amount,
                rate <= 100,
        ;
    }
    percent(amount, rate as i128)
}

} // verus!
