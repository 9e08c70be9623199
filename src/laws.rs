use vstd::prelude::*;
use crate::error::Error;
use crate::protocol::{
    active_entries, create_error, fund_error, liquidate_error, loan_at, loan_wf, new_loan,
    repay_error, update_oracle_error, LendingProtocol, MAX_INTEREST_RATE, MIN_INTEREST_RATE,
};
use crate::types::{Address, AssetInfo, Config, Loan};
use crate::valuation::{value_of, OracleReading};

verus! {

/// A principal below the minimum is refused as too small, one above the
/// maximum as too large, whatever the other arguments; `create_loan` then
/// records nothing.
pub proof fn out_of_bounds_principal_refused(
    config: Config,
    amount: i128,
    interest_rate: u32,
    duration: u32,
    collateral_amount: i128,
    reading: OracleReading,
)
    requires
        amount < config.min_loan || amount > config.max_loan,
    ensures
        create_error(config, amount, interest_rate, duration, collateral_amount, reading) == if amount
            < config.min_loan {
            Some(Error::LoanTooSmall)
        } else {
            Some(Error::LoanTooLarge)
        },
{
}

/// An interest rate outside the accepted range is always refused, and with
/// `InvalidInterest` when the principal is within bounds.
pub proof fn out_of_range_interest_refused(
    config: Config,
    amount: i128,
    interest_rate: u32,
    duration: u32,
    collateral_amount: i128,
    reading: OracleReading,
)
    requires
        interest_rate < MIN_INTEREST_RATE || interest_rate > MAX_INTEREST_RATE,
    ensures
        create_error(config, amount, interest_rate, duration, collateral_amount, reading) is Some,
        config.min_loan <= amount <= config.max_loan ==> create_error(
            config,
            amount,
            interest_rate,
            duration,
            collateral_amount,
            reading,
        ) == Some(Error::InvalidInterest),
{
}

/// Every record of a ledger owes its principal plus the rounded-down interest
/// at its rate.
pub proof fn repayment_is_principal_plus_interest(p: LendingProtocol, loan_id: u32)
    requires
        p.wf(),
        loan_id < p.records().len(),
    ensures
        p.records()[loan_id as int].repayment_amount == p.records()[loan_id as int].amount + (
        p.records()[loan_id as int].amount * p.records()[loan_id as int].interest_rate) / 100,
{
    assert(loan_wf(p.records()[loan_id as int]));
}

/// Once principal, rate and term are acceptable and the collateral is valued
/// at `value`, creation succeeds exactly when `value` reaches 150% of the
/// principal, rounded down, and is refused for insufficient collateral
/// otherwise.
pub proof fn creation_needs_collateral_ratio(
    config: Config,
    amount: i128,
    interest_rate: u32,
    duration: u32,
    collateral_amount: i128,
    reading: OracleReading,
    value: int,
)
    requires
        config.wf(),
        config.min_loan <= amount <= config.max_loan,
        MIN_INTEREST_RATE <= interest_rate <= MAX_INTEREST_RATE,
        duration != 0,
        value_of(reading, collateral_amount as int) == Ok::<int, Error>(value),
    ensures
        create_error(config, amount, interest_rate, duration, collateral_amount, reading) == if value
            >= (amount * 150) / 100 {
            None
        } else {
            Some(Error::InsufficientCollateral)
        },
{
}

/// A loan that awaits funding, offered its exact principal, can be funded up
/// to and including its deadline, and not a moment later.
pub proof fn funding_deadline_is_inclusive(loans: Seq<Loan>, loan_id: u32, amount: i128, now: u64)
    requires
        loan_id < loans.len(),
        loans[loan_id as int].active,
        amount == loans[loan_id as int].amount,
    ensures
        now <= loans[loan_id as int].funding_deadline ==> fund_error(loans, loan_id, amount, now)
            is None,
        now > loans[loan_id as int].funding_deadline ==> fund_error(loans, loan_id, amount, now)
            == Some(Error::DeadlinePassed),
{
}

/// Funding with anything but the principal, more or less, is refused.
pub proof fn funding_needs_exact_principal(loans: Seq<Loan>, loan_id: u32, amount: i128, now: u64)
    requires
        loan_id < loans.len(),
        amount != loans[loan_id as int].amount,
    ensures
        fund_error(loans, loan_id, amount, now) is Some,
{
}

/// Repayment by anyone but the borrower, or of anything but exactly what is
/// owed, is refused.
pub proof fn repayment_needs_borrower_and_exact_amount(
    loans: Seq<Loan>,
    loan_id: u32,
    borrower: Address,
    amount: i128,
)
    requires
        loan_id < loans.len(),
        borrower@ != loans[loan_id as int].borrower@ || amount
            != loans[loan_id as int].repayment_amount,
    ensures
        repay_error(loans, loan_id, borrower, amount) is Some,
        borrower@ != loans[loan_id as int].borrower@ ==> repay_error(loans, loan_id, borrower, amount)
            == Some(Error::Unauthorized),
{
}

/// An unsettled loan whose collateral is valued at `value` can be liquidated
/// exactly when `value` is below 120% of the principal, rounded down; else it
/// is refused with `CannotLiquidate`.
pub proof fn liquidation_needs_shortfall(loans: Seq<Loan>, loan_id: u32, reading: OracleReading, value: int)
    requires
        loan_id < loans.len(),
        !loans[loan_id as int].repaid,
        0 <= loans[loan_id as int].amount,
        value_of(reading, loans[loan_id as int].collateral_amount as int) == Ok::<int, Error>(value),
    ensures
        liquidate_error(loans, loan_id, reading) == if value >= (loans[loan_id as int].amount * 120)
            / 100 {
            Some(Error::CannotLiquidate)
        } else {
            None
        },
{
}

/// Anyone but the admin is refused the oracle change, however the new oracle
/// answered.
pub proof fn only_admin_updates_oracle(config: Config, updater: Address, new_oracle_version: u32)
    requires
        updater@ != config.admin@,
    ensures
        update_oracle_error(config, updater, new_oracle_version) == Some(Error::Unauthorized),
{
}

/// The active listing holds exactly the records that await funding, each with
/// its own identifier, in strictly ascending order of identifier. It depends on
/// the records alone, so reading it again without a change in between gives
/// the same listing.
pub proof fn active_listing_is_exact(loans: Seq<Loan>, n: nat)
    requires
        n <= loans.len() <= u32::MAX,
    ensures
        forall|k: int|
            0 <= k < active_entries(loans, n).len() ==> {
                let (id, l) = #[trigger] active_entries(loans, n)[k];
                &&& id < n
                &&& l == loans[id as int]
                &&& l.active
            },
        forall|j: int, k: int|
            0 <= j < k < active_entries(loans, n).len() ==> active_entries(loans, n)[j].0
                < active_entries(loans, n)[k].0,
        forall|i: int|
            0 <= i < n && #[trigger] loans[i].active ==> exists|k: int|
                0 <= k < active_entries(loans, n).len() && active_entries(loans, n)[k].0 == i,
    decreases n,
{
    if n > 0 {
        active_listing_is_exact(loans, (n - 1) as nat);
        let before = active_entries(loans, (n - 1) as nat);
        if loans[n - 1].active {
            let s = active_entries(loans, n);
            assert(s == before.push(((n - 1) as u32, loans[n - 1])));
            assert forall|i: int| 0 <= i < n && #[trigger] loans[i].active implies exists|k: int|
                0 <= k < s.len() && s[k].0 == i by {
                if i < n - 1 {
                    let k = choose|k: int| 0 <= k < before.len() && before[k].0 == i;
                    assert(s[k] == before[k]);
                } else {
                    assert(s[before.len() as int].0 == i);
                }
            }
            assert forall|k: int| 0 <= k < s.len() implies {
                let (id, l) = #[trigger] s[k];
                &&& id < n
                &&& l == loans[id as int]
                &&& l.active
            } by {
                if k < before.len() {
                    assert(s[k] == before[k]);
                }
            }
        }
    }
}

/// A loan that `create_loan` accepted reads back with every field as it was
/// supplied, no lender, awaiting funding and unsettled.
pub proof fn created_loan_reads_back(
    before: LendingProtocol,
    after: LendingProtocol,
    amount: i128,
    token: Address,
    interest_rate: u32,
    duration: u32,
    borrower: Address,
    collateral_asset: AssetInfo,
    collateral_amount: i128,
    now: u64,
    reading: OracleReading,
)
    requires
        before.wf(),
        before.records().len() < u32::MAX,
        create_error(
            before.settings(),
            amount,
            interest_rate,
            duration,
            collateral_amount,
            reading,
        ) is None,
        after.records() == before.records().push(
            new_loan(
                amount,
                token,
                interest_rate,
                duration,
                borrower,
                collateral_asset,
                collateral_amount,
                now,
            ),
        ),
    ensures
        ({
            let l = loan_at(after.records(), before.records().len() as u32)->Some_0;
            &&& loan_at(after.records(), before.records().len() as u32) is Some
            &&& l.amount == amount
            &&& l.token == token
            &&& l.interest_rate == interest_rate
            &&& l.duration == duration
            &&& l.borrower == borrower
            &&& l.collateral_asset == collateral_asset
            &&& l.collateral_amount == collateral_amount
            &&& l.lender is None
            &&& l.active
            &&& !l.repaid
        }),
{
    assert(after.records()[before.records().len() as int] == new_loan(
        amount,
        token,
        interest_rate,
        duration,
        borrower,
        collateral_asset,
        collateral_amount,
        now,
    ));
}

} // verus!
