use vstd::prelude::*;
use crate::error::Error;
use crate::types::{Address, AssetInfo, Config, Loan, PriceData, MAX_LOAN_LIMIT};
use crate::valuation::{
    below_liquidation_ratio, collateral_value, interest_on, meets_creation_ratio, percent_of,
    value_of, OracleReading, CREATION_RATIO_PERCENT, LIQUIDATION_RATIO_PERCENT,
};

verus! {

/// Lowest accepted interest rate, in percent.
pub const MIN_INTEREST_RATE: u32 = 1;

/// Highest accepted interest rate, in percent.
pub const MAX_INTEREST_RATE: u32 = 10;

/// Time a lender has to fund a new loan: one day of ledger time units.
pub const FUNDING_WINDOW: u64 = 17280;

/// A movement of `amount` of `token` from `from` to `to`, which the surrounding
/// transaction must carry out for an operation to take effect.
#[derive(Clone, Debug, PartialEq, Eq)]
pub struct Transfer {
    pub token: Address,
    pub from: Address,
    pub to: Address,
    pub amount: i128,
}

/// What is owed back on a principal at a percentage rate.
pub open spec fn repayment_of(amount: int, rate: int) -> int {
    amount + percent_of(amount, rate)
}

/// A record as creation leaves it: its principal within the supported range,
/// its rate within bounds, and its repayment derived from both.
pub open spec fn loan_wf(l: Loan) -> bool {
    &&& 0 < l.amount <= MAX_LOAN_LIMIT
    &&& MIN_INTEREST_RATE <= l.interest_rate <= MAX_INTEREST_RATE
    &&& l.repayment_amount == repayment_of(l.amount as int, l.interest_rate as int)
}

/// Whether a record is well formed.
pub fn is_well_formed(l: &Loan) -> (r: bool)
    ensures
        r == loan_wf(*l),
{
    if l.amount <= 0 || l.amount > MAX_LOAN_LIMIT || l.interest_rate < MIN_INTEREST_RATE
        || l.interest_rate > MAX_INTEREST_RATE {
        return false;
    }
    l.repayment_amount == l.amount + interest_on(l.amount, l.interest_rate)
}

/// The record with identifier `id`, if one was created.
pub open spec fn loan_at(loans: Seq<Loan>, id: u32) -> Option<Loan> {
    if id < loans.len() {
        Some(loans[id as int])
    } else {
        None
    }
}

/// Why creation is refused, if it is: principal bounds, then rate, then term,
/// then the valuation of the collateral against the creation ratio.
pub open spec fn create_error(
    config: Config,
    amount: i128,
    interest_rate: u32,
    duration: u32,
    collateral_amount: i128,
    reading: OracleReading,
) -> Option<Error> {
    if amount < config.min_loan {
        Some(Error::LoanTooSmall)
    } else if amount > config.max_loan {
        Some(Error::LoanTooLarge)
    } else if interest_rate < MIN_INTEREST_RATE || interest_rate > MAX_INTEREST_RATE {
        Some(Error::InvalidInterest)
    } else if duration == 0 {
        Some(Error::InvalidDuration)
    } else {
        match value_of(reading, collateral_amount as int) {
            Err(e) => Some(e),
            Ok(v) => if v < percent_of(amount as int, CREATION_RATIO_PERCENT as int) {
                Some(Error::InsufficientCollateral)
            } else {
                None
            },
        }
    }
}

/// The record that creation appends: unfunded, awaiting a lender.
pub open spec fn new_loan(
    amount: i128,
    token: Address,
    interest_rate: u32,
    duration: u32,
    borrower: Address,
    collateral_asset: AssetInfo,
    collateral_amount: i128,
    now: u64,
) -> Loan {
    Loan {
        amount,
        interest_rate,
        duration,
        repayment_amount: repayment_of(amount as int, interest_rate as int) as i128,
        funding_deadline: (now + FUNDING_WINDOW) as u64,
        borrower,
        lender: None,
        collateral_asset,
        token,
        collateral_amount,
        active: true,
        repaid: false,
    }
}

/// Why funding is refused, if it is: the loan must exist and await funding,
/// the deadline must not have passed, and the amount must be the principal.
pub open spec fn fund_error(loans: Seq<Loan>, loan_id: u32, amount: i128, now: u64) -> Option<Error> {
    if loan_id >= loans.len() || !loans[loan_id as int].active {
        Some(Error::InactiveLoan)
    } else if now > loans[loan_id as int].funding_deadline {
        Some(Error::DeadlinePassed)
    } else if amount != loans[loan_id as int].amount {
        Some(Error::InvalidAmount)
    } else {
        None
    }
}

/// The record once `lender` has funded it.
pub open spec fn funded(l: Loan, lender: Address) -> Loan {
    Loan { lender: Some(lender), active: false, ..l }
}

/// Why repayment is refused, if it is: the loan must exist, the payer must be
/// its borrower, the amount must be exactly what is owed, and the loan must be
/// funded and not yet settled.
pub open spec fn repay_error(loans: Seq<Loan>, loan_id: u32, borrower: Address, amount: i128) -> Option<Error> {
    if loan_id >= loans.len() {
        Some(Error::InactiveLoan)
    } else if borrower@ != loans[loan_id as int].borrower@ {
        Some(Error::Unauthorized)
    } else if amount != loans[loan_id as int].repayment_amount {
        Some(Error::InvalidRepaymentAmount)
    } else if loans[loan_id as int].lender is None || loans[loan_id as int].repaid {
        Some(Error::InactiveLoan)
    } else {
        None
    }
}

/// The record once settled, by repayment or by liquidation.
pub open spec fn settled(l: Loan) -> Loan {
    Loan { active: false, repaid: true, ..l }
}

/// Why liquidation is refused, if it is: the loan must exist and be unsettled,
/// the collateral must be valued, and its value must have fallen below the
/// liquidation ratio.
pub open spec fn liquidate_error(loans: Seq<Loan>, loan_id: u32, reading: OracleReading) -> Option<Error> {
    if loan_id >= loans.len() || loans[loan_id as int].repaid {
        Some(Error::InactiveLoan)
    } else {
        match value_of(reading, loans[loan_id as int].collateral_amount as int) {
            Err(e) => Some(e),
            Ok(v) => if v >= percent_of(
                loans[loan_id as int].amount as int,
                LIQUIDATION_RATIO_PERCENT as int,
            ) {
                Some(Error::CannotLiquidate)
            } else {
                None
            },
        }
    }
}

/// Why an oracle change is refused, if it is: only the admin may make it, and
/// the new oracle must have answered its liveness probe with a live version.
pub open spec fn update_oracle_error(config: Config, updater: Address, new_oracle_version: u32) -> Option<Error> {
    if updater@ != config.admin@ {
        Some(Error::Unauthorized)
    } else if new_oracle_version == 0 {
        Some(Error::OracleError)
    } else {
        None
    }
}

/// The identifiers and records of the first `n` loans that await funding, in
/// ascending order of identifier.
pub open spec fn active_entries(loans: Seq<Loan>, n: nat) -> Seq<(u32, Loan)>
    decreases n,
{
    if n == 0 {
        Seq::empty()
    } else {
        let before = active_entries(loans, (n - 1) as nat);
        if loans[n - 1].active {
            before.push(((n - 1) as u32, loans[n - 1]))
        } else {
            before
        }
    }
}

/// The ledger: its configuration and every loan record, identified by its
/// position. Records are only ever appended or updated in place.
pub struct LendingProtocol {
    config: Config,
    loans: Vec<Loan>,
}

impl LendingProtocol {
    /// The configuration.
    pub closed spec fn settings(&self) -> Config {
        self.config
    }

    /// The loan records, the one with identifier `i` at position `i`.
    pub closed spec fn records(&self) -> Seq<Loan> {
        self.loans@
    }

    /// The configuration is valid, every identifier fits in `u32`, and every
    /// record is well formed.
    pub open spec fn wf(&self) -> bool {
        &&& self.settings().wf()
        &&& self.records().len() <= u32::MAX
        &&& forall|i: int| 0 <= i < self.records().len() ==> loan_wf(#[trigger] self.records()[i])
    }

    /// Sets up a ledger with no loans, once the oracle named in `config` has
    /// answered its liveness probe with `oracle_version`.
    pub fn initialize(config: Config, oracle_version: u32) -> (r: Result<LendingProtocol, Error>)
        requires
            config.wf(),
        ensures
            match r {
                Ok(p) => {
                    &&& oracle_version != 0
                    &&& p.wf()
                    &&& p.settings() == config
                    &&& p.records().len() == 0
                },
                Err(e) => oracle_version == 0 && e == Error::OracleError,
            },
    {
        if oracle_version == 0 {
            return Err(Error::OracleError);
        }
        Ok(LendingProtocol { config, loans: Vec::new() })
    }

    /// Rebuilds a ledger from a configuration and the records in identifier
    /// order, as a store kept them; `None` when they do not form a valid ledger.
    pub fn restore(config: Config, loans: Vec<Loan>) -> (r: Option<LendingProtocol>)
        ensures
            match r {
                Some(p) => {
                    &&& p.wf()
                    &&& p.settings() == config
                    &&& p.records() == loans@
                },
                None => !{
                    &&& config.wf()
                    &&& loans@.len() <= u32::MAX
                    &&& forall|i: int| 0 <= i < loans@.len() ==> loan_wf(#[trigger] loans@[i])
                },
            },
    {
        if !config.is_valid() || loans.len() > u32::MAX as usize {
            return None;
        }
        let mut i: usize = 0;
        while i < loans.len()
            invariant
                i <= loans@.len(),
                forall|j: int| 0 <= j < i ==> loan_wf(#[trigger] loans@[j]),
            decreases loans@.len() - i,
        {
            if !is_well_formed(&loans[i]) {
                return None;
            }
            i = i + 1;
        }
        Some(LendingProtocol { config, loans })
    }

    /// Every record, in identifier order.
    pub fn loans(&self) -> (r: &Vec<Loan>)
        ensures
            r@ == self.records(),
    {
        &self.loans
    }

    /// The configuration.
    pub fn config(&self) -> (r: Config)
        ensures
            r == self.settings(),
    {
        self.config.clone()
    }

    /// The oracle that prices collateral.
    pub fn oracle_address(&self) -> (r: Address)
        ensures
            r == self.settings().oracle_address,
    {
        self.config.oracle_address.clone()
    }

    /// How many loans were created; also the identifier that the next one gets.
    pub fn loan_count(&self) -> (r: usize)
        ensures
            r == self.records().len(),
    {
        self.loans.len()
    }

    /// The record with identifier `loan_id`, if there is one.
    pub fn get_loan(&self, loan_id: u32) -> (r: Option<Loan>)
        ensures
            r == loan_at(self.records(), loan_id),
    {
        let i = loan_id as usize;
        if i < self.loans.len() {
            Some(self.loans[i].clone())
        } else {
            None
        }
    }

    /// Records a new loan request and returns its identifier. `now` is the
    /// ledger time, and `reading` is what the oracle answered for the
    /// collateral asset. No funds move.
    pub fn create_loan(
        &mut self,
        amount: i128,
        token: Address,
        interest_rate: u32,
        duration: u32,
        borrower: Address,
        collateral_asset: AssetInfo,
        collateral_amount: i128,
        now: u64,
        reading: &OracleReading,
    ) -> (r: Result<u32, Error>)
        requires
            old(self).wf(),
            old(self).records().len() < u32::MAX,
            now <= u64::MAX - FUNDING_WINDOW,
        ensures
            final(self).wf(),
            final(self).settings() == old(self).settings(),
            match create_error(
                old(self).settings(),
                amount,
                interest_rate,
                duration,
                collateral_amount,
                *reading,
            ) {
                Some(e) => r == Err::<u32, Error>(e) && final(self).records() == old(
                    self,
                ).records(),
                None => {
                    &&& r == Ok::<u32, Error>(old(self).records().len() as u32)
                    &&& final(self).records() == old(self).records().push(
                        new_loan(
                            amount,
                            token,
                            interest_rate,
                            duration,
                            borrower,
                            collateral_asset,
                            collateral_amount,
                            now,
                        ),
                    )
                },
            },
    {
        if amount < self.config.min_loan {
            return Err(Error::LoanTooSmall);
        }
        if amount > self.config.max_loan {
            return Err(Error::LoanTooLarge);
        }
        if interest_rate < MIN_INTEREST_RATE || interest_rate > MAX_INTEREST_RATE {
            return Err(Error::InvalidInterest);
        }
        if duration == 0 {
            return Err(Error::InvalidDuration);
        }
        let value = match collateral_value(reading, collateral_amount) {
            Ok(v) => v,
            Err(e) => return Err(e),
        };
        if !meets_creation_ratio(value, amount) {
            return Err(Error::InsufficientCollateral);
        }
        let repayment_amount = amount + interest_on(amount, interest_rate);
        let loan = Loan {
            amount,
            interest_rate,
            duration,
            repayment_amount,
            funding_deadline: now + FUNDING_WINDOW,
            borrower,
            lender: None,
            collateral_asset,
            token,
            collateral_amount,
            active: true,
            repaid: false,
        };
        let loan_id = self.loans.len() as u32;
        self.loans.push(loan);
        proof {
            assert forall|i: int| 0 <= i < self.records().len() implies loan_wf(
                #[trigger] self.records()[i],
            ) by {
                if i < old(self).records().len() {
                    assert(self.records()[i] == old(self).records()[i]);
                }
            }
        }
        Ok(loan_id)
    }

    /// Funds loan `loan_id` with `amount` of `token` from `lender`, at ledger
    /// time `now`. Returns the transfer of the principal to the borrower, which
    /// the surrounding transaction must carry out; the lender is recorded and
    /// the loan stops awaiting funding.
    pub fn fund_loan(
        &mut self,
        loan_id: u32,
        token: Address,
        lender: Address,
        amount: i128,
        now: u64,
    ) -> (r: Result<Transfer, Error>)
        requires
            old(self).wf(),
        ensures
            final(self).wf(),
            final(self).settings() == old(self).settings(),
            match fund_error(old(self).records(), loan_id, amount, now) {
                Some(e) => r == Err::<Transfer, Error>(e) && final(self).records() == old(
                    self,
                ).records(),
                None => {
                    &&& r == Ok::<Transfer, Error>(
                        Transfer {
                            token,
                            from: lender,
                            to: old(self).records()[loan_id as int].borrower,
                            amount,
                        },
                    )
                    &&& final(self).records() == old(self).records().update(
                        loan_id as int,
                        funded(old(self).records()[loan_id as int], lender),
                    )
                },
            },
    {
        let i = loan_id as usize;
        if i >= self.loans.len() || !self.loans[i].active {
            return Err(Error::InactiveLoan);
        }
        if now > self.loans[i].funding_deadline {
            return Err(Error::DeadlinePassed);
        }
        if amount != self.loans[i].amount {
            return Err(Error::InvalidAmount);
        }
        let mut loan = self.loans[i].clone();
        let borrower = loan.borrower.clone();
        loan.lender = Some(lender.clone());
        loan.active = false;
        self.loans.set(i, loan);
        proof {
            assert forall|j: int| 0 <= j < self.records().len() implies loan_wf(
                #[trigger] self.records()[j],
            ) by {
                assert(loan_wf(old(self).records()[j]));
            }
        }
        Ok(Transfer { token, from: lender, to: borrower, amount })
    }

    /// Repays loan `loan_id` with `amount` of `token` from `borrower`. Returns
    /// the transfer of what is owed to the lender, which the surrounding
    /// transaction must carry out; the loan is settled.
    pub fn repay_loan(&mut self, loan_id: u32, token: Address, borrower: Address, amount: i128) -> (r:
        Result<Transfer, Error>)
        requires
            old(self).wf(),
        ensures
            final(self).wf(),
            final(self).settings() == old(self).settings(),
            match repay_error(old(self).records(), loan_id, borrower, amount) {
                Some(e) => r == Err::<Transfer, Error>(e) && final(self).records() == old(
                    self,
                ).records(),
                None => {
                    &&& r == Ok::<Transfer, Error>(
                        Transfer {
                            token,
                            from: borrower,
                            to: old(self).records()[loan_id as int].lender->Some_0,
                            amount,
                        },
                    )
                    &&& final(self).records() == old(self).records().update(
                        loan_id as int,
                        settled(old(self).records()[loan_id as int]),
                    )
                },
            },
    {
        let i = loan_id as usize;
        if i >= self.loans.len() {
            return Err(Error::InactiveLoan);
        }
        if borrower != self.loans[i].borrower {
            return Err(Error::Unauthorized);
        }
        if amount != self.loans[i].repayment_amount {
            return Err(Error::InvalidRepaymentAmount);
        }
        let lender = match &self.loans[i].lender {
            Some(l) => l.clone(),
            None => return Err(Error::InactiveLoan),
        };
        if self.loans[i].repaid {
            return Err(Error::InactiveLoan);
        }
        let mut loan = self.loans[i].clone();
        loan.repaid = true;
        loan.active = false;
        self.loans.set(i, loan);
        proof {
            assert forall|j: int| 0 <= j < self.records().len() implies loan_wf(
                #[trigger] self.records()[j],
            ) by {
                assert(loan_wf(old(self).records()[j]));
            }
        }
        Ok(Transfer { token, from: borrower, to: lender, amount })
    }

    /// Liquidates loan `loan_id` when its collateral, valued by `reading`, has
    /// fallen below the liquidation ratio. The loan is settled; no value moves.
    pub fn liquidate(&mut self, loan_id: u32, reading: &OracleReading) -> (r: Result<(), Error>)
        requires
            old(self).wf(),
        ensures
            final(self).wf(),
            final(self).settings() == old(self).settings(),
            match liquidate_error(old(self).records(), loan_id, *reading) {
                Some(e) => r == Err::<(), Error>(e) && final(self).records() == old(self).records(),
                None => {
                    &&& r == Ok::<(), Error>(())
                    &&& final(self).records() == old(self).records().update(
                        loan_id as int,
                        settled(old(self).records()[loan_id as int]),
                    )
                },
            },
    {
        let i = loan_id as usize;
        if i >= self.loans.len() || self.loans[i].repaid {
            return Err(Error::InactiveLoan);
        }
        let value = match collateral_value(reading, self.loans[i].collateral_amount) {
            Ok(v) => v,
            Err(e) => return Err(e),
        };
        proof {
            assert(loan_wf(self.records()[i as int]));
        }
        if !below_liquidation_ratio(value, self.loans[i].amount) {
            return Err(Error::CannotLiquidate);
        }
        let mut loan = self.loans[i].clone();
        loan.active = false;
        loan.repaid = true;
        self.loans.set(i, loan);
        proof {
            assert forall|j: int| 0 <= j < self.records().len() implies loan_wf(
                #[trigger] self.records()[j],
            ) by {
                assert(loan_wf(old(self).records()[j]));
            }
        }
        Ok(())
    }
    /// Points the ledger at `new_oracle`, on behalf of `updater`, once the new
    /// oracle has answered its liveness probe with `new_oracle_version`.
    pub fn update_oracle(&mut self, new_oracle: Address, updater: Address, new_oracle_version: u32) -> (r:
        Result<(), Error>)
        requires
            old(self).wf(),
        ensures
            final(self).wf(),
            final(self).records() == old(self).records(),
            match update_oracle_error(old(self).settings(), updater, new_oracle_version) {
                Some(e) => r == Err::<(), Error>(e) && final(self).settings() == old(self).settings(),
                None => r == Ok::<(), Error>(()) && final(self).settings() == (Config {
                    oracle_address: new_oracle,
                    ..old(self).settings()
                }),
            },
    {
        if updater != self.config.admin {
            return Err(Error::Unauthorized);
        }
        if new_oracle_version == 0 {
            return Err(Error::OracleError);
        }
        self.config.oracle_address = new_oracle;
        Ok(())
    }

    /// Every loan that awaits funding, with its identifier, in ascending order
    /// of identifier.
    pub fn get_active_loans(&self) -> (r: Vec<(u32, Loan)>)
        requires
            self.wf(),
        ensures
            r@ == active_entries(self.records(), self.records().len()),
    {
        let mut out: Vec<(u32, Loan)> = Vec::new();
        let mut i: usize = 0;
        while i < self.loans.len()
            invariant
                i <= self.loans@.len() <= u32::MAX,
                self.records() == self.loans@,
                out@ == active_entries(self.records(), i as nat),
            decreases self.loans@.len() - i,
        {
            if self.loans[i].active {
                out.push((i as u32, self.loans[i].clone()));
            }
            i = i + 1;
        }
        out
    }

    /// The cross price of two assets, from what the oracle answered for the
    /// pair; no answer is an `OracleError`. The ledger is not involved.
    pub fn get_cross_asset_price(answer: Option<PriceData>) -> (r: Result<PriceData, Error>)
        ensures
            match answer {
                Some(p) => r == Ok::<PriceData, Error>(p),
                None => r == Err::<PriceData, Error>(Error::OracleError),
            },
    {
        match answer {
            Some(p) => Ok(p),
            None => Err(Error::OracleError),
        }
    }
}

} // verus!
