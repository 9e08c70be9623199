use lending_protocol::{
    Address, AssetInfo, Config, Error, LendingProtocol, Loan, OracleAsset, OracleReading,
    PriceData, Transfer, FUNDING_WINDOW, MAX_LOAN_LIMIT,
};

const ORACLE: &str = "CAFJZQWSED6YAWZU3GWRTOCNPPCGBN32L7QV43XX5LZLFTK6JLN34DLN";
const ADMIN: &str = "GADMINXXXXXXXXXXXXXXXXXXXXXXXXXXXXXXXXXXXXXXXXXXXXXXXXXX";
const BORROWER: &str = "GBORROWERXXXXXXXXXXXXXXXXXXXXXXXXXXXXXXXXXXXXXXXXXXXXXXX";
const LENDER: &str = "GLENDERXXXXXXXXXXXXXXXXXXXXXXXXXXXXXXXXXXXXXXXXXXXXXXXXX";
const TOKEN: &str = "CTOKENXXXXXXXXXXXXXXXXXXXXXXXXXXXXXXXXXXXXXXXXXXXXXXXXXX";
const ISSUER: &str = "GISSUERXXXXXXXXXXXXXXXXXXXXXXXXXXXXXXXXXXXXXXXXXXXXXXXXX";

fn config(min_loan: i128, max_loan: i128) -> Config {
    Config {
        oracle_address: Address::new(ORACLE),
        admin: Address::new(ADMIN),
        min_loan,
        max_loan,
    }
}

fn ledger(min_loan: i128, max_loan: i128) -> LendingProtocol {
    LendingProtocol::initialize(config(min_loan, max_loan), 1).unwrap()
}

fn asset() -> AssetInfo {
    AssetInfo { code: "XLM".to_string(), issuer: Address::new(ISSUER) }
}

/// A live feed with no decimals, quoting one unit of collateral at `price`.
fn reading(price: i128) -> OracleReading {
    OracleReading { version: 1, decimals: 0, quote: Some(PriceData { price, timestamp: 7 }) }
}

/// Creates a loan of `amount` at 5% whose collateral is worth exactly `value`.
fn create(p: &mut LendingProtocol, amount: i128, value: i128, now: u64) -> Result<u32, Error> {
    p.create_loan(
        amount,
        Address::new(TOKEN),
        5,
        30,
        Address::new(BORROWER),
        asset(),
        value,
        now,
        &reading(1),
    )
}

#[test]
fn test_init() {
    let config = Config {
        oracle_address: Address::new(ORACLE),
        admin: Address::new(ADMIN),
        min_loan: 100_0000000,
        max_loan: 10000_0000000,
    };
    let p = LendingProtocol::initialize(config.clone(), 1).unwrap();
    let stored_oracle = p.oracle_address();
    assert_eq!(stored_oracle, config.oracle_address);
}

#[test]
fn initialize_refuses_dead_oracle() {
    assert_eq!(
        LendingProtocol::initialize(config(1, 10), 0).err(),
        Some(Error::OracleError)
    );
}

#[test]
fn created_loan_reads_back_as_supplied() {
    let mut p = ledger(100_0000000, 10000_0000000);
    let id = p
        .create_loan(
            1000_0000000,
            Address::new(TOKEN),
            5,
            30 * 17280,
            Address::new(BORROWER),
            asset(),
            2000_0000000,
            500,
            &reading(1),
        )
        .unwrap();
    assert_eq!(id, 0);
    let loan = p.get_loan(id).expect("loan should exist");
    assert_eq!(loan.amount, 1000_0000000);
    assert_eq!(loan.borrower, Address::new(BORROWER));
    assert_eq!(loan.token, Address::new(TOKEN));
    assert_eq!(loan.interest_rate, 5);
    assert_eq!(loan.duration, 30 * 17280);
    assert_eq!(loan.collateral_asset, asset());
    assert_eq!(loan.collateral_amount, 2000_0000000);
    assert_eq!(loan.repayment_amount, 1050_0000000);
    assert_eq!(loan.funding_deadline, 500 + 17280);
    assert_eq!(loan.lender, None);
    assert!(loan.active);
    assert!(!loan.repaid);
    assert_eq!(p.get_loan(1), None);
}

#[test]
fn identifiers_are_assigned_in_sequence() {
    let mut p = ledger(1, 10_000);
    assert_eq!(create(&mut p, 100, 150, 0), Ok(0));
    assert_eq!(create(&mut p, 100, 150, 0), Ok(1));
    assert_eq!(create(&mut p, 100, 150, 0), Ok(2));
    assert_eq!(p.loan_count(), 3);
}

#[test]
fn principal_bounds_are_enforced() {
    let mut p = ledger(100, 1000);
    assert_eq!(create(&mut p, 99, 10_000, 0), Err(Error::LoanTooSmall));
    assert_eq!(create(&mut p, 1001, 10_000, 0), Err(Error::LoanTooLarge));
    assert_eq!(p.loan_count(), 0);
    assert_eq!(create(&mut p, 100, 10_000, 0), Ok(0));
    assert_eq!(create(&mut p, 1000, 10_000, 0), Ok(1));
}

#[test]
fn interest_rate_bounds_are_enforced() {
    let mut p = ledger(1, 10_000);
    for rate in [0u32, 11, 100] {
        let r = p.create_loan(
            1000,
            Address::new(TOKEN),
            rate,
            30,
            Address::new(BORROWER),
            asset(),
            10_000,
            0,
            &reading(1),
        );
        assert_eq!(r, Err(Error::InvalidInterest));
    }
    assert_eq!(p.loan_count(), 0);
}

#[test]
fn zero_duration_is_refused() {
    let mut p = ledger(1, 10_000);
    let r = p.create_loan(
        1000,
        Address::new(TOKEN),
        5,
        0,
        Address::new(BORROWER),
        asset(),
        10_000,
        0,
        &reading(1),
    );
    assert_eq!(r, Err(Error::InvalidDuration));
}

#[test]
fn repayment_rounds_interest_down() {
    let mut p = ledger(1, 10_000);
    for (amount, rate, owed) in [(199i128, 3u32, 204i128), (1000, 1, 1010), (1000, 10, 1100), (99, 1, 99)] {
        let id = p
            .create_loan(
                amount,
                Address::new(TOKEN),
                rate,
                30,
                Address::new(BORROWER),
                asset(),
                10_000,
                0,
                &reading(1),
            )
            .unwrap();
        assert_eq!(p.get_loan(id).unwrap().repayment_amount, owed);
    }
}

#[test]
fn creation_needs_collateral_worth_one_and_a_half_times_the_principal() {
    let mut p = ledger(1, 10_000);
    assert_eq!(create(&mut p, 1000, 1499, 0), Err(Error::InsufficientCollateral));
    assert_eq!(p.loan_count(), 0);
    assert_eq!(create(&mut p, 1000, 1500, 0), Ok(0));
    // 1.5 × 1001 is 1501.5, which truncates to 1501.
    assert_eq!(create(&mut p, 1001, 1500, 0), Err(Error::InsufficientCollateral));
    assert_eq!(create(&mut p, 1001, 1501, 0), Ok(1));
}

#[test]
fn collateral_value_scales_by_decimals() {
    let feed = OracleReading {
        version: 2,
        decimals: 7,
        quote: Some(PriceData { price: 15_000_000, timestamp: 1 }),
    };
    assert_eq!(lending_protocol::collateral_value(&feed, 1000), Ok(1500));
    // 3 × 1.5 = 4.5 truncates to 4; -3 × 1.5 = -4.5 truncates to -4.
    assert_eq!(lending_protocol::collateral_value(&feed, 3), Ok(4));
    assert_eq!(lending_protocol::collateral_value(&feed, -3), Ok(-4));
    let mut p = ledger(1, 10_000);
    let id = p.create_loan(
        1000,
        Address::new(TOKEN),
        5,
        30,
        Address::new(BORROWER),
        asset(),
        1000,
        0,
        &feed,
    );
    assert_eq!(id, Ok(0));
}

#[test]
fn unusable_oracle_readings_are_oracle_errors() {
    let no_quote = OracleReading { version: 1, decimals: 0, quote: None };
    let dead = OracleReading { version: 0, decimals: 0, quote: Some(PriceData { price: 1, timestamp: 0 }) };
    let huge_scale = OracleReading { version: 1, decimals: 39, quote: Some(PriceData { price: 1, timestamp: 0 }) };
    let huge_price = OracleReading { version: 1, decimals: 0, quote: Some(PriceData { price: i128::MAX, timestamp: 0 }) };
    let mut p = ledger(1, 10_000);
    for feed in [no_quote, dead, huge_scale, huge_price] {
        let r = p.create_loan(
            1000,
            Address::new(TOKEN),
            5,
            30,
            Address::new(BORROWER),
            asset(),
            2000,
            0,
            &feed,
        );
        assert_eq!(r, Err(Error::OracleError));
    }
    assert_eq!(p.loan_count(), 0);
    assert_eq!(lending_protocol::checked_pow10(38), Some(10i128.pow(38)));
    assert_eq!(lending_protocol::checked_pow10(39), None);
}

#[test]
fn funding_moves_the_principal_to_the_borrower() {
    let mut p = ledger(1, 10_000);
    let id = create(&mut p, 1000, 2000, 100).unwrap();
    let t = p.fund_loan(id, Address::new(TOKEN), Address::new(LENDER), 1000, 100).unwrap();
    assert_eq!(
        t,
        Transfer {
            token: Address::new(TOKEN),
            from: Address::new(LENDER),
            to: Address::new(BORROWER),
            amount: 1000,
        }
    );
    let loan = p.get_loan(id).unwrap();
    assert_eq!(loan.lender, Some(Address::new(LENDER)));
    assert!(!loan.active);
    assert!(!loan.repaid);
}

#[test]
fn funding_deadline_is_inclusive() {
    let mut p = ledger(1, 10_000);
    let late = create(&mut p, 1000, 2000, 100).unwrap();
    let on_time = create(&mut p, 1000, 2000, 100).unwrap();
    let deadline = 100 + FUNDING_WINDOW;
    assert_eq!(
        p.fund_loan(late, Address::new(TOKEN), Address::new(LENDER), 1000, deadline + 1),
        Err(Error::DeadlinePassed)
    );
    assert!(p.get_loan(late).unwrap().active);
    assert!(p.fund_loan(on_time, Address::new(TOKEN), Address::new(LENDER), 1000, deadline).is_ok());
}

#[test]
fn funding_needs_the_exact_principal() {
    let mut p = ledger(1, 10_000);
    let id = create(&mut p, 1000, 2000, 0).unwrap();
    for amount in [999i128, 1001, 0] {
        assert_eq!(
            p.fund_loan(id, Address::new(TOKEN), Address::new(LENDER), amount, 0),
            Err(Error::InvalidAmount)
        );
    }
    assert_eq!(p.get_loan(id).unwrap().lender, None);
}

#[test]
fn funding_needs_a_loan_awaiting_funding() {
    let mut p = ledger(1, 10_000);
    assert_eq!(
        p.fund_loan(0, Address::new(TOKEN), Address::new(LENDER), 1000, 0),
        Err(Error::InactiveLoan)
    );
    let id = create(&mut p, 1000, 2000, 0).unwrap();
    assert!(p.fund_loan(id, Address::new(TOKEN), Address::new(LENDER), 1000, 0).is_ok());
    assert_eq!(
        p.fund_loan(id, Address::new(TOKEN), Address::new("GOTHER"), 1000, 0),
        Err(Error::InactiveLoan)
    );
    assert_eq!(p.get_loan(id).unwrap().lender, Some(Address::new(LENDER)));
}

#[test]
fn repayment_moves_what_is_owed_to_the_lender() {
    let mut p = ledger(1, 10_000);
    let id = create(&mut p, 1000, 2000, 0).unwrap();
    p.fund_loan(id, Address::new(TOKEN), Address::new(LENDER), 1000, 0).unwrap();
    let t = p.repay_loan(id, Address::new(TOKEN), Address::new(BORROWER), 1050).unwrap();
    assert_eq!(
        t,
        Transfer {
            token: Address::new(TOKEN),
            from: Address::new(BORROWER),
            to: Address::new(LENDER),
            amount: 1050,
        }
    );
    let loan = p.get_loan(id).unwrap();
    assert!(loan.repaid);
    assert!(!loan.active);
    assert_eq!(
        p.repay_loan(id, Address::new(TOKEN), Address::new(BORROWER), 1050),
        Err(Error::InactiveLoan)
    );
}

#[test]
fn repayment_needs_the_borrower_and_the_exact_amount() {
    let mut p = ledger(1, 10_000);
    let id = create(&mut p, 1000, 2000, 0).unwrap();
    assert_eq!(
        p.repay_loan(id, Address::new(TOKEN), Address::new(BORROWER), 1050),
        Err(Error::InactiveLoan)
    );
    p.fund_loan(id, Address::new(TOKEN), Address::new(LENDER), 1000, 0).unwrap();
    assert_eq!(
        p.repay_loan(id, Address::new(TOKEN), Address::new(LENDER), 1050),
        Err(Error::Unauthorized)
    );
    for amount in [1000i128, 1049, 1051] {
        assert_eq!(
            p.repay_loan(id, Address::new(TOKEN), Address::new(BORROWER), amount),
            Err(Error::InvalidRepaymentAmount)
        );
    }
    assert_eq!(
        p.repay_loan(7, Address::new(TOKEN), Address::new(BORROWER), 1050),
        Err(Error::InactiveLoan)
    );
    assert!(!p.get_loan(id).unwrap().repaid);
}

#[test]
fn liquidation_needs_collateral_below_six_fifths_of_the_principal() {
    let mut p = ledger(1, 10_000);
    let id = create(&mut p, 1000, 1500, 0).unwrap();
    assert_eq!(p.liquidate(id, &reading(1200)), Err(Error::CannotLiquidate));
    // The collateral amount is 1500 units; a price of 0.8 values it at 1200.
    let at = |price: i128| OracleReading {
        version: 1,
        decimals: 1,
        quote: Some(PriceData { price, timestamp: 0 }),
    };
    assert_eq!(p.liquidate(id, &at(8)), Err(Error::CannotLiquidate));
    assert!(!p.get_loan(id).unwrap().repaid);
    let dead = OracleReading { version: 0, decimals: 0, quote: Some(PriceData { price: 0, timestamp: 0 }) };
    assert_eq!(p.liquidate(id, &dead), Err(Error::OracleError));
    // A price of 0.79 values 1500 units at 1185.
    let feed = OracleReading { version: 1, decimals: 2, quote: Some(PriceData { price: 79, timestamp: 0 }) };
    assert_eq!(p.liquidate(id, &feed), Ok(()));
    let loan = p.get_loan(id).unwrap();
    assert!(loan.repaid);
    assert!(!loan.active);
    assert_eq!(p.liquidate(id, &feed), Err(Error::InactiveLoan));
    assert_eq!(p.liquidate(9, &feed), Err(Error::InactiveLoan));
}

#[test]
fn liquidation_threshold_is_strict() {
    let mut p = ledger(1, 10_000);
    let id = create(&mut p, 1000, 1500, 0).unwrap();
    // 1500 units at 0.8 are worth exactly 1200, six fifths of the principal.
    let at_1200 = OracleReading { version: 1, decimals: 3, quote: Some(PriceData { price: 800, timestamp: 0 }) };
    assert_eq!(lending_protocol::collateral_value(&at_1200, 1500), Ok(1200));
    assert_eq!(p.liquidate(id, &at_1200), Err(Error::CannotLiquidate));
    // 1500 units at 0.7994 are worth 1199.1, truncated to 1199.
    let below = OracleReading { version: 1, decimals: 4, quote: Some(PriceData { price: 7994, timestamp: 0 }) };
    assert_eq!(lending_protocol::collateral_value(&below, 1500), Ok(1199));
    assert_eq!(p.liquidate(id, &below), Ok(()));
}

#[test]
fn liquidation_ratio_helpers() {
    assert!(lending_protocol::below_liquidation_ratio(1199, 1000));
    assert!(!lending_protocol::below_liquidation_ratio(1200, 1000));
    assert!(lending_protocol::meets_creation_ratio(1500, 1000));
    assert!(!lending_protocol::meets_creation_ratio(1499, 1000));
    assert_eq!(lending_protocol::interest_on(1000, 7), 70);
}

#[test]
fn only_the_admin_rotates_the_oracle() {
    let mut p = ledger(1, 10_000);
    let new_oracle = Address::new("CNEWORACLE");
    for version in [0u32, 3] {
        assert_eq!(
            p.update_oracle(new_oracle.clone(), Address::new(BORROWER), version),
            Err(Error::Unauthorized)
        );
    }
    assert_eq!(
        p.update_oracle(new_oracle.clone(), Address::new(ADMIN), 0),
        Err(Error::OracleError)
    );
    assert_eq!(p.oracle_address(), Address::new(ORACLE));
    assert_eq!(p.update_oracle(new_oracle.clone(), Address::new(ADMIN), 3), Ok(()));
    assert_eq!(p.oracle_address(), new_oracle);
    assert_eq!(p.config().admin, Address::new(ADMIN));
}

#[test]
fn active_listing_holds_unfunded_loans_in_order() {
    let mut p = ledger(1, 10_000);
    assert!(p.get_active_loans().is_empty());
    for _ in 0..4 {
        create(&mut p, 1000, 2000, 0).unwrap();
    }
    p.fund_loan(1, Address::new(TOKEN), Address::new(LENDER), 1000, 0).unwrap();
    p.liquidate(3, &reading(0)).unwrap();
    let first = p.get_active_loans();
    let ids: Vec<u32> = first.iter().map(|(id, _)| *id).collect();
    assert_eq!(ids, vec![0, 2]);
    for (id, loan) in &first {
        assert_eq!(Some(loan.clone()), p.get_loan(*id));
    }
    let second = p.get_active_loans();
    assert_eq!(first, second);
    assert_eq!(p.loan_count(), 4);
    let next: Result<u32, Error> = create(&mut p, 1000, 2000, 0);
    assert_eq!(next, Ok(4));
}

#[test]
fn cross_price_passes_the_answer_through() {
    let quote = PriceData { price: 123, timestamp: 9 };
    assert_eq!(LendingProtocol::get_cross_asset_price(Some(quote)), Ok(quote));
    assert_eq!(LendingProtocol::get_cross_asset_price(None), Err(Error::OracleError));
}

#[test]
fn oracle_names_base_asset_by_issuer_and_others_by_code() {
    let base = AssetInfo { code: String::new(), issuer: Address::new(ISSUER) };
    assert_eq!(base.to_oracle_asset(), OracleAsset::Stellar(Address::new(ISSUER)));
    assert_eq!(asset().to_oracle_asset(), OracleAsset::Other("XLM".to_string()));
}

#[test]
fn loan_clone_keeps_every_field() {
    let mut p = ledger(1, 10_000);
    let id = create(&mut p, 1000, 2000, 0).unwrap();
    let loan: Loan = p.get_loan(id).unwrap();
    assert_eq!(loan.clone(), loan);
}

#[test]
fn largest_principal_is_accepted() {
    assert!(config(1, MAX_LOAN_LIMIT).is_valid());
    assert!(!config(1, MAX_LOAN_LIMIT + 1).is_valid());
    assert!(!config(0, 10).is_valid());
    assert!(!config(11, 10).is_valid());
    let mut p = ledger(1, MAX_LOAN_LIMIT);
    let id = p
        .create_loan(
            MAX_LOAN_LIMIT,
            Address::new(TOKEN),
            10,
            30,
            Address::new(BORROWER),
            asset(),
            i128::MAX,
            0,
            &reading(1),
        )
        .unwrap();
    let loan = p.get_loan(id).unwrap();
    assert_eq!(loan.repayment_amount, MAX_LOAN_LIMIT + MAX_LOAN_LIMIT / 10);
}
