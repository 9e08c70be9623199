use vstd::prelude::*;

verus! {

/// An account or contract identity, by its encoded key.
#[derive(Debug)]
pub struct Address {
    pub strkey: String,
}

impl View for Address {
    type V = Seq<char>;

    open spec fn view(&self) -> Seq<char> {
        self.strkey@
    }
}

impl Address {
    pub fn new(strkey: &str) -> (r: Address)
        ensures
            r@ == strkey@,
    {
        Address { strkey: strkey.to_string() }
    }
}

impl PartialEq for Address {
    fn eq(&self, other: &Address) -> (r: bool) {
        self.strkey == other.strkey
    }
}

impl vstd::std_specs::cmp::PartialEqSpecImpl for Address {
    open spec fn obeys_eq_spec() -> bool {
        true
    }

    open spec fn eq_spec(&self, other: &Address) -> bool {
        self@ == other@
    }
}

impl Eq for Address {

}

impl Clone for Address {
    fn clone(&self) -> (r: Self)
        ensures
            r == *self,
    {
        Address { strkey: self.strkey.clone() }
    }
}

/// A price as the oracle reports it, with the time it was taken.
#[derive(Clone, Copy, Debug, PartialEq, Eq, Structural)]
pub struct PriceData {
    pub price: i128,
    pub timestamp: u64,
}

/// A priceable asset: a code plus the authority that issued it. An empty code
/// denotes the base asset, known by its issuer alone.
#[derive(Debug, PartialEq, Eq)]
pub struct AssetInfo {
    pub code: String,
    pub issuer: Address,
}

impl Clone for AssetInfo {
    fn clone(&self) -> (r: Self)
        ensures
            r == *self,
    {
        AssetInfo { code: self.code.clone(), issuer: self.issuer.clone() }
    }
}

/// How the price oracle names an asset.
#[derive(Debug, PartialEq, Eq)]
pub enum OracleAsset {
    /// An asset known by the address of its issuer.
    Stellar(Address),
    /// An asset known by its code.
    Other(String),
}

/// The oracle's name for an asset: the issuer for the base asset (empty code),
/// the code otherwise.
pub open spec fn oracle_asset_of(a: AssetInfo) -> OracleAsset {
    if a.code@.len() == 0 {
        OracleAsset::Stellar(a.issuer)
    } else {
        OracleAsset::Other(a.code)
    }
}

impl AssetInfo {
    pub fn to_oracle_asset(&self) -> (r: OracleAsset)
        ensures
            r == oracle_asset_of(*self),
    {
        if self.code.as_str().is_empty() {
            OracleAsset::Stellar(self.issuer.clone())
        } else {
            OracleAsset::Other(self.code.clone())
        }
    }
}

/// Settings fixed at initialization; only the oracle reference changes later.
#[derive(Debug, PartialEq, Eq)]
pub struct Config {
    pub oracle_address: Address,
    pub admin: Address,
    pub min_loan: i128,
    pub max_loan: i128,
}

/// The largest principal whose collateral threshold, 150% of it, fits in
/// `i128`.
pub const MAX_LOAN_LIMIT: i128 = 1134274556403128211544582024772560704;

impl Clone for Config {
    fn clone(&self) -> (r: Self)
        ensures
            r == *self,
    {
        Config {
            oracle_address: self.oracle_address.clone(),
            admin: self.admin.clone(),
            min_loan: self.min_loan,
            max_loan: self.max_loan,
        }
    }
}

impl Config {
    /// Both bounds are positive, ordered, and small enough for the threshold
    /// arithmetic.
    pub open spec fn wf(&self) -> bool {
        0 < self.min_loan <= self.max_loan <= MAX_LOAN_LIMIT
    }

    pub fn is_valid(&self) -> (r: bool)
        ensures
            r == self.wf(),
    {
        0 < self.min_loan && self.min_loan <= self.max_loan && self.max_loan <= MAX_LOAN_LIMIT
    }
}

/// One loan record of the ledger.
#[derive(Debug, PartialEq, Eq)]
pub struct Loan {
    pub amount: i128,
    pub interest_rate: u32,
    pub duration: u32,
    pub repayment_amount: i128,
    pub funding_deadline: u64,
    pub borrower: Address,
    pub lender: Option<Address>,
    pub collateral_asset: AssetInfo,
    pub token: Address,
    pub collateral_amount: i128,
    pub active: bool,
    pub repaid: bool,
}

impl Clone for Loan {
    fn clone(&self) -> (r: Self)
        ensures
            r == *self,
    {
        Loan {
            amount: self.amount,
            interest_rate: self.interest_rate,
            duration: self.duration,
            repayment_amount: self.repayment_amount,
            funding_deadline: self.funding_deadline,
            borrower: self.borrower.clone(),
            lender: match &self.lender {
                Some(l) => Some(l.clone()),
                None => None,
            },
            collateral_asset: self.collateral_asset.clone(),
            token: self.token.clone(),
            collateral_amount: self.collateral_amount,
            active: self.active,
            repaid: self.repaid,
        }
    }
}

} // verus!
