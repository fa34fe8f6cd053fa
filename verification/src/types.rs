use vstd::prelude::*;

verus! {

/// An amount of any currency.
pub type Balance = u128;

/// The identifier of a currency.
pub type CurrencyId = u32;

/// The identifier of an account: 32 bytes.
pub type AccountId = [u8; 32];

/// Why the treasury refused an operation.
#[derive(Clone, Copy, Debug, PartialEq, Eq, Structural)]
pub enum Error {
    /// The collateral amount of the treasury is not enough.
    CollateralNotEnough,
    /// The collateral amount would leave the range of `Balance`.
    CollateralOverflow,
    /// The surplus pool would leave the range of `Balance`.
    SurplusPoolOverflow,
    /// The debit pool would leave the range of `Balance`.
    DebitPoolOverflow,
}

/// One slice of a collateral amount, auctioned on its own.
#[derive(Clone, Copy, Debug, PartialEq, Eq, Structural)]
pub struct Lot {
    /// The collateral for sale in this lot.
    pub amount: Balance,
    /// The stable currency this lot is meant to raise.
    pub target: Balance,
}

} // verus!
