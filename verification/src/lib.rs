//! Accounting and auction scheduling of a stablecoin treasury.
//!
//! The treasury keeps a pool of bad debt, a pool of surplus and the collateral
//! seized from unsafe positions. Every cycle it nets debt against surplus and
//! decides how many surplus and debit auctions to open; on demand it splits a
//! seized collateral amount into lots of bounded size.

pub mod account;
pub mod collaborators;
pub mod laws;
pub mod ledger;
pub mod lots;
pub mod operations;
pub mod ratio;
pub mod scheduler;
pub mod types;

pub use collaborators::{AuctionManager, Currency, DEXManager, Event, Failure, Traced};
pub use ledger::{Config, Module, State};
pub use lots::{count_lots, split_lots};
pub use operations::handed_on;
pub use ratio::{checked_from_rational, debit_proportion, Ratio};
pub use scheduler::count_auctions;
pub use types::{AccountId, Balance, CurrencyId, Error, Lot};
