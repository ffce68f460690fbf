//! Core of a household-finance tracker: running balances and their moving
//! average over a ledger's periods, the three-level tag taxonomy, the cursor
//! that pages through the transaction feed, and the progress of a month
//! against which the budget is held.
//!
//! Amounts are whole numbers of the currency's minor unit, so every sum in
//! this crate is exact.

pub mod balance;
pub mod budget;
pub mod calendar;
pub mod config;
pub mod division;
pub mod labels;
pub mod pager;
pub mod tags;
pub mod transaction;
