//! A transactional trade ledger: a portfolio of cash and share positions, and
//! a linear undo/redo history of the trades applied to it.
//!
//! Monetary amounts are integers in the currency's minor unit (cents for
//! dollars), so that every trade has an exact inverse.

pub mod action;
pub mod laws;
pub mod ledger;
pub mod portfolio;
mod positions;
