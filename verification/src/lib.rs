//! Verified core logic of the Mars protocol money market and its satellite contracts.
pub mod accounts;
pub mod admin;
pub mod arith;
pub mod bits;
pub mod closure;
pub mod decimal;
pub mod error;
pub mod health;
pub mod helpers;
pub mod interest_rates;
pub mod liquidation;
pub mod market;
pub mod positions;
pub mod queries;
pub mod red_bank;
pub mod rewards_collector;
pub mod safety_fund;
pub mod staking;
pub mod state;
