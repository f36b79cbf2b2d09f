//! Accrual and risk core of a collateralized lending protocol.
//!
//! Two subsystems are modelled and verified here: an incentive
//! distribution engine, which advances an emission-weighted reward index
//! per collateral asset and settles each user's pro-rata share, and a
//! health-factor engine, which aggregates a user's collateral and debt
//! positions and classifies their solvency. Both work over a fixed-point
//! decimal type whose arithmetic is carried out by `cosmwasm_std`.

pub mod collector;
pub mod error;
pub mod health;
pub mod incentive;
pub mod math;
pub mod position;
pub mod rewards;
pub mod types;
