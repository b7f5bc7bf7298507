//! Calculations on prices and profit margins.
pub mod percentage_problems;
