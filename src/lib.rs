//! Exact-decimal pricing calculations: recovering an original price from a
//! sale price and the fraction of the original that it represents, and
//! projecting the selling price that yields a desired profit margin.
pub mod decimal;
pub mod financial_math;
