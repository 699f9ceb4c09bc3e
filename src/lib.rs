//! Exact dollars-and-cents amounts with a sign, integer-cent arithmetic,
//! ordering, and a small text grammar for parsing and rendering.
pub mod money;

pub use money::options::NegativeView;
pub use money::{Money, MoneyErrorCents, MoneyErrorOverflow, MoneyErrorString, MoneySign};
