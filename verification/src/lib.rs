//! The decisions around fitting a straight line to a time series.
//!
//! A fit pairs each period with the value observed in it. This crate decides
//! whether two series can be paired at all, whether a fit on them is refused
//! and for which reason, and names those reasons.

pub mod erro;
pub mod series;
