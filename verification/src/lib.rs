//! Warmup masking and channel assembly for streaming technical indicators.
//!
//! Samples are carried as the bit patterns of IEEE-754 binary64 values, so
//! that every rule of the engine is a statement about integers.

pub mod error;
pub mod helpers;
pub mod moving_average;
pub mod sample;

pub use crate::error::IndicatorError;
pub use crate::helpers::fill_nan;
pub use crate::moving_average::{
    calc_bollinger, calc_ema, calc_macd, calc_sma, BandPoint, MacdPoint,
};
