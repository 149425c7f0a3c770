//! Espresso-extraction analytics: metric simulation with quality scoring,
//! rule-based alert generation, and trend aggregation over reading history.
//!
//! Physical quantities that call for fractional precision (temperatures,
//! pressures, rates, volumes) are carried as integers in hundredths of
//! their unit, so every computation here is exact integer arithmetic.

pub mod alerts;
pub mod api;
mod clock;
pub mod notifier;
pub mod simulation;
pub mod trends;
