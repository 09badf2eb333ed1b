//! Linear-trend analysis of a time series.
//!
//! A series is a run of observations, one per period, the periods numbered
//! from zero. This crate holds the parts of the analysis that are decided on
//! whole numbers and text: which inputs an analysis accepts, which periods a
//! fit and a forecast range over, and how a chart of two series is laid out
//! on a character grid.

pub mod decimal;
pub mod error;
pub mod period;
pub mod plot;
pub mod shape;

pub use error::TimeSeriesError;
