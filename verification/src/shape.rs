//! Which inputs an analysis accepts, told by the lengths of the series.

use vstd::prelude::*;
use crate::error::{empty_data_text, insufficient_data_text, TimeSeriesError};

verus! {

/// The fewest observations that a line can be fitted to.
pub const MIN_FIT_POINTS: usize = 2;

/// Whether a series of `actual_len` observations and one of `predicted_len`
/// fitted values can be compared period by period: they are equally long and
/// not empty.
pub open spec fn comparable(actual_len: nat, predicted_len: nat) -> bool {
    actual_len > 0 && actual_len == predicted_len
}

/// Whether two series of these lengths can be compared period by period.
/// The error measures are zero by definition when they cannot, and no chart
/// is drawn of them.
pub fn series_comparable(actual_len: usize, predicted_len: usize) -> (ok: bool)
    ensures
        ok == comparable(actual_len as nat, predicted_len as nat),
{
    actual_len > 0 && actual_len == predicted_len
}

/// Accepts a series of `len` observations for a fit, which takes two at
/// least.
pub fn check_fit_input(len: usize) -> (checked: Result<(), TimeSeriesError>)
    ensures
        checked is Ok <==> len >= MIN_FIT_POINTS,
        checked matches Err(err) ==> err@ == insufficient_data_text(),
{
    if len < MIN_FIT_POINTS {
        Err(TimeSeriesError::insufficient_data())
    } else {
        Ok(())
    }
}

/// Accepts a series of `len` observations for descriptive statistics, which
/// take one at least.
pub fn check_stats_input(len: usize) -> (checked: Result<(), TimeSeriesError>)
    ensures
        checked is Ok <==> len > 0,
        checked matches Err(err) ==> err@ == empty_data_text(),
{
    if len == 0 {
        Err(TimeSeriesError::empty_data())
    } else {
        Ok(())
    }
}

} // verus!
