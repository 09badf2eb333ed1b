//! The periods of a series. Observations stand at periods 0, 1, 2, ...; a
//! forecast goes on from the first period that was not observed.

use vstd::prelude::*;

verus! {

/// Whether `count` periods that start at `first` can all be numbered.
pub open spec fn periods_fit(first: usize, count: usize) -> bool {
    count == 0 || first + count - 1 <= usize::MAX
}

/// The `count` periods that start at `first`, in order.
pub open spec fn period_run(first: usize, count: usize) -> Seq<usize> {
    Seq::new(count as nat, |j: int| (first + j) as usize)
}

/// The `count` periods that start at `first`, in order; `None` if the last
/// of them cannot be numbered.
///
/// The periods of `n` observations are `periods(0, n)`, and the `k` periods
/// of a forecast that follows them are `periods(n, k)`.
pub fn periods(first: usize, count: usize) -> (out: Option<Vec<usize>>)
    ensures
        out is Some <==> periods_fit(first, count),
        first == 0 ==> out is Some,
        out matches Some(run) ==> run@ == period_run(first, count),
{
    if count > 0 && first > usize::MAX - (count - 1) {
        return None;
    }
    let mut run: Vec<usize> = Vec::new();
    let mut j: usize = 0;
    while j < count
        invariant
            j <= count,
            periods_fit(first, count),
            run@ == period_run(first, j),
        decreases count - j,
    {
        run.push(first + j);
        j = j + 1;
        assert(run@ =~= period_run(first, j));
    }
    Some(run)
}

/// Where the periods can be numbered, the `j`-th of them is `first + j`.
pub proof fn lemma_period_run_exact(first: usize, count: usize)
    requires
        periods_fit(first, count),
    ensures
        period_run(first, count).len() == count,
        forall|j: int| 0 <= j < count ==> #[trigger] period_run(first, count)[j] == first + j,
{
}

/// A forecast goes on where the observations end: the periods of
/// `observed` observations, followed by the `horizon` periods after them,
/// are the first `observed + horizon` periods.
pub proof fn lemma_forecast_continues(observed: usize, horizon: usize)
    requires
        observed + horizon <= usize::MAX,
    ensures
        period_run(0, observed) + period_run(observed, horizon) == period_run(
            0,
            (observed + horizon) as usize,
        ),
{
    assert(period_run(0, observed) + period_run(observed, horizon) =~= period_run(
        0,
        (observed + horizon) as usize,
    ));
}

} // verus!
