//! The four indicators: each takes the values its accumulator produced, one
//! per input position, writes them to the output channels and then masks the
//! warmup prefix of every channel.

use vstd::prelude::*;
use crate::error::IndicatorError;
use crate::helpers::{fill_nan, masked};
use crate::sample::{is_zero, is_zero_bits, ZERO_BITS};

verus! {

/// What the convergence/divergence accumulator produced at one position.
#[derive(Debug, Clone, Copy)]
pub struct MacdPoint {
    /// Fast smoothed price minus slow smoothed price.
    pub macd: u64,
    /// The difference line, smoothed.
    pub signal: u64,
    /// The difference line minus its smoothed value.
    pub histogram: u64,
}

/// What the band accumulator produced at one position.
#[derive(Debug, Clone, Copy)]
pub struct BandPoint {
    /// Rolling mean plus the scaled deviation.
    pub upper: u64,
    /// Rolling mean.
    pub average: u64,
    /// Rolling mean minus the scaled deviation.
    pub lower: u64,
    /// The distance from the mean to the upper band divided by the
    /// multiplier; read only where the multiplier is not zero.
    pub spread: u64,
}

/// Number of leading positions without enough history for a window of the
/// given size.
pub open spec fn window_warmup(window: usize) -> int {
    window - 1
}

/// Number of leading positions masked in the difference line.
pub open spec fn macd_warmup(slow: usize) -> int {
    slow - 1
}

/// Number of leading positions masked in the signal line and the histogram:
/// the signal lags the difference line by its own period.
pub open spec fn signal_warmup(slow: usize, signal: usize) -> int {
    slow - 1 + signal
}

/// The difference line of a run of points.
pub open spec fn macd_line(points: Seq<MacdPoint>) -> Seq<u64> {
    Seq::new(points.len(), |i: int| points[i].macd)
}

/// The signal line of a run of points.
pub open spec fn signal_line(points: Seq<MacdPoint>) -> Seq<u64> {
    Seq::new(points.len(), |i: int| points[i].signal)
}

/// The histogram of a run of points.
pub open spec fn histogram_line(points: Seq<MacdPoint>) -> Seq<u64> {
    Seq::new(points.len(), |i: int| points[i].histogram)
}

/// The upper band of a run of points.
pub open spec fn upper_band(points: Seq<BandPoint>) -> Seq<u64> {
    Seq::new(points.len(), |i: int| points[i].upper)
}

/// The middle band of a run of points.
pub open spec fn middle_band(points: Seq<BandPoint>) -> Seq<u64> {
    Seq::new(points.len(), |i: int| points[i].average)
}

/// The lower band of a run of points.
pub open spec fn lower_band(points: Seq<BandPoint>) -> Seq<u64> {
    Seq::new(points.len(), |i: int| points[i].lower)
}

/// The deviation reported at one position: zero where the multiplier is
/// zero, the point's spread otherwise.
pub open spec fn deviation_at(point: BandPoint, num_std: u64) -> u64 {
    if is_zero(num_std) {
        ZERO_BITS
    } else {
        point.spread
    }
}

/// The deviation channel of a run of points.
pub open spec fn deviation_line(points: Seq<BandPoint>, num_std: u64) -> Seq<u64> {
    Seq::new(points.len(), |i: int| deviation_at(points[i], num_std))
}

/// With a window of one nothing is masked: the channel is the supplied
/// series itself.
pub proof fn lemma_unit_window_masks_nothing(values: Seq<u64>)
    ensures
        masked(values, window_warmup(1)) == values,
{
    assert(masked(values, window_warmup(1)) =~= values);
}

/// From the signal warmup on, all three channels carry the point of their
/// position unchanged, so whatever relates the three values of a point
/// relates the three channels there.
pub proof fn lemma_macd_channels_past_warmup(
    points: Seq<MacdPoint>,
    slow: usize,
    signal: usize,
    i: int,
)
    requires
        slow >= 1,
        signal_warmup(slow, signal) <= i < points.len(),
    ensures
        macd_warmup(slow) <= signal_warmup(slow, signal),
        masked(macd_line(points), macd_warmup(slow))[i] == points[i].macd,
        masked(signal_line(points), signal_warmup(slow, signal))[i] == points[i].signal,
        masked(histogram_line(points), signal_warmup(slow, signal))[i] == points[i].histogram,
{
}

/// Past the warmup the deviation channel is zero under a zero multiplier and
/// the supplied spread under any other, and the bands are the supplied ones.
pub proof fn lemma_band_channels_past_warmup(
    points: Seq<BandPoint>,
    window: usize,
    num_std: u64,
    i: int,
)
    requires
        window >= 1,
        window_warmup(window) <= i < points.len(),
    ensures
        masked(upper_band(points), window_warmup(window))[i] == points[i].upper,
        masked(middle_band(points), window_warmup(window))[i] == points[i].average,
        masked(lower_band(points), window_warmup(window))[i] == points[i].lower,
        is_zero(num_std) ==> masked(deviation_line(points, num_std), window_warmup(window))[i]
            == ZERO_BITS,
        !is_zero(num_std) ==> masked(deviation_line(points, num_std), window_warmup(window))[i]
            == points[i].spread,
{
}

/// Writes the simple moving average channel: `means[i]` is the rolling mean
/// after the price at position `i` was consumed; the first `window - 1`
/// positions are masked.
pub fn calc_sma(means: &[u64], window: usize, out: &mut [u64]) -> (r: Result<(), IndicatorError>)
    requires
        old(out)@.len() == means@.len(),
    ensures
        window == 0 ==> r == Err::<(), IndicatorError>(IndicatorError::InvalidParameter)
            && final(out)@ == old(out)@,
        window >= 1 ==> r == Ok::<(), IndicatorError>(())
            && final(out)@ == masked(means@, window_warmup(window)),
{
    if window == 0 {
        return Err(IndicatorError::InvalidParameter);
    }
    let n: usize = means.len();
    let mut i: usize = 0;
    while i < n
        invariant
            i <= n,
            means@.len() == n,
            out@.len() == n,
            forall|j: int| 0 <= j < i ==> out@[j] == means@[j],
        decreases n - i,
    {
        out[i] = means[i];
        i += 1;
    }
    fill_nan(out, window - 1);
    assert(out@ =~= masked(means@, window_warmup(window)));
    Ok(())
}

/// Writes the exponential moving average channel: `smoothed[i]` is the
/// smoother's state after the price at position `i` was consumed; the first
/// `window - 1` positions are masked although the smoother is defined from
/// the first position on.
pub fn calc_ema(smoothed: &[u64], window: usize, out: &mut [u64]) -> (r: Result<(), IndicatorError>)
    requires
        old(out)@.len() == smoothed@.len(),
    ensures
        window == 0 ==> r == Err::<(), IndicatorError>(IndicatorError::InvalidParameter)
            && final(out)@ == old(out)@,
        window >= 1 ==> r == Ok::<(), IndicatorError>(())
            && final(out)@ == masked(smoothed@, window_warmup(window)),
{
    if window == 0 {
        return Err(IndicatorError::InvalidParameter);
    }
    let n: usize = smoothed.len();
    let mut i: usize = 0;
    while i < n
        invariant
            i <= n,
            smoothed@.len() == n,
            out@.len() == n,
            forall|j: int| 0 <= j < i ==> out@[j] == smoothed@[j],
        decreases n - i,
    {
        out[i] = smoothed[i];
        i += 1;
    }
    fill_nan(out, window - 1);
    assert(out@ =~= masked(smoothed@, window_warmup(window)));
    Ok(())
}

/// Writes the three convergence/divergence channels from the points of one
/// pass. The difference line is masked for `slow - 1` positions, the signal
/// line and the histogram for `slow - 1 + signal` positions.
pub fn calc_macd(
    points: &[MacdPoint],
    fast: usize,
    slow: usize,
    signal: usize,
    out_macd: &mut [u64],
    out_signal: &mut [u64],
    out_hist: &mut [u64],
) -> (r: Result<(), IndicatorError>)
    requires
        old(out_macd)@.len() == points@.len(),
        old(out_signal)@.len() == points@.len(),
        old(out_hist)@.len() == points@.len(),
    ensures
        fast == 0 || slow == 0 || signal == 0 ==> r == Err::<(), IndicatorError>(
            IndicatorError::InvalidParameter,
        ) && final(out_macd)@ == old(out_macd)@ && final(out_signal)@ == old(out_signal)@
            && final(out_hist)@ == old(out_hist)@,
        fast >= 1 && slow >= 1 && signal >= 1 ==> r == Ok::<(), IndicatorError>(())
            && final(out_macd)@ == masked(macd_line(points@), macd_warmup(slow))
            && final(out_signal)@ == masked(signal_line(points@), signal_warmup(slow, signal))
            && final(out_hist)@ == masked(histogram_line(points@), signal_warmup(slow, signal)),
{
    if fast == 0 || slow == 0 || signal == 0 {
        return Err(IndicatorError::InvalidParameter);
    }
    let n: usize = points.len();
    let mut i: usize = 0;
    while i < n
        invariant
            i <= n,
            points@.len() == n,
            out_macd@.len() == n,
            out_signal@.len() == n,
            out_hist@.len() == n,
            forall|j: int| 0 <= j < i ==> out_macd@[j] == points@[j].macd,
            forall|j: int| 0 <= j < i ==> out_signal@[j] == points@[j].signal,
            forall|j: int| 0 <= j < i ==> out_hist@[j] == points@[j].histogram,
        decreases n - i,
    {
        let point: MacdPoint = points[i];
        out_macd[i] = point.macd;
        out_signal[i] = point.signal;
        out_hist[i] = point.histogram;
        i += 1;
    }
    let warmup: usize = slow - 1;
    // Past the largest count every position is masked already.
    let lagged: usize = if signal > usize::MAX - warmup {
        usize::MAX
    } else {
        warmup + signal
    };
    fill_nan(out_macd, warmup);
    fill_nan(out_signal, lagged);
    fill_nan(out_hist, lagged);
    assert(out_macd@ =~= masked(macd_line(points@), macd_warmup(slow)));
    assert(out_signal@ =~= masked(signal_line(points@), signal_warmup(slow, signal)));
    assert(out_hist@ =~= masked(histogram_line(points@), signal_warmup(slow, signal)));
    Ok(())
}

/// Writes the four band channels from the points of one pass. The deviation
/// channel is zero where the multiplier `num_std` is zero and the point's
/// spread otherwise; all four channels are masked for `window - 1` positions.
pub fn calc_bollinger(
    points: &[BandPoint],
    window: usize,
    num_std: u64,
    out_upper: &mut [u64],
    out_mid: &mut [u64],
    out_lower: &mut [u64],
    out_std_dev: &mut [u64],
) -> (r: Result<(), IndicatorError>)
    requires
        old(out_upper)@.len() == points@.len(),
        old(out_mid)@.len() == points@.len(),
        old(out_lower)@.len() == points@.len(),
        old(out_std_dev)@.len() == points@.len(),
    ensures
        window == 0 ==> r == Err::<(), IndicatorError>(IndicatorError::InvalidParameter)
            && final(out_upper)@ == old(out_upper)@ && final(out_mid)@ == old(out_mid)@
            && final(out_lower)@ == old(out_lower)@ && final(out_std_dev)@ == old(out_std_dev)@,
        window >= 1 ==> r == Ok::<(), IndicatorError>(())
            && final(out_upper)@ == masked(upper_band(points@), window_warmup(window))
            && final(out_mid)@ == masked(middle_band(points@), window_warmup(window))
            && final(out_lower)@ == masked(lower_band(points@), window_warmup(window))
            && final(out_std_dev)@ == masked(
            deviation_line(points@, num_std),
            window_warmup(window),
        ),
{
    if window == 0 {
        return Err(IndicatorError::InvalidParameter);
    }
    let flat: bool = is_zero_bits(num_std);
    let n: usize = points.len();
    let mut i: usize = 0;
    while i < n
        invariant
            i <= n,
            flat == is_zero(num_std),
            points@.len() == n,
            out_upper@.len() == n,
            out_mid@.len() == n,
            out_lower@.len() == n,
            out_std_dev@.len() == n,
            forall|j: int| 0 <= j < i ==> out_upper@[j] == points@[j].upper,
            forall|j: int| 0 <= j < i ==> out_mid@[j] == points@[j].average,
            forall|j: int| 0 <= j < i ==> out_lower@[j] == points@[j].lower,
            forall|j: int| 0 <= j < i ==> out_std_dev@[j] == deviation_at(points@[j], num_std),
        decreases n - i,
    {
        let point: BandPoint = points[i];
        out_upper[i] = point.upper;
        out_mid[i] = point.average;
        out_lower[i] = point.lower;
        if !flat {
            out_std_dev[i] = point.spread;
        } else {
            out_std_dev[i] = ZERO_BITS;
        }
        i += 1;
    }
    fill_nan(out_upper, window - 1);
    fill_nan(out_mid, window - 1);
    fill_nan(out_lower, window - 1);
    fill_nan(out_std_dev, window - 1);
    assert(out_upper@ =~= masked(upper_band(points@), window_warmup(window)));
    assert(out_mid@ =~= masked(middle_band(points@), window_warmup(window)));
    assert(out_lower@ =~= masked(lower_band(points@), window_warmup(window)));
    assert(out_std_dev@ =~= masked(deviation_line(points@, num_std), window_warmup(window)));
    Ok(())
}

} // verus!
