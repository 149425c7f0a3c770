//! Aggregation of a reading history into a trend summary: perfect-rate,
//! averages, direction and quality distribution.
//!
//! The perfect-extraction rate is a percentage carried in hundredths
//! (0..=10000); the averaged temperature, pressure and extraction time
//! keep the units of the readings they average.

use vstd::prelude::*;
use vstd::arithmetic::div_mod::{lemma_div_is_ordered, lemma_div_multiples_vanish};
use crate::simulation::{ExtractionMetrics, spec_is_good, spec_is_perfect};

verus! {

/// The reporting bucket a summary was aggregated over; the aggregation
/// itself is period-agnostic, bucketing is the caller's concern.
#[derive(Clone, Copy, Debug, PartialEq, Eq, Structural)]
pub enum TrendPeriod {
    Daily,
    Weekly,
    Monthly,
    Yearly,
}

#[derive(Clone, Copy, Debug, PartialEq, Eq, Structural)]
pub enum TrendDirection {
    Improving,
    Stable,
    Declining,
}

/// Arithmetic means over the aggregated readings, floored; all zero when
/// the history was empty.
#[derive(Clone, Copy, Debug, PartialEq, Eq, Structural)]
pub struct AverageMetrics {
    /// Mean brew temperature, hundredths of a degree.
    pub temperature: u64,
    /// Mean brew pressure, hundredths of a bar.
    pub pressure: u64,
    /// Mean nominal extraction time, hundredths of a second.
    pub extraction_time: u64,
}

/// How many readings fell into each quality bucket. A perfect reading is
/// also a good one, so `perfect` and `good` overlap by design.
#[derive(Clone, Copy, Debug, PartialEq, Eq, Structural)]
pub struct QualityDistribution {
    pub perfect: u32,
    pub good: u32,
    pub suboptimal: u32,
}

/// The trend summary over one period's readings.
#[derive(Clone, Debug, PartialEq, Eq, Structural)]
pub struct ExtractionTrends {
    pub period: TrendPeriod,
    /// Share of perfect readings as a percentage in hundredths (0..=10000).
    pub perfect_extraction_rate: u64,
    pub avg_metrics: AverageMetrics,
    pub trend_direction: TrendDirection,
    pub quality_distribution: QualityDistribution,
}

/// How many readings of `s` are perfect.
pub open spec fn count_perfect(s: Seq<ExtractionMetrics>) -> int
    decreases s.len(),
{
    if s.len() == 0 {
        0
    } else {
        count_perfect(s.drop_last()) + if spec_is_perfect(s.last()) {
            1int
        } else {
            0
        }
    }
}

/// How many readings of `s` are good.
pub open spec fn count_good(s: Seq<ExtractionMetrics>) -> int
    decreases s.len(),
{
    if s.len() == 0 {
        0
    } else {
        count_good(s.drop_last()) + if spec_is_good(s.last()) {
            1int
        } else {
            0
        }
    }
}

/// How many readings of `s` are neither perfect nor good.
pub open spec fn count_suboptimal(s: Seq<ExtractionMetrics>) -> int
    decreases s.len(),
{
    if s.len() == 0 {
        0
    } else {
        count_suboptimal(s.drop_last()) + if !spec_is_perfect(s.last()) && !spec_is_good(s.last()) {
            1int
        } else {
            0
        }
    }
}

/// The temperatures of `s` summed.
pub open spec fn sum_temperature(s: Seq<ExtractionMetrics>) -> int
    decreases s.len(),
{
    if s.len() == 0 {
        0
    } else {
        sum_temperature(s.drop_last()) + s.last().temperature
    }
}

/// The pressures of `s` summed.
pub open spec fn sum_pressure(s: Seq<ExtractionMetrics>) -> int
    decreases s.len(),
{
    if s.len() == 0 {
        0
    } else {
        sum_pressure(s.drop_last()) + s.last().pressure
    }
}

/// The nominal extraction times of `s` summed.
pub open spec fn sum_extraction_time(s: Seq<ExtractionMetrics>) -> int
    decreases s.len(),
{
    if s.len() == 0 {
        0
    } else {
        sum_extraction_time(s.drop_last()) + s.last().extraction_time
    }
}

/// The share of perfect readings as a percentage in hundredths, floored;
/// zero over an empty history.
pub open spec fn spec_perfect_rate(s: Seq<ExtractionMetrics>) -> int {
    if s.len() == 0 {
        0
    } else {
        count_perfect(s) * 10000 / (s.len() as int)
    }
}

/// The direction a period's rate indicates: improving above 75 percent,
/// stable above 50, declining otherwise (an empty history declines).
pub open spec fn spec_trend_direction(s: Seq<ExtractionMetrics>) -> TrendDirection {
    if count_perfect(s) * 100 > 75 * s.len() {
        TrendDirection::Improving
    } else if count_perfect(s) * 100 > 50 * s.len() {
        TrendDirection::Stable
    } else {
        TrendDirection::Declining
    }
}

/// A floored mean: zero when there is nothing to average.
pub open spec fn spec_avg(total: int, n: int) -> int {
    if n == 0 {
        0
    } else {
        total / n
    }
}

/// How many readings a history holds bounds every bucket count.
pub proof fn lemma_count_perfect_le_len(s: Seq<ExtractionMetrics>)
    ensures
        0 <= count_perfect(s) <= s.len(),
    decreases s.len(),
{
    if s.len() > 0 {
        lemma_count_perfect_le_len(s.drop_last());
    }
}

/// The good and the suboptimal readings partition a history, and the
/// perfect readings are among the good ones: the `perfect` and `good`
/// buckets overlap by exactly the perfect readings.
pub proof fn lemma_distribution_partition(s: Seq<ExtractionMetrics>)
    ensures
        count_good(s) + count_suboptimal(s) == s.len(),
        count_perfect(s) <= count_good(s),
    decreases s.len(),
{
    if s.len() > 0 {
        lemma_distribution_partition(s.drop_last());
    }
}

/// The perfect-extraction rate is a percentage: it stays within 0..=10000
/// hundredths on every history.
pub proof fn lemma_perfect_rate_is_percentage(s: Seq<ExtractionMetrics>)
    ensures
        0 <= spec_perfect_rate(s) <= 10000,
{
    if s.len() > 0 {
        lemma_count_perfect_le_len(s);
        lemma_div_is_ordered(0, count_perfect(s) * 10000, s.len() as int);
        lemma_div_is_ordered(count_perfect(s) * 10000, s.len() as int * 10000, s.len() as int);
        lemma_div_multiples_vanish(10000, s.len() as int);
    }
}

/// How many of the first `i` readings are perfect.
fn count_perfect_readings(metrics: &[ExtractionMetrics]) -> (n: u64)
    requires
        metrics@.len() <= u32::MAX,
    ensures
        n == count_perfect(metrics@),
        n <= metrics@.len(),
{
    let mut n: u64 = 0;
    let len = metrics.len();
    for i in 0..len
        invariant
            len == metrics@.len() <= u32::MAX,
            n == count_perfect(metrics@.take(i as int)),
            n <= i,
    {
        proof {
            assert(metrics@.take(i + 1).drop_last() =~= metrics@.take(i as int));
            assert(metrics@.take(i + 1).last() == metrics@[i as int]);
        }
        if metrics[i].is_perfect() {
            n = n + 1;
        }
    }
    proof {
        assert(metrics@.take(len as int) =~= metrics@);
    }
    n
}

impl ExtractionTrends {
    /// Aggregates one period's readings into a summary. Every clause of
    /// the contract is exact: the rate, the direction, the three floored
    /// means and the three bucket counts are each pinned to the history.
    pub fn calculate(metrics: &[ExtractionMetrics], period: TrendPeriod) -> (r: ExtractionTrends)
        requires
            metrics@.len() <= u32::MAX,
        ensures
            r.period == period,
            r.perfect_extraction_rate == spec_perfect_rate(metrics@),
            r.trend_direction == spec_trend_direction(metrics@),
            r.avg_metrics.temperature == spec_avg(sum_temperature(metrics@), metrics@.len() as int),
            r.avg_metrics.pressure == spec_avg(sum_pressure(metrics@), metrics@.len() as int),
            r.avg_metrics.extraction_time == spec_avg(
                sum_extraction_time(metrics@),
                metrics@.len() as int,
            ),
            r.quality_distribution.perfect == count_perfect(metrics@),
            r.quality_distribution.good == count_good(metrics@),
            r.quality_distribution.suboptimal == count_suboptimal(metrics@),
    {
        ExtractionTrends {
            period,
            perfect_extraction_rate: Self::calculate_perfect_extraction_rate(metrics),
            avg_metrics: Self::calculate_average_metrics(metrics),
            trend_direction: Self::calculate_trend_direction(metrics),
            quality_distribution: Self::calculate_quality_distribution(metrics),
        }
    }

    /// The share of perfect readings, a percentage in hundredths; zero
    /// over an empty history rather than a division by zero.
    fn calculate_perfect_extraction_rate(metrics: &[ExtractionMetrics]) -> (r: u64)
        requires
            metrics@.len() <= u32::MAX,
        ensures
            r == spec_perfect_rate(metrics@),
    {
        let perfect_count = count_perfect_readings(metrics);
        let len = metrics.len();
        if len == 0 {
            0
        } else {
            (perfect_count * 10000) / (len as u64)
        }
    }

    /// The floored means of temperature, pressure and nominal extraction
    /// time; all zero over an empty history.
    fn calculate_average_metrics(metrics: &[ExtractionMetrics]) -> (r: AverageMetrics)
        requires
            metrics@.len() <= u32::MAX,
        ensures
            r.temperature == spec_avg(sum_temperature(metrics@), metrics@.len() as int),
            r.pressure == spec_avg(sum_pressure(metrics@), metrics@.len() as int),
            r.extraction_time == spec_avg(sum_extraction_time(metrics@), metrics@.len() as int),
    {
        let len = metrics.len();
        if len == 0 {
            return AverageMetrics { temperature: 0, pressure: 0, extraction_time: 0 };
        }
        let mut total_temperature: u128 = 0;
        let mut total_pressure: u128 = 0;
        let mut total_extraction_time: u128 = 0;
        for i in 0..len
            invariant
                len == metrics@.len() <= u32::MAX,
                total_temperature == sum_temperature(metrics@.take(i as int)),
                total_pressure == sum_pressure(metrics@.take(i as int)),
                total_extraction_time == sum_extraction_time(metrics@.take(i as int)),
                total_temperature <= i * (u64::MAX as int),
                total_pressure <= i * (u64::MAX as int),
                total_extraction_time <= i * (u64::MAX as int),
        {
            proof {
                assert(metrics@.take(i + 1).drop_last() =~= metrics@.take(i as int));
                assert(metrics@.take(i + 1).last() == metrics@[i as int]);
            }
            total_temperature = total_temperature + metrics[i].temperature as u128;
            total_pressure = total_pressure + metrics[i].pressure as u128;
            total_extraction_time = total_extraction_time + metrics[i].extraction_time as u128;
        }
        proof {
            assert(metrics@.take(len as int) =~= metrics@);
        }
        AverageMetrics {
            temperature: Self::floored_mean(total_temperature, len),
            pressure: Self::floored_mean(total_pressure, len),
            extraction_time: Self::floored_mean(total_extraction_time, len),
        }
    }

    /// Divides a sum bounded by `n` values through `n`; the mean of `u64`
    /// values fits a `u64` again.
    fn floored_mean(total: u128, n: usize) -> (r: u64)
        requires
            0 < n,
            total <= n * (u64::MAX as int),
        ensures
            r == total as int / n as int,
    {
        proof {
            lemma_div_is_ordered(total as int, n * (u64::MAX as int), n as int);
            lemma_div_multiples_vanish(u64::MAX as int, n as int);
        }
        (total / (n as u128)) as u64
    }

    /// The direction the period's perfect-rate indicates, decided by exact
    /// comparison of the counts.
    fn calculate_trend_direction(metrics: &[ExtractionMetrics]) -> (r: TrendDirection)
        requires
            metrics@.len() <= u32::MAX,
        ensures
            r == spec_trend_direction(metrics@),
    {
        let perfect_count = count_perfect_readings(metrics);
        let len = metrics.len() as u64;
        if perfect_count * 100 > 75 * len {
            TrendDirection::Improving
        } else if perfect_count * 100 > 50 * len {
            TrendDirection::Stable
        } else {
            TrendDirection::Declining
        }
    }

    /// Counts the readings of each quality bucket; a perfect reading also
    /// counts as good.
    fn calculate_quality_distribution(metrics: &[ExtractionMetrics]) -> (r: QualityDistribution)
        requires
            metrics@.len() <= u32::MAX,
        ensures
            r.perfect == count_perfect(metrics@),
            r.good == count_good(metrics@),
            r.suboptimal == count_suboptimal(metrics@),
    {
        let len = metrics.len();
        let mut perfect: u32 = 0;
        let mut good: u32 = 0;
        let mut suboptimal: u32 = 0;
        for i in 0..len
            invariant
                len == metrics@.len() <= u32::MAX,
                perfect == count_perfect(metrics@.take(i as int)),
                good == count_good(metrics@.take(i as int)),
                suboptimal == count_suboptimal(metrics@.take(i as int)),
                perfect <= i && good <= i && suboptimal <= i,
        {
            proof {
                assert(metrics@.take(i + 1).drop_last() =~= metrics@.take(i as int));
                assert(metrics@.take(i + 1).last() == metrics@[i as int]);
            }
            let reading = &metrics[i];
            let reading_perfect = reading.is_perfect();
            let reading_good = reading.is_good();
            if reading_perfect {
                perfect = perfect + 1;
            }
            if reading_good {
                good = good + 1;
            }
            if !reading_perfect && !reading_good {
                suboptimal = suboptimal + 1;
            }
        }
        proof {
            assert(metrics@.take(len as int) =~= metrics@);
        }
        QualityDistribution { perfect, good, suboptimal }
    }
}

} // verus!
