//! The result of one run, and the average over several runs.

use crate::error::BenchError;
use crate::time::{saturate, TimeSpan, MAX_NANOS, NANOS_PER_SEC};
use vstd::prelude::*;

verus! {

/// Millionths in one unit: the throughput is given in millionths of a
/// transaction per second.
pub const MICROS_PER_UNIT: u128 = 1_000_000;

/// A metric as four natural numbers: the elapsed time in nanoseconds and the
/// three counts.
pub struct MetricView {
    pub time_elapsed: nat,
    pub txs_sent: nat,
    pub txs_confirmed: nat,
    pub txs_un_confirmed: nat,
}

impl MetricView {
    /// The metric of a run in which nothing happened.
    pub open spec fn zero() -> MetricView {
        MetricView { time_elapsed: 0, txs_sent: 0, txs_confirmed: 0, txs_un_confirmed: 0 }
    }

    /// The sum of two metrics: the counts are added, the elapsed times are
    /// added and capped at the longest span.
    pub open spec fn plus(self, rhs: MetricView) -> MetricView {
        MetricView {
            time_elapsed: saturate(self.time_elapsed + rhs.time_elapsed),
            txs_sent: self.txs_sent + rhs.txs_sent,
            txs_confirmed: self.txs_confirmed + rhs.txs_confirmed,
            txs_un_confirmed: self.txs_un_confirmed + rhs.txs_un_confirmed,
        }
    }

    /// Each field divided by `k` and rounded down.
    pub open spec fn div(self, k: nat) -> MetricView
        recommends
            k > 0,
    {
        MetricView {
            time_elapsed: self.time_elapsed / k,
            txs_sent: self.txs_sent / k,
            txs_confirmed: self.txs_confirmed / k,
            txs_un_confirmed: self.txs_un_confirmed / k,
        }
    }

    /// Every transaction that was sent is either confirmed or not.
    pub open spec fn balanced(self) -> bool {
        self.txs_sent == self.txs_confirmed + self.txs_un_confirmed
    }

    /// Whether each count can be held in 64 bits.
    pub open spec fn fits(self) -> bool {
        &&& self.txs_sent <= u64::MAX
        &&& self.txs_confirmed <= u64::MAX
        &&& self.txs_un_confirmed <= u64::MAX
    }

    /// The confirmed transactions in millionths of a transaction, times the
    /// nanoseconds in a second: what is divided by the elapsed nanoseconds.
    pub open spec fn scaled_confirmed(self) -> nat {
        self.txs_confirmed * (NANOS_PER_SEC as nat) * (MICROS_PER_UNIT as nat)
    }

    /// Confirmed transactions per second, in millionths and rounded up, so
    /// that a confirmed transaction shows however long the run took; zero
    /// when no time has elapsed.
    pub open spec fn tps_micros(self) -> nat {
        if self.time_elapsed == 0 {
            0
        } else {
            ((self.scaled_confirmed() + self.time_elapsed - 1) / (self.time_elapsed as int)) as nat
        }
    }
}

/// What one timed run measured.
#[derive(Clone, Copy, Debug, PartialEq, Eq, Structural)]
pub struct Metric {
    pub time_elapsed: TimeSpan,
    pub txs_sent: u64,
    pub txs_confirmed: u64,
    pub txs_un_confirmed: u64,
}

impl View for Metric {
    type V = MetricView;

    open spec fn view(&self) -> MetricView {
        MetricView {
            time_elapsed: self.time_elapsed@,
            txs_sent: self.txs_sent as nat,
            txs_confirmed: self.txs_confirmed as nat,
            txs_un_confirmed: self.txs_un_confirmed as nat,
        }
    }
}

impl Default for Metric {
    fn default() -> (metric: Metric)
        ensures
            metric@ == MetricView::zero(),
    {
        Metric { time_elapsed: TimeSpan::zero(), txs_sent: 0, txs_confirmed: 0, txs_un_confirmed: 0 }
    }
}

impl Metric {
    /// Confirmed transactions per second, in millionths of a transaction and
    /// rounded up. It is zero exactly when no time has elapsed or nothing was
    /// confirmed.
    pub fn calc_tps_micros(&self) -> (tps: u128)
        ensures
            tps == self@.tps_micros(),
            tps == 0 <==> (self.time_elapsed@ == 0 || self.txs_confirmed == 0),
    {
        let nanos: u128 = self.time_elapsed.as_nanos();
        proof {
            lemma_tps_zero(self@);
        }
        if nanos == 0 {
            0
        } else {
            let confirmed: u128 = self.txs_confirmed as u128;
            assert(confirmed * NANOS_PER_SEC * MICROS_PER_UNIT <= u64::MAX
                * 1_000_000_000_000_000) by (nonlinear_arith)
                requires
                    confirmed <= u64::MAX,
                    NANOS_PER_SEC == 1_000_000_000,
                    MICROS_PER_UNIT == 1_000_000,
            ;
            assert(confirmed * NANOS_PER_SEC <= u64::MAX * 1_000_000_000) by (nonlinear_arith)
                requires
                    confirmed <= u64::MAX,
                    NANOS_PER_SEC == 1_000_000_000,
            ;
            let scaled: u128 = confirmed * NANOS_PER_SEC * MICROS_PER_UNIT;
            (scaled + nanos - 1) / nanos
        }
    }

    /// Whether `rhs` can be added without a count running over.
    pub fn has_room_for(&self, rhs: &Metric) -> (room: bool)
        ensures
            room == self@.plus(rhs@).fits(),
    {
        rhs.txs_sent <= u64::MAX - self.txs_sent && rhs.txs_confirmed <= u64::MAX
            - self.txs_confirmed && rhs.txs_un_confirmed <= u64::MAX - self.txs_un_confirmed
    }

    /// Adds `rhs` to this metric, field by field. The elapsed time stops at
    /// the longest span; the counts must have room for the sum.
    pub fn add_assign(&mut self, rhs: Metric)
        requires
            old(self)@.plus(rhs@).fits(),
        ensures
            final(self)@ == old(self)@.plus(rhs@),
    {
        self.time_elapsed = self.time_elapsed.saturating_add(&rhs.time_elapsed);
        self.txs_sent = self.txs_sent + rhs.txs_sent;
        self.txs_confirmed = self.txs_confirmed + rhs.txs_confirmed;
        self.txs_un_confirmed = self.txs_un_confirmed + rhs.txs_un_confirmed;
    }

    /// Divides each field by `rhs`, rounding down: the elapsed time to the
    /// nanosecond, the counts to whole transactions.
    pub fn div_assign(&mut self, rhs: u64)
        requires
            rhs > 0,
        ensures
            final(self)@ == old(self)@.div(rhs as nat),
    {
        self.time_elapsed = self.time_elapsed.div_u64(rhs);
        self.txs_sent = self.txs_sent / rhs;
        self.txs_confirmed = self.txs_confirmed / rhs;
        self.txs_un_confirmed = self.txs_un_confirmed / rhs;
    }

    /// The average of the runs that `avg_metric` has taken in, of which there
    /// must be at least one.
    pub fn from(avg_metric: AvgMetric) -> (metric: Metric)
        requires
            avg_metric@.num_of_runs > 0,
        ensures
            metric@ == avg_metric@.average(),
    {
        let mut total: Metric = avg_metric.total_metric;
        total.div_assign(avg_metric.num_of_runs);
        total
    }
}

/// A running average as natural numbers: how many runs were taken in, and the
/// sum of their metrics.
pub struct AvgMetricView {
    pub num_of_runs: nat,
    pub total: MetricView,
}

impl AvgMetricView {
    /// The average of no runs.
    pub open spec fn empty() -> AvgMetricView {
        AvgMetricView { num_of_runs: 0, total: MetricView::zero() }
    }

    /// The average after one more run.
    pub open spec fn fold(self, metric: MetricView) -> AvgMetricView {
        AvgMetricView { num_of_runs: self.num_of_runs + 1, total: self.total.plus(metric) }
    }

    /// The sum divided by the number of runs.
    pub open spec fn average(self) -> MetricView
        recommends
            self.num_of_runs > 0,
    {
        self.total.div(self.num_of_runs)
    }

    /// Whether the number of runs and each count can be held in 64 bits.
    pub open spec fn fits(self) -> bool {
        self.num_of_runs <= u64::MAX && self.total.fits()
    }

    /// The average after the runs of `metrics` were taken in, in their
    /// order.
    pub open spec fn fold_all(self, metrics: Seq<MetricView>) -> AvgMetricView
        decreases metrics.len(),
    {
        if metrics.len() == 0 {
            self
        } else {
            self.fold_all(metrics.drop_last()).fold(metrics.last())
        }
    }
}

/// The sum of several metrics.
pub open spec fn sum(metrics: Seq<MetricView>) -> MetricView
    decreases metrics.len(),
{
    if metrics.len() == 0 {
        MetricView::zero()
    } else {
        sum(metrics.drop_last()).plus(metrics.last())
    }
}

/// The sum of the metrics of several runs, with their number.
#[derive(Clone, Copy, Debug)]
pub struct AvgMetric {
    num_of_runs: u64,
    total_metric: Metric,
}

impl View for AvgMetric {
    type V = AvgMetricView;

    closed spec fn view(&self) -> AvgMetricView {
        AvgMetricView { num_of_runs: self.num_of_runs as nat, total: self.total_metric@ }
    }
}

impl Default for AvgMetric {
    fn default() -> (avg: AvgMetric)
        ensures
            avg@ == AvgMetricView::empty(),
    {
        AvgMetric { num_of_runs: 0, total_metric: Metric::default() }
    }
}

impl AvgMetric {
    /// How many runs were taken in.
    pub fn num_of_runs(&self) -> (runs: u64)
        ensures
            runs == self@.num_of_runs,
    {
        self.num_of_runs
    }

    /// The sum of the metrics taken in.
    pub fn total(&self) -> (total: Metric)
        ensures
            total@ == self@.total,
    {
        self.total_metric
    }

    /// Whether `rhs` can be taken in without a count running over.
    pub fn has_room_for(&self, rhs: &Metric) -> (room: bool)
        ensures
            room == self@.fold(rhs@).fits(),
    {
        self.num_of_runs < u64::MAX && self.total_metric.has_room_for(rhs)
    }

    /// Takes in the metric of one more run.
    pub fn add_assign(&mut self, rhs: Metric)
        requires
            old(self)@.fold(rhs@).fits(),
        ensures
            final(self)@ == old(self)@.fold(rhs@),
    {
        self.num_of_runs = self.num_of_runs + 1;
        self.total_metric.add_assign(rhs);
    }

    /// The average of the runs taken in, or [`BenchError::Arithmetic`] when
    /// there was none.
    pub fn try_average(self) -> (res: Result<Metric, BenchError>)
        ensures
            self@.num_of_runs == 0 <==> res == Err::<Metric, BenchError>(BenchError::Arithmetic),
            self@.num_of_runs > 0 <==> res.is_ok(),
            res.is_ok() ==> res.unwrap()@ == self@.average(),
    {
        if self.num_of_runs == 0 {
            Err(BenchError::Arithmetic)
        } else {
            Ok(Metric::from(self))
        }
    }
}

/// The throughput is zero exactly when no time has elapsed or nothing was
/// confirmed. Otherwise it is the least number of millionths per second that
/// accounts for all that was confirmed, and the exact quotient where the
/// elapsed time divides evenly.
pub proof fn lemma_tps_zero(m: MetricView)
    ensures
        m.tps_micros() == 0 <==> (m.time_elapsed == 0 || m.txs_confirmed == 0),
        m.time_elapsed > 0 ==> m.tps_micros() * m.time_elapsed >= m.scaled_confirmed(),
        m.time_elapsed > 0 ==> m.tps_micros() * m.time_elapsed < m.scaled_confirmed()
            + m.time_elapsed,
        m.time_elapsed > 0 && m.scaled_confirmed() % m.time_elapsed == 0 ==> m.tps_micros()
            == m.scaled_confirmed() / m.time_elapsed,
{
    let scaled: int = m.scaled_confirmed() as int;
    let d: int = m.time_elapsed as int;
    assert(scaled == m.txs_confirmed * 1_000_000_000_000_000) by (nonlinear_arith)
        requires
            scaled == m.txs_confirmed * (NANOS_PER_SEC as nat) * (MICROS_PER_UNIT as nat),
            NANOS_PER_SEC == 1_000_000_000,
            MICROS_PER_UNIT == 1_000_000,
    ;
    if d > 0 {
        let q: int = (scaled + d - 1) / d;
        assert(q * d <= scaled + d - 1 < q * d + d && q >= 0) by (nonlinear_arith)
            requires
                d > 0,
                scaled >= 0,
                q == (scaled + d - 1) / d,
        ;
        assert(m.tps_micros() == q);
        if scaled % d == 0 {
            let e: int = scaled / d;
            assert(e * d == scaled) by (nonlinear_arith)
                requires
                    d > 0,
                    scaled % d == 0,
                    e == scaled / d,
            ;
            assert(q == e) by (nonlinear_arith)
                requires
                    d > 0,
                    e * d == scaled,
                    q * d <= scaled + d - 1,
                    scaled + d - 1 < q * d + d,
            ;
        }
        if m.txs_confirmed == 0 {
            assert(q == 0) by (nonlinear_arith)
                requires
                    d > 0,
                    scaled == 0,
                    q * d <= scaled + d - 1,
                    q >= 0,
            ;
        } else {
            assert(q > 0) by (nonlinear_arith)
                requires
                    d > 0,
                    scaled > 0,
                    scaled + d - 1 < q * d + d,
            ;
        }
    }
}

/// Adding metrics does not depend on their order.
pub proof fn lemma_plus_commutative(a: MetricView, b: MetricView)
    ensures
        a.plus(b) == b.plus(a),
{
}

/// Adding metrics does not depend on how they are grouped, also where the
/// elapsed time reaches the longest span.
pub proof fn lemma_plus_associative(a: MetricView, b: MetricView, c: MetricView)
    ensures
        a.plus(b).plus(c) == a.plus(b.plus(c)),
{
}

/// The sum of two balanced metrics is balanced.
pub proof fn lemma_plus_balanced(a: MetricView, b: MetricView)
    requires
        a.balanced(),
        b.balanced(),
    ensures
        a.plus(b).balanced(),
{
}

/// Taking in two runs gives the same running average in either order.
pub proof fn lemma_fold_commutes(avg: AvgMetricView, m1: MetricView, m2: MetricView)
    ensures
        avg.fold(m1).fold(m2) == avg.fold(m2).fold(m1),
        avg.fold(m1).fold(m2).total == avg.total.plus(m1.plus(m2)),
{
}

/// The average over the runs taken in does not depend on the order in which
/// the last two were taken in.
pub proof fn lemma_average_commutes(avg: AvgMetricView, m1: MetricView, m2: MetricView)
    ensures
        avg.fold(m1).fold(m2).average() == avg.fold(m2).fold(m1).average(),
{
    lemma_fold_commutes(avg, m1, m2);
}

/// The elapsed time of a sum is no longer than the longest span.
pub proof fn lemma_sum_bounded(metrics: Seq<MetricView>)
    ensures
        sum(metrics).time_elapsed <= MAX_NANOS,
{
}

/// The sum of two batches of metrics is the sum of their sums.
pub proof fn lemma_sum_concat(first: Seq<MetricView>, second: Seq<MetricView>)
    ensures
        sum(first + second) == sum(first).plus(sum(second)),
    decreases second.len(),
{
    lemma_sum_bounded(first);
    if second.len() == 0 {
        assert(first + second =~= first);
    } else {
        lemma_sum_concat(first, second.drop_last());
        assert((first + second).drop_last() =~= first + second.drop_last());
        assert((first + second).last() == second.last());
        lemma_plus_associative(sum(first), sum(second.drop_last()), second.last());
    }
}

/// Taking in a batch of runs one by one adds their number to the number of
/// runs and their sum to the total.
pub proof fn lemma_fold_all(avg: AvgMetricView, metrics: Seq<MetricView>)
    ensures
        avg.fold_all(metrics).num_of_runs == avg.num_of_runs + metrics.len(),
        metrics.len() == 0 ==> avg.fold_all(metrics) == avg,
        metrics.len() > 0 ==> avg.fold_all(metrics).total == avg.total.plus(sum(metrics)),
    decreases metrics.len(),
{
    if metrics.len() > 0 {
        lemma_fold_all(avg, metrics.drop_last());
        lemma_plus_associative(avg.total, sum(metrics.drop_last()), metrics.last());
    }
}

/// Taking in two batches of runs one after the other is taking in the one
/// batch made of both.
pub proof fn lemma_fold_all_associative(
    avg: AvgMetricView,
    first: Seq<MetricView>,
    second: Seq<MetricView>,
)
    ensures
        avg.fold_all(first + second) == avg.fold_all(first).fold_all(second),
    decreases second.len(),
{
    if second.len() == 0 {
        assert(first + second =~= first);
    } else {
        lemma_fold_all_associative(avg, first, second.drop_last());
        assert((first + second).drop_last() =~= first + second.drop_last());
        assert((first + second).last() == second.last());
    }
}

/// The running average, and so the average over all runs, does not depend
/// on which of two batches of runs is taken in first.
pub proof fn lemma_fold_all_commutes(
    avg: AvgMetricView,
    first: Seq<MetricView>,
    second: Seq<MetricView>,
)
    ensures
        avg.fold_all(first + second) == avg.fold_all(second + first),
        avg.fold_all(first + second).average() == avg.fold_all(second + first).average(),
{
    lemma_fold_all(avg, first + second);
    lemma_fold_all(avg, second + first);
    lemma_sum_concat(first, second);
    lemma_sum_concat(second, first);
    lemma_plus_commutative(sum(first), sum(second));
}

} // verus!
