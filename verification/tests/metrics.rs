use lite_rpc_tests::error::BenchError;
use lite_rpc_tests::metrics::{AvgMetric, Metric};
use lite_rpc_tests::time::TimeSpan;

fn metric(secs: u64, sent: u64, confirmed: u64, un_confirmed: u64) -> Metric {
    Metric {
        time_elapsed: TimeSpan::from_secs(secs),
        txs_sent: sent,
        txs_confirmed: confirmed,
        txs_un_confirmed: un_confirmed,
    }
}

#[test]
fn default_metric_is_zero() {
    let m = Metric::default();
    assert_eq!(m.time_elapsed.as_nanos(), 0);
    assert_eq!(m.txs_sent, 0);
    assert_eq!(m.txs_confirmed, 0);
    assert_eq!(m.txs_un_confirmed, 0);
    assert_eq!(m.calc_tps_micros(), 0);
}

#[test]
fn add_assign_adds_each_field() {
    let mut m = metric(1, 100, 90, 10);
    m.add_assign(metric(3, 300, 270, 30));
    assert_eq!(m, metric(4, 400, 360, 40));
}

#[test]
fn add_assign_saturates_elapsed_time() {
    let longest = TimeSpan::from_nanos(u128::MAX);
    let mut m = Metric { time_elapsed: longest, txs_sent: 1, txs_confirmed: 1, txs_un_confirmed: 0 };
    m.add_assign(metric(5, 1, 0, 1));
    assert_eq!(m.time_elapsed, longest);
    assert_eq!(m.time_elapsed.as_nanos(), 18_446_744_073_709_551_615_999_999_999);
    assert_eq!(m.txs_sent, 2);
}

#[test]
fn div_assign_rounds_down() {
    let mut m = Metric {
        time_elapsed: TimeSpan::from_nanos(10),
        txs_sent: 10,
        txs_confirmed: 7,
        txs_un_confirmed: 3,
    };
    m.div_assign(3);
    assert_eq!(m.time_elapsed.as_nanos(), 3);
    assert_eq!(m.txs_sent, 3);
    assert_eq!(m.txs_confirmed, 2);
    assert_eq!(m.txs_un_confirmed, 1);
}

#[test]
fn div_assign_keeps_nanosecond_precision_beyond_64_bits() {
    // 40_000_000_000 s is more nanoseconds than 64 bits hold.
    let mut m = metric(40_000_000_000, 0, 0, 0);
    m.div_assign(4);
    assert_eq!(m.time_elapsed, TimeSpan::from_secs(10_000_000_000));
}

#[test]
fn metric_averaging() {
    let mut avg = AvgMetric::default();
    let first = metric(1, 100, 90, 10);
    let second = metric(3, 300, 270, 30);
    assert!(avg.has_room_for(&first));
    avg.add_assign(first);
    assert!(avg.has_room_for(&second));
    avg.add_assign(second);
    assert_eq!(avg.num_of_runs(), 2);
    assert_eq!(avg.total(), metric(4, 400, 360, 40));
    let averaged = Metric::from(avg);
    assert_eq!(averaged, metric(2, 200, 180, 20));
    assert_eq!(averaged.calc_tps_micros(), 90_000_000);
    assert_eq!(avg.try_average(), Ok(metric(2, 200, 180, 20)));
}

#[test]
fn average_of_no_runs_is_an_error() {
    let avg = AvgMetric::default();
    assert_eq!(avg.num_of_runs(), 0);
    assert_eq!(avg.try_average(), Err(BenchError::Arithmetic));
}

#[test]
fn fold_order_does_not_matter() {
    let m1 = metric(1, 5, 3, 2);
    let m2 = metric(7, 11, 4, 7);
    let m3 = metric(2, 1, 1, 0);
    let mut a = AvgMetric::default();
    a.add_assign(m1);
    a.add_assign(m2);
    a.add_assign(m3);
    let mut b = AvgMetric::default();
    b.add_assign(m3);
    b.add_assign(m1);
    b.add_assign(m2);
    assert_eq!(a.total(), b.total());
    assert_eq!(a.num_of_runs(), b.num_of_runs());
    assert_eq!(Metric::from(a), Metric::from(b));
    assert_eq!(
        Metric::from(a),
        Metric {
            time_elapsed: TimeSpan::from_nanos(3_333_333_333),
            txs_sent: 5,
            txs_confirmed: 2,
            txs_un_confirmed: 3,
        }
    );
}

#[test]
fn metric_addition_is_associative_and_commutative() {
    let m1 = metric(1, 5, 3, 2);
    let m2 = metric(7, 11, 4, 7);
    let m3 = metric(2, 1, 1, 0);
    let mut left = m1;
    left.add_assign(m2);
    left.add_assign(m3);
    let mut inner = m2;
    inner.add_assign(m3);
    let mut right = m1;
    right.add_assign(inner);
    assert_eq!(left, right);
    let mut swapped = m2;
    swapped.add_assign(m1);
    let mut plain = m1;
    plain.add_assign(m2);
    assert_eq!(swapped, plain);
}

#[test]
fn has_room_for_refuses_a_count_that_would_run_over() {
    let mut avg = AvgMetric::default();
    avg.add_assign(metric(1, u64::MAX, 0, 0));
    assert!(!avg.has_room_for(&metric(1, 1, 0, 0)));
    assert!(avg.has_room_for(&metric(1, 0, 1, 1)));
}

#[test]
fn tps_is_zero_without_time_or_confirmations() {
    assert_eq!(metric(0, 10, 10, 0).calc_tps_micros(), 0);
    assert_eq!(metric(5, 10, 0, 10).calc_tps_micros(), 0);
    assert_ne!(metric(5, 10, 1, 9).calc_tps_micros(), 0);
}

#[test]
fn tps_exact_values() {
    assert_eq!(metric(2, 180, 180, 0).calc_tps_micros(), 90_000_000);
    // Rounded up: a third of a transaction per second.
    assert_eq!(metric(3, 1, 1, 0).calc_tps_micros(), 333_334);
    assert_eq!(metric(3, 2, 2, 0).calc_tps_micros(), 666_667);
    let half_second = Metric {
        time_elapsed: TimeSpan::from_millis(500),
        txs_sent: 1,
        txs_confirmed: 1,
        txs_un_confirmed: 0,
    };
    assert_eq!(half_second.calc_tps_micros(), 2_000_000);
    let three_in_half_a_second = Metric {
        time_elapsed: TimeSpan::from_millis(500),
        txs_sent: 3,
        txs_confirmed: 3,
        txs_un_confirmed: 0,
    };
    assert_eq!(three_in_half_a_second.calc_tps_micros(), 6_000_000);
    // One confirmation shows however long the run took.
    assert_eq!(metric(1_000_000, 1, 1, 0).calc_tps_micros(), 1);
    assert_eq!(metric(2_000_000, 1, 1, 0).calc_tps_micros(), 1);
    assert_eq!(metric(10_000_000_000, 1, 1, 0).calc_tps_micros(), 1);
    assert_eq!(metric(u64::MAX, 1, 1, 0).calc_tps_micros(), 1);
    assert_eq!(metric(u64::MAX, 10, 0, 10).calc_tps_micros(), 0);
    assert_eq!(metric(1, u64::MAX, u64::MAX, 0).calc_tps_micros(), 18_446_744_073_709_551_615_000_000);
}

#[test]
fn time_span_conversions() {
    assert_eq!(TimeSpan::zero().as_nanos(), 0);
    assert!(TimeSpan::zero().is_zero());
    assert!(!TimeSpan::from_nanos(1).is_zero());
    assert_eq!(TimeSpan::from_secs(2).as_nanos(), 2_000_000_000);
    assert_eq!(TimeSpan::from_millis(1_500).as_secs(), 1);
    assert_eq!(TimeSpan::from_millis(1_500).subsec_nanos(), 500_000_000);
    assert_eq!(TimeSpan::from_secs(u64::MAX).as_secs(), u64::MAX);
    assert_eq!(TimeSpan::from_nanos(u128::MAX).as_secs(), u64::MAX);
    assert_eq!(TimeSpan::from_nanos(u128::MAX).subsec_nanos(), 999_999_999);
}

#[test]
fn time_span_arithmetic() {
    let one = TimeSpan::from_secs(1);
    let three = TimeSpan::from_secs(3);
    assert_eq!(one.saturating_add(&three), TimeSpan::from_secs(4));
    assert_eq!(three.saturating_sub(&one), TimeSpan::from_secs(2));
    assert_eq!(one.saturating_sub(&three), TimeSpan::zero());
    assert_eq!(three.div_u64(2), TimeSpan::from_millis(1_500));
    assert_eq!(
        TimeSpan::from_secs(u64::MAX).saturating_add(&TimeSpan::from_secs(1)),
        TimeSpan::from_nanos(u128::MAX)
    );
    assert!(three.at_least(&one));
    assert!(three.at_least(&three));
    assert!(!one.at_least(&three));
    assert!(three.longer_than(&one));
    assert!(!three.longer_than(&three));
}
