use uzi_miner::hashrate::{
    ema_update, instant_rate, scale_rate, Hashrate, HashrateBoard, Sampler, HASH_PER_ROUND,
};

#[test]
fn ema_is_mean_of_old_and_new() {
    assert_eq!(ema_update(Hashrate(10), Hashrate(21)), Hashrate(15));
    assert_eq!(ema_update(Hashrate(11), Hashrate(21)), Hashrate(16));
    assert_eq!(ema_update(Hashrate(u64::MAX), Hashrate(u64::MAX)), Hashrate(u64::MAX));
    assert_eq!(ema_update(Hashrate(0), Hashrate(0)), Hashrate(0));
}

#[test]
fn instant_rate_of_a_batch() {
    assert_eq!(instant_rate(HASH_PER_ROUND, 1000), Some(Hashrate(512_000)));
    assert_eq!(instant_rate(512, 250), Some(Hashrate(2_048_000)));
    assert_eq!(instant_rate(3, 7), Some(Hashrate(428_571)));
}

#[test]
fn instant_rate_of_empty_window_is_none() {
    assert_eq!(instant_rate(512, 0), None);
}

#[test]
fn instant_rate_saturates() {
    assert_eq!(instant_rate(u64::MAX, 1), Some(Hashrate(u64::MAX)));
}

#[test]
fn ema_converges_within_one_percent_after_ten_updates() {
    let rate = Hashrate(1_000_000);
    let mut v = Hashrate(0);
    let mut prev = v;
    for _ in 0..10 {
        v = ema_update(v, rate);
        assert!(v.0 >= prev.0);
        assert!(v.0 <= rate.0);
        prev = v;
    }
    assert!(100 * (rate.0 - v.0) <= rate.0);
    assert_eq!(v, Hashrate(999_023));
}

#[test]
fn ema_of_smallest_rate_in_bound() {
    let rate = Hashrate(100);
    let mut v = Hashrate(0);
    for _ in 0..10 {
        v = ema_update(v, rate);
    }
    assert_eq!(v, Hashrate(99));
}

#[test]
fn sampler_folds_rate_and_opens_window() {
    let mut s = Sampler::new(1_000);
    let v = s.sample(512, 2_000);
    assert_eq!(v, Hashrate(256_000));
    assert_eq!(s.window_start_ms, 2_000);
    let v = s.sample(512, 2_500);
    assert_eq!(v, Hashrate((256_000 + 1_024_000) / 2));
}

#[test]
fn sampler_keeps_value_over_empty_window() {
    let mut s = Sampler::new(1_000);
    s.value = Hashrate(42);
    assert_eq!(s.sample(512, 1_000), Hashrate(42));
    assert_eq!(s.sample(512, 900), Hashrate(42));
    assert_eq!(s.window_start_ms, 900);
}

#[test]
fn board_starts_with_zero_slots() {
    let b = HashrateBoard::new(3, 0);
    assert_eq!(b.slots(), &vec![Hashrate(0); 3]);
    assert_eq!(b.total(), 0);
}

#[test]
fn board_reports_only_after_interval() {
    let mut b = HashrateBoard::new(2, 0);
    assert!(b.record(0, Hashrate(5_000), 10_000).is_none());
    assert!(b.record(1, Hashrate(7_000), 30_000).is_none());
    let r = b.record(0, Hashrate(6_000), 30_001).unwrap();
    assert_eq!(r.total, 13_000);
    assert_eq!(r.slots, vec![Hashrate(6_000), Hashrate(7_000)]);
    assert!(b.record(1, Hashrate(1), 40_000).is_none());
    let r = b.record(1, Hashrate(1), 60_002).unwrap();
    assert_eq!(r.total, 6_001);
}

#[test]
fn board_drops_sample_without_slot() {
    let mut b = HashrateBoard::new(1, 0);
    assert!(b.record(4, Hashrate(9), 1).is_none());
    assert_eq!(b.slots(), &vec![Hashrate(0)]);
}

#[test]
fn board_total_of_largest_rates() {
    let mut b = HashrateBoard::new(2, 0);
    b.record(0, Hashrate(u64::MAX), 1);
    b.record(1, Hashrate(u64::MAX), 1);
    assert_eq!(b.total(), 2 * (u64::MAX as u128));
}

#[test]
fn scale_rate_picks_unit() {
    assert_eq!(scale_rate(999_000), (999_000, 0));
    assert_eq!(scale_rate(1_000_000), (1_000_000, 0));
    assert_eq!(scale_rate(1_000_001), (1_000, 1));
    assert_eq!(scale_rate(1_500_000_000), (1_500, 2));
    assert_eq!(scale_rate(u128::MAX), (u128::MAX / 1_000u128.pow(8), 8));
}
