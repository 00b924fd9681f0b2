use pingmon::{isqrt, ProbeResult, Stats};

fn run(outcomes: &[ProbeResult]) -> Stats {
    let mut s = Stats::new();
    for r in outcomes {
        s.record(r);
    }
    s
}

#[test]
fn five_ticks_mixed_outcomes() {
    let s = run(&[
        ProbeResult::reply(10_000, 64),
        ProbeResult::failed(),
        ProbeResult::reply(20_000, 64),
        ProbeResult::failed(),
        ProbeResult::failed(),
    ]);
    assert_eq!(s.sent(), 5);
    assert_eq!(s.received(), 2);
    assert_eq!(s.lost(), 3);
    assert_eq!(s.loss_basis_points(), 6000);
    assert_eq!(s.min_us(), 10_000);
    assert_eq!(s.max_us(), 20_000);
    assert_eq!(s.average_us(), 15_000);
}

#[test]
fn single_success_has_zero_deviation() {
    let s = run(&[ProbeResult::reply(50_000, 60)]);
    assert_eq!(s.stddev_us(), 0);
    assert_eq!(s.average_us(), 50_000);
}

#[test]
fn fresh_stats_hold_start_values() {
    let s = Stats::new();
    assert_eq!(s.sent(), 0);
    assert_eq!(s.received(), 0);
    assert_eq!(s.lost(), 0);
    assert_eq!(s.min_us(), u32::MAX);
    assert_eq!(s.max_us(), 0);
    assert_eq!(s.average_us(), 0);
    assert_eq!(s.loss_basis_points(), 0);
    assert_eq!(s.stddev_us(), 0);
}

#[test]
fn sent_is_received_plus_lost_after_every_tick() {
    let outcomes = [
        ProbeResult::failed(),
        ProbeResult::reply(3, 1),
        ProbeResult::failed(),
        ProbeResult::reply(7, 1),
        ProbeResult::reply(5, 1),
    ];
    let mut s = Stats::new();
    for (i, r) in outcomes.iter().enumerate() {
        s.record(r);
        assert_eq!(s.sent(), i as u64 + 1);
        assert_eq!(s.sent(), s.received() + s.lost());
    }
}

#[test]
fn failures_only_keep_extrema_at_start_values() {
    let s = run(&[ProbeResult::failed(), ProbeResult::failed()]);
    assert_eq!(s.min_us(), u32::MAX);
    assert_eq!(s.max_us(), 0);
    assert_eq!(s.loss_basis_points(), 10_000);
    assert_eq!(s.average_us(), 0);
}

#[test]
fn extrema_bound_every_success() {
    let lats = [300u32, 100, 900, 400];
    let outcomes: Vec<ProbeResult> = lats.iter().map(|&l| ProbeResult::reply(l, 1)).collect();
    let s = run(&outcomes);
    assert_eq!(s.min_us(), 100);
    assert_eq!(s.max_us(), 900);
    for l in lats {
        assert!(s.min_us() <= l && l <= s.max_us());
    }
}

#[test]
fn loss_is_zero_without_losses_and_rounds_up_otherwise() {
    let s = run(&[ProbeResult::reply(1, 1), ProbeResult::reply(2, 1)]);
    assert_eq!(s.loss_basis_points(), 0);
    let s = run(&[ProbeResult::failed(), ProbeResult::reply(1, 1), ProbeResult::reply(1, 1)]);
    assert_eq!(s.loss_basis_points(), 3334);
}

#[test]
fn stddev_of_two_samples() {
    // variance = (10000 - 15000)^2 * 2 / 1 = 50_000_000; its root is 7071.07
    let s = run(&[ProbeResult::reply(10_000, 1), ProbeResult::reply(20_000, 1)]);
    assert_eq!(s.stddev_us(), 7071);
}

#[test]
fn stddev_of_equal_samples_is_zero() {
    let s = run(&[ProbeResult::reply(42, 1), ProbeResult::reply(42, 1), ProbeResult::reply(42, 1)]);
    assert_eq!(s.stddev_us(), 0);
}

#[test]
fn average_rounds_down() {
    let s = run(&[ProbeResult::reply(1, 1), ProbeResult::reply(2, 1)]);
    assert_eq!(s.average_us(), 1);
}

#[test]
fn derived_queries_are_repeatable() {
    let s = run(&[ProbeResult::reply(10, 1), ProbeResult::failed(), ProbeResult::reply(31, 1)]);
    assert_eq!(s.average_us(), s.average_us());
    assert_eq!(s.stddev_us(), s.stddev_us());
    assert_eq!(s.loss_basis_points(), s.loss_basis_points());
    assert_eq!(s.snapshot(), s.snapshot());
}

#[test]
fn snapshot_matches_queries() {
    let s = run(&[ProbeResult::reply(10_000, 1), ProbeResult::failed(), ProbeResult::reply(20_000, 1)]);
    let snap = s.snapshot();
    assert_eq!(snap.sent, 3);
    assert_eq!(snap.received, 2);
    assert_eq!(snap.lost, 1);
    assert_eq!(snap.min_us, 10_000);
    assert_eq!(snap.max_us, 20_000);
    assert_eq!(snap.average_us, 15_000);
    assert_eq!(snap.loss_bp, 3334);
    assert_eq!(snap.loss_tenths, 333);
    assert_eq!(snap.stddev_us, 7071);
}

#[test]
fn largest_latency_is_accepted() {
    let s = run(&[ProbeResult::reply(u32::MAX, 1), ProbeResult::reply(u32::MAX, 1)]);
    assert_eq!(s.average_us(), u32::MAX);
    assert_eq!(s.stddev_us(), 0);
}

#[test]
fn integer_square_roots() {
    assert_eq!(isqrt(0), 0);
    assert_eq!(isqrt(1), 1);
    assert_eq!(isqrt(15), 3);
    assert_eq!(isqrt(16), 4);
    assert_eq!(isqrt(50_000_000), 7071);
    assert_eq!(isqrt(u128::MAX), u64::MAX);
}

#[test]
fn probe_outcome_from_reply() {
    assert_eq!(ProbeResult::from_reply(None), ProbeResult::failed());
    let r = ProbeResult::from_reply(Some((1234, 57)));
    assert!(r.success);
    assert_eq!(r.latency_us, 1234);
    assert_eq!(r.ttl, 57);
    let r = ProbeResult::from_reply(Some((u128::MAX, 3)));
    assert_eq!(r.latency_us, u32::MAX);
}

#[test]
fn stddev_rounds_the_variance_down_first() {
    // three samples 1, 2, 4: variance 14 / 6, rounded down to 2, root 1
    let s = run(&[ProbeResult::reply(1, 1), ProbeResult::reply(2, 1), ProbeResult::reply(4, 1)]);
    assert_eq!(s.stddev_us(), 1);
    // 3, 5, 10: variance 78 / 6 = 13, root 3
    let s = run(&[ProbeResult::reply(3, 1), ProbeResult::reply(5, 1), ProbeResult::reply(10, 1)]);
    assert_eq!(s.stddev_us(), 3);
    // 0, 10: variance 50, root 7
    let s = run(&[ProbeResult::reply(0, 1), ProbeResult::reply(10, 1)]);
    assert_eq!(s.stddev_us(), 7);
}

#[test]
fn stddev_of_extreme_spread() {
    // 0 and u32::MAX: variance (u32::MAX)^2 / 2, root u32::MAX / sqrt(2)
    let s = run(&[ProbeResult::reply(0, 1), ProbeResult::reply(u32::MAX, 1)]);
    let d = s.stddev_us() as u128;
    let v = (u32::MAX as u128) * (u32::MAX as u128) / 2;
    assert!(d * d <= v && v < (d + 1) * (d + 1));
}

#[test]
fn any_loss_gives_a_nonzero_percentage() {
    let mut s = Stats::new();
    s.record(&ProbeResult::failed());
    for _ in 0..20_000 {
        s.record(&ProbeResult::reply(1, 1));
    }
    assert_eq!(s.sent(), 20_001);
    assert_eq!(s.loss_basis_points(), 1);
}

#[test]
fn shown_loss_rounds_once_to_a_tenth() {
    let mut s = Stats::new();
    s.record(&ProbeResult::failed());
    for _ in 0..2_000 {
        s.record(&ProbeResult::reply(1, 1));
    }
    // 1 of 2001 is 0.04998%: five basis points rounded up, 0.0 shown
    assert_eq!(s.loss_basis_points(), 5);
    assert_eq!(s.loss_tenths(), 0);
    s.record(&ProbeResult::failed());
    // 2 of 2002 is 0.0999%: shown as 0.1
    assert_eq!(s.loss_tenths(), 1);
    let five = [
        ProbeResult::reply(10_000, 64),
        ProbeResult::failed(),
        ProbeResult::reply(20_000, 64),
        ProbeResult::failed(),
        ProbeResult::failed(),
    ];
    let mut s = Stats::new();
    for r in &five {
        s.record(r);
    }
    assert_eq!(s.loss_tenths(), 600);
}
