use sophia::stats::{PingStats, HISTORY_CAPACITY, RECENT_CAPACITY};

fn fed(rtts: &[Option<u64>]) -> PingStats {
    let mut stats = PingStats::new();
    for (i, rtt) in rtts.iter().enumerate() {
        stats.update_at(*rtt, (i as u64) * 1000, i as u16, format!("00:00:{:02}", i % 60));
    }
    stats
}

#[test]
fn fresh_stats_are_empty() {
    let stats = PingStats::new();
    assert_eq!(stats.current(), None);
    assert_eq!(stats.total_sent(), 0);
    assert_eq!(stats.total_received(), 0);
    assert_eq!(stats.lost(), 0);
    assert_eq!(stats.min_us(), u64::MAX);
    assert_eq!(stats.min_or_zero_us(), 0);
    assert_eq!(stats.max_us(), 0);
    assert_eq!(stats.avg_us(), 0);
    assert_eq!(stats.jitter_us(), 0);
    assert_eq!(stats.loss_ppm(), 0);
    assert!(stats.history().is_empty());
    assert!(stats.recent_pings().is_empty());
}

#[test]
fn figures_after_a_mixed_run() {
    let stats = fed(&[Some(10_000), None, Some(30_000), Some(20_000)]);
    assert_eq!(stats.total_sent(), 4);
    assert_eq!(stats.total_received(), 3);
    assert_eq!(stats.lost(), 1);
    assert_eq!(stats.loss_ppm(), 250_000);
    assert_eq!(stats.current(), Some(20_000));
    assert_eq!(stats.min_us(), 10_000);
    assert_eq!(stats.max_us(), 30_000);
    assert_eq!(stats.avg_us(), 20_000);
    // in sixteenths: 0 - 0 + 20000 = 20000, then 20000 - 1250 + 10000 = 28750,
    // which rounds to 1797 us (1796.875)
    assert_eq!(stats.jitter_us(), 1797);
    assert_eq!(stats.history(), &vec![(0, 10_000), (2000, 30_000), (3000, 20_000)]);
}

#[test]
fn mean_rounds_to_nearest() {
    assert_eq!(fed(&[Some(1), Some(2)]).avg_us(), 2);
    assert_eq!(fed(&[Some(1), Some(1), Some(2)]).avg_us(), 1);
    assert_eq!(fed(&[Some(1), Some(2), Some(2)]).avg_us(), 2);
}

#[test]
fn jitter_moves_down_towards_smaller_differences() {
    // differences 32000 then 0: 32000 sixteenths (2000 us), then 32000 - 2000 = 30000 (1875 us)
    let stats = fed(&[Some(0), Some(32_000), Some(32_000)]);
    assert_eq!(stats.jitter_us(), 1875);
}

#[test]
fn jitter_needs_two_answers() {
    let stats = fed(&[Some(5_000), None, None]);
    assert_eq!(stats.jitter_us(), 0);
}

#[test]
fn jitter_within_spread_on_values() {
    let stats = fed(&[Some(10), Some(1_000_000), Some(10), Some(1_000_000), Some(500)]);
    assert!(stats.jitter_us() <= stats.max_us() - stats.min_us());
}

#[test]
fn timeout_clears_current_and_keeps_latency_figures() {
    let before = fed(&[Some(12_000), Some(18_000)]);
    let after = fed(&[Some(12_000), Some(18_000), None]);
    assert_eq!(after.current(), None);
    assert_eq!(after.min_us(), before.min_us());
    assert_eq!(after.max_us(), before.max_us());
    assert_eq!(after.avg_us(), before.avg_us());
    assert_eq!(after.jitter_us(), before.jitter_us());
    assert_eq!(after.history(), before.history());
    assert_eq!(after.total_sent(), before.total_sent() + 1);
    assert_eq!(after.total_received(), before.total_received());
}

#[test]
fn mean_lies_between_extremes_on_values() {
    let stats = fed(&[Some(7), Some(100), Some(3), Some(55)]);
    assert_eq!(stats.min_us(), 3);
    assert_eq!(stats.max_us(), 100);
    assert_eq!(stats.avg_us(), 41);
    assert!(stats.min_us() <= stats.avg_us() && stats.avg_us() <= stats.max_us());
}

#[test]
fn all_lost_is_full_loss() {
    let stats = fed(&[None, None, None]);
    assert_eq!(stats.loss_ppm(), 1_000_000);
    assert_eq!(stats.min_or_zero_us(), 0);
    assert_eq!(stats.min_us(), u64::MAX);
}

#[test]
fn loss_rounds_up() {
    let stats = fed(&[None, Some(1), Some(1)]);
    assert_eq!(stats.loss_ppm(), 333_334);
}

#[test]
fn one_lost_probe_among_millions_still_counts() {
    let mut stats = PingStats::new();
    stats.update_at(None, 0, 0, String::new());
    for i in 1..=2_000_000u64 {
        stats.update_at(Some(1), i, i as u16, String::new());
    }
    assert_eq!(stats.lost(), 1);
    assert_eq!(stats.loss_ppm(), 1);
}

#[test]
fn one_answer_among_millions_is_not_full_loss() {
    let mut stats = PingStats::new();
    stats.update_at(Some(1), 0, 0, String::new());
    for i in 1..=2_000_000u64 {
        stats.update_at(None, i, i as u16, String::new());
    }
    assert_eq!(stats.total_received(), 1);
    assert_eq!(stats.loss_ppm(), 999_999);
}

#[test]
fn recent_log_keeps_the_newest_hundred() {
    let rtts: Vec<Option<u64>> = (0..105u64).map(|i| if i % 2 == 0 { Some(i) } else { None }).collect();
    let stats = fed(&rtts);
    let recent = stats.recent_pings();
    assert_eq!(recent.len(), RECENT_CAPACITY);
    assert_eq!(recent[0].sequence, 5);
    assert_eq!(recent[0].rtt_us, None);
    assert_eq!(recent[99].sequence, 104);
    assert_eq!(recent[99].rtt_us, Some(104));
    assert_eq!(recent[99].timestamp, "00:00:44");
    assert_eq!(stats.total_sent(), 105);
}

#[test]
fn history_keeps_the_newest_thousand_answers() {
    let rtts: Vec<Option<u64>> = (0..1003u64).map(|i| Some(i + 1)).collect();
    let stats = fed(&rtts);
    let history = stats.history();
    assert_eq!(history.len(), HISTORY_CAPACITY);
    assert_eq!(history[0], (3000, 4));
    assert_eq!(history[999], (1_002_000, 1003));
    assert_eq!(stats.min_us(), 1);
}

#[test]
fn update_labels_probes_with_the_time_of_day() {
    let mut stats = PingStats::new();
    stats.update(Some(4_200), 1500, 9);
    let entry = &stats.recent_pings()[0];
    assert_eq!(entry.sequence, 9);
    assert_eq!(entry.rtt_us, Some(4_200));
    let label: Vec<char> = entry.timestamp.chars().collect();
    assert_eq!(label.len(), 8);
    assert_eq!(label[2], ':');
    assert_eq!(label[5], ':');
    assert!(label.iter().enumerate().all(|(i, c)| i == 2 || i == 5 || c.is_ascii_digit()));
    assert_eq!(stats.history(), &vec![(1500, 4_200)]);
}

#[test]
fn minimum_never_rises_and_maximum_never_falls() {
    let rtts = [Some(40), None, Some(90), Some(10), None, Some(50)];
    let mut stats = PingStats::new();
    let (mut last_min, mut last_max) = (stats.min_us(), stats.max_us());
    for (i, rtt) in rtts.iter().enumerate() {
        stats.update_at(*rtt, i as u64, i as u16, String::new());
        assert!(stats.min_us() <= last_min);
        assert!(stats.max_us() >= last_max);
        last_min = stats.min_us();
        last_max = stats.max_us();
    }
    assert_eq!((last_min, last_max), (10, 90));
}

#[test]
fn extremes_are_measured_values() {
    let values = [700u64, 20, 3000, 450];
    let stats = fed(&values.iter().map(|v| Some(*v)).collect::<Vec<_>>());
    assert!(values.contains(&stats.min_us()));
    assert!(values.contains(&stats.max_us()));
    assert!(values.iter().all(|v| stats.min_us() <= *v && *v <= stats.max_us()));
}

#[test]
fn jitter_follows_small_differences() {
    // differences of 15 us: 15, 30, 44 sixteenths; 44 rounds to 3 us
    let stats = fed(&[Some(0), Some(15), Some(30), Some(45)]);
    assert_eq!(stats.jitter_us(), 3);
}

#[test]
fn jitter_settles_on_a_steady_difference() {
    let rtts: Vec<Option<u64>> = (0..200u64).map(|i| Some(if i % 2 == 0 { 1_000 } else { 1_015 })).collect();
    let stats = fed(&rtts);
    assert_eq!(stats.jitter_us(), 15);
}
