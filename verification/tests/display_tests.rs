use sophia::display::{
    bar_cells, chart_frame, detail_cells, grid_cells, latency_tone, log_lines, Reading, StatCell,
    StatKind, Tone,
};
use sophia::stats::PingStats;

fn fed(rtts: &[Option<u64>]) -> PingStats {
    let mut stats = PingStats::new();
    for (i, rtt) in rtts.iter().enumerate() {
        stats.update_at(*rtt, (i as u64 + 1) * 1000, i as u16, format!("12:00:{:02}", i));
    }
    stats
}

#[test]
fn latency_colours_by_threshold() {
    assert_eq!(latency_tone(0), Tone::Green);
    assert_eq!(latency_tone(49_999), Tone::Green);
    assert_eq!(latency_tone(50_000), Tone::Yellow);
    assert_eq!(latency_tone(149_999), Tone::Yellow);
    assert_eq!(latency_tone(150_000), Tone::Red);
    assert_eq!(latency_tone(u64::MAX), Tone::Red);
}

#[test]
fn log_lists_newest_first() {
    let stats = fed(&[Some(20_000), None, Some(200_000)]);
    let lines = log_lines(&stats);
    assert_eq!(lines.len(), 3);
    assert_eq!(lines[0].sequence, 2);
    assert_eq!(lines[0].rtt_us, Some(200_000));
    assert_eq!(lines[0].tone, Tone::Red);
    assert_eq!(lines[0].timestamp, "12:00:02");
    assert_eq!(lines[1].sequence, 1);
    assert_eq!(lines[1].rtt_us, None);
    assert_eq!(lines[1].tone, Tone::Red);
    assert_eq!(lines[2].sequence, 0);
    assert_eq!(lines[2].tone, Tone::Green);
    assert_eq!(lines[2].timestamp, "12:00:00");
}

#[test]
fn empty_log_has_no_lines() {
    assert!(log_lines(&PingStats::new()).is_empty());
}

#[test]
fn chart_frame_of_empty_stats() {
    let frame = chart_frame(&PingStats::new());
    assert_eq!(frame.first_ms, 0);
    assert_eq!(frame.last_ms, 0);
    assert_eq!(frame.top_us, 50_000);
    assert_eq!(frame.mid_label_us, 0);
    assert_eq!(frame.top_label_us, 0);
    assert_eq!(frame.tone, Tone::DarkGray);
}

#[test]
fn chart_frame_raises_the_top_a_tenth_above_the_maximum() {
    let stats = fed(&[Some(100_000), Some(60_000)]);
    let frame = chart_frame(&stats);
    assert_eq!(frame.first_ms, 1000);
    assert_eq!(frame.last_ms, 2000);
    assert_eq!(frame.top_us, 110_000);
    assert_eq!(frame.mid_label_us, 50_000);
    assert_eq!(frame.top_label_us, 100_000);
    assert_eq!(frame.tone, Tone::Yellow);
}

#[test]
fn chart_frame_keeps_the_floor_for_fast_hosts() {
    let frame = chart_frame(&fed(&[Some(9_000)]));
    assert_eq!(frame.top_us, 50_000);
    assert_eq!(frame.tone, Tone::Green);
}

#[test]
fn chart_frame_saturates_on_huge_round_trips() {
    let frame = chart_frame(&fed(&[Some(u64::MAX)]));
    assert_eq!(frame.top_us, u64::MAX);
    assert_eq!(frame.tone, Tone::Red);
}

#[test]
fn grid_before_any_answer() {
    let cells = grid_cells(&fed(&[None]));
    assert_eq!(
        cells,
        vec![
            StatCell { kind: StatKind::Current, reading: Reading::Lost, tone: Tone::Red },
            StatCell { kind: StatKind::Min, reading: Reading::Micros(0), tone: Tone::Green },
            StatCell { kind: StatKind::Max, reading: Reading::Micros(0), tone: Tone::Red },
            StatCell { kind: StatKind::Avg, reading: Reading::Micros(0), tone: Tone::Yellow },
            StatCell { kind: StatKind::Jitter, reading: Reading::Micros(0), tone: Tone::Magenta },
            StatCell { kind: StatKind::Loss, reading: Reading::PartsPerMillion(1_000_000), tone: Tone::Red },
        ]
    );
}

#[test]
fn grid_without_loss_is_green() {
    let cells = grid_cells(&fed(&[Some(10_000), Some(14_000)]));
    assert_eq!(cells[0], StatCell { kind: StatKind::Current, reading: Reading::Micros(14_000), tone: Tone::Cyan });
    assert_eq!(cells[1].reading, Reading::Micros(10_000));
    assert_eq!(cells[3].reading, Reading::Micros(12_000));
    assert_eq!(cells[4].reading, Reading::Micros(250));
    assert_eq!(cells[5], StatCell { kind: StatKind::Loss, reading: Reading::PartsPerMillion(0), tone: Tone::Green });
}

#[test]
fn bar_shows_the_stored_minimum() {
    let cells = bar_cells(&PingStats::new());
    assert_eq!(cells.len(), 5);
    assert_eq!(cells[0].reading, Reading::Lost);
    assert_eq!(cells[1], StatCell { kind: StatKind::Min, reading: Reading::Micros(u64::MAX), tone: Tone::Yellow });
    assert_eq!(cells[4].kind, StatKind::Loss);
    assert!(cells.iter().all(|c| c.tone == Tone::Yellow));
}

#[test]
fn details_count_probes() {
    let cells = detail_cells(&fed(&[Some(30_000), None]));
    assert_eq!(cells.len(), 8);
    assert_eq!(cells[0].reading, Reading::Micros(0));
    assert_eq!(cells[1].reading, Reading::Micros(30_000));
    assert_eq!(cells[5], StatCell { kind: StatKind::Sent, reading: Reading::Count(2), tone: Tone::Cyan });
    assert_eq!(cells[6], StatCell { kind: StatKind::Received, reading: Reading::Count(1), tone: Tone::Cyan });
    assert_eq!(cells[7], StatCell { kind: StatKind::Loss, reading: Reading::PartsPerMillion(500_000), tone: Tone::Red });
}
