//! What each screen shows: colours by latency and loss, the probe log newest
//! first, the chart frame and the figures of the summary panels.
use vstd::prelude::*;

use crate::stats::{
    avg_rtt, current_of, jitter_of, last_n, loss_ppm_of, max_rtt, min_rtt, records, result_views,
    samples, PingRecord, PingStats, Probe, HISTORY_CAPACITY, RECENT_CAPACITY,
};

verus! {

/// Colours the screens use.
#[derive(Clone, Copy, Debug, PartialEq, Eq, Structural)]
pub enum Tone {
    Green,
    Yellow,
    Red,
    Cyan,
    Magenta,
    DarkGray,
}

/// Below this round trip (50 ms) a reply counts as fast.
pub const FAST_RTT_US: u64 = 50_000;

/// Below this round trip (150 ms) a reply counts as acceptable.
pub const SLOW_RTT_US: u64 = 150_000;

/// The lowest top of the chart's latency axis (50 ms).
pub const CHART_FLOOR_US: u64 = 50_000;

/// Green below 50 ms, yellow below 150 ms, red from there on.
pub open spec fn latency_tone_of(rtt_us: u64) -> Tone {
    if rtt_us < FAST_RTT_US {
        Tone::Green
    } else if rtt_us < SLOW_RTT_US {
        Tone::Yellow
    } else {
        Tone::Red
    }
}

/// The colour of a round trip.
pub fn latency_tone(rtt_us: u64) -> (tone: Tone)
    ensures
        tone == latency_tone_of(rtt_us),
{
    if rtt_us < FAST_RTT_US {
        Tone::Green
    } else if rtt_us < SLOW_RTT_US {
        Tone::Yellow
    } else {
        Tone::Red
    }
}

/// The colour of the latency line: that of the latest round trip, dark grey
/// when the latest probe timed out.
pub open spec fn chart_tone_of(current: Option<u64>) -> Tone {
    match current {
        Some(c) => latency_tone_of(c),
        None => Tone::DarkGray,
    }
}

/// The colour of the current round trip in the summary: red when the latest
/// probe was lost, cyan otherwise.
pub open spec fn current_tone_of(current: Option<u64>) -> Tone {
    match current {
        Some(_) => Tone::Cyan,
        None => Tone::Red,
    }
}

/// The colour of the loss figure: red as soon as one probe went unanswered.
pub open spec fn loss_tone_of(lost: int) -> Tone {
    if lost > 0 {
        Tone::Red
    } else {
        Tone::Green
    }
}

/// Law: a longer round trip never gets a calmer colour.
pub proof fn lemma_latency_tone_monotone(a: u64, b: u64)
    requires
        a <= b,
    ensures
        latency_tone_of(a) == Tone::Red ==> latency_tone_of(b) == Tone::Red,
        latency_tone_of(b) == Tone::Green ==> latency_tone_of(a) == Tone::Green,
{
}

/// The content of one line of the probe log.
pub struct LogLineView {
    pub timestamp: Seq<char>,
    pub sequence: u16,
    pub rtt_us: Option<u64>,
    pub tone: Tone,
}

/// One line of the probe log: a reply with its round trip, coloured by
/// latency, or a timeout, in red.
pub struct LogLine {
    pub timestamp: String,
    pub sequence: u16,
    pub rtt_us: Option<u64>,
    pub tone: Tone,
}

impl View for LogLine {
    type V = LogLineView;

    open spec fn view(&self) -> LogLineView {
        LogLineView {
            timestamp: self.timestamp@,
            sequence: self.sequence,
            rtt_us: self.rtt_us,
            tone: self.tone,
        }
    }
}

/// The log line of a probe.
pub open spec fn line_for(r: PingRecord) -> LogLineView {
    LogLineView {
        timestamp: r.timestamp,
        sequence: r.sequence,
        rtt_us: r.rtt_us,
        tone: match r.rtt_us {
            Some(rtt) => latency_tone_of(rtt),
            None => Tone::Red,
        },
    }
}

/// The probes the log screen lists.
pub open spec fn logged(stats: &PingStats) -> Seq<PingRecord> {
    last_n(records(stats@), RECENT_CAPACITY as nat)
}

/// The probe log, newest probe first.
pub fn log_lines(stats: &PingStats) -> (lines: Vec<LogLine>)
    requires
        stats.wf(),
    ensures
        lines@.len() == logged(stats).len(),
        forall|i: int|
            0 <= i < lines@.len() ==> #[trigger] lines@[i]@ == line_for(
                logged(stats)[logged(stats).len() - 1 - i],
            ),
{
    let recent = stats.recent_pings();
    let n = recent.len();
    let mut lines: Vec<LogLine> = Vec::new();
    let mut k = n;
    while k > 0
        invariant
            n == recent@.len(),
            result_views(recent@) == logged(stats),
            k <= n,
            lines@.len() == n - k,
            forall|i: int|
                0 <= i < lines@.len() ==> #[trigger] lines@[i]@ == line_for(
                    logged(stats)[n - 1 - i],
                ),
        decreases k,
    {
        k = k - 1;
        let r = &recent[k];
        assert(result_views(recent@)[k as int] == r@);
        let tone = match r.rtt_us {
            Some(rtt) => latency_tone(rtt),
            None => Tone::Red,
        };
        lines.push(
            LogLine { timestamp: r.timestamp.clone(), sequence: r.sequence, rtt_us: r.rtt_us, tone },
        );
    }
    lines
}

/// The frame of the latency chart: the time span of the history, the top of
/// the latency axis, its two labels and the colour of the line.
pub struct ChartFrame {
    pub first_ms: u64,
    pub last_ms: u64,
    pub top_us: u64,
    pub mid_label_us: u64,
    pub top_label_us: u64,
    pub tone: Tone,
}

/// The top of the latency axis: a tenth above the largest round trip, at
/// least 50 ms.
pub open spec fn chart_top_of(max_us: int) -> int {
    let raised = if max_us + max_us / 10 > u64::MAX { u64::MAX as int } else { max_us + max_us / 10 };
    if raised > CHART_FLOOR_US {
        raised
    } else {
        CHART_FLOOR_US as int
    }
}

/// The frame of the latency chart.
pub fn chart_frame(stats: &PingStats) -> (frame: ChartFrame)
    requires
        stats.wf(),
    ensures
        ({
            let h = last_n(samples(stats@), HISTORY_CAPACITY as nat);
            let max = max_rtt(samples(stats@));
            &&& frame.first_ms == (if h.len() == 0 { 0 } else { h[0].0 })
            &&& frame.last_ms == (if h.len() == 0 { 0 } else { h.last().0 })
            &&& frame.top_us == chart_top_of(max)
            &&& frame.mid_label_us == max / 2
            &&& frame.top_label_us == max
            &&& frame.tone == chart_tone_of(current_of(stats@))
        }),
{
    let history = stats.history();
    let n = history.len();
    let first_ms = if n == 0 { 0 } else { history[0].0 };
    let last_ms = if n == 0 { 0 } else { history[n - 1].0 };
    let max = stats.max_us();
    let raised = max.saturating_add(max / 10);
    let top_us = if raised > CHART_FLOOR_US { raised } else { CHART_FLOOR_US };
    let tone = match stats.current() {
        Some(c) => latency_tone(c),
        None => Tone::DarkGray,
    };
    ChartFrame { first_ms, last_ms, top_us, mid_label_us: max / 2, top_label_us: max, tone }
}

/// Which figure a summary cell shows.
#[derive(Clone, Copy, Debug, PartialEq, Eq, Structural)]
pub enum StatKind {
    Current,
    Min,
    Max,
    Avg,
    Jitter,
    Sent,
    Received,
    Loss,
}

/// A figure as the screens print it.
#[derive(Clone, Copy, Debug, PartialEq, Eq, Structural)]
pub enum Reading {
    /// The latest probe timed out.
    Lost,
    /// A duration in microseconds.
    Micros(u64),
    /// A count of probes.
    Count(u64),
    /// A share in millionths.
    PartsPerMillion(u64),
}

/// One figure of a summary panel and its colour.
#[derive(Clone, Copy, Debug, PartialEq, Eq, Structural)]
pub struct StatCell {
    pub kind: StatKind,
    pub reading: Reading,
    pub tone: Tone,
}

/// The current round trip, or `Lost`.
pub open spec fn current_reading_of(current: Option<u64>) -> Reading {
    match current {
        Some(c) => Reading::Micros(c),
        None => Reading::Lost,
    }
}

/// The six tiles under the dashboard chart: current (red when lost), minimum
/// (0 before any answer), maximum, mean, jitter and loss (red once a probe was
/// lost).
pub open spec fn grid_cells_of(log: Seq<Probe>) -> Seq<StatCell> {
    let s = samples(log);
    seq![
        StatCell {
            kind: StatKind::Current,
            reading: current_reading_of(current_of(log)),
            tone: current_tone_of(current_of(log)),
        },
        StatCell {
            kind: StatKind::Min,
            reading: Reading::Micros((if s.len() == 0 { 0 } else { min_rtt(s) }) as u64),
            tone: Tone::Green,
        },
        StatCell { kind: StatKind::Max, reading: Reading::Micros(max_rtt(s) as u64), tone: Tone::Red },
        StatCell { kind: StatKind::Avg, reading: Reading::Micros(avg_rtt(s) as u64), tone: Tone::Yellow },
        StatCell {
            kind: StatKind::Jitter,
            reading: Reading::Micros(jitter_of(s) as u64),
            tone: Tone::Magenta,
        },
        StatCell {
            kind: StatKind::Loss,
            reading: Reading::PartsPerMillion(
                loss_ppm_of(log.len() as int, s.len() as int) as u64,
            ),
            tone: loss_tone_of(log.len() - s.len()),
        },
    ]
}

/// The six tiles under the dashboard chart.
pub fn grid_cells(stats: &PingStats) -> (cells: Vec<StatCell>)
    requires
        stats.wf(),
    ensures
        cells@ == grid_cells_of(stats@),
{
    let current = stats.current();
    let lost = stats.lost();
    let mut cells: Vec<StatCell> = Vec::new();
    cells.push(
        StatCell {
            kind: StatKind::Current,
            reading: match current {
                Some(c) => Reading::Micros(c),
                None => Reading::Lost,
            },
            tone: match current {
                Some(_) => Tone::Cyan,
                None => Tone::Red,
            },
        },
    );
    cells.push(
        StatCell { kind: StatKind::Min, reading: Reading::Micros(stats.min_or_zero_us()), tone: Tone::Green },
    );
    cells.push(StatCell { kind: StatKind::Max, reading: Reading::Micros(stats.max_us()), tone: Tone::Red });
    cells.push(StatCell { kind: StatKind::Avg, reading: Reading::Micros(stats.avg_us()), tone: Tone::Yellow });
    cells.push(
        StatCell { kind: StatKind::Jitter, reading: Reading::Micros(stats.jitter_us()), tone: Tone::Magenta },
    );
    cells.push(
        StatCell {
            kind: StatKind::Loss,
            reading: Reading::PartsPerMillion(stats.loss_ppm()),
            tone: if lost > 0 { Tone::Red } else { Tone::Green },
        },
    );
    proof {
        assert(cells@ =~= grid_cells_of(stats@));
    }
    cells
}

/// The one-line bar under the maximised chart: current, minimum (as stored,
/// `u64::MAX` before any answer), maximum, mean and loss, all in yellow.
pub open spec fn bar_cells_of(log: Seq<Probe>) -> Seq<StatCell> {
    let s = samples(log);
    seq![
        StatCell { kind: StatKind::Current, reading: current_reading_of(current_of(log)), tone: Tone::Yellow },
        StatCell { kind: StatKind::Min, reading: Reading::Micros(min_rtt(s) as u64), tone: Tone::Yellow },
        StatCell { kind: StatKind::Max, reading: Reading::Micros(max_rtt(s) as u64), tone: Tone::Yellow },
        StatCell { kind: StatKind::Avg, reading: Reading::Micros(avg_rtt(s) as u64), tone: Tone::Yellow },
        StatCell {
            kind: StatKind::Loss,
            reading: Reading::PartsPerMillion(
                loss_ppm_of(log.len() as int, s.len() as int) as u64,
            ),
            tone: Tone::Yellow,
        },
    ]
}

/// The figures of the bar under the maximised chart.
pub fn bar_cells(stats: &PingStats) -> (cells: Vec<StatCell>)
    requires
        stats.wf(),
    ensures
        cells@ == bar_cells_of(stats@),
{
    let mut cells: Vec<StatCell> = Vec::new();
    cells.push(
        StatCell {
            kind: StatKind::Current,
            reading: match stats.current() {
                Some(c) => Reading::Micros(c),
                None => Reading::Lost,
            },
            tone: Tone::Yellow,
        },
    );
    cells.push(StatCell { kind: StatKind::Min, reading: Reading::Micros(stats.min_us()), tone: Tone::Yellow });
    cells.push(StatCell { kind: StatKind::Max, reading: Reading::Micros(stats.max_us()), tone: Tone::Yellow });
    cells.push(StatCell { kind: StatKind::Avg, reading: Reading::Micros(stats.avg_us()), tone: Tone::Yellow });
    cells.push(
        StatCell {
            kind: StatKind::Loss,
            reading: Reading::PartsPerMillion(stats.loss_ppm()),
            tone: Tone::Yellow,
        },
    );
    proof {
        assert(cells@ =~= bar_cells_of(stats@));
    }
    cells
}

/// The lines of the detailed statistics screen: current round trip (0 when
/// lost) in cyan, minimum (as stored) in green, maximum in red, mean in
/// yellow, jitter in magenta, the two counters, and loss (red once a probe was
/// lost).
pub open spec fn detail_cells_of(log: Seq<Probe>) -> Seq<StatCell> {
    let s = samples(log);
    seq![
        StatCell {
            kind: StatKind::Current,
            reading: Reading::Micros(
                match current_of(log) {
                    Some(c) => c,
                    None => 0,
                },
            ),
            tone: Tone::Cyan,
        },
        StatCell { kind: StatKind::Min, reading: Reading::Micros(min_rtt(s) as u64), tone: Tone::Green },
        StatCell { kind: StatKind::Max, reading: Reading::Micros(max_rtt(s) as u64), tone: Tone::Red },
        StatCell { kind: StatKind::Avg, reading: Reading::Micros(avg_rtt(s) as u64), tone: Tone::Yellow },
        StatCell {
            kind: StatKind::Jitter,
            reading: Reading::Micros(jitter_of(s) as u64),
            tone: Tone::Magenta,
        },
        StatCell { kind: StatKind::Sent, reading: Reading::Count(log.len() as u64), tone: Tone::Cyan },
        StatCell { kind: StatKind::Received, reading: Reading::Count(s.len() as u64), tone: Tone::Cyan },
        StatCell {
            kind: StatKind::Loss,
            reading: Reading::PartsPerMillion(
                loss_ppm_of(log.len() as int, s.len() as int) as u64,
            ),
            tone: loss_tone_of(log.len() - s.len()),
        },
    ]
}

/// The lines of the detailed statistics screen.
pub fn detail_cells(stats: &PingStats) -> (cells: Vec<StatCell>)
    requires
        stats.wf(),
    ensures
        cells@ == detail_cells_of(stats@),
{
    let lost = stats.lost();
    let mut cells: Vec<StatCell> = Vec::new();
    cells.push(
        StatCell {
            kind: StatKind::Current,
            reading: Reading::Micros(
                match stats.current() {
                    Some(c) => c,
                    None => 0,
                },
            ),
            tone: Tone::Cyan,
        },
    );
    cells.push(StatCell { kind: StatKind::Min, reading: Reading::Micros(stats.min_us()), tone: Tone::Green });
    cells.push(StatCell { kind: StatKind::Max, reading: Reading::Micros(stats.max_us()), tone: Tone::Red });
    cells.push(StatCell { kind: StatKind::Avg, reading: Reading::Micros(stats.avg_us()), tone: Tone::Yellow });
    cells.push(
        StatCell { kind: StatKind::Jitter, reading: Reading::Micros(stats.jitter_us()), tone: Tone::Magenta },
    );
    cells.push(
        StatCell { kind: StatKind::Sent, reading: Reading::Count(stats.total_sent() as u64), tone: Tone::Cyan },
    );
    cells.push(
        StatCell {
            kind: StatKind::Received,
            reading: Reading::Count(stats.total_received() as u64),
            tone: Tone::Cyan,
        },
    );
    cells.push(
        StatCell {
            kind: StatKind::Loss,
            reading: Reading::PartsPerMillion(stats.loss_ppm()),
            tone: if lost > 0 { Tone::Red } else { Tone::Green },
        },
    );
    proof {
        assert(cells@ =~= detail_cells_of(stats@));
    }
    cells
}


/// `cell` shows figure `kind` with `reading`.
pub open spec fn shows(cell: StatCell, kind: StatKind, reading: Reading) -> bool {
    cell.kind == kind && cell.reading == reading
}

/// Law: every panel shows the figures the statistics report, and a figure
/// that several panels show reads the same in each. The mean in every panel is
/// the mean of all answers since the start (`avg_rtt`, what `avg_us`
/// reports), the maximum is `max_rtt`, the jitter `jitter_of`, the loss
/// `loss_ppm_of`; the counters are the probes sent and answered. Only the
/// minimum differs between panels: the tiles show 0 before the first answer,
/// the bar and the detailed screen the stored `u64::MAX`.
pub proof fn lemma_panels_show_the_figures(log: Seq<Probe>)
    ensures
        ({
            let s = samples(log);
            let grid = grid_cells_of(log);
            let bar = bar_cells_of(log);
            let detail = detail_cells_of(log);
            let avg = Reading::Micros(avg_rtt(s) as u64);
            let max = Reading::Micros(max_rtt(s) as u64);
            let loss = Reading::PartsPerMillion(loss_ppm_of(log.len() as int, s.len() as int) as u64);
            &&& grid.len() == 6 && bar.len() == 5 && detail.len() == 8
            &&& shows(grid[0], StatKind::Current, current_reading_of(current_of(log)))
            &&& shows(bar[0], StatKind::Current, current_reading_of(current_of(log)))
            &&& shows(detail[0], StatKind::Current, Reading::Micros(
                match current_of(log) {
                    Some(c) => c,
                    None => 0,
                },
            ))
            &&& shows(grid[1], StatKind::Min, Reading::Micros(
                (if s.len() == 0 { 0 } else { min_rtt(s) }) as u64,
            ))
            &&& shows(bar[1], StatKind::Min, Reading::Micros(min_rtt(s) as u64))
            &&& shows(detail[1], StatKind::Min, Reading::Micros(min_rtt(s) as u64))
            &&& shows(grid[2], StatKind::Max, max) && shows(bar[2], StatKind::Max, max)
                && shows(detail[2], StatKind::Max, max)
            &&& shows(grid[3], StatKind::Avg, avg) && shows(bar[3], StatKind::Avg, avg)
                && shows(detail[3], StatKind::Avg, avg)
            &&& shows(grid[4], StatKind::Jitter, Reading::Micros(jitter_of(s) as u64))
            &&& shows(detail[4], StatKind::Jitter, Reading::Micros(jitter_of(s) as u64))
            &&& shows(detail[5], StatKind::Sent, Reading::Count(log.len() as u64))
            &&& shows(detail[6], StatKind::Received, Reading::Count(s.len() as u64))
            &&& shows(grid[5], StatKind::Loss, loss) && shows(bar[4], StatKind::Loss, loss)
                && shows(detail[7], StatKind::Loss, loss)
        }),
{
}

} // verus!
