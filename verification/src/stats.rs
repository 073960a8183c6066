//! Running latency statistics over a stream of echo probes.
//!
//! Round-trip times are whole microseconds and probe times are milliseconds
//! since the monitor started. Every figure a `PingStats` reports is a function
//! of the probes fed to it so far, which is its view.
use vstd::prelude::*;

use crate::clock::{is_clock_label, is_clock_reading, lemma_call_is_reading, local_clock_label};

verus! {

/// How many recent probes the log keeps.
pub const RECENT_CAPACITY: usize = 100;

/// How many answered probes the latency history keeps.
pub const HISTORY_CAPACITY: usize = 1000;

/// One probe as fed to the statistics: its sequence number, its round-trip
/// time (`None` when no reply came back), when it finished and the wall-clock
/// label it was logged with.
pub struct Probe {
    pub sequence: u16,
    pub rtt_us: Option<u64>,
    pub time_ms: u64,
    pub timestamp: Seq<char>,
}

/// The mathematical content of a log entry.
pub struct PingRecord {
    pub sequence: u16,
    pub rtt_us: Option<u64>,
    pub timestamp: Seq<char>,
}

/// A log entry for one probe.
pub struct PingResult {
    pub sequence: u16,
    pub rtt_us: Option<u64>,
    pub timestamp: String,
}

impl View for PingResult {
    type V = PingRecord;

    open spec fn view(&self) -> PingRecord {
        PingRecord { sequence: self.sequence, rtt_us: self.rtt_us, timestamp: self.timestamp@ }
    }
}

/// The log entry a probe leaves.
pub open spec fn record_of(p: Probe) -> PingRecord {
    PingRecord { sequence: p.sequence, rtt_us: p.rtt_us, timestamp: p.timestamp }
}

/// The log entries of a sequence of probes.
pub open spec fn records(log: Seq<Probe>) -> Seq<PingRecord> {
    log.map_values(|p: Probe| record_of(p))
}

/// The views of a sequence of log entries.
pub open spec fn result_views(v: Seq<PingResult>) -> Seq<PingRecord> {
    v.map_values(|r: PingResult| r@)
}

/// The last `n` elements of `s` (all of them when there are fewer).
pub open spec fn last_n<A>(s: Seq<A>, n: nat) -> Seq<A> {
    if s.len() > n {
        s.subrange(s.len() - n, s.len() as int)
    } else {
        s
    }
}

/// The answered probes of a log, in order, as (time in ms, round trip in us).
pub open spec fn samples(log: Seq<Probe>) -> Seq<(u64, u64)>
    decreases log.len(),
{
    if log.len() == 0 {
        Seq::empty()
    } else {
        let rest = samples(log.drop_last());
        match log.last().rtt_us {
            Some(r) => rest.push((log.last().time_ms, r)),
            None => rest,
        }
    }
}

/// The round trip of the latest probe, `None` when it timed out or when there
/// was none yet.
pub open spec fn current_of(log: Seq<Probe>) -> Option<u64> {
    if log.len() == 0 {
        None
    } else {
        log.last().rtt_us
    }
}

/// The smallest round trip, or `u64::MAX` when nothing was answered.
pub open spec fn min_rtt(s: Seq<(u64, u64)>) -> int
    decreases s.len(),
{
    if s.len() == 0 {
        u64::MAX as int
    } else {
        let m = min_rtt(s.drop_last());
        if (s.last().1 as int) < m {
            s.last().1 as int
        } else {
            m
        }
    }
}

/// The largest round trip, or 0 when nothing was answered.
pub open spec fn max_rtt(s: Seq<(u64, u64)>) -> int
    decreases s.len(),
{
    if s.len() == 0 {
        0
    } else {
        let m = max_rtt(s.drop_last());
        if (s.last().1 as int) > m {
            s.last().1 as int
        } else {
            m
        }
    }
}

/// The sum of all round trips.
pub open spec fn sum_rtt(s: Seq<(u64, u64)>) -> int
    decreases s.len(),
{
    if s.len() == 0 {
        0
    } else {
        sum_rtt(s.drop_last()) + s.last().1
    }
}

/// The mean round trip rounded to the nearest microsecond (halves up), 0 when
/// nothing was answered.
pub open spec fn avg_rtt(s: Seq<(u64, u64)>) -> int {
    if s.len() == 0 {
        0
    } else {
        (sum_rtt(s) + s.len() / 2) / (s.len() as int)
    }
}

/// The difference between two round trips.
pub open spec fn spread(a: u64, b: u64) -> int {
    if a >= b {
        a - b
    } else {
        b - a
    }
}

/// One step of the jitter estimate, kept in sixteenths of a microsecond: it
/// loses a sixteenth of itself (rounded down) and gains the newest difference
/// `d`, which moves the estimate a sixteenth of the way towards `d`.
pub open spec fn jitter_step(j16: int, d: int) -> int {
    j16 - j16 / 16 + d
}

/// The jitter estimate in sixteenths of a microsecond: it starts at 0 and takes
/// one `jitter_step` for each pair of consecutive answered probes.
pub open spec fn scaled_jitter_of(s: Seq<(u64, u64)>) -> int
    decreases s.len(),
{
    if s.len() < 2 {
        0
    } else {
        jitter_step(
            scaled_jitter_of(s.drop_last()),
            spread(s.last().1, s[s.len() - 2].1),
        )
    }
}

/// The jitter estimate in microseconds, rounded to the nearest.
pub open spec fn jitter_of(s: Seq<(u64, u64)>) -> int {
    (scaled_jitter_of(s) + 8) / 16
}

/// The round trip of the latest answered probe.
pub open spec fn last_rtt_of(s: Seq<(u64, u64)>) -> Option<u64> {
    if s.len() == 0 {
        None
    } else {
        Some(s.last().1)
    }
}

/// Lost probes in millionths of those sent (ten-thousandths of a percent):
/// 0 when nothing was lost (and before the first probe), a million when
/// nothing was answered, and otherwise the exact share rounded up but kept
/// below a million, so that the figure is 0 or a million only when the share
/// is.
pub open spec fn loss_ppm_of(sent: int, received: int) -> int {
    let lost = sent - received;
    if lost == 0 {
        0
    } else if received == 0 {
        1_000_000
    } else {
        let up = (lost * 1_000_000 + sent - 1) / sent;
        if up > 999_999 {
            999_999
        } else {
            up
        }
    }
}

/// Counters and windows over every probe seen so far.
pub struct PingStats {
    current: Option<u64>,
    min: u64,
    max: u64,
    sum: u128,
    total_sent: u32,
    total_received: u32,
    jitter16: u128,
    last_rtt: Option<u64>,
    history: Vec<(u64, u64)>,
    recent_pings: Vec<PingResult>,
    log: Ghost<Seq<Probe>>,
}

impl View for PingStats {
    type V = Seq<Probe>;

    closed spec fn view(&self) -> Seq<Probe> {
        self.log@
    }
}

impl PingStats {
    /// Every field agrees with the probes seen so far.
    pub closed spec fn wf(&self) -> bool {
        let log = self.log@;
        let s = samples(log);
        &&& self.total_sent as int == log.len()
        &&& self.total_received as int == s.len()
        &&& self.current == current_of(log)
        &&& self.min as int == min_rtt(s)
        &&& self.max as int == max_rtt(s)
        &&& self.sum as int == sum_rtt(s)
        &&& self.jitter16 as int == scaled_jitter_of(s)
        &&& self.last_rtt == last_rtt_of(s)
        &&& self.history@ == last_n(s, HISTORY_CAPACITY as nat)
        &&& result_views(self.recent_pings@) == last_n(records(log), RECENT_CAPACITY as nat)
    }

    /// Statistics that have seen no probe.
    pub fn new() -> (stats: PingStats)
        ensures
            stats.wf(),
            stats@ == Seq::<Probe>::empty(),
    {
        let stats = PingStats {
            current: None,
            min: u64::MAX,
            max: 0,
            sum: 0,
            total_sent: 0,
            total_received: 0,
            jitter16: 0,
            last_rtt: None,
            history: Vec::with_capacity(HISTORY_CAPACITY),
            recent_pings: Vec::with_capacity(RECENT_CAPACITY),
            log: Ghost(Seq::empty()),
        };
        proof {
            assert(result_views(stats.recent_pings@) =~= Seq::<PingRecord>::empty());
            assert(records(Seq::<Probe>::empty()) =~= Seq::<PingRecord>::empty());
        }
        stats
    }
}


/// A probe extends the answered samples exactly when it was answered.
pub proof fn lemma_samples_push(log: Seq<Probe>, p: Probe)
    ensures
        samples(log.push(p)) == (match p.rtt_us {
            Some(r) => samples(log).push((p.time_ms, r)),
            None => samples(log),
        }),
{
    assert(log.push(p).drop_last() =~= log);
}

/// There are never more answered probes than probes.
pub proof fn lemma_samples_len(log: Seq<Probe>)
    ensures
        samples(log).len() <= log.len(),
    decreases log.len(),
{
    if log.len() > 0 {
        lemma_samples_len(log.drop_last());
    }
}

/// Law: how each figure moves when one more answered probe arrives: the
/// minimum drops to it if it is smaller, the maximum rises to it if it is
/// larger, the sum grows by it, the jitter takes one step towards its
/// difference from the previous answer, and it becomes the last answer.
pub proof fn lemma_aggregates_push(s: Seq<(u64, u64)>, x: (u64, u64))
    ensures
        min_rtt(s.push(x)) == (if (x.1 as int) < min_rtt(s) { x.1 as int } else { min_rtt(s) }),
        max_rtt(s.push(x)) == (if (x.1 as int) > max_rtt(s) { x.1 as int } else { max_rtt(s) }),
        sum_rtt(s.push(x)) == sum_rtt(s) + x.1,
        scaled_jitter_of(s.push(x)) == (if s.len() == 0 {
            0
        } else {
            jitter_step(scaled_jitter_of(s), spread(x.1, s.last().1))
        }),
        last_rtt_of(s.push(x)) == Some(x.1),
{
    assert(s.push(x).drop_last() =~= s);
}

/// The sum of `n` round trips is at most `n` times the largest `u64`.
proof fn lemma_sum_bound(s: Seq<(u64, u64)>)
    ensures
        0 <= sum_rtt(s) <= s.len() * (u64::MAX as int),
    decreases s.len(),
{
    if s.len() > 0 {
        lemma_sum_bound(s.drop_last());
    }
}

/// Sliding a window of `n` over a sequence that grows by one element.
proof fn lemma_last_n_push<A>(s: Seq<A>, x: A, n: nat)
    requires
        n > 0,
    ensures
        last_n(s, n).len() <= n,
        last_n(s.push(x), n) == (if last_n(s, n).len() + 1 > n {
            last_n(s, n).push(x).remove(0)
        } else {
            last_n(s, n).push(x)
        }),
{
    let w = last_n(s, n).push(x);
    if last_n(s, n).len() + 1 > n {
        assert(last_n(s.push(x), n) =~= w.remove(0));
    } else {
        assert(last_n(s.push(x), n) =~= w);
    }
}

impl PingStats {
    /// Takes one finished probe into account: its round trip (`None` when it
    /// timed out), the time it finished, its sequence number and the clock
    /// label to log it with.
    pub fn update_at(&mut self, rtt_us: Option<u64>, time_ms: u64, sequence: u16, timestamp: String)
        requires
            old(self).wf(),
            old(self)@.len() < u32::MAX,
        ensures
            final(self).wf(),
            final(self)@ == old(self)@.push(
                Probe { sequence, rtt_us, time_ms, timestamp: timestamp@ },
            ),
    {
        let ghost old_log = self.log@;
        let ghost probe = Probe { sequence, rtt_us, time_ms, timestamp: timestamp@ };
        let ghost new_log = old_log.push(probe);
        let ghost old_s = samples(old_log);
        let ghost old_recent = self.recent_pings@;
        let ghost old_history = self.history@;
        proof {
            lemma_samples_push(old_log, probe);
            lemma_samples_len(old_log);
            lemma_sum_bound(old_s);
            lemma_last_n_push(records(old_log), record_of(probe), RECENT_CAPACITY as nat);
            assert(records(new_log) =~= records(old_log).push(record_of(probe)));
        }

        self.total_sent = self.total_sent + 1;
        let entry = PingResult { sequence, rtt_us, timestamp };
        self.recent_pings.push(entry);
        proof {
            assert(result_views(self.recent_pings@) =~= result_views(old_recent).push(entry@));
        }
        if self.recent_pings.len() > RECENT_CAPACITY {
            let ghost before = self.recent_pings@;
            self.recent_pings.remove(0);
            proof {
                assert(result_views(self.recent_pings@) =~= result_views(before).remove(0));
            }
        }

        match rtt_us {
            Some(rtt) => {
                proof {
                    lemma_aggregates_push(old_s, (time_ms, rtt));
                    lemma_last_n_push(old_s, (time_ms, rtt), HISTORY_CAPACITY as nat);
                }
                self.current = Some(rtt);
                self.total_received = self.total_received + 1;
                if rtt < self.min {
                    self.min = rtt;
                }
                if rtt > self.max {
                    self.max = rtt;
                }
                self.sum = self.sum + rtt as u128;
                if let Some(last) = self.last_rtt {
                    proof {
                        lemma_scaled_jitter_bound(old_s);
                        lemma_max_bound(old_s);
                    }
                    let diff = if rtt >= last { rtt - last } else { last - rtt };
                    self.jitter16 = self.jitter16 - self.jitter16 / 16 + diff as u128;
                }
                self.last_rtt = Some(rtt);
                self.history.push((time_ms, rtt));
            },
            None => {
                self.current = None;
            },
        }

        if self.history.len() > HISTORY_CAPACITY {
            self.history.remove(0);
        }
        self.log = Ghost(new_log);
    }
}


/// The total never falls below the number of answers times the smallest
/// round trip, nor rises above it times the largest.
proof fn lemma_sum_between(s: Seq<(u64, u64)>)
    ensures
        s.len() * min_rtt(s) <= sum_rtt(s) <= s.len() * max_rtt(s),
        0 <= max_rtt(s),
        min_rtt(s) <= u64::MAX,
    decreases s.len(),
{
    if s.len() > 0 {
        let r = s.drop_last();
        lemma_sum_between(r);
        let n = r.len() as int;
        let m = min_rtt(r);
        let mm = max_rtt(r);
        let x = s.last().1 as int;
        let m2 = min_rtt(s);
        let mm2 = max_rtt(s);
        assert(m2 <= m && m2 <= x);
        assert(mm2 >= mm && mm2 >= x);
        assert(n * m2 <= n * m) by (nonlinear_arith)
            requires
                n >= 0,
                m2 <= m,
        ;
        assert(n * mm <= n * mm2) by (nonlinear_arith)
            requires
                n >= 0,
                mm <= mm2,
        ;
        assert((n + 1) * m2 == n * m2 + m2) by (nonlinear_arith);
        assert((n + 1) * mm2 == n * mm2 + mm2) by (nonlinear_arith);
    }
}

/// Law: the smallest and largest round trips bound every answered probe, and
/// both are round trips that were actually measured.
pub proof fn lemma_extremes(s: Seq<(u64, u64)>)
    ensures
        forall|i: int| 0 <= i < s.len() ==> min_rtt(s) <= #[trigger] s[i].1 <= max_rtt(s),
        s.len() > 0 ==> exists|i: int| 0 <= i < s.len() && #[trigger] s[i].1 == min_rtt(s),
        s.len() > 0 ==> exists|i: int| 0 <= i < s.len() && #[trigger] s[i].1 == max_rtt(s),
    decreases s.len(),
{
    if s.len() > 0 {
        let r = s.drop_last();
        lemma_extremes(r);
        assert forall|i: int| 0 <= i < s.len() implies min_rtt(s) <= #[trigger] s[i].1 <= max_rtt(s) by {
            if i < r.len() {
                assert(s[i] == r[i]);
            }
        }
        let k = s.len() - 1;
        if min_rtt(s) == s.last().1 {
            assert(s[k].1 == min_rtt(s));
        } else {
            let i = choose|i: int| 0 <= i < r.len() && #[trigger] r[i].1 == min_rtt(r);
            assert(s[i] == r[i]);
        }
        if max_rtt(s) == s.last().1 {
            assert(s[k].1 == max_rtt(s));
        } else {
            let i = choose|i: int| 0 <= i < r.len() && #[trigger] r[i].1 == max_rtt(r);
            assert(s[i] == r[i]);
        }
    }
}

/// Law: once a probe was answered, the mean round trip lies between the
/// smallest and the largest.
pub proof fn lemma_mean_between(s: Seq<(u64, u64)>)
    requires
        s.len() > 0,
    ensures
        min_rtt(s) <= avg_rtt(s) <= max_rtt(s),
        max_rtt(s) <= u64::MAX,
{
    lemma_sum_between(s);
    lemma_max_bound(s);
    let n = s.len() as int;
    let total = sum_rtt(s);
    let lo = min_rtt(s);
    let hi = max_rtt(s);
    let half = n / 2;
    assert(lo <= (total + half) / n <= hi) by (nonlinear_arith)
        requires
            n > 0,
            0 <= half < n,
            n * lo <= total,
            total <= n * hi,
    ;
}

/// The largest round trip fits in a `u64`.
proof fn lemma_max_bound(s: Seq<(u64, u64)>)
    ensures
        0 <= max_rtt(s) <= u64::MAX,
    decreases s.len(),
{
    if s.len() > 0 {
        lemma_max_bound(s.drop_last());
    }
}

/// The scaled jitter estimate stays within sixteen times the spread between
/// the smallest and the largest round trip.
proof fn lemma_scaled_jitter_bound(s: Seq<(u64, u64)>)
    ensures
        0 <= scaled_jitter_of(s),
        s.len() > 0 ==> scaled_jitter_of(s) <= 16 * (max_rtt(s) - min_rtt(s)),
        s.len() < 2 ==> scaled_jitter_of(s) == 0,
    decreases s.len(),
{
    if s.len() >= 2 {
        let r = s.drop_last();
        lemma_scaled_jitter_bound(r);
        lemma_extremes(s);
        lemma_extremes(r);
        let k = s.len() - 1;
        assert(s[k - 1] == r.last());
        assert(s[k] == s.last());
        assert(r.len() > 0);
        assert(min_rtt(s) <= min_rtt(r));
        assert(max_rtt(s) >= max_rtt(r));
        let j = scaled_jitter_of(r);
        let m = max_rtt(r) - min_rtt(r);
        let q = j / 16;
        assert(j == 16 * q + j % 16 && 0 <= j % 16 < 16);
        assert(j - q <= 15 * m);
    }
}

/// Law: the jitter estimate never exceeds the spread between the smallest and
/// the largest round trip, and it is 0 until two probes have been answered.
pub proof fn lemma_jitter_within_spread(s: Seq<(u64, u64)>)
    ensures
        0 <= jitter_of(s),
        s.len() > 0 ==> jitter_of(s) <= max_rtt(s) - min_rtt(s),
        s.len() < 2 ==> jitter_of(s) == 0,
{
    lemma_scaled_jitter_bound(s);
}

/// Law: the loss figure lies between 0 and 100 percent; it is 0 exactly when
/// every probe was answered, 100 percent exactly when probes were sent and none
/// was answered, and it is always less than one millionth away from the exact
/// share of lost probes.
pub proof fn lemma_loss_bounds(sent: int, received: int)
    requires
        0 <= received <= sent,
    ensures
        0 <= loss_ppm_of(sent, received) <= 1_000_000,
        loss_ppm_of(sent, received) == 0 <==> received == sent,
        loss_ppm_of(sent, received) == 1_000_000 <==> (sent > 0 && received == 0),
        sent > 0 ==> (loss_ppm_of(sent, received) - 1) * sent < (sent - received) * 1_000_000,
        sent > 0 ==> (sent - received) * 1_000_000 < (loss_ppm_of(sent, received) + 1) * sent,
{
    let lost = sent - received;
    if lost > 0 && received > 0 {
        let up = (lost * 1_000_000 + sent - 1) / sent;
        assert(1 <= up <= 1_000_000) by (nonlinear_arith)
            requires
                sent > 0,
                0 < lost <= sent,
                up == (lost * 1_000_000 + sent - 1) / sent,
        ;
        assert((up - 1) * sent < lost * 1_000_000 <= up * sent) by (nonlinear_arith)
            requires
                sent > 0,
                lost >= 0,
                up == (lost * 1_000_000 + sent - 1) / sent,
        ;
        assert(lost * 1_000_000 < 1_000_000 * sent) by (nonlinear_arith)
            requires
                sent > 0,
                0 < lost < sent,
        ;
        if up > 999_999 {
            assert(up == 1_000_000);
            assert((999_999 - 1) * sent < lost * 1_000_000) by (nonlinear_arith)
                requires
                    (up - 1) * sent < lost * 1_000_000,
                    up == 1_000_000,
                    sent > 0,
            ;
            assert(lost * 1_000_000 < (999_999 + 1) * sent);
        } else {
            assert(lost * 1_000_000 < (up + 1) * sent) by (nonlinear_arith)
                requires
                    lost * 1_000_000 <= up * sent,
                    sent > 0,
            ;
        }
    } else if lost > 0 {
        assert((1_000_000 - 1) * sent < sent * 1_000_000) by (nonlinear_arith)
            requires
                sent > 0,
        ;
        assert(sent * 1_000_000 < (1_000_000 + 1) * sent) by (nonlinear_arith)
            requires
                sent > 0,
        ;
    }
}

/// Law: each probe adds one to the probes sent, and one to the answers exactly
/// when it was answered; a probe that timed out leaves every latency figure as
/// it was and clears the current round trip.
pub proof fn lemma_probe_counts(log: Seq<Probe>, p: Probe)
    ensures
        log.push(p).len() == log.len() + 1,
        samples(log.push(p)).len() == samples(log).len() + (if p.rtt_us is Some { 1int } else { 0 }),
        current_of(log.push(p)) == p.rtt_us,
        p.rtt_us is None ==> samples(log.push(p)) == samples(log),
{
    lemma_samples_push(log, p);
}

/// Law: a window holds the newest elements, at most `n` of them, in order.
pub proof fn lemma_window(s: Seq<(u64, u64)>, n: nat)
    ensures
        last_n(s, n).len() == (if s.len() > n { n as int } else { s.len() as int }),
        forall|i: int|
            0 <= i < last_n(s, n).len() ==> #[trigger] last_n(s, n)[i] == s[s.len() - last_n(s, n).len() + i],
{
}

impl PingStats {
    /// The round trip of the latest probe, `None` when it timed out.
    pub fn current(&self) -> (r: Option<u64>)
        requires
            self.wf(),
        ensures
            r == current_of(self@),
    {
        self.current
    }

    /// The smallest round trip, `u64::MAX` before any answer.
    pub fn min_us(&self) -> (r: u64)
        requires
            self.wf(),
        ensures
            r == min_rtt(samples(self@)),
    {
        self.min
    }

    /// The smallest round trip, 0 before any answer.
    pub fn min_or_zero_us(&self) -> (r: u64)
        requires
            self.wf(),
        ensures
            r == (if samples(self@).len() == 0 { 0 } else { min_rtt(samples(self@)) }),
    {
        if self.total_received == 0 {
            0
        } else {
            self.min
        }
    }

    /// The largest round trip, 0 before any answer.
    pub fn max_us(&self) -> (r: u64)
        requires
            self.wf(),
        ensures
            r == max_rtt(samples(self@)),
    {
        self.max
    }

    /// The mean round trip rounded to the nearest microsecond, 0 before any
    /// answer.
    pub fn avg_us(&self) -> (r: u64)
        requires
            self.wf(),
        ensures
            r == avg_rtt(samples(self@)),
    {
        if self.total_received == 0 {
            0
        } else {
            proof {
                lemma_mean_between(samples(self@));
                lemma_sum_bound(samples(self@));
            }
            let n = self.total_received as u128;
            ((self.sum + n / 2) / n) as u64
        }
    }

    /// The jitter estimate, rounded to the nearest microsecond.
    pub fn jitter_us(&self) -> (r: u64)
        requires
            self.wf(),
        ensures
            r == jitter_of(samples(self@)),
    {
        proof {
            lemma_jitter_within_spread(samples(self@));
            lemma_max_bound(samples(self@));
            lemma_sum_between(samples(self@));
        }
        ((self.jitter16 + 8) / 16) as u64
    }

    /// How many probes were sent.
    pub fn total_sent(&self) -> (r: u32)
        requires
            self.wf(),
        ensures
            r == self@.len(),
    {
        self.total_sent
    }

    /// How many probes were answered.
    pub fn total_received(&self) -> (r: u32)
        requires
            self.wf(),
        ensures
            r == samples(self@).len(),
    {
        self.total_received
    }

    /// How many probes went unanswered.
    pub fn lost(&self) -> (r: u32)
        requires
            self.wf(),
        ensures
            r == self@.len() - samples(self@).len(),
    {
        proof {
            lemma_samples_len(self@);
        }
        self.total_sent - self.total_received
    }

    /// The share of lost probes in millionths: 0 only when nothing was lost, a
    /// million only when nothing was answered, otherwise rounded up and kept
    /// below a million.
    pub fn loss_ppm(&self) -> (r: u64)
        requires
            self.wf(),
        ensures
            r == loss_ppm_of(self@.len() as int, samples(self@).len() as int),
    {
        proof {
            lemma_samples_len(self@);
            lemma_loss_bounds(self@.len() as int, samples(self@).len() as int);
        }
        let lost = (self.total_sent - self.total_received) as u64;
        let sent = self.total_sent as u64;
        if lost == 0 {
            0
        } else if self.total_received == 0 {
            1_000_000
        } else {
            let up = (lost * 1_000_000 + sent - 1) / sent;
            if up > 999_999 {
                999_999
            } else {
                up
            }
        }
    }

    /// The newest answered probes, oldest first, as (time in ms, round trip in us).
    pub fn history(&self) -> (r: &Vec<(u64, u64)>)
        requires
            self.wf(),
        ensures
            r@ == last_n(samples(self@), HISTORY_CAPACITY as nat),
    {
        &self.history
    }

    /// The newest probes, oldest first.
    pub fn recent_pings(&self) -> (r: &Vec<PingResult>)
        requires
            self.wf(),
        ensures
            result_views(r@) == last_n(records(self@), RECENT_CAPACITY as nat),
    {
        &self.recent_pings
    }
}


impl PingStats {
    /// Takes one finished probe into account and logs it with the local time
    /// of day: the label is the one the clock handed back during this call.
    pub fn update(&mut self, rtt_us: Option<u64>, time_ms: u64, sequence: u16)
        requires
            old(self).wf(),
            old(self)@.len() < u32::MAX,
        ensures
            final(self).wf(),
            final(self)@.len() == old(self)@.len() + 1,
            final(self)@.drop_last() == old(self)@,
            final(self)@.last().sequence == sequence,
            final(self)@.last().rtt_us == rtt_us,
            final(self)@.last().time_ms == time_ms,
            is_clock_label(final(self)@.last().timestamp),
            is_clock_reading(final(self)@.last().timestamp),
    {
        let timestamp = local_clock_label();
        proof {
            lemma_call_is_reading(timestamp);
        }
        self.update_at(rtt_us, time_ms, sequence, timestamp);
        proof {
            let p = Probe { sequence, rtt_us, time_ms, timestamp: timestamp@ };
            assert(old(self)@.push(p).drop_last() =~= old(self)@);
        }
    }
}


/// Law: over time the minimum never rises and the maximum never falls.
pub proof fn lemma_extremes_monotone(log: Seq<Probe>, p: Probe)
    ensures
        min_rtt(samples(log.push(p))) <= min_rtt(samples(log)),
        max_rtt(samples(log.push(p))) >= max_rtt(samples(log)),
{
    lemma_samples_push(log, p);
    if let Some(r) = p.rtt_us {
        lemma_aggregates_push(samples(log), (p.time_ms, r));
    }
}


/// Law: the total of the round trips adds up over consecutive stretches of
/// answers, and a single answer totals its own round trip; so the total counts
/// every answer since the start exactly once.
pub proof fn lemma_sum_concat(s1: Seq<(u64, u64)>, s2: Seq<(u64, u64)>)
    ensures
        sum_rtt(s1 + s2) == sum_rtt(s1) + sum_rtt(s2),
        s2.len() == 1 ==> sum_rtt(s2) == s2[0].1,
    decreases s2.len(),
{
    if s2.len() == 0 {
        assert(s1 + s2 =~= s1);
    } else {
        lemma_sum_concat(s1, s2.drop_last());
        assert((s1 + s2).drop_last() =~= s1 + s2.drop_last());
        if s2.len() == 1 {
            assert(s2.drop_last() =~= Seq::<(u64, u64)>::empty());
        }
    }
}

/// Law: the mean is taken over every answer since the start: `n` times the
/// mean is within half an answer of the total of all `n` round trips
/// (`n * mean <= total + n / 2 < n * mean + n`).
pub proof fn lemma_mean_of_all(s: Seq<(u64, u64)>)
    requires
        s.len() > 0,
    ensures
        s.len() * avg_rtt(s) <= sum_rtt(s) + s.len() / 2 < s.len() * avg_rtt(s) + s.len(),
{
    let n = s.len() as int;
    let t = sum_rtt(s) + n / 2;
    assert(n * (t / n) <= t < n * (t / n) + n) by (nonlinear_arith)
        requires
            n > 0,
    ;
}

/// Law: when every answer took the same time, the mean is that time.
pub proof fn lemma_mean_of_constant(s: Seq<(u64, u64)>, c: u64)
    requires
        s.len() > 0,
        forall|i: int| 0 <= i < s.len() ==> #[trigger] s[i].1 == c,
    ensures
        avg_rtt(s) == c,
{
    lemma_sum_of_constant(s, c);
    let n = s.len() as int;
    assert((n * c + n / 2) / n == c) by (nonlinear_arith)
        requires
            n > 0,
    ;
}

/// The total of `n` answers that all took `c` is `n * c`.
proof fn lemma_sum_of_constant(s: Seq<(u64, u64)>, c: u64)
    requires
        forall|i: int| 0 <= i < s.len() ==> #[trigger] s[i].1 == c,
    ensures
        sum_rtt(s) == s.len() * c,
    decreases s.len(),
{
    if s.len() > 0 {
        let r = s.drop_last();
        assert forall|i: int| 0 <= i < r.len() implies #[trigger] r[i].1 == c by {
            assert(r[i] == s[i]);
        }
        lemma_sum_of_constant(r, c);
        assert(s.last() == s[s.len() - 1]);
        assert(s.len() * c == r.len() * c + c) by (nonlinear_arith)
            requires
                s.len() == r.len() + 1,
        ;
    }
}

/// Law: each jitter step keeps fifteen sixteenths of the scaled estimate
/// (rounded up) and adds the whole absolute difference between the new round
/// trip and the previous answer's.
pub proof fn lemma_jitter_each_step(s: Seq<(u64, u64)>, x: (u64, u64))
    requires
        s.len() > 0,
    ensures
        scaled_jitter_of(s.push(x)) == scaled_jitter_of(s) - scaled_jitter_of(s) / 16 + (if x.1 >= s.last().1 {
            x.1 - s.last().1
        } else {
            s.last().1 - x.1
        }),
{
    lemma_aggregates_push(s, x);
}

/// Law: after exactly two answers the scaled estimate is their absolute
/// difference, and the jitter is that difference divided by sixteen, rounded
/// to the nearest microsecond.
pub proof fn lemma_jitter_two_answers(a: (u64, u64), b: (u64, u64))
    ensures
        scaled_jitter_of(seq![a, b]) == (if a.1 >= b.1 { a.1 - b.1 } else { b.1 - a.1 }),
        jitter_of(seq![a, b]) == ((if a.1 >= b.1 { a.1 - b.1 } else { b.1 - a.1 }) + 8) / 16,
{
    let s = seq![a, b];
    assert(s.drop_last() =~= seq![a]);
    assert(scaled_jitter_of(seq![a]) == 0);
    assert(s.last() == b && s[s.len() - 2] == a);
    assert(scaled_jitter_of(s) == jitter_step(scaled_jitter_of(s.drop_last()), spread(b.1, a.1)));
}

} // verus!
