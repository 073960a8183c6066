//! Scheduling of consecutive echo requests.
use vstd::prelude::*;

verus! {

/// What the probe loop does once a probe has been answered or has timed out:
/// the sequence number of the next probe and, when the probe finished before
/// the interval was over, how long to wait before sending the next one.
pub struct NextProbe {
    pub sequence: u16,
    pub wait_us: Option<u64>,
}

/// Ends one probe cycle: the sequence number wraps from 65535 back to 0, and the
/// loop waits out the rest of the interval when the probe took less than it.
pub fn finish_cycle(sequence: u16, interval_us: u64, elapsed_us: u64) -> (next: NextProbe)
    ensures
        next.sequence as int == (sequence as int + 1) % 65536,
        next.wait_us == (if elapsed_us < interval_us {
            Some((interval_us - elapsed_us) as u64)
        } else {
            None::<u64>
        }),
{
    let next_sequence = sequence.wrapping_add(1);
    let wait_us = if elapsed_us < interval_us {
        Some(interval_us - elapsed_us)
    } else {
        None
    };
    NextProbe { sequence: next_sequence, wait_us }
}

} // verus!
