use sophia::pacing::finish_cycle;

#[test]
fn waits_out_the_interval() {
    let next = finish_cycle(7, 1_000_000, 200_000);
    assert_eq!(next.sequence, 8);
    assert_eq!(next.wait_us, Some(800_000));
}

#[test]
fn no_wait_after_a_slow_probe() {
    assert_eq!(finish_cycle(7, 1_000_000, 1_000_000).wait_us, None);
    assert_eq!(finish_cycle(7, 1_000_000, 3_000_000).wait_us, None);
}

#[test]
fn sequence_wraps_around() {
    let next = finish_cycle(u16::MAX, 500, 0);
    assert_eq!(next.sequence, 0);
    assert_eq!(next.wait_us, Some(500));
}
