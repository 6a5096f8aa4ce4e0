use glu::TimeStep;

#[test]
fn no_invocation_before_a_full_interval() {
    let mut t = TimeStep::for_freq_ms(500);
    assert_eq!(t.freq_nanos(), 500_000_000);
    assert_eq!(t.tick(300_000_000), 0);
    assert_eq!(t.accumulated_nanos(), 300_000_000);
    // The residue carries over into the next poll.
    assert_eq!(t.tick(200_000_000), 1);
    assert_eq!(t.accumulated_nanos(), 0);
}

#[test]
fn backlog_beyond_cap_is_discarded() {
    // Frequency 500 ms, one permitted catch-up step; a single 1800 ms jump
    // fires the action exactly twice and resets the accumulator to zero,
    // discarding the leftover ~300 ms.
    let mut t = TimeStep::for_freq_ms(500).max_missed_steps_before_discard(1);
    let n = t.tick(1_800_000_000);
    assert_eq!(n, 2);
    assert_eq!(t.accumulated_nanos(), 0);
}

#[test]
fn backlog_within_cap_keeps_remainder() {
    // 1100 ms at 500 ms: two full intervals fit under the cap, so both run
    // and the 100 ms remainder stays accumulated.
    let mut t = TimeStep::for_freq_ms(500).max_missed_steps_before_discard(1);
    assert_eq!(t.tick(1_100_000_000), 2);
    assert_eq!(t.accumulated_nanos(), 100_000_000);
}

#[test]
fn zero_missed_steps_discards_after_one() {
    let mut t = TimeStep::for_freq_ms(100).max_missed_steps_before_discard(0);
    assert_eq!(t.tick(1_000_000_000), 1);
    assert_eq!(t.accumulated_nanos(), 0);
}

#[test]
fn exact_multiple_at_cap_is_not_a_discard() {
    // Exactly two intervals with cap 1: both run, remainder zero, no discard.
    let mut t = TimeStep::for_freq_ms(500).max_missed_steps_before_discard(1);
    assert_eq!(t.tick(1_000_000_000), 2);
    assert_eq!(t.accumulated_nanos(), 0);
}

#[test]
fn replay_of_the_same_increments_is_deterministic() {
    let deltas = [
        120_000_000u64,
        480_000_000,
        1_800_000_000,
        10_000_000,
        700_000_000,
        499_999_999,
        1,
    ];
    let mut a = TimeStep::for_freq_ms(500).max_missed_steps_before_discard(1);
    let mut b = TimeStep::for_freq_ms(500).max_missed_steps_before_discard(1);
    let counts_a: Vec<u64> = deltas.iter().map(|d| a.tick(*d)).collect();
    let counts_b: Vec<u64> = deltas.iter().map(|d| b.tick(*d)).collect();
    assert_eq!(counts_a, counts_b);
    assert_eq!(a.accumulated_nanos(), b.accumulated_nanos());
}

#[test]
fn update_elapsed_accumulates_without_stepping() {
    let mut t = TimeStep::for_freq_ms(10);
    t.update_elapsed(3_000_000);
    t.update_elapsed(4_000_000);
    assert_eq!(t.accumulated_nanos(), 7_000_000);
    assert_eq!(t.tick(3_000_000), 1);
}
