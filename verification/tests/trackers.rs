use trc2ctf::trackers::{CounterTracker, RolloverTracker};

#[test]
fn counter_reports_losses_for_delta_sequence() {
    // raw counter deltas [0 (init), +1, +1, +4] -> losses [None, None, Some(3)]
    let mut ec = CounterTracker::zero();
    ec.set_initial_count(0);
    assert_eq!(ec.update(1), None);
    assert_eq!(ec.update(2), None);
    assert_eq!(ec.update(6), Some(3));
    assert_eq!(ec.count(), 6);
}

#[test]
fn counter_wraps_without_loss() {
    let mut ec = CounterTracker::zero();
    ec.set_initial_count(u16::MAX);
    assert_eq!(ec.count(), u16::MAX as u64);
    // 0xFFFF -> 0x0000 is one step across the wrap
    assert_eq!(ec.update(0), None);
    assert_eq!(ec.count(), u16::MAX as u64 + 1);
}

#[test]
fn counter_treats_repeat_as_full_wrap() {
    // the counter advances on every event, so seeing the same raw value again
    // means a full 2^16 events passed: 2^16 - 1 of them were lost
    let mut ec = CounterTracker::zero();
    ec.set_initial_count(10);
    assert_eq!(ec.update(10), Some(0xFFFF));
    assert_eq!(ec.count(), 10 + 0x1_0000);
}

#[test]
fn counter_loss_across_wrap() {
    let mut ec = CounterTracker::zero();
    ec.set_initial_count(0xFFFE);
    // 0xFFFE -> 0x0002 skips 0xFFFF, 0x0000, 0x0001
    assert_eq!(ec.update(2), Some(3));
}

#[test]
fn rollover_reconstructs_eight_bit_ticks() {
    // 8-bit tick sequence [250, 254, 3] -> [250, 254, 259], strictly increasing
    let mut t = RolloverTracker::new(250, 0, 8);
    let a = t.to_timestamp();
    assert_eq!(a, 250);
    let b = t.elapsed(254);
    assert_eq!(b, 254);
    let c = t.elapsed(3);
    assert_eq!(c, 259);
    assert!(a < b && b < c);
}

#[test]
fn rollover_thirty_two_bit_wrap() {
    let t0: u64 = 4_294_967_290;
    let mut inst = RolloverTracker::zero(32);
    assert_eq!(inst.elapsed(t0), t0);
    // 16 ticks later, across the 32-bit wrap
    assert_eq!(inst.elapsed(10), t0 + 16);
}

#[test]
fn rollover_small_backward_jump_is_not_a_wrap() {
    let mut t = RolloverTracker::new(100, 0, 8);
    // backward by 10, well under half the 256-tick range: jitter, not a wrap
    assert_eq!(t.elapsed(90), 90);
}

#[test]
fn rollover_equal_tick_keeps_timestamp() {
    let mut t = RolloverTracker::new(77, 0, 8);
    assert_eq!(t.elapsed(77), 77);
    assert_eq!(t.elapsed(77), 77);
}

#[test]
fn rollover_honors_declared_wrap_count() {
    let mut t = RolloverTracker::new(5, 3, 8);
    assert_eq!(t.to_timestamp(), 3 * 256 + 5);
    assert_eq!(t.elapsed(6), 3 * 256 + 6);
}
