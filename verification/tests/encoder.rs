use sherline_power_feed::encoder::RotaryEncoder;

#[test]
fn new_takes_the_count_as_baseline() {
    assert_eq!(RotaryEncoder::new(0).last_count(), 0);
    assert_eq!(RotaryEncoder::new(1234).last_count(), 1234);
    assert_eq!(RotaryEncoder::new(u16::MAX).last_count(), u16::MAX);
}

#[test]
fn four_ticks_forward_is_one_detent() {
    let mut encoder = RotaryEncoder::new(100);
    assert_eq!(encoder.poll(104), Some(1));
    assert_eq!(encoder.last_count(), 104);
}

#[test]
fn three_ticks_forward_is_nothing() {
    let mut encoder = RotaryEncoder::new(100);
    assert_eq!(encoder.poll(103), None);
    assert_eq!(encoder.last_count(), 100);
}

#[test]
fn three_ticks_backward_is_nothing() {
    let mut encoder = RotaryEncoder::new(100);
    assert_eq!(encoder.poll(97), None);
    assert_eq!(encoder.last_count(), 100);
}

#[test]
fn four_ticks_backward_is_one_detent_back() {
    let mut encoder = RotaryEncoder::new(100);
    assert_eq!(encoder.poll(96), Some(-1));
    assert_eq!(encoder.last_count(), 96);
}

#[test]
fn four_ticks_backward_across_zero() {
    let mut encoder = RotaryEncoder::new(2);
    assert_eq!(encoder.poll(65534), Some(-1));
    assert_eq!(encoder.last_count(), 65534);
}

#[test]
fn four_ticks_forward_across_the_wrap() {
    let mut encoder = RotaryEncoder::new(65534);
    assert_eq!(encoder.poll(2), Some(1));
    assert_eq!(encoder.last_count(), 2);
}

#[test]
fn three_ticks_across_the_wrap_is_nothing() {
    let mut encoder = RotaryEncoder::new(65535);
    assert_eq!(encoder.poll(2), None);
    assert_eq!(encoder.last_count(), 65535);
    let mut encoder = RotaryEncoder::new(1);
    assert_eq!(encoder.poll(65534), None);
    assert_eq!(encoder.last_count(), 1);
}

#[test]
fn unchanged_count_is_nothing() {
    let mut encoder = RotaryEncoder::new(500);
    assert_eq!(encoder.poll(500), None);
    assert_eq!(encoder.last_count(), 500);
}

#[test]
fn readings_short_of_a_detent_report_nothing_each_time() {
    let mut encoder = RotaryEncoder::new(1000);
    assert_eq!(encoder.poll(1002), None);
    assert_eq!(encoder.last_count(), 1000);
    assert_eq!(encoder.poll(1002), None);
    assert_eq!(encoder.last_count(), 1000);
    assert_eq!(encoder.poll(1000), None);
    assert_eq!(encoder.last_count(), 1000);
}

#[test]
fn jitter_around_the_baseline_never_reports() {
    let mut encoder = RotaryEncoder::new(0);
    for raw in [1u16, 3, 65535, 65533, 2, 0, 65534, 3, 65533] {
        assert_eq!(encoder.poll(raw), None);
        assert_eq!(encoder.last_count(), 0);
    }
}

#[test]
fn progress_towards_a_detent_is_kept_between_polls() {
    let mut encoder = RotaryEncoder::new(1000);
    assert_eq!(encoder.poll(1002), None);
    assert_eq!(encoder.poll(1004), Some(1));
    assert_eq!(encoder.last_count(), 1004);
}

#[test]
fn detents_round_towards_zero() {
    let mut encoder = RotaryEncoder::new(1000);
    assert_eq!(encoder.poll(1007), Some(1));
    assert_eq!(encoder.last_count(), 1007);
    assert_eq!(encoder.poll(1016), Some(2));
    assert_eq!(encoder.last_count(), 1016);
    assert_eq!(encoder.poll(1009), Some(-1));
    assert_eq!(encoder.last_count(), 1009);
    assert_eq!(encoder.poll(1000), Some(-2));
    assert_eq!(encoder.last_count(), 1000);
    assert_eq!(encoder.poll(995), Some(-1));
    assert_eq!(encoder.last_count(), 995);
}

#[test]
fn several_detents_in_one_poll() {
    let mut encoder = RotaryEncoder::new(0);
    assert_eq!(encoder.poll(40), Some(10));
    assert_eq!(encoder.poll(0), Some(-10));
}

#[test]
fn half_a_turn_of_the_counter_forward() {
    let mut encoder = RotaryEncoder::new(0);
    assert_eq!(encoder.poll(32767), Some(8191));
    assert_eq!(encoder.last_count(), 32767);
}

#[test]
fn half_a_turn_of_the_counter_backward() {
    let mut encoder = RotaryEncoder::new(0);
    assert_eq!(encoder.poll(32768), Some(-8192));
    assert_eq!(encoder.last_count(), 32768);
    let mut encoder = RotaryEncoder::new(40000);
    assert_eq!(encoder.poll(7232), Some(-8192));
    assert_eq!(encoder.last_count(), 7232);
}
