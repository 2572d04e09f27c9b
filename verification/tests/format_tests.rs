use progress_logger::numtext::dec_string;
use progress_logger::numtext::fixed2_string;
use progress_logger::numtext::round_div_u128;
use progress_logger::render::humanize_string;
use progress_logger::units::nice_speed_unit;
use progress_logger::units::nice_time_unit;
use progress_logger::units::pretty_millis_string;
use progress_logger::units::unit_label_str;
use progress_logger::TimeUnit;

#[test]
fn decimal_digits() {
    assert_eq!(dec_string(0).as_str(), "0");
    assert_eq!(dec_string(7).as_str(), "7");
    assert_eq!(dec_string(1048576).as_str(), "1048576");
    assert_eq!(dec_string(u64::MAX as u128).as_str(), "18446744073709551615");
}

#[test]
fn fixed_point_two_decimals() {
    assert_eq!(fixed2_string(5).as_str(), "0.05");
    assert_eq!(fixed2_string(50).as_str(), "0.50");
    assert_eq!(fixed2_string(12345).as_str(), "123.45");
    assert_eq!(fixed2_string(100).as_str(), "1.00");
}

#[test]
fn rounding_is_half_up() {
    assert_eq!(round_div_u128(5, 2), 3);
    assert_eq!(round_div_u128(4, 2), 2);
    assert_eq!(round_div_u128(49, 100), 0);
    assert_eq!(round_div_u128(50, 100), 1);
}

#[test]
fn pretty_compound_times() {
    assert_eq!(pretty_millis_string(0).as_str(), "0ms");
    assert_eq!(pretty_millis_string(999).as_str(), "999ms");
    assert_eq!(pretty_millis_string(1000).as_str(), "1s 0ms");
    assert_eq!(pretty_millis_string(59_999).as_str(), "59s 999ms");
    assert_eq!(pretty_millis_string(60_000).as_str(), "1m 0s 0ms");
    assert_eq!(pretty_millis_string(3_600_000).as_str(), "1h 0m 0s 0ms");
    assert_eq!(pretty_millis_string(90_061_001).as_str(), "1d 1h 1m 1s 1ms");
}

#[test]
fn humanize_binary_magnitudes() {
    assert_eq!(humanize_string(0).as_str(), "0.00");
    assert_eq!(humanize_string(1023).as_str(), "1023.00");
    assert_eq!(humanize_string(1024).as_str(), "1.00Ki");
    assert_eq!(humanize_string(1536).as_str(), "1.50Ki");
    assert_eq!(humanize_string(1_048_576).as_str(), "1.00Mi");
    assert_eq!(humanize_string(5_000_000_000).as_str(), "4.66Gi");
}

#[test]
fn unit_ladder_boundary_is_adjacent() {
    // 999 ms per item and 1001 ms per item pick adjacent units.
    assert_eq!(nice_time_unit(999_000_000, 1), TimeUnit::Millis);
    assert_eq!(nice_time_unit(1_001_000_000, 1), TimeUnit::Seconds);
    assert_eq!(nice_time_unit(1_000_000_000, 1), TimeUnit::Seconds);
}

#[test]
fn unit_selection_is_deterministic() {
    // The same value twice yields the identical unit, and the natural
    // scales of timing and speed differ: 2 ms per item reads as
    // milliseconds per item but items per second.
    assert_eq!(nice_time_unit(2_000_000, 1), nice_time_unit(2_000_000, 1));
    assert_eq!(nice_time_unit(2_000_000, 1), TimeUnit::Millis);
    assert_eq!(nice_speed_unit(2_000_000, 1), TimeUnit::Seconds);
    assert_eq!(nice_speed_unit(120_000_000_000, 1), TimeUnit::Hours);
}

#[test]
fn unit_labels() {
    assert_eq!(unit_label_str(TimeUnit::Nanos), "ns");
    assert_eq!(unit_label_str(TimeUnit::Micros), "us");
    assert_eq!(unit_label_str(TimeUnit::Millis), "ms");
    assert_eq!(unit_label_str(TimeUnit::Seconds), "s");
    assert_eq!(unit_label_str(TimeUnit::Minutes), "m");
    assert_eq!(unit_label_str(TimeUnit::Hours), "h");
    assert_eq!(unit_label_str(TimeUnit::Days), "d");
}
