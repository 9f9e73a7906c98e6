use laminardb_test::phase7_stress::format_latency;

fn float_reference(us: u64) -> String {
    if us < 1_000 {
        format!("{}us", us)
    } else if us < 1_000_000 {
        format!("{:.1}ms", us as f64 / 1_000.0)
    } else {
        format!("{:.1}s", us as f64 / 1_000_000.0)
    }
}

#[test]
fn latency_text_matches_float_formatting_below_two_seconds() {
    for us in 0..2_000_000u64 {
        assert_eq!(format_latency(us), float_reference(us), "us = {}", us);
    }
}

#[test]
fn latency_text_matches_float_formatting_on_wide_range() {
    let mut x: u64 = 0x9E37_79B9_7F4A_7C15;
    for _ in 0..2_000_000 {
        x ^= x << 13;
        x ^= x >> 7;
        x ^= x << 17;
        let shift = (x % 64) as u32;
        let us = x >> shift;
        assert_eq!(format_latency(us), float_reference(us), "us = {}", us);
    }
    for us in [u64::MAX, u64::MAX - 1, 1 << 53, (1 << 53) + 1, (1 << 63) + 12345, 999_999, 1_000_000, 1_050, 1_250, 1_750, 999_950] {
        assert_eq!(format_latency(us), float_reference(us), "us = {}", us);
    }
}
