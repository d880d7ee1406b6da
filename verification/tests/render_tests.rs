use hoststats::render::{format_bytes, format_percentage, u64_to_string};

#[test]
fn decimal_rendering_of_plain_integers() {
    assert_eq!(u64_to_string(0), "0");
    assert_eq!(u64_to_string(7), "7");
    assert_eq!(u64_to_string(10), "10");
    assert_eq!(u64_to_string(1023), "1023");
    assert_eq!(u64_to_string(u64::MAX), "18446744073709551615");
}

#[test]
fn bytes_below_one_kilobyte_render_as_plain_bytes() {
    assert_eq!(format_bytes(0), "0 B");
    assert_eq!(format_bytes(1), "1 B");
    assert_eq!(format_bytes(512), "512 B");
    assert_eq!(format_bytes(1023), "1023 B");
}

#[test]
fn bytes_at_each_threshold_pick_the_larger_unit() {
    assert_eq!(format_bytes(1024), "1.00 KB");
    assert_eq!(format_bytes(1024 * 1024), "1.00 MB");
    assert_eq!(format_bytes(1024 * 1024 * 1024), "1.00 GB");
    assert_eq!(format_bytes(1024 * 1024 * 1024 * 1024), "1.00 TB");
}

#[test]
fn scaled_bytes_carry_two_decimal_digits() {
    assert_eq!(format_bytes(1536), "1.50 KB");
    assert_eq!(format_bytes(1024 + 512 + 256), "1.75 KB");
    assert_eq!(format_bytes(5 * 1024 * 1024 + 256 * 1024), "5.25 MB");
    // u64::MAX / 2 is 2^40 * 8388608 minus half a byte: scaling rounds the
    // hundredths back up to a whole number of tebibytes.
    assert_eq!(format_bytes(u64::MAX / 2), "8388608.00 TB");
}

#[test]
fn scaling_rounds_ties_to_even() {
    // 1152 / 1024 = 1.125 exactly: the tie rounds down to the even digit.
    assert_eq!(format_bytes(1152), "1.12 KB");
    // 1408 / 1024 = 1.375 exactly: the tie rounds up to the even digit.
    assert_eq!(format_bytes(1408), "1.38 KB");
}

#[test]
fn scaling_agrees_with_float_rendering_below_the_mantissa_limit() {
    // Up to 2^53 a byte count converts to f64 exactly, so the verified
    // integer scaling must agree with float division plus fixed-precision
    // rendering on every unit rung.
    let cases: [u64; 14] = [
        1_073_741_823,
        3_758_096_384,
        1024,
        1536,
        2047,
        65_536,
        1_048_575,
        1_048_576,
        123_456_789,
        987_654_321_987,
        1_099_511_627_776,
        4_503_599_627_370_495,
        9_007_199_254_740_991,
        9_007_199_254_740_992,
    ];
    for &b in cases.iter() {
        let expected = reference_format_bytes(b);
        assert_eq!(format_bytes(b), expected, "byte count {}", b);
    }
}

fn reference_format_bytes(bytes: u64) -> String {
    const KB: u64 = 1024;
    const MB: u64 = KB * 1024;
    const GB: u64 = MB * 1024;
    const TB: u64 = GB * 1024;
    match bytes {
        b if b >= TB => format!("{:.2} TB", b as f64 / TB as f64),
        b if b >= GB => format!("{:.2} GB", b as f64 / GB as f64),
        b if b >= MB => format!("{:.2} MB", b as f64 / MB as f64),
        b if b >= KB => format!("{:.2} KB", b as f64 / KB as f64),
        _ => format!("{} B", bytes),
    }
}

#[test]
fn percentages_render_with_two_decimals_and_a_sign() {
    assert_eq!(format_percentage(0), "0.00%");
    assert_eq!(format_percentage(3333), "33.33%");
    assert_eq!(format_percentage(10000), "100.00%");
    assert_eq!(format_percentage(7), "0.07%");
    assert_eq!(format_percentage(950), "9.50%");
    assert_eq!(format_percentage(12345), "123.45%");
}
