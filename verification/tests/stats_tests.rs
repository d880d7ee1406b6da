use hoststats::stats::{percent_hundredths, server_stats, usage_info};

#[test]
fn percentage_of_a_third_rounds_to_nearest_hundredth() {
    assert_eq!(percent_hundredths(1, 3), 3333);
    assert_eq!(percent_hundredths(2, 3), 6667);
}

#[test]
fn percentage_ties_round_to_even() {
    // 1/32 is exactly 3.125%: the tie in the hundredths rounds down to even.
    assert_eq!(percent_hundredths(1, 32), 312);
    // 3/32 is exactly 9.375%: the tie rounds up to even.
    assert_eq!(percent_hundredths(3, 32), 938);
}

#[test]
fn percentage_spans_the_full_range() {
    assert_eq!(percent_hundredths(0, 5), 0);
    assert_eq!(percent_hundredths(5, 5), 10000);
    assert_eq!(percent_hundredths(u64::MAX, u64::MAX), 10000);
    assert_eq!(percent_hundredths(u64::MAX / 2, u64::MAX), 5000);
}

#[test]
fn empty_resource_reads_as_zero_percent() {
    // With no disks mounted both readings are zero; the division guard pins
    // the percentage to 0.00% instead of an undefined ratio.
    assert_eq!(percent_hundredths(0, 0), 0);
    let info = usage_info(0, 0);
    assert_eq!(info.used, "0 B");
    assert_eq!(info.total, "0 B");
    assert_eq!(info.percentage, "0.00%");
}

#[test]
fn usage_info_renders_all_three_fields() {
    let info = usage_info(512 * 1024 * 1024, 2 * 1024 * 1024 * 1024);
    assert_eq!(info.used, "512.00 MB");
    assert_eq!(info.total, "2.00 GB");
    assert_eq!(info.percentage, "25.00%");
}

#[test]
fn report_carries_cpu_memory_and_disk() {
    let stats = server_stats(4275, 1024 * 1024 * 1024, 4 * 1024 * 1024 * 1024, 1536, 2048);
    assert_eq!(stats.cpu_usage, "42.75%");
    assert_eq!(stats.ram.used, "1.00 GB");
    assert_eq!(stats.ram.total, "4.00 GB");
    assert_eq!(stats.ram.percentage, "25.00%");
    assert_eq!(stats.storage.used, "1.50 KB");
    assert_eq!(stats.storage.total, "2.00 KB");
    assert_eq!(stats.storage.percentage, "75.00%");
}

#[test]
fn identical_readings_render_identically() {
    let a = server_stats(123, 3_000_000_000, 8_000_000_000, 40_000_000_000, 512_000_000_000);
    let b = server_stats(123, 3_000_000_000, 8_000_000_000, 40_000_000_000, 512_000_000_000);
    assert_eq!(a.cpu_usage, b.cpu_usage);
    assert_eq!(a.ram.used, b.ram.used);
    assert_eq!(a.ram.total, b.ram.total);
    assert_eq!(a.ram.percentage, b.ram.percentage);
    assert_eq!(a.storage.used, b.storage.used);
    assert_eq!(a.storage.total, b.storage.total);
    assert_eq!(a.storage.percentage, b.storage.percentage);
    assert_eq!(a.to_json(), b.to_json());
}
