use orion_ai::func::system::diagnosis;
use orion_ai::func::system::platform::parse_vmstat_output;

#[test]
fn test_parse_vmstat_output() {
    let sample_output = "Mach Virtual Memory Statistics: (page size of 4096 bytes)\nPages free: 123456.\nPages active: 234567.\nPages inactive: 345678.\nPages wired: 456789.\n";

    let parsed = parse_vmstat_output(sample_output);
    assert_eq!(parsed.get_u64("page_size"), Some(4096));
    assert_eq!(parsed.get_u64("free_count"), Some(123456));
    assert_eq!(parsed.get_u64("active_count"), Some(234567));
    assert_eq!(parsed.get_u64("inactive_count"), Some(345678));
    assert_eq!(parsed.get_u64("wired_count"), Some(456789));
    assert_eq!(parsed.get_u64("free_bytes"), Some(4096 * 123456));
}

#[test]
fn counters_are_renamed_and_malformed_lines_passed_over() {
    let parsed = parse_vmstat_output(
        "page size of 16384 bytes) page size of 1\nPages free: 2.\nPages free: 3.\nSwapins.total:  12 .\nno colon here\nPages active: 5\nPages wired: x.\n",
    );
    assert_eq!(parsed.get_u64("page_size"), Some(16384));
    assert_eq!(parsed.get_u64("free_count"), Some(3));
    assert_eq!(parsed.get_u64("Swapins_total"), Some(12));
    assert_eq!(parsed.get("active_count"), None);
    assert_eq!(parsed.get("wired_count"), None);
    assert_eq!(parsed.get_u64("free_bytes"), Some(3 * 16384));
    let without_size = parse_vmstat_output("Pages free: 2.\n");
    assert_eq!(without_size.get("free_bytes"), None);
    let too_large = parse_vmstat_output(
        "x (page size of 18446744073709551615 bytes)\nPages free: 2.\n",
    );
    assert_eq!(too_large.get("free_bytes"), None);
}

#[test]
fn memory_report_gives_bytes_and_shares() {
    let report = diagnosis::parse_vmstat_output(
        "Mach Virtual Memory Statistics: (page size of 4096 bytes)\n\npage size of 1024 bytes\nPages free:   1.\nPages active: 1.\nPages inactive: 0.\nPages wired: 1.\n\"Translation faults\": 1.234.\n",
    );
    assert_eq!(report.get_u64("Pages free"), Some(1024));
    assert_eq!(report.get_u64("\"Translation faults\""), Some(1234 * 1024));
    assert_eq!(report.get_u64("total_memory"), Some(3072));
    assert_eq!(report.get_u64("used_memory"), Some(2048));
    assert_eq!(report.get_u64("free_memory"), Some(1024));
    assert_eq!(report.get_str("free_percent"), Some("33.33%"));
    assert_eq!(report.get_str("used_percent"), Some("66.67%"));
    assert_eq!(diagnosis::percent(0, 0), "NaN%");
    assert_eq!(diagnosis::percent(1, 8), "12.50%");
    assert_eq!(diagnosis::percent(5, 5), "100.00%");
    let partial = diagnosis::parse_vmstat_output("Pages free: 1.\n");
    assert_eq!(partial.get("total_memory"), None);
    assert_eq!(partial.get_u64("Pages free"), Some(4096));
}
