use gputop::utils::{create_sparkline, format_bytes, truncate_string};

#[test]
fn sparkline_of_nothing_is_empty() {
    assert_eq!(create_sparkline(&[]), "");
}

#[test]
fn sparkline_spans_all_eight_bars() {
    assert_eq!(create_sparkline(&[1, 2, 3, 4, 5, 6, 7, 8]), "▁▂▃▄▅▆▇█");
    assert_eq!(create_sparkline(&[8, 1]), "█▁");
}

#[test]
fn sparkline_of_equal_values_is_flat() {
    assert_eq!(create_sparkline(&[5, 5, 5]), "▁▁▁");
    assert_eq!(create_sparkline(&[42]), "▁");
}

#[test]
fn sparkline_levels_round_down() {
    // 50 of 100 is level 3.5, rounded down to 3.
    assert_eq!(create_sparkline(&[0, 50, 100]), "▁▄█");
    assert_eq!(create_sparkline(&[0, 14, 15, 100]), "▁▁▂█");
}

#[test]
fn sparkline_handles_the_full_range() {
    assert_eq!(create_sparkline(&[0, u64::MAX, u64::MAX / 2]), "▁█▄");
}

#[test]
fn sparkline_has_one_bar_per_value() {
    let data: Vec<u64> = (0..100).collect();
    assert_eq!(create_sparkline(&data).chars().count(), 100);
}

#[test]
fn bytes_below_a_kilobyte_are_whole() {
    assert_eq!(format_bytes(0), "0 B");
    assert_eq!(format_bytes(1), "1 B");
    assert_eq!(format_bytes(1023), "1023 B");
}

#[test]
fn bytes_in_larger_units_have_two_decimals() {
    assert_eq!(format_bytes(1024), "1.00 KB");
    assert_eq!(format_bytes(1536), "1.50 KB");
    assert_eq!(format_bytes(1_048_576), "1.00 MB");
    assert_eq!(format_bytes(1_500_000), "1.43 MB");
    assert_eq!(format_bytes(123_456_789), "117.74 MB");
    assert_eq!(format_bytes(1_073_741_824), "1.00 GB");
    assert_eq!(format_bytes(5_905_580_032), "5.50 GB");
    assert_eq!(format_bytes(1_099_511_627_776), "1.00 TB");
}

#[test]
fn bytes_round_to_the_nearest_hundredth() {
    assert_eq!(format_bytes(1029), "1.00 KB");
    assert_eq!(format_bytes(1034), "1.01 KB");
    assert_eq!(format_bytes(1045), "1.02 KB");
    // Just below a mebibyte rounds up to 1024.00 KB.
    assert_eq!(format_bytes(1_048_575), "1024.00 KB");
    // Ties go to the even hundredth: 1.125 and 1.375.
    assert_eq!(format_bytes(1152), "1.12 KB");
    assert_eq!(format_bytes(1408), "1.38 KB");
}

#[test]
fn bytes_beyond_terabytes_stay_in_terabytes() {
    assert_eq!(format_bytes(u64::MAX), "16777216.00 TB");
}

#[test]
fn bytes_agree_with_floating_point_formatting() {
    for bytes in [0u64, 999, 1024, 4096, 65_535, 1_000_000, 2_147_483_648, 10_000_000_000_000] {
        let units = ["B", "KB", "MB", "GB", "TB"];
        let mut size = bytes as f64;
        let mut unit = 0;
        while size >= 1024.0 && unit < units.len() - 1 {
            size /= 1024.0;
            unit += 1;
        }
        let expected = if unit == 0 {
            format!("{:.0} {}", size, units[unit])
        } else {
            format!("{:.2} {}", size, units[unit])
        };
        assert_eq!(format_bytes(bytes), expected);
    }
}

#[test]
fn short_strings_are_kept() {
    assert_eq!(truncate_string("hello", 10), "hello");
    assert_eq!(truncate_string("hello", 5), "hello");
    assert_eq!(truncate_string("", 0), "");
}

#[test]
fn long_strings_are_cut_with_an_ellipsis() {
    assert_eq!(truncate_string("hello world", 8), "hello...");
    assert_eq!(truncate_string("hello world", 10), "hello w...");
    assert_eq!(truncate_string("abcdef", 5), "ab...");
}

#[test]
fn narrow_limits_leave_only_the_ellipsis() {
    assert_eq!(truncate_string("abcdef", 3), "...");
    assert_eq!(truncate_string("abcdef", 2), "...");
    assert_eq!(truncate_string("abcdef", 0), "...");
}

#[test]
fn wide_characters_count_two_columns() {
    assert_eq!(truncate_string("日本語", 6), "日本語");
    assert_eq!(truncate_string("日本語日本語", 8), "日本...");
    assert_eq!(truncate_string("日本語日本語", 9), "日本語...");
    assert_eq!(truncate_string("a日b本c語", 7), "a日b...");
    assert_eq!(truncate_string("a日b本c語", 6), "a日...");
}
