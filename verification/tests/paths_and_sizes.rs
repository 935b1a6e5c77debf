//! Path normalization, destination resolution and size rendering.

use algorithmia_cli::format::{size_with_suffix, u64_to_decimal};
use algorithmia_cli::paths::{
    basename, is_remote_path, join_path, normalize_data_path, resolve_download_dest,
};

#[test]
fn remote_marker_detection() {
    assert!(is_remote_path("data://dir/file.txt"));
    assert!(is_remote_path("data://"));
    assert!(!is_remote_path("dir/file.txt"));
    assert!(!is_remote_path("/data/file.txt"));
    assert!(!is_remote_path("data:/file.txt"));
}

#[test]
fn normalization_strips_the_marker() {
    assert_eq!(normalize_data_path("data://dir/file.txt"), "dir/file.txt");
    assert_eq!(normalize_data_path("/dir/file.txt"), "dir/file.txt");
    assert_eq!(normalize_data_path("dir/file.txt"), "dir/file.txt");
    assert_eq!(normalize_data_path("data://"), "");
}

#[test]
fn basename_takes_the_last_segment() {
    assert_eq!(basename("dir/report.csv"), "report.csv");
    assert_eq!(basename("report.csv"), "report.csv");
    assert_eq!(basename("a/b/c"), "c");
    assert_eq!(basename("dir/"), "");
}

#[test]
fn join_inserts_exactly_one_separator() {
    assert_eq!(join_path("./out", "report.csv"), "./out/report.csv");
    assert_eq!(join_path("./out/", "report.csv"), "./out/report.csv");
    assert_eq!(join_path(".", "x"), "./x");
}

#[test]
fn directory_destination_takes_the_base_name() {
    // Downloading into an existing directory appends the item's base name.
    assert_eq!(
        resolve_download_dest("./out", true, "data://dir/report.csv"),
        "./out/report.csv"
    );
    assert_eq!(
        resolve_download_dest("./out/", true, "data://dir/report.csv"),
        "./out/report.csv"
    );
}

#[test]
fn file_destination_is_used_verbatim() {
    assert_eq!(
        resolve_download_dest("./out/renamed.csv", false, "data://dir/report.csv"),
        "./out/renamed.csv"
    );
}

#[test]
fn decimal_rendering() {
    assert_eq!(u64_to_decimal(0), "0");
    assert_eq!(u64_to_decimal(7), "7");
    assert_eq!(u64_to_decimal(42), "42");
    assert_eq!(u64_to_decimal(1048576), "1048576");
    assert_eq!(u64_to_decimal(u64::MAX), "18446744073709551615");
}

#[test]
fn sizes_below_one_k_are_plain_bytes() {
    assert_eq!(size_with_suffix(0), "0");
    assert_eq!(size_with_suffix(500), "500");
    assert_eq!(size_with_suffix(1023), "1023");
}

#[test]
fn small_k_sizes_get_one_decimal() {
    assert_eq!(size_with_suffix(1024), "1.0k");
    assert_eq!(size_with_suffix(1536), "1.5k");
    // 9.96... rounds up across the 10k boundary.
    assert_eq!(size_with_suffix(10199), "10.0k");
    // An exact half rounds to the even tenth.
    assert_eq!(size_with_suffix(1280), "1.2k");
}

#[test]
fn large_k_sizes_are_whole() {
    assert_eq!(size_with_suffix(10240), "10k");
    assert_eq!(size_with_suffix(272 * 1024), "272k");
}

#[test]
fn m_and_g_sizes() {
    assert_eq!(size_with_suffix(1024 * 1024), "1.0M");
    assert_eq!(size_with_suffix(2 * 1024 * 1024), "2.0M");
    assert_eq!(size_with_suffix(50 * 1024 * 1024), "50M");
    assert_eq!(size_with_suffix(1024 * 1024 * 1024), "1.0G");
    assert_eq!(size_with_suffix(12 * 1024 * 1024 * 1024), "12G");
    assert_eq!(size_with_suffix(u64::MAX), "17179869183G");
}
