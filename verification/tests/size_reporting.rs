use projclean::fsview::FsEntry;
use projclean::size::{format_size, sum_file_sizes, u64_to_dec};

fn file_entry(path: &str, size: u64) -> FsEntry {
    FsEntry {
        path: path.to_string(),
        file_name: None,
        parent: None,
        is_file: true,
        is_dir: false,
        size,
    }
}

fn dir_entry(path: &str) -> FsEntry {
    FsEntry {
        path: path.to_string(),
        file_name: None,
        parent: None,
        is_file: false,
        is_dir: true,
        size: 0,
    }
}

#[test]
fn decimal_rendering() {
    assert_eq!(u64_to_dec(0), "0");
    assert_eq!(u64_to_dec(7), "7");
    assert_eq!(u64_to_dec(10), "10");
    assert_eq!(u64_to_dec(1536), "1536");
    assert_eq!(u64_to_dec(u64::MAX), "18446744073709551615");
}

#[test]
fn format_size_uses_1024_scale_with_two_decimals() {
    assert_eq!(format_size(0), "0 B");
    assert_eq!(format_size(1023), "1023 B");
    assert_eq!(format_size(1024), "1.00 KB");
    assert_eq!(format_size(1536), "1.50 KB");
    assert_eq!(format_size(1034), "1.00 KB");
    assert_eq!(format_size(1024 * 1024), "1.00 MB");
    assert_eq!(format_size(123456789), "117.73 MB");
    assert_eq!(format_size(1024 * 1024 * 1024), "1.00 GB");
    assert_eq!(format_size(1099511627776), "1.00 TB");
    assert_eq!(format_size(1125899906842624), "1.00 PB");
    assert_eq!(format_size(1152921504606846976), "1.00 EB");
    assert_eq!(format_size(u64::MAX), "15.99 EB");
}

#[test]
fn summing_counts_only_regular_files() {
    assert_eq!(sum_file_sizes(&Vec::new()), 0);
    assert_eq!(sum_file_sizes(&vec![file_entry("a/f", 1500)]), 1500);
    assert_eq!(
        sum_file_sizes(&vec![dir_entry("a"), file_entry("a/f", 100), file_entry("a/g", 23)]),
        123
    );
    // A directory entry's size field is never counted.
    let mut with_sized_dir = vec![dir_entry("a")];
    with_sized_dir[0].size = 4096;
    assert_eq!(sum_file_sizes(&with_sized_dir), 0);
}

#[test]
fn summing_saturates_instead_of_overflowing() {
    let entries = vec![file_entry("a", u64::MAX), file_entry("b", 5)];
    assert_eq!(sum_file_sizes(&entries), u64::MAX);
}
