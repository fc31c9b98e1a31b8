use osv::downloader::{chunk_ranges, range_header_value, ranged_download_total};

#[test]
fn ranged_download_needs_byte_ranges_and_length() {
    assert_eq!(ranged_download_total(Some("bytes"), Some("1024")), Some(1024));
    assert_eq!(ranged_download_total(Some("bytes"), Some("+7")), Some(7));
    assert_eq!(ranged_download_total(Some("none"), Some("1024")), None);
    assert_eq!(ranged_download_total(None, Some("1024")), None);
    assert_eq!(ranged_download_total(Some("bytes"), None), None);
    assert_eq!(ranged_download_total(Some("bytes"), Some("-1")), None);
    assert_eq!(ranged_download_total(Some("bytes"), Some(" 12")), None);
    assert_eq!(ranged_download_total(Some("bytes"), Some("+")), None);
    assert_eq!(ranged_download_total(Some("bytes"), Some("")), None);
    assert_eq!(ranged_download_total(Some("bytes"), Some("0")), Some(0));
    assert_eq!(ranged_download_total(Some("bytes"), Some("99999999999999999999x")), None);
    assert_eq!(ranged_download_total(Some("bytes"), Some("18446744073709551616")), None);
    assert_eq!(
        ranged_download_total(Some("bytes"), Some("18446744073709551615")),
        Some(u64::MAX)
    );
}

#[test]
fn chunks_cover_the_content() {
    assert_eq!(chunk_ranges(1024, 512), vec![(0, 512), (512, 1024)]);
    assert_eq!(chunk_ranges(10, 3), vec![(0, 3), (3, 6), (6, 9), (9, 10)]);
    assert_eq!(chunk_ranges(5, 10), vec![(0, 5)]);
    assert_eq!(chunk_ranges(0, 10), vec![]);
    assert_eq!(chunk_ranges(0, 0), vec![]);
    assert_eq!(chunk_ranges(u64::MAX, u64::MAX - 1), vec![(0, u64::MAX - 1), (u64::MAX - 1, u64::MAX)]);
}

#[test]
fn range_headers() {
    assert_eq!(range_header_value(0, 512), "bytes=0-511");
    assert_eq!(range_header_value(512, 1024), "bytes=512-1023");
    assert_eq!(range_header_value(0, 0), "bytes=0-0");
    assert_eq!(range_header_value(9, 10), "bytes=9-9");
    assert_eq!(range_header_value(u64::MAX - 1, u64::MAX), "bytes=18446744073709551614-18446744073709551614");
}
