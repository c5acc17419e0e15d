//! Tests of the sparse-file subsystem.

use cp::cli::SparseMode;
use cp::sparse::{is_all_zero, sparse_action, DataRegion, SparseAction, SparseScan};

#[test]
fn sparse_mode_dispatch() {
    assert_eq!(sparse_action(SparseMode::Never), SparseAction::Decline);
    assert_eq!(sparse_action(SparseMode::Always), SparseAction::ZeroDetect);
    assert_eq!(sparse_action(SparseMode::Auto), SparseAction::ScanAndPreserve);
}

#[test]
fn scan_file_with_one_hole() {
    // 100 MiB file holding 4096 data bytes at offset 50 MiB: the scan finds
    // one extent and a lot of hole.
    let size: u64 = 100 * 1024 * 1024;
    let data_at: u64 = 50 * 1024 * 1024;
    let mut scan = SparseScan::start(size);
    scan.record_extent(size, data_at, Some(data_at + 4096));
    scan.no_more_data();
    assert_eq!(scan.regions.len(), 1);
    assert_eq!(scan.regions[0], DataRegion { offset: data_at, length: 4096 });
    assert_eq!(scan.data_bytes_total(size), 4096);
    assert!(scan.found_holes(size));
    assert_eq!(scan.hole_bytes(size), size - 4096);
}

#[test]
fn scan_dense_file_finds_no_holes() {
    let size: u64 = 65536;
    let mut scan = SparseScan::start(size);
    scan.record_extent(size, 0, None);
    assert_eq!(scan.data_bytes_total(size), size);
    assert!(!scan.found_holes(size));
    assert_eq!(scan.hole_bytes(size), 0);
}

#[test]
fn scan_collects_extents_in_order() {
    let size: u64 = 10_000;
    let mut scan = SparseScan::start(size);
    scan.record_extent(size, 100, Some(200));
    scan.record_extent(size, 5_000, Some(6_000));
    scan.record_extent(size, 9_000, None);
    assert_eq!(scan.regions.len(), 3);
    assert_eq!(scan.regions[1], DataRegion { offset: 5_000, length: 1_000 });
    assert_eq!(scan.data_bytes_total(size), 100 + 1_000 + 1_000);
    assert!(scan.found_holes(size));
}

#[test]
fn scan_trailing_data_reaches_end() {
    let size: u64 = 4096;
    let mut scan = SparseScan::start(size);
    scan.record_extent(size, 1024, None);
    assert!(scan.done);
    assert_eq!(scan.regions[0], DataRegion { offset: 1024, length: 3072 });
}

#[test]
fn all_zero_detection() {
    assert!(is_all_zero(&[]));
    assert!(is_all_zero(&[0, 0, 0, 0]));
    assert!(!is_all_zero(&[0, 0, 1, 0]));
    let mut buf = vec![0u8; 256 * 1024];
    assert!(is_all_zero(&buf));
    buf[256 * 1024 - 1] = 0xee;
    assert!(!is_all_zero(&buf));
}
