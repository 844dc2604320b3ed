use paimon::error::Error;
use paimon::full_text::{
    fill_read_buffers, native_error, plan_read_ranges, search_task_error, ReadErrorKind, ReadRange,
    FULL_TEXT_RANGE_READ_CONCURRENCY,
};

#[test]
fn ranges_follow_requests_in_order() {
    let ranges = plan_read_ranges(&vec![(4, 3), (1, 2), (9, 0)]).unwrap();
    assert_eq!(
        ranges,
        vec![
            ReadRange { start: 4, end: 7 },
            ReadRange { start: 1, end: 3 },
            ReadRange { start: 9, end: 9 }
        ]
    );
    assert!(!ranges[0].is_empty());
    assert!(ranges[2].is_empty());
    assert!(plan_read_ranges(&Vec::new()).unwrap().is_empty());
}

#[test]
fn range_past_last_offset_is_refused() {
    let err = plan_read_ranges(&vec![(0, 1), (u64::MAX, 1)]).unwrap_err();
    assert_eq!(err.kind, ReadErrorKind::InvalidInput);
    assert_eq!(err.message, "full-text read range overflow");
    assert_eq!(
        plan_read_ranges(&vec![(u64::MAX, 0)]).unwrap(),
        vec![ReadRange { start: u64::MAX, end: u64::MAX }]
    );
}

#[test]
fn test_async_seek_reader_preserves_multi_range_order() {
    let data = b"0123456789";
    let mut buffers = vec![vec![0u8; 3], vec![0u8; 2]];
    let ranges = plan_read_ranges(&vec![(4, 3), (1, 2)]).unwrap();
    let results = ranges
        .iter()
        .map(|r| Ok(data[r.start as usize..r.end as usize].to_vec()))
        .collect();
    fill_read_buffers(&mut buffers, results).unwrap();
    assert_eq!(buffers[0], b"456");
    assert_eq!(buffers[1], b"12");
}

#[test]
fn short_read_is_unexpected_eof() {
    let mut buffers = vec![vec![9u8; 1], vec![0u8; 4], vec![7u8; 2]];
    let results = vec![Ok(vec![1u8]), Ok(vec![0u8; 3]), Ok(vec![5u8, 5])];
    let err = fill_read_buffers(&mut buffers, results).unwrap_err();
    assert_eq!(err.kind, ReadErrorKind::UnexpectedEof);
    assert_eq!(err.message, "full-text read expected 4 bytes, got 3");
    assert_eq!(buffers, vec![vec![1u8], vec![0u8; 4], vec![7u8; 2]]);
}

#[test]
fn failed_read_passes_its_message_on() {
    let mut buffers = vec![vec![0u8; 1]];
    let err = fill_read_buffers(&mut buffers, vec![Err("disk gone".to_string())]).unwrap_err();
    assert_eq!(err.kind, ReadErrorKind::Other);
    assert_eq!(err.message, "disk gone");
}

#[test]
fn concurrency_limit_value() {
    assert_eq!(FULL_TEXT_RANGE_READ_CONCURRENCY, 8);
}

#[test]
fn full_text_error_messages() {
    match native_error("test.index", "bad magic") {
        Error::UnexpectedError { message } => {
            assert_eq!(message, "Failed to read full-text index 'test.index': bad magic")
        }
        other => panic!("unexpected: {other:?}"),
    }
    match search_task_error("test.index", "panicked") {
        Error::UnexpectedError { message } => {
            assert_eq!(message, "Full-text index task for 'test.index' failed: panicked")
        }
        other => panic!("unexpected: {other:?}"),
    }
}

#[test]
fn test_async_seek_reader_rejects_short_reads() {
    let mut buffers = vec![vec![0u8; 4]];
    let ranges = plan_read_ranges(&vec![(0, 4)]).unwrap();
    let requested = (ranges[0].end - ranges[0].start) as usize;
    let results = vec![Ok(vec![0u8; requested.saturating_sub(1)])];
    let err = fill_read_buffers(&mut buffers, results).unwrap_err();
    assert_eq!(err.kind, ReadErrorKind::UnexpectedEof);
}
