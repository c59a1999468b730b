use brpc_rs::{BrpcError, ZeroCopyBuf, ZeroCopyBufMut};

#[test]
fn read_cursor_walks_segments_in_order() {
    let segments = vec![b"hello".to_vec(), Vec::new(), b"world".to_vec()];
    let mut buf = ZeroCopyBuf::from_segments(segments);
    assert_eq!(buf.remaining(), 10);
    assert_eq!(buf.bytes().unwrap(), b"hello");
    assert!(buf.advance(5).is_ok());
    assert_eq!(buf.remaining(), 5);
    assert_eq!(buf.bytes().unwrap(), b"world");
    assert!(buf.advance(5).is_ok());
    assert_eq!(buf.remaining(), 0);
    assert!(buf.bytes().is_none());
}

#[test]
fn advance_within_one_segment() {
    let mut buf = ZeroCopyBuf::from_segments(vec![b"abcdef".to_vec()]);
    assert!(buf.advance(2).is_ok());
    assert_eq!(buf.bytes().unwrap(), b"cdef");
    assert!(buf.advance(1).is_ok());
    assert_eq!(buf.bytes().unwrap(), b"def");
}

#[test]
fn advance_across_segment_boundary() {
    let mut buf = ZeroCopyBuf::from_segments(vec![b"ab".to_vec(), b"cd".to_vec()]);
    assert!(buf.advance(3).is_ok());
    assert_eq!(buf.remaining(), 1);
    assert_eq!(buf.bytes().unwrap(), b"d");
}

#[test]
fn advances_summing_to_length_drain_the_cursor() {
    let mut buf = ZeroCopyBuf::from_segments(vec![b"0123".to_vec(), b"456789".to_vec()]);
    assert_eq!(buf.remaining(), 10);
    assert!(buf.advance(3).is_ok());
    assert!(buf.advance(4).is_ok());
    assert!(buf.advance(3).is_ok());
    assert_eq!(buf.remaining(), 0);
}

#[test]
fn oversized_advance_fails_without_truncating() {
    let mut buf = ZeroCopyBuf::from_segments(vec![b"0123456789".to_vec()]);
    assert_eq!(buf.advance(11), Err(BrpcError::EFFI));
    assert_eq!(buf.remaining(), 10); // untouched, not silently truncated
    assert!(buf.advance(10).is_ok());
    assert_eq!(buf.remaining(), 0);
    assert_eq!(buf.advance(1), Err(BrpcError::EFFI));
}

#[test]
fn empty_cursor_has_nothing() {
    let mut buf = ZeroCopyBuf::from_segments(Vec::new());
    assert_eq!(buf.remaining(), 0);
    assert!(buf.bytes().is_none());
    assert!(buf.advance(0).is_ok());
    assert_eq!(buf.advance(1), Err(BrpcError::EFFI));
}

#[test]
fn write_cursor_appends_until_capacity() {
    let mut buf = ZeroCopyBufMut::with_capacity(5);
    assert_eq!(buf.remaining_mut(), 5);
    assert!(buf.put_slice(&[1, 2, 3]).is_ok());
    assert_eq!(buf.remaining_mut(), 2);
    assert_eq!(buf.put_slice(&[4, 5, 6]), Err(BrpcError::EFFI));
    assert_eq!(buf.remaining_mut(), 2); // failed write leaves the cursor untouched
    assert!(buf.put_slice(&[4, 5]).is_ok());
    assert_eq!(buf.remaining_mut(), 0);
    assert_eq!(buf.into_bytes(), vec![1, 2, 3, 4, 5]);
}

#[test]
fn write_cursor_with_zero_capacity() {
    let mut buf = ZeroCopyBufMut::with_capacity(0);
    assert_eq!(buf.remaining_mut(), 0);
    assert!(buf.put_slice(&[]).is_ok());
    assert_eq!(buf.put_slice(&[1]), Err(BrpcError::EFFI));
    assert_eq!(buf.into_bytes(), Vec::<u8>::new());
}
