use aircrate::streaming_reader::{ChunkReceipt, SeekError, SeekTarget, StreamingReader};
use std::sync::mpsc;

#[test]
fn reads_bytes_in_arrival_order() {
    let (_tx, rx) = mpsc::channel::<Vec<u8>>();
    let mut r = StreamingReader::new(rx);
    r.apply_receipt(ChunkReceipt::Chunk(vec![1, 2, 3]));
    r.apply_receipt(ChunkReceipt::Timeout);
    r.apply_receipt(ChunkReceipt::Chunk(vec![4, 5]));
    let mut buf = [0u8; 4];
    assert_eq!(r.read_buffered(&mut buf), 4);
    assert_eq!(buf, [1, 2, 3, 4]);
    let mut buf = [9u8; 4];
    assert_eq!(r.read_buffered(&mut buf), 1);
    assert_eq!(buf, [5, 9, 9, 9]);
    assert_eq!(r.seek(SeekTarget::Current(0)), Ok(5));
}

#[test]
fn seek_only_reports_position() {
    let (_tx, rx) = mpsc::channel::<Vec<u8>>();
    let r = StreamingReader::new(rx);
    assert_eq!(r.seek(SeekTarget::Current(0)), Ok(0));
    assert_eq!(r.seek(SeekTarget::Current(1)), Err(SeekError::Unsupported));
    assert_eq!(r.seek(SeekTarget::Start(0)), Err(SeekError::Unsupported));
    assert_eq!(r.seek(SeekTarget::End(0)), Err(SeekError::Unsupported));
}

#[test]
fn fill_buffer_takes_sent_chunks_then_sees_the_end() {
    let (tx, rx) = mpsc::channel::<Vec<u8>>();
    let mut r = StreamingReader::new(rx);
    assert!(r.is_waiting());
    tx.send(vec![7, 8]).unwrap();
    r.fill_buffer();
    assert!(!r.is_waiting());
    drop(tx);
    r.fill_buffer();
    let mut buf = [0u8; 8];
    assert_eq!(r.read_buffered(&mut buf), 2);
    assert_eq!(&buf[..2], &[7, 8]);
    assert!(r.is_exhausted());
    r.fill_buffer();
    assert!(r.is_exhausted());
    assert_eq!(r.read_buffered(&mut buf), 0);
}

#[test]
fn nothing_is_taken_in_after_the_end() {
    let (_tx, rx) = mpsc::channel::<Vec<u8>>();
    let mut r = StreamingReader::new(rx);
    r.apply_receipt(ChunkReceipt::Disconnected);
    r.apply_receipt(ChunkReceipt::Chunk(vec![1]));
    assert!(r.is_exhausted());
    let mut buf = [0u8; 1];
    assert_eq!(r.read_buffered(&mut buf), 0);
}

#[test]
fn empty_buffer_reads_nothing() {
    let (_tx, rx) = mpsc::channel::<Vec<u8>>();
    let mut r = StreamingReader::new(rx);
    r.apply_receipt(ChunkReceipt::Chunk(vec![1, 2]));
    let mut buf: [u8; 0] = [];
    assert_eq!(r.read_buffered(&mut buf), 0);
    assert_eq!(r.seek(SeekTarget::Current(0)), Ok(0));
}
