use aircrate::decoding::{
    interleave_stereo, keep_latest, push_samples, stereo_from_mono, stereo_samples, take_decode_chunk,
    MAX_BUFFERED_SAMPLES, MAX_DECODE_BYTES, MIN_DECODE_BYTES,
};
use std::collections::VecDeque;

#[test]
fn decode_waits_for_enough_bytes() {
    let mut b = vec![1u8; MIN_DECODE_BYTES - 1];
    assert!(take_decode_chunk(&mut b).is_none());
    assert_eq!(b.len(), MIN_DECODE_BYTES - 1);
    b.push(2);
    let c = take_decode_chunk(&mut b).unwrap();
    assert_eq!(c.len(), MIN_DECODE_BYTES);
    assert!(b.is_empty());
}

#[test]
fn decode_takes_at_most_the_maximum() {
    let mut b: Vec<u8> = (0..(MAX_DECODE_BYTES + 10)).map(|i| (i % 256) as u8).collect();
    let orig = b.clone();
    let c = take_decode_chunk(&mut b).unwrap();
    assert_eq!(c.len(), MAX_DECODE_BYTES);
    assert_eq!(b.len(), 10);
    let mut joined = c.clone();
    joined.extend_from_slice(&b);
    assert_eq!(joined, orig);
}

#[test]
fn samples_are_capped_keeping_the_newest() {
    let mut q: VecDeque<f32> = VecDeque::new();
    push_samples(&mut q, &[0.1, 0.2, 0.3], 2);
    assert_eq!(q.iter().copied().collect::<Vec<f32>>(), vec![0.2, 0.3]);
    let mut q: VecDeque<u8> = (0..10).collect();
    keep_latest(&mut q, 20);
    assert_eq!(q.len(), 10);
    keep_latest(&mut q, 3);
    assert_eq!(q.iter().copied().collect::<Vec<u8>>(), vec![7, 8, 9]);
    assert_eq!(MAX_BUFFERED_SAMPLES, 44100 * 5 * 2);
}

#[test]
fn stereo_conversion() {
    assert_eq!(stereo_from_mono(&[1.0f32, 2.0]), vec![1.0, 1.0, 2.0, 2.0]);
    assert_eq!(interleave_stereo(&[1, 2, 3], &[4, 5]), vec![1, 4, 2, 5]);
    assert_eq!(stereo_samples::<f32>(&[], None), None);
    assert_eq!(stereo_samples(&[0.5f32], None), Some(vec![0.5, 0.5]));
    assert_eq!(stereo_samples(&[1, 2], Some(&[3, 4][..])), Some(vec![1, 3, 2, 4]));
    assert_eq!(stereo_samples(&[1, 2], Some(&[][..])), None);
}
