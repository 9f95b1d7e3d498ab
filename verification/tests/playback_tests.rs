use aircrate::playback::{CommandRecorder, PlaybackBuffer, PLAYBACK_TARGET_BYTES};

#[test]
fn playback_buffer_waits_for_target() {
    let mut b = PlaybackBuffer::new();
    assert!(!b.on_chunk(&vec![0u8; PLAYBACK_TARGET_BYTES - 1]));
    assert!(b.on_chunk(&[1u8]));
    assert_eq!(b.pending().len(), PLAYBACK_TARGET_BYTES);
    b.on_decode_result(true);
    assert!(b.pending().is_empty());
}

#[test]
fn failed_decodes_keep_data_within_bounds() {
    let mut b = PlaybackBuffer::new();
    b.on_chunk(&vec![0u8; 4 * PLAYBACK_TARGET_BYTES]);
    b.on_decode_result(false);
    assert_eq!(b.pending().len(), 4 * PLAYBACK_TARGET_BYTES);
    b.on_chunk(&[7u8; 10]);
    b.on_decode_result(false);
    assert_eq!(b.pending().len(), 3 * PLAYBACK_TARGET_BYTES + 10);
    assert_eq!(&b.pending()[b.pending().len() - 10..], &[7u8; 10]);
}

#[test]
fn save_command_writes_everything_since_the_last_one() {
    let mut r = CommandRecorder::new();
    assert!(r.on_save_command("A", "B").is_none());
    r.on_chunk(&[1, 2]);
    r.on_chunk(&[3]);
    let f = r.on_save_command("Air", "La Femme d'Argent").unwrap();
    assert_eq!(f.file_name, "./recordings/Air - La Femme d'Argent.aac");
    assert_eq!(f.data, vec![1, 2, 3]);
    assert!(r.on_save_command("A", "B").is_none());
    r.on_chunk(&[4]);
    r.discard();
    assert!(r.on_save_command("A", "B").is_none());
}
