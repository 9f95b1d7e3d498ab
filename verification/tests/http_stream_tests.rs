use aircrate::http_stream::{
    connected_status, connecting_status, error_status, recording_extension, streaming_status, ChunkAction,
    StreamProgress,
};

#[test]
fn status_texts() {
    assert_eq!(connecting_status("Flux"), "Connecting to Flux...");
    assert_eq!(error_status("timed out"), "Error: timed out (retrying...)");
    assert_eq!(connected_status(), "Connected - streaming audio");
    assert_eq!(streaming_status(50, 204800), "Streaming: 50 chunks, 200 KB");
    assert_eq!(streaming_status(100, 1023), "Streaming: 100 chunks, 0 KB");
}

#[test]
fn progress_reports_every_fifty_chunks() {
    let mut p = StreamProgress::new();
    assert!(matches!(p.on_chunk(0), ChunkAction::Skip));
    assert_eq!(p, StreamProgress::new());
    for i in 1..=49 {
        match p.on_chunk(2048) {
            ChunkAction::Forward(None) => {}
            other => panic!("chunk {}: {:?}", i, other),
        }
    }
    match p.on_chunk(2048) {
        ChunkAction::Forward(Some(s)) => assert_eq!(s, "Streaming: 50 chunks, 100 KB"),
        other => panic!("{:?}", other),
    }
    assert_eq!(p.chunk_count, 50);
    assert_eq!(p.total_bytes, 50 * 2048);
}

#[test]
fn recording_extension_follows_the_stream() {
    assert_eq!(recording_extension("https://x/stream.mp3?q=1"), "mp3");
    assert_eq!(recording_extension("https://x/stream.aac?q=1"), "aac");
}
