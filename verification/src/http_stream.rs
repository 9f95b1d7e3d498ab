//! Decisions of the network task: which stream to play and what to tell the user
//! while chunks arrive.

use vstd::prelude::*;
use crate::text::{concat3, contains_str, decimal, decimal_string, occurs_in};

verus! {

/// A status line is published after every this many chunks.
pub const STATUS_EVERY_CHUNKS: u64 = 50;

/// The status while connecting to the channel `name`.
pub open spec fn connecting_text(name: Seq<char>) -> Seq<char> {
    "Connecting to "@ + name + "..."@
}

/// The status after a stream error with message `message`.
pub open spec fn error_text(message: Seq<char>) -> Seq<char> {
    "Error: "@ + message + " (retrying...)"@
}

/// The status once connected.
pub open spec fn connected_text() -> Seq<char> {
    "Connected - streaming audio"@
}

/// The periodic status: chunks and whole KiB received.
pub open spec fn streaming_text(chunks: nat, total_bytes: nat) -> Seq<char> {
    "Streaming: "@ + decimal(chunks) + " chunks, "@ + decimal(total_bytes / 1024) + " KB"@
}

/// The status while connecting to the channel `name`.
pub fn connecting_status(name: &str) -> (res: String)
    ensures
        res@ == connecting_text(name@),
{
    concat3("Connecting to ", name, "...")
}

/// The status after a stream error with message `message`.
pub fn error_status(message: &str) -> (res: String)
    ensures
        res@ == error_text(message@),
{
    concat3("Error: ", message, " (retrying...)")
}

/// The status once connected.
pub fn connected_status() -> (res: String)
    ensures
        res@ == connected_text(),
{
    String::from_str("Connected - streaming audio")
}

/// The periodic status for `chunks` chunks and `total_bytes` bytes.
pub fn streaming_status(chunks: u64, total_bytes: u64) -> (res: String)
    ensures
        res@ == streaming_text(chunks as nat, total_bytes as nat),
        res@ == "Streaming: "@ + decimal(chunks as nat) + " chunks, "@ + decimal(
            (total_bytes / 1024) as nat,
        ) + " KB"@,
{
    let c = decimal_string(chunks);
    let k = decimal_string(total_bytes / 1024);
    let head = concat3("Streaming: ", c.as_str(), " chunks, ");
    concat3(head.as_str(), k.as_str(), " KB")
}

/// The file extension of a recording of the stream at `url`.
pub open spec fn recording_extension_of(url: Seq<char>) -> Seq<char> {
    if occurs_in("stream.mp3"@, url) {
        "mp3"@
    } else {
        "aac"@
    }
}

/// The file extension of a recording of the stream at `url`: `mp3` for the MP3
/// stream, `aac` otherwise.
pub fn recording_extension(url: &str) -> (res: &'static str)
    ensures
        res@ == recording_extension_of(url@),
{
    if contains_str(url, "stream.mp3") {
        "mp3"
    } else {
        "aac"
    }
}

/// What to do with a chunk that arrived.
#[derive(Debug)]
pub enum ChunkAction {
    /// An empty chunk: pass over it.
    Skip,
    /// Hand the chunk on; where a status is given, publish it.
    Forward(Option<String>),
}

/// Counts of the chunks and bytes of one connection.
#[derive(Debug, Clone, Copy, PartialEq, Eq)]
pub struct StreamProgress {
    pub chunk_count: u64,
    pub total_bytes: u64,
}

impl StreamProgress {
    /// Nothing received yet.
    pub fn new() -> (p: Self)
        ensures
            p.chunk_count == 0,
            p.total_bytes == 0,
    {
        StreamProgress { chunk_count: 0, total_bytes: 0 }
    }

    /// Counts a chunk of `len` bytes. Empty chunks are skipped and not counted; every
    /// `STATUS_EVERY_CHUNKS`-th counted chunk comes with a status line.
    pub fn on_chunk(&mut self, len: usize) -> (action: ChunkAction)
        requires
            old(self).chunk_count < u64::MAX,
            old(self).total_bytes + len <= u64::MAX,
        ensures
            len == 0 ==> action is Skip && *final(self) == *old(self),
            len > 0 ==> {
                &&& final(self).chunk_count == old(self).chunk_count + 1
                &&& final(self).total_bytes == old(self).total_bytes + len
                &&& action matches ChunkAction::Forward(status) && {
                    &&& status is Some <==> final(self).chunk_count % STATUS_EVERY_CHUNKS == 0
                    &&& status matches Some(s) ==> s@ == streaming_text(
                        final(self).chunk_count as nat,
                        final(self).total_bytes as nat,
                    )
                }
            },
    {
        if len == 0 {
            return ChunkAction::Skip;
        }
        self.chunk_count = self.chunk_count + 1;
        self.total_bytes = self.total_bytes + len as u64;
        if self.chunk_count % STATUS_EVERY_CHUNKS == 0 {
            ChunkAction::Forward(Some(streaming_status(self.chunk_count, self.total_bytes)))
        } else {
            ChunkAction::Forward(None)
        }
    }
}

} // verus!
