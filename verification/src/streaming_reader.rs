//! A byte reader over audio chunks that arrive on a channel from the network task.
//!
//! Chunks are appended to a queue as they arrive; reads take bytes from its front.
//! The reader keeps count of the bytes handed out, which is the only position it can
//! report: it cannot seek.

use vstd::prelude::*;
use std::collections::VecDeque;
use std::sync::Arc;
use std::sync::Mutex;
use std::sync::MutexGuard;
use std::sync::mpsc::Receiver;

verus! {

#[verifier::external_type_specification]
#[verifier::external_body]
#[verifier::reject_recursive_types(T)]
pub struct ExMutex<T: ?Sized>(Mutex<T>);

#[verifier::external_type_specification]
#[verifier::external_body]
#[verifier::reject_recursive_types(T)]
pub struct ExMutexGuard<'a, T: ?Sized + 'a>(MutexGuard<'a, T>);

#[verifier::external_type_specification]
#[verifier::external_body]
#[verifier::reject_recursive_types(T)]
pub struct ExReceiver<T>(Receiver<T>);

/// `Mutex::new`: a mutex holding `t` (nothing about the mutex is visible here).
pub assume_specification<T>[ Mutex::<T>::new ](t: T) -> Mutex<T>;

/// Milliseconds that one attempt to receive a chunk waits.
pub const RECEIVE_TIMEOUT_MS: u64 = 100;

/// What one attempt to receive a chunk brought.
#[derive(Debug)]
pub enum ChunkReceipt {
    /// A chunk of audio bytes.
    Chunk(Vec<u8>),
    /// Nothing arrived in time.
    Timeout,
    /// The sending side is gone: no more data will come.
    Disconnected,
}

/// Where a seek asks to go.
#[derive(Debug, Clone, Copy, PartialEq, Eq)]
pub enum SeekTarget {
    Start(u64),
    End(i64),
    Current(i64),
}

/// Why a seek was refused.
#[derive(Debug, Clone, Copy, PartialEq, Eq)]
pub enum SeekError {
    /// The stream can only report where it is, not move.
    Unsupported,
}

/// The state of a reader, as seen by its contracts.
pub ghost struct ReaderView {
    /// Bytes received and not yet read, oldest first.
    pub buffered: Seq<u8>,
    /// Bytes read so far.
    pub position: u64,
    /// The sending side has gone away.
    pub finished: bool,
}

/// A reader over the audio chunks sent on a channel.
#[derive(Clone)]
pub struct StreamingReader {
    receiver: Arc<Mutex<Receiver<Vec<u8>>>>,
    buffer: VecDeque<u8>,
    position: u64,
    finished: bool,
}

/// `Mutex::lock`: exclusive access to the shared receiver, blocking until it is free.
/// A poisoned lock still hands out the receiver, which no panic can leave in a broken
/// state. Nothing about the guard is visible here.
#[verifier::external_body]
fn lock_receiver(receiver: &Arc<Mutex<Receiver<Vec<u8>>>>) -> (guard: MutexGuard<'_, Receiver<Vec<u8>>>) {
    match receiver.lock() {
        Ok(guard) => guard,
        Err(poisoned) => poisoned.into_inner(),
    }
}

/// `Receiver::recv_timeout`: waits up to `timeout_ms` milliseconds for the next chunk.
/// The outcome depends on the sending thread and on time, so nothing is promised of it.
#[verifier::external_body]
fn receive_chunk(receiver: &MutexGuard<'_, Receiver<Vec<u8>>>, timeout_ms: u64) -> (r: ChunkReceipt) {
    match receiver.recv_timeout(std::time::Duration::from_millis(timeout_ms)) {
        Ok(chunk) => ChunkReceipt::Chunk(chunk),
        Err(std::sync::mpsc::RecvTimeoutError::Timeout) => ChunkReceipt::Timeout,
        Err(std::sync::mpsc::RecvTimeoutError::Disconnected) => ChunkReceipt::Disconnected,
    }
}

/// The state after a receipt arrives in state `v`.
pub open spec fn after_receipt(v: ReaderView, r: ChunkReceipt) -> ReaderView {
    if v.finished {
        v
    } else {
        match r {
            ChunkReceipt::Chunk(c) => ReaderView { buffered: v.buffered + c@, ..v },
            ChunkReceipt::Timeout => v,
            ChunkReceipt::Disconnected => ReaderView { finished: true, ..v },
        }
    }
}

/// Number of bytes a read into a buffer of `capacity` bytes takes from state `v`.
pub open spec fn read_len(v: ReaderView, capacity: nat) -> nat {
    if capacity < v.buffered.len() {
        capacity
    } else {
        v.buffered.len()
    }
}

/// The state after a read of `n` bytes from state `v`.
pub open spec fn after_read(v: ReaderView, n: nat) -> ReaderView {
    ReaderView {
        buffered: v.buffered.skip(n as int),
        position: (v.position + n) as u64,
        finished: v.finished,
    }
}

impl View for StreamingReader {
    type V = ReaderView;

    closed spec fn view(&self) -> ReaderView {
        ReaderView { buffered: self.buffer@, position: self.position, finished: self.finished }
    }
}

impl StreamingReader {
    /// A reader over the chunks that `receiver` delivers, with nothing buffered yet.
    pub fn new(receiver: Receiver<Vec<u8>>) -> (r: Self)
        ensures
            r@.buffered == Seq::<u8>::empty(),
            r@.position == 0,
            !r@.finished,
    {
        StreamingReader {
            receiver: Arc::new(Mutex::new(receiver)),
            buffer: VecDeque::new(),
            position: 0,
            finished: false,
        }
    }

    /// Takes in what one attempt to receive brought: a chunk goes to the back of the
    /// queue, a disconnection ends the stream. Nothing changes once the stream has ended.
    pub fn apply_receipt(&mut self, receipt: ChunkReceipt)
        ensures
            final(self)@ == after_receipt(old(self)@, receipt),
            receipt is Timeout ==> final(self)@ == old(self)@,
            final(self)@.finished <==> (old(self)@.finished || receipt is Disconnected),
            final(self)@.position == old(self)@.position,
            receipt is Disconnected ==> final(self)@.buffered == old(self)@.buffered,
            receipt matches ChunkReceipt::Chunk(c) ==> final(self)@.buffered == if old(
                self,
            )@.finished {
                old(self)@.buffered
            } else {
                old(self)@.buffered + c@
            },
    {
        if self.finished {
            return;
        }
        proof {
            assert(self@ == old(self)@);
        }
        match receipt {
            ChunkReceipt::Chunk(chunk) => {
                let ghost before = self.buffer@;
                let mut i: usize = 0;
                while i < chunk.len()
                    invariant
                        i <= chunk@.len(),
                        self.buffer@ == before + chunk@.subrange(0, i as int),
                        self.position == old(self).position,
                        self.finished == old(self).finished,
                        before == old(self)@.buffered,
                        !self.finished,
                    decreases chunk@.len() - i,
                {
                    self.buffer.push_back(chunk[i]);
                    proof {
                        assert(chunk@.subrange(0, i + 1) == chunk@.subrange(0, i as int).push(
                            chunk@[i as int],
                        ));
                    }
                    i = i + 1;
                }
                proof {
                    assert(chunk@.subrange(0, chunk@.len() as int) == chunk@);
                }
            },
            ChunkReceipt::Timeout => {},
            ChunkReceipt::Disconnected => {
                self.finished = true;
            },
        }
    }

    /// Waits a short while for the next chunk and takes it in. Whatever arrives, the
    /// bytes already buffered stay in front and nothing is read; once the stream has
    /// ended nothing changes. The new state is the old one after exactly one receipt:
    /// which one depends on the sending thread and on time.
    pub fn fill_buffer(&mut self)
        ensures
            exists|r: ChunkReceipt| final(self)@ == #[trigger] after_receipt(old(self)@, r),
            old(self)@.finished ==> final(self)@ == old(self)@,
            final(self)@.position == old(self)@.position,
            old(self)@.buffered.is_prefix_of(final(self)@.buffered),
            final(self)@.finished ==> final(self)@.buffered == old(self)@.buffered,
            old(self)@.finished ==> final(self)@.finished,
    {
        if self.finished {
            assert(self@ == after_receipt(old(self)@, ChunkReceipt::Timeout));
            return;
        }
        let receipt = {
            let guard = lock_receiver(&self.receiver);
            receive_chunk(&guard, RECEIVE_TIMEOUT_MS)
        };
        let ghost got = receipt;
        self.apply_receipt(receipt);
        assert(self@ == after_receipt(old(self)@, got));
    }

    /// Whether a read would have to wait: nothing is buffered and more may come.
    pub fn is_waiting(&self) -> (res: bool)
        ensures
            res == (self@.buffered.len() == 0 && !self@.finished),
    {
        self.buffer.len() == 0 && !self.finished
    }

    /// Whether the stream has ended and everything received has been read.
    pub fn is_exhausted(&self) -> (res: bool)
        ensures
            res == (self@.buffered.len() == 0 && self@.finished),
    {
        self.buffer.len() == 0 && self.finished
    }

    /// Moves as many buffered bytes as fit into `buf`, oldest first, and returns how
    /// many. Returns 0 only where nothing is buffered or `buf` is empty.
    pub fn read_buffered(&mut self, buf: &mut [u8]) -> (n: usize)
        requires
            old(self)@.position + read_len(old(self)@, old(buf)@.len()) <= u64::MAX,
        ensures
            n == read_len(old(self)@, old(buf)@.len()),
            final(buf)@.len() == old(buf)@.len(),
            final(buf)@.subrange(0, n as int) == old(self)@.buffered.subrange(0, n as int),
            final(buf)@.skip(n as int) == old(buf)@.skip(n as int),
            final(self)@ == after_read(old(self)@, n as nat),
            n as nat == if old(buf)@.len() < old(self)@.buffered.len() {
                old(buf)@.len()
            } else {
                old(self)@.buffered.len()
            },
            final(self)@.buffered == old(self)@.buffered.skip(n as int),
            final(self)@.position == old(self)@.position + n,
            final(self)@.finished == old(self)@.finished,
    {
        let n: usize = if buf.len() < self.buffer.len() {
            buf.len()
        } else {
            self.buffer.len()
        };
        let ghost before = self.buffer@;
        let ghost old_buf = buf@;
        let mut i: usize = 0;
        while i < n
            invariant
                n <= before.len(),
                n <= old_buf.len(),
                i <= n,
                buf@.len() == old_buf.len(),
                self.buffer@ == before.skip(i as int),
                buf@.subrange(0, i as int) == before.subrange(0, i as int),
                buf@.skip(n as int) == old_buf.skip(n as int),
                self.position == old(self).position,
                self.finished == old(self).finished,
                before == old(self)@.buffered,
            decreases n - i,
        {
            match self.buffer.pop_front() {
                Some(b) => {
                    buf[i] = b;
                },
                None => {
                    assert(false);
                },
            }
            proof {
                assert(buf@.subrange(0, i + 1) =~= before.subrange(0, i + 1));
                assert(buf@.skip(n as int) =~= old_buf.skip(n as int));
                assert(self.buffer@ =~= before.skip(i + 1));
            }
            i = i + 1;
        }
        self.position = self.position + n as u64;
        n
    }

    /// Where the stream stands: the number of bytes read. Only `Current(0)` can be
    /// answered; every other target is refused.
    pub fn seek(&self, target: SeekTarget) -> (res: Result<u64, SeekError>)
        ensures
            target == SeekTarget::Current(0) ==> res == Ok::<u64, SeekError>(self@.position),
            target != SeekTarget::Current(0) ==> res == Err::<u64, SeekError>(SeekError::Unsupported),
    {
        match target {
            SeekTarget::Current(0) => Ok(self.position),
            _ => Err(SeekError::Unsupported),
        }
    }
}

} // verus!
