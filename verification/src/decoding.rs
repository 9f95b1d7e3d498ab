//! Feeding the decoder: how much of the received audio is decoded at a time, how
//! decoded channels become one interleaved stereo stream, and how much of it is kept.
//!
//! Sample values are never looked at, so the sample type is left open.

use vstd::prelude::*;
use std::collections::VecDeque;
use vstd::slice::{slice_subrange, slice_to_vec};

verus! {

/// Decoding waits until at least this many bytes are buffered.
pub const MIN_DECODE_BYTES: usize = 16384;

/// At most this many bytes are decoded at a time.
pub const MAX_DECODE_BYTES: usize = 65536;

/// At most this many samples are kept: five seconds of 44.1 kHz stereo.
pub const MAX_BUFFERED_SAMPLES: usize = 441000;

/// The number of bytes the next decode takes from a buffer of `len` bytes.
pub open spec fn decode_take(len: nat) -> nat {
    if len < MIN_DECODE_BYTES {
        0
    } else if len < MAX_DECODE_BYTES {
        len
    } else {
        MAX_DECODE_BYTES as nat
    }
}

/// The last `cap` elements of `s`, or all of `s` where it is shorter.
pub open spec fn latest<T>(s: Seq<T>, cap: nat) -> Seq<T> {
    if s.len() > cap {
        s.skip(s.len() - cap)
    } else {
        s
    }
}

/// `out` holds each element of `mono` twice in a row (left and right).
pub open spec fn is_duplicated<T>(mono: Seq<T>, out: Seq<T>) -> bool {
    &&& out.len() == 2 * mono.len()
    &&& forall|j: int| 0 <= j < mono.len() ==> out[2 * j] == mono[j] && #[trigger] out[2 * j + 1] == mono[j]
}

/// `out` alternates the elements of `left` and `right`, as far as both reach.
pub open spec fn is_interleaved<T>(left: Seq<T>, right: Seq<T>, out: Seq<T>) -> bool {
    let n = if left.len() < right.len() { left.len() } else { right.len() };
    &&& out.len() == 2 * n
    &&& forall|j: int| 0 <= j < n ==> out[2 * j] == left[j] && #[trigger] out[2 * j + 1] == right[j]
}

/// Takes the next piece to decode from the front of `buffer`: nothing while fewer
/// than `MIN_DECODE_BYTES` are buffered, else up to `MAX_DECODE_BYTES`.
pub fn take_decode_chunk(buffer: &mut Vec<u8>) -> (chunk: Option<Vec<u8>>)
    ensures
        old(buffer)@.len() < MIN_DECODE_BYTES ==> chunk is None && final(buffer)@ == old(buffer)@,
        old(buffer)@.len() >= MIN_DECODE_BYTES ==> (chunk matches Some(c) && c@ == old(buffer)@.take(
            decode_take(old(buffer)@.len()) as int,
        ) && final(buffer)@ == old(buffer)@.skip(decode_take(old(buffer)@.len()) as int)),
        old(buffer)@.len() >= MIN_DECODE_BYTES ==> (chunk matches Some(c) && {
            &&& c@.len() == if old(buffer)@.len() < MAX_DECODE_BYTES {
                old(buffer)@.len()
            } else {
                MAX_DECODE_BYTES as nat
            }
            &&& c@ + final(buffer)@ == old(buffer)@
        }),
{
    let len = buffer.len();
    if len < MIN_DECODE_BYTES {
        return None;
    }
    let n = if len < MAX_DECODE_BYTES { len } else { MAX_DECODE_BYTES };
    let chunk = slice_to_vec(slice_subrange(buffer.as_slice(), 0, n));
    let rest = buffer.split_off(n);
    *buffer = rest;
    proof {
        assert(chunk@ + buffer@ =~= old(buffer)@);
    }
    Some(chunk)
}

/// Drops elements from the front of `buf` until at most `cap` remain.
pub fn keep_latest<T>(buf: &mut VecDeque<T>, cap: usize)
    ensures
        final(buf)@ == latest(old(buf)@, cap as nat),
        old(buf)@.len() <= cap ==> final(buf)@ == old(buf)@,
        old(buf)@.len() > cap ==> final(buf)@ == old(buf)@.skip(old(buf)@.len() - cap),
{
    let ghost start = buf@;
    let ghost mut dropped: int = 0;
    while buf.len() > cap
        invariant
            0 <= dropped <= start.len(),
            buf@ == start.skip(dropped),
            start.len() <= cap ==> dropped == 0,
            start.len() > cap ==> dropped <= start.len() - cap,
        decreases buf@.len(),
    {
        let _ = buf.pop_front();
        proof {
            dropped = dropped + 1;
            assert(buf@ =~= start.skip(dropped));
        }
    }
    proof {
        if start.len() <= cap {
            assert(buf@ =~= start);
        }
    }
}

/// Appends `samples` to `buf`, then keeps only the latest `cap` elements.
pub fn push_samples<T: Copy>(buf: &mut VecDeque<T>, samples: &[T], cap: usize)
    ensures
        final(buf)@ == latest(old(buf)@ + samples@, cap as nat),
        final(buf)@.len() <= cap || final(buf)@ == old(buf)@ + samples@,
        final(buf)@ == (old(buf)@ + samples@).skip((old(buf)@ + samples@).len() - final(buf)@.len()),
{
    let ghost start = buf@;
    let mut i: usize = 0;
    while i < samples.len()
        invariant
            i <= samples@.len(),
            buf@ == start + samples@.take(i as int),
        decreases samples@.len() - i,
    {
        buf.push_back(samples[i]);
        proof {
            assert(start + samples@.take(i + 1) =~= (start + samples@.take(i as int)).push(samples@[i as int]));
        }
        i = i + 1;
    }
    assert(samples@.take(samples@.len() as int) =~= samples@);
    keep_latest(buf, cap);
}

/// Stereo samples from one channel: each sample is played left and right.
pub fn stereo_from_mono<T: Copy>(mono: &[T]) -> (out: Vec<T>)
    ensures
        is_duplicated(mono@, out@),
{
    let mut out: Vec<T> = Vec::new();
    let mut i: usize = 0;
    while i < mono.len()
        invariant
            i <= mono@.len(),
            out@.len() == 2 * i,
            forall|j: int| 0 <= j < i ==> out@[2 * j] == #[trigger] mono@[j] && out@[2 * j + 1] == mono@[j],
        decreases mono@.len() - i,
    {
        let s = mono[i];
        out.push(s);
        out.push(s);
        i = i + 1;
    }
    out
}

/// Stereo samples from two channels, alternating left and right, as far as both reach.
pub fn interleave_stereo<T: Copy>(left: &[T], right: &[T]) -> (out: Vec<T>)
    ensures
        is_interleaved(left@, right@, out@),
{
    let n = if left.len() < right.len() { left.len() } else { right.len() };
    let mut out: Vec<T> = Vec::new();
    let mut i: usize = 0;
    while i < n
        invariant
            n <= left@.len(),
            n <= right@.len(),
            n == if left@.len() < right@.len() { left@.len() } else { right@.len() },
            i <= n,
            out@.len() == 2 * i,
            forall|j: int| 0 <= j < i ==> out@[2 * j] == #[trigger] left@[j] && out@[2 * j + 1] == right@[j],
        decreases n - i,
    {
        out.push(left[i]);
        out.push(right[i]);
        i = i + 1;
    }
    assert forall|j: int| 0 <= j < n implies out@[2 * j] == left@[j] && #[trigger] out@[2 * j + 1] == right@[j] by {
        assert(left@[j] == out@[2 * j]);
    }
    out
}

/// Stereo samples from a decoded buffer given by its first channel and, where it has
/// more than one, its second: a single channel is duplicated, otherwise the first two
/// are interleaved. `None` where no sample results.
pub fn stereo_samples<T: Copy>(first: &[T], second: Option<&[T]>) -> (res: Option<Vec<T>>)
    ensures
        second is None ==> (first@.len() == 0 <==> res is None),
        second matches Some(r) ==> ((first@.len() == 0 || r@.len() == 0) <==> res is None),
        res matches Some(out) ==> match second {
            None => is_duplicated(first@, out@),
            Some(r) => is_interleaved(first@, r@, out@),
        },
{
    let out = match second {
        None => stereo_from_mono(first),
        Some(r) => interleave_stereo(first, r),
    };
    if out.len() == 0 {
        None
    } else {
        Some(out)
    }
}

} // verus!
