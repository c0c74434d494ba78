//! Length-prefixed frames: a 4-byte big-endian length, then that many bytes.

use vstd::prelude::*;

verus! {

/// Largest payload accepted by default when reading a frame (16 MiB).
pub const DEFAULT_FRAME_CAP: usize = 16777216;

/// The four bytes of `n`, most significant first.
pub open spec fn be_bytes(n: u32) -> Seq<u8> {
    seq![
        (n / 0x1000000) as u8,
        ((n / 0x10000) % 0x100) as u8,
        ((n / 0x100) % 0x100) as u8,
        (n % 0x100) as u8,
    ]
}

/// The number that four big-endian bytes stand for.
pub open spec fn be_value(b: Seq<u8>) -> nat
    recommends
        b.len() >= 4,
{
    (b[0] as nat) * 0x1000000 + (b[1] as nat) * 0x10000 + (b[2] as nat) * 0x100 + (b[3] as nat)
}

/// The frame that carries `payload`.
pub open spec fn frame_of(payload: Seq<u8>) -> Seq<u8> {
    be_bytes(payload.len() as u32) + payload
}

/// Why no frame could be taken from the front of a buffer.
#[derive(Debug, Clone, Copy, PartialEq, Eq, Structural)]
pub enum FrameError {
    /// The buffer ends before the frame does: more bytes are needed.
    Incomplete,
    /// The declared length is over the cap; the stream cannot be resynchronised.
    TooLarge,
}

/// The payload of the frame at the front of `buf`, read with payload cap `cap`.
pub open spec fn read_frame_spec(buf: Seq<u8>, cap: nat) -> Result<Seq<u8>, FrameError> {
    if buf.len() < 4 {
        Err(FrameError::Incomplete)
    } else if be_value(buf) > cap {
        Err(FrameError::TooLarge)
    } else if buf.len() < 4 + be_value(buf) {
        Err(FrameError::Incomplete)
    } else {
        Ok(buf.subrange(4, 4 + be_value(buf) as int))
    }
}

proof fn lemma_be_round_trip(n: u32)
    ensures
        be_value(be_bytes(n)) == n,
{
    let b0 = n / 0x1000000;
    let b1 = (n / 0x10000) % 0x100;
    let b2 = (n / 0x100) % 0x100;
    let b3 = n % 0x100;
    assert(b0 * 0x1000000 + b1 * 0x10000 + b2 * 0x100 + b3 == n && b0 < 0x100) by (bit_vector)
        requires
            b0 == n / 0x1000000,
            b1 == (n / 0x10000) % 0x100,
            b2 == (n / 0x100) % 0x100,
            b3 == n % 0x100,
    ;
}

/// Writes the frame for `payload`: its length as four big-endian bytes, then
/// the payload itself.
pub fn write_frame(payload: &[u8]) -> (r: Vec<u8>)
    requires
        payload@.len() <= u32::MAX,
    ensures
        r@ == frame_of(payload@),
{
    let n: u32 = payload.len() as u32;
    let mut r: Vec<u8> = Vec::new();
    assert(n / 0x1000000 < 0x100) by (bit_vector);
    r.push((n / 0x1000000) as u8);
    r.push(((n / 0x10000) % 0x100) as u8);
    r.push(((n / 0x100) % 0x100) as u8);
    r.push((n % 0x100) as u8);
    let mut i: usize = 0;
    while i < payload.len()
        invariant
            i <= payload@.len(),
            r@ == be_bytes(n) + payload@.subrange(0, i as int),
        decreases payload@.len() - i,
    {
        r.push(payload[i]);
        assert(payload@.subrange(0, i + 1) == payload@.subrange(0, i as int).push(payload@[i as int]));
        i = i + 1;
    }
    assert(payload@.subrange(0, payload@.len() as int) == payload@);
    r
}

/// Takes the frame at the front of `buf`: reads the 4-byte length, refuses a
/// length over `cap`, and returns the payload once all of it is in `buf`.
/// The frame occupies the first `4 + payload.len()` bytes of `buf`.
pub fn read_frame(buf: &[u8], cap: usize) -> (r: Result<Vec<u8>, FrameError>)
    ensures
        match r {
            Ok(p) => read_frame_spec(buf@, cap as nat) == Ok::<Seq<u8>, FrameError>(p@),
            Err(e) => read_frame_spec(buf@, cap as nat) == Err::<Seq<u8>, FrameError>(e),
        },
{
    if buf.len() < 4 {
        return Err(FrameError::Incomplete);
    }
    let n: u64 = (buf[0] as u64) * 0x1000000 + (buf[1] as u64) * 0x10000 + (buf[2] as u64) * 0x100
        + (buf[3] as u64);
    assert(n == be_value(buf@));
    if n > cap as u64 {
        return Err(FrameError::TooLarge);
    }
    let len: usize = n as usize;
    if buf.len() - 4 < len {
        return Err(FrameError::Incomplete);
    }
    let mut p: Vec<u8> = Vec::with_capacity(len);
    let mut i: usize = 0;
    while i < len
        invariant
            i <= len,
            len as nat == be_value(buf@),
            4 + len <= buf.len(),
            p@ == buf@.subrange(4, 4 + i as int),
        decreases len - i,
    {
        p.push(buf[4 + i]);
        assert(buf@.subrange(4, 4 + i + 1) == buf@.subrange(4, 4 + i as int).push(buf@[4 + i]));
        i = i + 1;
    }
    Ok(p)
}

/// A frame written for a payload within the cap reads back as that payload,
/// whatever bytes follow it in the stream.
pub proof fn lemma_frame_round_trip(payload: Seq<u8>, rest: Seq<u8>, cap: nat)
    requires
        payload.len() <= cap,
        payload.len() <= u32::MAX,
    ensures
        read_frame_spec(frame_of(payload) + rest, cap) == Ok::<Seq<u8>, FrameError>(payload),
{
    let n = payload.len() as u32;
    lemma_be_round_trip(n);
    let buf = frame_of(payload) + rest;
    assert(buf.subrange(0, 4) == be_bytes(n));
    assert(be_value(buf) == be_value(be_bytes(n)));
    assert(buf.subrange(4, 4 + payload.len() as int) == payload);
}

} // verus!
