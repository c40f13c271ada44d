//! Framing of requests on the control channel: a 4-byte big-endian length,
//! then exactly that many bytes of encoded request.
use vstd::prelude::*;

verus! {

/// Why a frame could not be made or read.
#[derive(Debug, Clone, Copy, PartialEq, Eq, Structural)]
pub enum FrameError {
    /// The payload is longer than a 32-bit length can say.
    TooLarge,
    /// Fewer than four bytes: the length prefix is incomplete.
    ShortHeader,
    /// Fewer payload bytes than the prefix announces.
    ShortBody,
}

/// The four big-endian bytes of `n`.
pub open spec fn be_bytes(n: u32) -> Seq<u8> {
    seq![(n >> 24u32) as u8, (n >> 16u32) as u8, (n >> 8u32) as u8, n as u8]
}

/// The number that four big-endian bytes denote.
pub open spec fn be_value(b0: u8, b1: u8, b2: u8, b3: u8) -> u32 {
    ((b0 as u32) << 24u32) | ((b1 as u32) << 16u32) | ((b2 as u32) << 8u32) | (b3 as u32)
}

/// The frame that carries `payload`.
pub open spec fn frame_of(payload: Seq<u8>) -> Seq<u8> {
    be_bytes(payload.len() as u32) + payload
}

/// The payload that the bytes `buf` carry, read from their start; bytes
/// after the announced length are not part of it.
pub open spec fn payload_of(buf: Seq<u8>) -> Result<Seq<u8>, FrameError> {
    if buf.len() < 4 {
        Err(FrameError::ShortHeader)
    } else {
        let n = be_value(buf[0], buf[1], buf[2], buf[3]);
        if buf.len() - 4 < n {
            Err(FrameError::ShortBody)
        } else {
            Ok(buf.subrange(4, 4 + n))
        }
    }
}

proof fn lemma_be_round_trip(n: u32)
    ensures
        be_value((n >> 24u32) as u8, (n >> 16u32) as u8, (n >> 8u32) as u8, n as u8) == n,
{
    assert(((((n >> 24u32) as u8) as u32) << 24u32) | ((((n >> 16u32) as u8) as u32) << 16u32)
        | ((((n >> 8u32) as u8) as u32) << 8u32) | ((n as u8) as u32) == n) by (bit_vector);
}

/// Framing round trip: reading the frame of any payload that a 32-bit length
/// can describe gives back that payload, byte for byte, whatever follows it.
pub proof fn lemma_frame_round_trip(payload: Seq<u8>, rest: Seq<u8>)
    requires
        payload.len() <= u32::MAX,
    ensures
        payload_of(frame_of(payload)) == Ok::<Seq<u8>, FrameError>(payload),
        payload_of(frame_of(payload) + rest) == Ok::<Seq<u8>, FrameError>(payload),
{
    let n = payload.len() as u32;
    lemma_be_round_trip(n);
    let f = frame_of(payload);
    assert(f.subrange(4, 4 + n) =~= payload);
    assert((f + rest).subrange(4, 4 + n) =~= payload);
    assert((f + rest)[0] == f[0] && (f + rest)[1] == f[1] && (f + rest)[2] == f[2] && (f + rest)[3] == f[3]);
}

/// The frame that carries `payload`: its length in four big-endian bytes,
/// then the payload.
pub fn encode_frame(payload: &Vec<u8>) -> (r: Result<Vec<u8>, FrameError>)
    ensures
        payload@.len() <= u32::MAX ==> r == Ok::<Vec<u8>, FrameError>(r->Ok_0) && r->Ok_0@ == frame_of(payload@),
        payload@.len() > u32::MAX ==> r == Err::<Vec<u8>, FrameError>(FrameError::TooLarge),
{
    if payload.len() > 4294967295usize {
        return Err(FrameError::TooLarge);
    }
    let n = payload.len() as u32;
    let mut out: Vec<u8> = Vec::new();
    out.push((n >> 24u32) as u8);
    out.push((n >> 16u32) as u8);
    out.push((n >> 8u32) as u8);
    out.push(n as u8);
    let mut i: usize = 0;
    while i < payload.len()
        invariant
            i <= payload@.len(),
            n == payload@.len(),
            out@ == be_bytes(n) + payload@.take(i as int),
        decreases payload@.len() - i,
    {
        out.push(payload[i]);
        assert(payload@.take(i + 1) =~= payload@.take(i as int).push(payload@[i as int]));
        i = i + 1;
    }
    assert(payload@.take(i as int) =~= payload@);
    Ok(out)
}

/// The length that a four-byte prefix announces.
pub fn frame_length(header: &[u8]) -> (r: Result<u32, FrameError>)
    ensures
        header@.len() < 4 ==> r == Err::<u32, FrameError>(FrameError::ShortHeader),
        header@.len() >= 4 ==> r == Ok::<u32, FrameError>(
            be_value(header@[0], header@[1], header@[2], header@[3]),
        ),
{
    if header.len() < 4 {
        return Err(FrameError::ShortHeader);
    }
    let b0 = header[0];
    let b1 = header[1];
    let b2 = header[2];
    let b3 = header[3];
    Ok(((b0 as u32) << 24u32) | ((b1 as u32) << 16u32) | ((b2 as u32) << 8u32) | (b3 as u32))
}

/// The payload at the start of `buf`: the announced number of bytes after
/// the four-byte prefix.
pub fn decode_frame(buf: &[u8]) -> (r: Result<Vec<u8>, FrameError>)
    ensures
        match payload_of(buf@) {
            Ok(p) => r is Ok && r->Ok_0@ == p,
            Err(e) => r == Err::<Vec<u8>, FrameError>(e),
        },
{
    let n = match frame_length(buf) {
        Ok(n) => n,
        Err(e) => { return Err(e); }
    };
    if buf.len() - 4 < n as usize {
        return Err(FrameError::ShortBody);
    }
    let end: usize = 4 + n as usize;
    let mut out: Vec<u8> = Vec::new();
    let mut i: usize = 4;
    while i < end
        invariant
            4 <= i <= end,
            end <= buf@.len(),
            out@ == buf@.subrange(4, i as int),
        decreases end - i,
    {
        out.push(buf[i]);
        assert(buf@.subrange(4, i + 1) =~= buf@.subrange(4, i as int).push(buf@[i as int]));
        i = i + 1;
    }
    Ok(out)
}

} // verus!
