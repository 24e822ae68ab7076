//! Frame codec: the 16-byte little-endian wire header followed by the body.
//!
//! A frame is `command_id: u32 | body_length: u16 | sequence: u16 | 8 reserved
//! zero bytes | body`. Encoding and decoding are pure; the transport always
//! hands whole frames in and out.

use vstd::prelude::*;

verus! {

/// Why a buffer failed to parse as a frame.
#[derive(Debug, Clone, Copy, PartialEq, Eq, Structural)]
pub enum FrameError {
    /// Fewer than 16 bytes were present, so there is no complete header.
    Truncated,
    /// The declared body length does not equal the trailing payload length.
    LengthMismatch,
}

/// Little-endian bytes of a 16-bit value, low byte first.
pub open spec fn u16_le(x: u16) -> Seq<u8> {
    seq![(x % 256) as u8, (x / 256) as u8]
}

/// Little-endian bytes of a 32-bit value, low byte first.
pub open spec fn u32_le(x: u32) -> Seq<u8> {
    seq![
        (x % 256) as u8,
        ((x / 256) % 256) as u8,
        ((x / 0x10000) % 256) as u8,
        (x / 0x1000000) as u8,
    ]
}

/// The 16-bit value read little-endian from two bytes.
pub open spec fn u16_from_le(b0: u8, b1: u8) -> u16 {
    (b0 + b1 * 256) as u16
}

/// The eight reserved header bytes, always zero.
pub open spec fn reserved_zeros() -> Seq<u8> {
    Seq::new(8, |i: int| 0u8)
}

/// The whole encoded frame for a command: header then body.
pub open spec fn spec_encode(command_id: u32, sequence: u16, body: Seq<u8>) -> Seq<u8>
    recommends
        body.len() <= 0xFFFF,
{
    u32_le(command_id) + u16_le(body.len() as u16) + u16_le(sequence) + reserved_zeros() + body
}

/// What decoding a buffer yields: the declared body length, the sequence
/// number, and the payload; or the reason the buffer is not a frame.
pub open spec fn spec_decode(buf: Seq<u8>) -> Result<(u16, u16, Seq<u8>), FrameError> {
    if buf.len() < 16 {
        Err(FrameError::Truncated)
    } else if u16_from_le(buf[4], buf[5]) as int != buf.len() - 16 {
        Err(FrameError::LengthMismatch)
    } else {
        Ok((u16_from_le(buf[4], buf[5]), u16_from_le(buf[6], buf[7]), buf.skip(16)))
    }
}

/// Reading back the two little-endian bytes of a 16-bit value gives the
/// value itself.
pub proof fn lemma_u16_le_round(x: u16)
    ensures
        u16_from_le(u16_le(x)[0], u16_le(x)[1]) == x,
{
    vstd::arithmetic::div_mod::lemma_fundamental_div_mod(x as int, 256);
}

/// Encode the 16-byte header and append the body.
pub fn encode(command_id: u32, sequence: u16, body: &Vec<u8>) -> (r: Vec<u8>)
    requires
        body@.len() <= 0xFFFF,
    ensures
        r@ == spec_encode(command_id, sequence, body@),
        r@.len() == 16 + body@.len(),
{
    let mut r: Vec<u8> = Vec::new();
    r.push((command_id % 256) as u8);
    r.push(((command_id / 256) % 256) as u8);
    r.push(((command_id / 0x10000) % 256) as u8);
    r.push((command_id / 0x1000000) as u8);
    let body_len = body.len() as u16;
    r.push((body_len % 256) as u8);
    r.push((body_len / 256) as u8);
    r.push((sequence % 256) as u8);
    r.push((sequence / 256) as u8);
    let mut k: usize = 0;
    while k < 8
        invariant
            k <= 8,
            r@.len() == 8 + k,
            r@.subrange(0, 8) == u32_le(command_id) + u16_le(body_len) + u16_le(sequence),
            forall|i: int| 8 <= i < r@.len() ==> r@[i] == 0u8,
        decreases 8 - k,
    {
        r.push(0u8);
        assert(r@.subrange(0, 8) =~= u32_le(command_id) + u16_le(body_len) + u16_le(sequence));
        k += 1;
    }
    let ghost header = u32_le(command_id) + u16_le(body_len) + u16_le(sequence)
        + reserved_zeros();
    assert(r@ =~= header);
    let n = body.len();
    let mut j: usize = 0;
    while j < n
        invariant
            j <= n,
            n == body@.len(),
            r@ == header + body@.subrange(0, j as int),
        decreases n - j,
    {
        r.push(body[j]);
        assert(r@ =~= header + body@.subrange(0, j + 1 as int));
        j += 1;
    }
    assert(body@.subrange(0, n as int) =~= body@);
    assert(r@ =~= spec_encode(command_id, sequence, body@));
    r
}

/// Read a 16-bit value from two little-endian bytes.
pub fn read_u16_le(b0: u8, b1: u8) -> (r: u16)
    ensures
        r == u16_from_le(b0, b1),
{
    b0 as u16 + (b1 as u16) * 256
}

/// Parse a buffer as a frame: header length check, declared-length check,
/// then the payload copied out.
pub fn decode(buf: &Vec<u8>) -> (r: Result<(u16, u16, Vec<u8>), FrameError>)
    ensures
        match r {
            Ok(t) => spec_decode(buf@) == Ok::<(u16, u16, Seq<u8>), FrameError>((t.0, t.1, t.2@)),
            Err(e) => spec_decode(buf@) == Err::<(u16, u16, Seq<u8>), FrameError>(e),
        },
{
    if buf.len() < 16 {
        return Err(FrameError::Truncated);
    }
    let body_len = read_u16_le(buf[4], buf[5]);
    let sequence = read_u16_le(buf[6], buf[7]);
    if body_len as usize != buf.len() - 16 {
        return Err(FrameError::LengthMismatch);
    }
    let n = buf.len();
    let mut payload: Vec<u8> = Vec::new();
    let mut k: usize = 16;
    while k < n
        invariant
            16 <= k <= n,
            n == buf@.len(),
            payload@ == buf@.subrange(16, k as int),
        decreases n - k,
    {
        payload.push(buf[k]);
        assert(payload@ =~= buf@.subrange(16, k + 1 as int));
        k += 1;
    }
    assert(payload@ =~= buf@.skip(16));
    Ok((body_len, sequence, payload))
}

/// Frame round trip: decoding an encoded frame gives back the body length,
/// the sequence number, and the body, for every body that fits a frame.
pub proof fn lemma_frame_round_trip(command_id: u32, sequence: u16, body: Seq<u8>)
    requires
        body.len() <= 0xFFFF,
    ensures
        spec_decode(spec_encode(command_id, sequence, body))
            == Ok::<(u16, u16, Seq<u8>), FrameError>((body.len() as u16, sequence, body)),
{
    let e = spec_encode(command_id, sequence, body);
    let len16 = body.len() as u16;
    assert(e.len() == 16 + body.len());
    assert(e[4] == u16_le(len16)[0]);
    assert(e[5] == u16_le(len16)[1]);
    assert(e[6] == u16_le(sequence)[0]);
    assert(e[7] == u16_le(sequence)[1]);
    lemma_u16_le_round(len16);
    lemma_u16_le_round(sequence);
    assert(u16_from_le(e[4], e[5]) == len16);
    assert(u16_from_le(e[6], e[7]) == sequence);
    assert(e.skip(16) =~= body);
}

/// A buffer shorter than the fixed header always fails as truncated.
pub proof fn lemma_decode_truncated(buf: Seq<u8>)
    requires
        buf.len() < 16,
    ensures
        spec_decode(buf) == Err::<(u16, u16, Seq<u8>), FrameError>(FrameError::Truncated),
{
}

/// A header that declares more body bytes than actually follow always fails
/// as a length mismatch.
pub proof fn lemma_decode_length_mismatch(buf: Seq<u8>)
    requires
        buf.len() >= 16,
        u16_from_le(buf[4], buf[5]) as int > buf.len() - 16,
    ensures
        spec_decode(buf) == Err::<(u16, u16, Seq<u8>), FrameError>(FrameError::LengthMismatch),
{
}

} // verus!
