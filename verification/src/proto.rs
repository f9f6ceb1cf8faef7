//! The framing of the client protocol: every message, each way, is a 32-bit
//! little-endian length followed by that many bytes.
use vstd::prelude::*;

verus! {

/// The number that four little-endian bytes spell.
pub open spec fn le_u32(b: Seq<u8>) -> int {
    b[0] + 256 * (b[1] + 256 * (b[2] + 256 * b[3]))
}

/// The four little-endian bytes of `v`.
pub open spec fn le_u32_bytes(v: u32) -> Seq<u8> {
    seq![(v % 256) as u8, (v / 256 % 256) as u8, (v / 65536 % 256) as u8, (v / 16777216 % 256) as u8]
}

/// The body length that a frame header announces.
pub fn frame_body_len(header: &[u8; 4]) -> (n: usize)
    ensures
        n == le_u32(header@),
{
    let v: u32 = header[0] as u32 + 256 * (header[1] as u32 + 256 * (header[2] as u32 + 256 * (
    header[3] as u32)));
    v as usize
}

/// A frame that carries `body`: its length, cut to 32 bits, then the body.
pub fn encode_frame(body: &Vec<u8>) -> (frame: Vec<u8>)
    ensures
        frame@ == le_u32_bytes(body@.len() as u32) + body@,
{
    let n: u32 = body.len() as u32;
    let mut frame: Vec<u8> = Vec::new();
    frame.push((n % 256) as u8);
    frame.push((n / 256 % 256) as u8);
    frame.push((n / 65536 % 256) as u8);
    frame.push((n / 16777216 % 256) as u8);
    let mut i: usize = 0;
    while i < body.len()
        invariant
            0 <= i <= body@.len(),
            frame@ == le_u32_bytes(n) + body@.subrange(0, i as int),
        decreases body@.len() - i,
    {
        frame.push(body[i]);
        assert(body@.subrange(0, i + 1) =~= body@.subrange(0, i as int).push(body@[i as int]));
        i = i + 1;
    }
    assert(body@.subrange(0, i as int) =~= body@);
    frame
}

/// A frame's header announces the length of the body it was made for, when that length
/// fits in 32 bits.
pub proof fn law_frame_roundtrip(v: u32)
    ensures
        le_u32(le_u32_bytes(v)) == v,
{
    let b0 = v % 256;
    let b1 = v / 256 % 256;
    let b2 = v / 65536 % 256;
    let b3 = v / 16777216 % 256;
    assert(b0 + 256 * (b1 + 256 * (b2 + 256 * b3)) == v) by (nonlinear_arith)
        requires
            b0 == v % 256,
            b1 == v / 256 % 256,
            b2 == v / 65536 % 256,
            b3 == v / 16777216 % 256,
            v < 0x1_0000_0000,
    ;
}

} // verus!
