//! Native Messaging framing between the browser and the host: each message
//! is its JSON text preceded by the text's length in bytes, as a 32-bit
//! unsigned integer in little-endian order (the byte order of the machines
//! the host runs on).

use vstd::prelude::*;

verus! {

/// The four little-endian bytes of a 32-bit length.
pub open spec fn le_bytes(n: u32) -> Seq<u8> {
    seq![
        (n % 256) as u8,
        ((n / 256) % 256) as u8,
        ((n / 65536) % 256) as u8,
        (n / 16777216) as u8,
    ]
}

/// The length that four little-endian bytes stand for.
pub open spec fn le_value(b: Seq<u8>) -> int {
    b[0] + 256 * b[1] + 65536 * b[2] + 16777216 * b[3]
}

/// The length prefix announces a value below 2^32 and reading it back gives
/// the value it was made from.
pub proof fn law_length_prefix_round_trip(n: u32)
    ensures
        le_value(le_bytes(n)) == n,
{
    let b = le_bytes(n);
    assert(b[0] == n % 256);
    assert(b[1] == (n / 256) % 256);
    assert(b[2] == (n / 65536) % 256);
    assert(b[3] == n / 16777216);
    assert(n == n % 256 + 256 * ((n / 256) % 256) + 65536 * ((n / 65536) % 256) + 16777216 * (n / 16777216))
        by (nonlinear_arith);
}

/// The length prefix is the little-endian encoding of the length: byte k
/// holds (n / 256^k) % 256, and the four bytes read back as
/// b0 + 256 b1 + 65536 b2 + 16777216 b3.
pub proof fn law_length_prefix_is_little_endian(n: u32, b: Seq<u8>)
    requires
        b.len() == 4,
    ensures
        le_bytes(n).len() == 4,
        le_bytes(n)[0] == n % 256,
        le_bytes(n)[1] == (n / 256) % 256,
        le_bytes(n)[2] == (n / 65536) % 256,
        le_bytes(n)[3] == (n / 16777216) % 256,
        le_value(b) == b[0] + 256 * b[1] + 65536 * b[2] + 16777216 * b[3],
{
    assert(n / 16777216 < 256) by (nonlinear_arith);
}

/// The frame of a message body: its length prefix, then the body. `None`
/// when the body is too long for a 32-bit length.
pub fn encode_frame(body: &Vec<u8>) -> (frame: Option<Vec<u8>>)
    ensures
        body.len() <= u32::MAX <==> frame is Some,
        frame matches Some(f) ==> f@ == le_bytes(body.len() as u32) + body@,
        frame matches Some(f) ==> {
            &&& f@.len() == body.len() + 4
            &&& f@[0] == body.len() % 256
            &&& f@[1] == (body.len() / 256) % 256
            &&& f@[2] == (body.len() / 65536) % 256
            &&& f@[3] == (body.len() / 16777216) % 256
            &&& f@.subrange(4, f@.len() as int) == body@
        },
{
    if body.len() > 4294967295usize {
        return None;
    }
    let n: u32 = body.len() as u32;
    let mut frame: Vec<u8> = Vec::new();
    frame.push((n % 256) as u8);
    frame.push(((n / 256) % 256) as u8);
    frame.push(((n / 65536) % 256) as u8);
    frame.push((n / 16777216) as u8);
    let mut i: usize = 0;
    while i < body.len()
        invariant
            n == body.len(),
            i <= body.len(),
            frame@ == le_bytes(n) + body@.take(i as int),
        decreases body.len() - i,
    {
        frame.push(body[i]);
        i = i + 1;
        assert(frame@ =~= le_bytes(n) + body@.take(i as int));
    }
    assert(body@.take(body.len() as int) =~= body@);
    assert(n / 16777216 < 256) by (nonlinear_arith);
    assert(frame@.subrange(4, frame@.len() as int) =~= body@);
    Some(frame)
}

/// The body length announced by a frame's 4-byte prefix.
pub fn frame_length(header: [u8; 4]) -> (n: u32)
    ensures
        n == le_value(header@),
        n == header@[0] + 256 * header@[1] + 65536 * header@[2] + 16777216 * header@[3],
{
    let b0: u32 = header[0] as u32;
    let b1: u32 = header[1] as u32;
    let b2: u32 = header[2] as u32;
    let b3: u32 = header[3] as u32;
    assert(b0 + 256 * b1 + 65536 * b2 + 16777216 * b3 <= u32::MAX) by (nonlinear_arith)
        requires
            b0 < 256,
            b1 < 256,
            b2 < 256,
            b3 < 256,
    ;
    b0 + 256 * b1 + 65536 * b2 + 16777216 * b3
}

} // verus!
