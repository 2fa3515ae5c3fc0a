//! The wire format: every message travels as one frame, an eight-byte big-endian length
//! followed by exactly that many bytes of payload.

use vstd::prelude::*;

verus! {

/// Number of bytes in the length prefix of a frame.
pub const HEADER_LEN: usize = 8;

/// The number that the eight bytes of a header spell, most significant byte first.
pub open spec fn header_value(header: Seq<u8>) -> nat
    recommends
        header.len() == 8,
{
    (header[0] as nat * 0x0100_0000_0000_0000 + header[1] as nat * 0x0001_0000_0000_0000
        + header[2] as nat * 0x0000_0100_0000_0000 + header[3] as nat * 0x0000_0001_0000_0000
        + header[4] as nat * 0x0000_0000_0100_0000 + header[5] as nat * 0x0000_0000_0001_0000
        + header[6] as nat * 0x0000_0000_0000_0100 + header[7] as nat) as nat
}

/// The eight-byte header that announces a payload of `len` bytes.
pub open spec fn header_of(len: u64) -> Seq<u8> {
    seq![
        (len / 0x0100_0000_0000_0000) as u8,
        (len / 0x0001_0000_0000_0000 % 256) as u8,
        (len / 0x0000_0100_0000_0000 % 256) as u8,
        (len / 0x0000_0001_0000_0000 % 256) as u8,
        (len / 0x0000_0000_0100_0000 % 256) as u8,
        (len / 0x0000_0000_0001_0000 % 256) as u8,
        (len / 0x0000_0000_0000_0100 % 256) as u8,
        (len % 256) as u8,
    ]
}

/// The frame that carries `payload`: its header, then the payload itself.
pub open spec fn frame_of(payload: Seq<u8>) -> Seq<u8>
    recommends
        payload.len() <= u64::MAX,
{
    header_of(payload.len() as u64) + payload
}

/// The bytes of the frames that carry `payloads`, one frame after the other.
pub open spec fn wire_of(payloads: Seq<Seq<u8>>) -> Seq<u8>
    decreases payloads.len(),
{
    if payloads.len() == 0 {
        Seq::empty()
    } else {
        frame_of(payloads.first()) + wire_of(payloads.drop_first())
    }
}

/// Reading back the header written for a length gives that length.
pub proof fn lemma_header_value_of_header(len: u64)
    ensures
        header_of(len).len() == 8,
        header_value(header_of(len)) == len,
{
    assert(len / 0x0100_0000_0000_0000 < 256 && len == (len / 0x0100_0000_0000_0000)
        * 0x0100_0000_0000_0000 + (len / 0x0001_0000_0000_0000 % 256) * 0x0001_0000_0000_0000 + (len
        / 0x0000_0100_0000_0000 % 256) * 0x0000_0100_0000_0000 + (len / 0x0000_0001_0000_0000
        % 256) * 0x0000_0001_0000_0000 + (len / 0x0000_0000_0100_0000 % 256)
        * 0x0000_0000_0100_0000 + (len / 0x0000_0000_0001_0000 % 256) * 0x0000_0000_0001_0000 + (len
        / 0x0000_0000_0000_0100 % 256) * 0x0000_0000_0000_0100 + len % 256) by (bit_vector);
}

/// Writing the header for the length that eight bytes spell gives those bytes again.
pub proof fn lemma_header_of_header_value(header: Seq<u8>)
    requires
        header.len() == 8,
    ensures
        header_value(header) <= u64::MAX,
        header_of(header_value(header) as u64) == header,
{
    let b0 = header[0] as u64;
    let b1 = header[1] as u64;
    let b2 = header[2] as u64;
    let b3 = header[3] as u64;
    let b4 = header[4] as u64;
    let b5 = header[5] as u64;
    let b6 = header[6] as u64;
    let b7 = header[7] as u64;
    let len = header_value(header) as u64;
    assert(len == b0 * 0x0100_0000_0000_0000 + b1 * 0x0001_0000_0000_0000 + b2
        * 0x0000_0100_0000_0000 + b3 * 0x0000_0001_0000_0000 + b4 * 0x0000_0000_0100_0000 + b5
        * 0x0000_0000_0001_0000 + b6 * 0x0000_0000_0000_0100 + b7);
    assert(len / 0x0100_0000_0000_0000 == b0 && len / 0x0001_0000_0000_0000 % 256 == b1 && len
        / 0x0000_0100_0000_0000 % 256 == b2 && len / 0x0000_0001_0000_0000 % 256 == b3 && len
        / 0x0000_0000_0100_0000 % 256 == b4 && len / 0x0000_0000_0001_0000 % 256 == b5 && len
        / 0x0000_0000_0000_0100 % 256 == b6 && len % 256 == b7) by (bit_vector)
        requires
            b0 < 256 && b1 < 256 && b2 < 256 && b3 < 256 && b4 < 256 && b5 < 256 && b6 < 256 && b7
                < 256,
            len == b0 * 0x0100_0000_0000_0000 + b1 * 0x0001_0000_0000_0000 + b2
                * 0x0000_0100_0000_0000 + b3 * 0x0000_0001_0000_0000 + b4 * 0x0000_0000_0100_0000
                + b5 * 0x0000_0000_0001_0000 + b6 * 0x0000_0000_0000_0100 + b7,
    ;
    assert(header_of(len) =~= header);
}

/// Frame integrity: the first eight bytes of a frame spell the length of its payload, and the
/// rest of the frame is the payload, byte for byte.
pub proof fn lemma_frame_integrity(payload: Seq<u8>)
    requires
        payload.len() <= u64::MAX,
    ensures
        frame_of(payload).len() == 8 + payload.len(),
        header_value(frame_of(payload).take(8)) == payload.len(),
        frame_of(payload).skip(8) == payload,
{
    let len = payload.len() as u64;
    lemma_header_value_of_header(len);
    assert(frame_of(payload).take(8) =~= header_of(len));
}

/// Writes the header that announces a payload of `len` bytes: the eight bytes that spell
/// `len`, most significant byte first.
pub fn encode_frame_header(len: u64) -> (header: [u8; 8])
    ensures
        header@ == header_of(len),
        header_value(header@) == len,
{
    proof {
        lemma_header_value_of_header(len);
    }
    let header: [u8; 8] = [
        (len / 0x0100_0000_0000_0000) as u8,
        (len / 0x0001_0000_0000_0000 % 256) as u8,
        (len / 0x0000_0100_0000_0000 % 256) as u8,
        (len / 0x0000_0001_0000_0000 % 256) as u8,
        (len / 0x0000_0000_0100_0000 % 256) as u8,
        (len / 0x0000_0000_0001_0000 % 256) as u8,
        (len / 0x0000_0000_0000_0100 % 256) as u8,
        (len % 256) as u8,
    ];
    assert(header@ =~= header_of(len));
    header
}

/// Reads the payload length that a header announces.
pub fn decode_frame_header(header: &[u8; 8]) -> (len: u64)
    ensures
        len == header_value(header@),
{
    header[0] as u64 * 0x0100_0000_0000_0000 + header[1] as u64 * 0x0001_0000_0000_0000
        + header[2] as u64 * 0x0000_0100_0000_0000 + header[3] as u64 * 0x0000_0001_0000_0000
        + header[4] as u64 * 0x0000_0000_0100_0000 + header[5] as u64 * 0x0000_0000_0001_0000
        + header[6] as u64 * 0x0000_0000_0000_0100 + header[7] as u64
}

/// Builds the frame that carries `payload`.
///
/// The first eight bytes of the frame spell the length of the payload, and the payload
/// follows them unchanged.
pub fn encode_frame(payload: &[u8]) -> (frame: Vec<u8>)
    ensures
        frame@ == frame_of(payload@),
        frame@.len() == 8 + payload@.len(),
        header_value(frame@.take(8)) == payload@.len(),
        frame@.skip(8) == payload@,
{
    let header = encode_frame_header(payload.len() as u64);
    proof {
        lemma_frame_integrity(payload@);
    }
    let mut frame: Vec<u8> = Vec::new();
    frame.extend_from_slice(header.as_slice());
    frame.extend_from_slice(payload);
    assert(frame@ =~= frame_of(payload@));
    frame
}

} // verus!
