//! The framed output protocol: `[kind: 1 byte][length: u32 little-endian][payload]`.

use vstd::prelude::*;

verus! {

/// Kind tag of a UTF-8 JSON status message.
pub const MSG_TYPE_JSON: u8 = 1;

/// Kind tag of a little-endian signed 16-bit PCM audio message.
pub const MSG_TYPE_AUDIO: u8 = 2;

/// Number of bytes in front of the payload: the kind tag and the length.
pub const FRAME_HEADER_LEN: usize = 5;

/// Why a message could not be framed.
#[derive(Debug, Clone, Copy, PartialEq, Eq, Structural)]
pub enum FrameError {
    /// The payload is longer than a `u32` length field can describe.
    PayloadTooLarge,
}

/// One framed message as read back from a byte stream.
#[derive(Debug)]
pub struct FramedMessage {
    pub kind: u8,
    pub payload: Vec<u8>,
}

/// The four little-endian bytes of `n` (for `n < 2^32`).
pub open spec fn u32_le_bytes(n: nat) -> Seq<u8> {
    seq![
        (n % 256) as u8,
        ((n / 256) % 256) as u8,
        ((n / 256 / 256) % 256) as u8,
        ((n / 256 / 256 / 256) % 256) as u8,
    ]
}

/// The number whose little-endian encoding starts `b`.
pub open spec fn u32_from_le(b: Seq<u8>) -> nat
    recommends
        b.len() >= 4,
{
    (b[0] as nat) + 256 * ((b[1] as nat) + 256 * ((b[2] as nat) + 256 * (b[3] as nat)))
}

/// The bytes of one framed message.
pub open spec fn framed_bytes(kind: u8, payload: Seq<u8>) -> Seq<u8> {
    seq![kind] + u32_le_bytes(payload.len()) + payload
}

/// What a reader takes from the front of `bytes`: the kind and the payload of
/// the first message, or nothing while that message is incomplete.
pub open spec fn parse_frame(bytes: Seq<u8>) -> Option<(u8, Seq<u8>)> {
    if bytes.len() < 5 {
        None
    } else {
        let len = u32_from_le(bytes.subrange(1, 5));
        if bytes.len() < 5 + len {
            None
        } else {
            Some((bytes[0], bytes.subrange(5, 5 + len as int)))
        }
    }
}

/// Decoding the little-endian encoding of a 32-bit length gives the length back.
pub proof fn lemma_u32_le_round_trip(n: nat)
    requires
        n <= u32::MAX,
    ensures
        u32_le_bytes(n).len() == 4,
        u32_from_le(u32_le_bytes(n)) == n,
{
    let q1 = n / 256;
    let q2 = q1 / 256;
    let q3 = q2 / 256;
    assert(n == 256 * q1 + n % 256);
    assert(q1 == 256 * q2 + q1 % 256);
    assert(q2 == 256 * q3 + q2 % 256);
    assert(q3 < 256) by (nonlinear_arith)
        requires
            n <= 0xffff_ffff,
            q1 == n / 256,
            q2 == q1 / 256,
            q3 == q2 / 256,
    ;
    let b = u32_le_bytes(n);
    assert(b[0] as nat == n % 256);
    assert(b[1] as nat == q1 % 256);
    assert(b[2] as nat == q2 % 256);
    assert(b[3] as nat == q3);
}

/// Framing then reading back gives exactly the kind and the payload, whatever
/// follows the message on the stream; the first byte is the kind and the next
/// four are the payload's length, little-endian.
pub proof fn lemma_frame_round_trip(kind: u8, payload: Seq<u8>, rest: Seq<u8>)
    requires
        payload.len() <= u32::MAX,
    ensures
        framed_bytes(kind, payload).len() == 5 + payload.len(),
        framed_bytes(kind, payload)[0] == kind,
        u32_from_le(framed_bytes(kind, payload).subrange(1, 5)) == payload.len(),
        framed_bytes(kind, payload).subrange(5, 5 + payload.len() as int) == payload,
        parse_frame(framed_bytes(kind, payload) + rest) == Some((kind, payload)),
{
    lemma_u32_le_round_trip(payload.len());
    let f = framed_bytes(kind, payload);
    let all = f + rest;
    assert(f.subrange(1, 5) =~= u32_le_bytes(payload.len()));
    assert(all.subrange(1, 5) =~= f.subrange(1, 5));
    assert(f.subrange(5, 5 + payload.len() as int) =~= payload);
    assert(all.subrange(5, 5 + payload.len() as int) =~= payload);
}

/// Appends one framed message to `writer`: the kind tag, the payload's length
/// as a little-endian `u32`, then the payload. A payload too long for the
/// length field is refused and nothing is written.
pub fn write_framed_message(writer: &mut Vec<u8>, msg_type: u8, data: &[u8]) -> (r: Result<
    (),
    FrameError,
>)
    ensures
        r is Ok <==> data@.len() <= u32::MAX,
        r is Ok ==> final(writer)@ == old(writer)@ + framed_bytes(msg_type, data@),
        r is Err ==> r == Err::<(), FrameError>(FrameError::PayloadTooLarge) && final(writer)@
            == old(writer)@,
{
    if data.len() > u32::MAX as usize {
        return Err(FrameError::PayloadTooLarge);
    }
    let len = data.len() as u32;
    let ghost start = writer@;
    writer.push(msg_type);
    writer.push((len % 256) as u8);
    writer.push((len / 256 % 256) as u8);
    writer.push((len / 256 / 256 % 256) as u8);
    writer.push((len / 256 / 256 / 256 % 256) as u8);
    let ghost header = writer@;
    assert(header =~= start + seq![msg_type] + u32_le_bytes(data@.len()));
    let mut i: usize = 0;
    while i < data.len()
        invariant
            i <= data@.len(),
            writer@ =~= header + data@.subrange(0, i as int),
        decreases data@.len() - i,
    {
        writer.push(data[i]);
        i += 1;
    }
    assert(data@.subrange(0, data@.len() as int) =~= data@);
    assert(writer@ =~= start + framed_bytes(msg_type, data@));
    Ok(())
}

/// Reads the first framed message from `bytes`. Returns it with the number of
/// bytes it occupies, or `None` while the message is incomplete.
pub fn parse_framed_message(bytes: &[u8]) -> (r: Option<(FramedMessage, usize)>)
    ensures
        match parse_frame(bytes@) {
            None => r is None,
            Some((kind, payload)) => r matches Some((m, used)) && m.kind == kind && m.payload@
                == payload && used == 5 + payload.len(),
        },
{
    if bytes.len() < FRAME_HEADER_LEN {
        return None;
    }
    let len: u64 = bytes[1] as u64 + 256 * (bytes[2] as u64 + 256 * (bytes[3] as u64 + 256
        * bytes[4] as u64));
    assert(len == u32_from_le(bytes@.subrange(1, 5)));
    if (bytes.len() as u64) < 5 + len {
        return None;
    }
    let end = 5 + len as usize;
    let mut payload: Vec<u8> = Vec::with_capacity(len as usize);
    let mut i: usize = 5;
    while i < end
        invariant
            5 <= i <= end,
            end <= bytes@.len(),
            payload@ =~= bytes@.subrange(5, i as int),
        decreases end - i,
    {
        payload.push(bytes[i]);
        i += 1;
    }
    Some((FramedMessage { kind: bytes[0], payload }, end))
}

} // verus!
