//! Signed 16-bit PCM payloads of audio messages.

use crate::framing::{framed_bytes, write_framed_message, FrameError, MSG_TYPE_AUDIO};
use vstd::prelude::*;

verus! {

/// The two little-endian bytes of one sample, two's complement.
pub open spec fn i16_le_bytes(s: i16) -> Seq<u8> {
    let u: int = if s < 0 {
        s + 65536
    } else {
        s as int
    };
    seq![(u % 256) as u8, (u / 256) as u8]
}

/// The payload of an audio message: each sample's two bytes, in order.
pub open spec fn pcm_bytes(samples: Seq<i16>) -> Seq<u8>
    decreases samples.len(),
{
    if samples.len() == 0 {
        Seq::empty()
    } else {
        pcm_bytes(samples.drop_last()) + i16_le_bytes(samples.last())
    }
}

/// Two bytes for each sample.
pub proof fn lemma_pcm_bytes_len(samples: Seq<i16>)
    ensures
        pcm_bytes(samples).len() == 2 * samples.len(),
    decreases samples.len(),
{
    if samples.len() > 0 {
        lemma_pcm_bytes_len(samples.drop_last());
    }
}

/// Appends the little-endian bytes of each sample to `out`.
pub fn append_pcm16_le(out: &mut Vec<u8>, samples: &[i16])
    ensures
        final(out)@ == old(out)@ + pcm_bytes(samples@),
{
    let ghost start = out@;
    let mut i: usize = 0;
    while i < samples.len()
        invariant
            i <= samples@.len(),
            out@ == start + pcm_bytes(samples@.subrange(0, i as int)),
        decreases samples@.len() - i,
    {
        let s = samples[i];
        let u: u16 = if s < 0 {
            (s as i32 + 65536) as u16
        } else {
            s as u16
        };
        assert(i16_le_bytes(s) == seq![(u % 256) as u8, (u / 256) as u8]);
        out.push((u % 256) as u8);
        out.push((u / 256) as u8);
        let ghost prefix = samples@.subrange(0, i as int + 1);
        assert(prefix.drop_last() =~= samples@.subrange(0, i as int));
        assert(out@ =~= start + pcm_bytes(prefix));
        i += 1;
    }
    assert(samples@.subrange(0, samples@.len() as int) =~= samples@);
}

/// Appends one audio message carrying `pcm` to `writer`. Refused, with nothing
/// written, when the payload would not fit the length field.
pub fn write_audio_chunk(writer: &mut Vec<u8>, pcm: &[i16]) -> (r: Result<(), FrameError>)
    ensures
        r is Ok <==> 2 * pcm@.len() <= u32::MAX,
        r is Ok ==> final(writer)@ == old(writer)@ + framed_bytes(MSG_TYPE_AUDIO, pcm_bytes(pcm@)),
        r is Err ==> r == Err::<(), FrameError>(FrameError::PayloadTooLarge) && final(writer)@
            == old(writer)@,
{
    if pcm.len() > (u32::MAX / 2) as usize {
        return Err(FrameError::PayloadTooLarge);
    }
    let mut payload: Vec<u8> = Vec::with_capacity(2 * pcm.len());
    append_pcm16_le(&mut payload, pcm);
    proof {
        lemma_pcm_bytes_len(pcm@);
    }
    write_framed_message(writer, MSG_TYPE_AUDIO, payload.as_slice())
}

} // verus!
