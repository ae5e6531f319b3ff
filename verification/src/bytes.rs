//! Little-endian byte-level coding: the 32-bit frame counter and 16-bit PCM
//! sample payloads as they stand on the wire.

use vstd::prelude::*;

verus! {

/// The four little-endian bytes of a 32-bit value, low byte first.
pub open spec fn spec_u32_le(v: u32) -> Seq<u8> {
    seq![
        (v % 256) as u8,
        ((v / 256) % 256) as u8,
        ((v / 65536) % 256) as u8,
        ((v / 16777216) % 256) as u8,
    ]
}

/// The 32-bit value read back from four little-endian bytes.
pub open spec fn spec_u32_of_le(b0: u8, b1: u8, b2: u8, b3: u8) -> u32 {
    (b0 + b1 * 256 + b2 * 65536 + b3 * 16777216) as u32
}

/// The two little-endian bytes of a 16-bit PCM sample: the sample's
/// two's-complement bits, low byte first.
pub open spec fn spec_i16_le(s: i16) -> Seq<u8> {
    seq![((s as u16) % 256) as u8, ((s as u16) / 256) as u8]
}

/// The 16-bit PCM sample read back from two little-endian bytes.
pub open spec fn spec_i16_of_le(lo: u8, hi: u8) -> i16 {
    ((lo + hi * 256) as u16) as i16
}

/// Interleaved 16-bit samples flattened to little-endian byte pairs.
pub open spec fn spec_pcm_bytes(samples: Seq<i16>) -> Seq<u8> {
    Seq::new(
        samples.len() * 2,
        |i: int| if i % 2 == 0 { spec_i16_le(samples[i / 2])[0] } else { spec_i16_le(samples[i / 2])[1] },
    )
}

/// Little-endian byte pairs read back as interleaved 16-bit samples; a
/// trailing odd byte carries no complete sample and is ignored.
pub open spec fn spec_pcm_samples(bytes: Seq<u8>) -> Seq<i16> {
    Seq::new(bytes.len() / 2, |i: int| spec_i16_of_le(bytes[2 * i], bytes[2 * i + 1]))
}

/// Appends the four little-endian bytes of `v`.
pub fn push_u32_le(out: &mut Vec<u8>, v: u32)
    ensures
        final(out)@ == old(out)@ + spec_u32_le(v),
{
    out.push((v % 256) as u8);
    out.push(((v / 256) % 256) as u8);
    out.push(((v / 65536) % 256) as u8);
    out.push(((v / 16777216) % 256) as u8);
    assert(out@ =~= old(out)@ + spec_u32_le(v));
}

/// Reads a 32-bit value from four little-endian bytes.
pub fn u32_from_le(b0: u8, b1: u8, b2: u8, b3: u8) -> (v: u32)
    ensures
        v == spec_u32_of_le(b0, b1, b2, b3),
{
    b0 as u32 + b1 as u32 * 256 + b2 as u32 * 65536 + b3 as u32 * 16777216
}

/// Appends the two little-endian bytes of one 16-bit sample.
pub fn push_i16_le(out: &mut Vec<u8>, s: i16)
    ensures
        final(out)@ == old(out)@ + spec_i16_le(s),
{
    let u = s as u16;
    out.push((u % 256) as u8);
    out.push((u / 256) as u8);
    assert(out@ =~= old(out)@ + spec_i16_le(s));
}

/// Reads one 16-bit sample from two little-endian bytes.
pub fn i16_from_le(lo: u8, hi: u8) -> (s: i16)
    ensures
        s == spec_i16_of_le(lo, hi),
{
    let u: u16 = lo as u16 + hi as u16 * 256;
    u as i16
}

/// Flattens interleaved 16-bit samples to their wire bytes.
pub fn encode_pcm_payload(samples: &Vec<i16>) -> (r: Vec<u8>)
    ensures
        r@ == spec_pcm_bytes(samples@),
        r@.len() == 2 * samples@.len(),
{
    let mut out: Vec<u8> = Vec::new();
    let mut i: usize = 0;
    while i < samples.len()
        invariant
            i <= samples@.len(),
            out@.len() == 2 * i,
            forall|j: int| 0 <= j < out@.len() ==> out@[j] == spec_pcm_bytes(samples@)[j],
        decreases samples@.len() - i,
    {
        push_i16_le(&mut out, samples[i]);
        assert(out@[2 * i as int] == spec_pcm_bytes(samples@)[2 * i as int]);
        assert(out@[2 * i as int + 1] == spec_pcm_bytes(samples@)[2 * i as int + 1]);
        i = i + 1;
    }
    assert(out@ =~= spec_pcm_bytes(samples@));
    out
}

/// Reads the interleaved 16-bit samples held in `bytes` from `start` on.
pub fn decode_pcm_payload(bytes: &Vec<u8>, start: usize) -> (r: Vec<i16>)
    requires
        start <= bytes@.len(),
    ensures
        r@ == spec_pcm_samples(bytes@.skip(start as int)),
{
    let n = (bytes.len() - start) / 2;
    let mut out: Vec<i16> = Vec::new();
    let mut i: usize = 0;
    while i < n
        invariant
            i <= n,
            start <= bytes@.len(),
            n == (bytes@.len() - start) / 2,
            start + 2 * n <= bytes@.len(),
            bytes@.len() <= usize::MAX,
            out@.len() == i,
            forall|j: int|
                0 <= j < out@.len() ==> out@[j] == spec_pcm_samples(bytes@.skip(start as int))[j],
        decreases n - i,
    {
        let s = i16_from_le(bytes[start + 2 * i], bytes[start + 2 * i + 1]);
        out.push(s);
        assert(bytes@.skip(start as int)[2 * i as int] == bytes@[start as int + 2 * i as int]);
        assert(bytes@.skip(start as int)[2 * i as int + 1] == bytes@[start as int + 2 * i as int + 1]);
        i = i + 1;
    }
    assert(out@ =~= spec_pcm_samples(bytes@.skip(start as int)));
    out
}

/// One sample's wire bytes read back give the sample itself.
proof fn lemma_i16_le_round_trip(s: i16)
    ensures
        spec_i16_of_le(spec_i16_le(s)[0], spec_i16_le(s)[1]) == s,
{
    let u = s as u16;
    assert(u % 256 + (u / 256) * 256 == u);
    assert(((s as u16) as i16) == s) by (bit_vector);
}

/// PCM payload coding loses nothing: the bytes of any interleaved sample
/// block read back as exactly that block.
pub proof fn lemma_pcm_round_trip(samples: Seq<i16>)
    ensures
        spec_pcm_samples(spec_pcm_bytes(samples)) == samples,
{
    let bytes = spec_pcm_bytes(samples);
    assert forall|i: int| 0 <= i < samples.len() implies spec_pcm_samples(bytes)[i]
        == samples[i] by {
        assert(bytes[2 * i] == spec_i16_le(samples[i])[0]);
        assert(bytes[2 * i + 1] == spec_i16_le(samples[i])[1]);
        lemma_i16_le_round_trip(samples[i]);
    }
    assert(spec_pcm_samples(spec_pcm_bytes(samples)) =~= samples);
}

} // verus!
