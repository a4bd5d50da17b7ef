//! Packing of raw samples into the byte layouts that the encoders take:
//! 16-bit PCM as little-endian bytes, and NV12 frames from planar YUV.

use vstd::prelude::*;

verus! {

/// Low byte of a 16-bit sample.
pub open spec fn low_byte(s: i16) -> u8 {
    ((s as u16) % 256) as u8
}

/// High byte of a 16-bit sample.
pub open spec fn high_byte(s: i16) -> u8 {
    ((s as u16) / 256) as u8
}

/// The sample that two little-endian bytes hold.
pub open spec fn sample_of(low: u8, high: u8) -> i16 {
    ((low as u16) + 256 * (high as u16)) as u16 as i16
}

/// `bytes` is the little-endian layout of `samples`.
pub open spec fn is_pcm_layout(samples: Seq<i16>, bytes: Seq<u8>) -> bool {
    &&& bytes.len() == 2 * samples.len()
    &&& forall|i: int|
        0 <= i < samples.len() ==> bytes[2 * i] == low_byte(#[trigger] samples[i]) && bytes[2 * i
            + 1] == high_byte(samples[i])
}

fn split_sample(s: i16) -> (res: (u8, u8))
    ensures
        res.0 == low_byte(s),
        res.1 == high_byte(s),
{
    let u = s as u16;
    let lo = (u & 0xff) as u8;
    let hi = (u >> 8) as u8;
    assert((u & 0xff) == u % 256 && (u >> 8) == u / 256) by (bit_vector);
    (lo, hi)
}

/// The samples as little-endian bytes, two per sample, in order.
pub fn pcm_bytes(samples: &[i16]) -> (bytes: Vec<u8>)
    requires
        2 * samples@.len() <= usize::MAX,
    ensures
        is_pcm_layout(samples@, bytes@),
{
    let mut bytes: Vec<u8> = Vec::new();
    let n = samples.len();
    for i in 0..n
        invariant
            n == samples@.len(),
            bytes@.len() == 2 * i,
            forall|j: int|
                0 <= j < i ==> bytes@[2 * j] == low_byte(#[trigger] samples@[j]) && bytes@[2 * j
                    + 1] == high_byte(samples@[j]),
    {
        let (lo, hi) = split_sample(samples[i]);
        bytes.push(lo);
        bytes.push(hi);
    }
    bytes
}

/// Reading two little-endian bytes back gives the sample they were made from.
pub proof fn lemma_pcm_round_trip(samples: Seq<i16>, bytes: Seq<u8>, i: int)
    requires
        is_pcm_layout(samples, bytes),
        0 <= i < samples.len(),
    ensures
        sample_of(bytes[2 * i], bytes[2 * i + 1]) == samples[i],
{
    let s = samples[i];
    assert(sample_of(low_byte(s), high_byte(s)) == s) by (bit_vector);
}

/// `frame` is the NV12 layout of the planes: the luma plane, then the two
/// chroma planes interleaved, first-plane byte first.
pub open spec fn is_nv12_layout(y: Seq<u8>, u: Seq<u8>, v: Seq<u8>, frame: Seq<u8>) -> bool {
    &&& frame.len() == y.len() + u.len() + v.len()
    &&& forall|i: int| 0 <= i < y.len() ==> frame[i] == #[trigger] y[i]
    &&& forall|j: int| 0 <= j < u.len() ==> frame[y.len() + 2 * j] == #[trigger] u[j]
    &&& forall|j: int| 0 <= j < v.len() ==> frame[y.len() + 2 * j + 1] == #[trigger] v[j]
}

/// The frame in NV12 layout, from a luma plane and two chroma planes of
/// equal size.
pub fn nv12_from_planes(y: &[u8], u: &[u8], v: &[u8]) -> (frame: Vec<u8>)
    requires
        u@.len() == v@.len(),
        y@.len() + u@.len() + v@.len() <= usize::MAX,
    ensures
        is_nv12_layout(y@, u@, v@, frame@),
{
    let mut frame: Vec<u8> = Vec::new();
    let ny = y.len();
    for i in 0..ny
        invariant
            ny == y@.len(),
            frame@.len() == i,
            forall|k: int| 0 <= k < i ==> frame@[k] == #[trigger] y@[k],
    {
        frame.push(y[i]);
    }
    let nc = u.len();
    for j in 0..nc
        invariant
            ny == y@.len(),
            nc == u@.len(),
            nc == v@.len(),
            frame@.len() == ny + 2 * j,
            forall|k: int| 0 <= k < ny ==> frame@[k] == #[trigger] y@[k],
            forall|k: int| 0 <= k < j ==> frame@[ny + 2 * k] == #[trigger] u@[k],
            forall|k: int| 0 <= k < j ==> frame@[ny + 2 * k + 1] == #[trigger] v@[k],
    {
        frame.push(u[j]);
        frame.push(v[j]);
    }
    frame
}

} // verus!
