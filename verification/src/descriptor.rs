use vstd::prelude::*;

use crate::errors::SyroError;
use crate::MAX_SLOT;

verus! {

/// Compression quality the hardware expects for compressed single-sample
/// jobs; fixed by the protocol.
pub const COMPRESSION_QUALITY: u32 = 16;

/// Low byte of a sample's two's-complement 16-bit pattern: the byte that
/// comes first in little-endian order.
pub open spec fn sample_lo(x: i16) -> u8 {
    ((x as u16) & 0xff) as u8
}

/// High byte of a sample's two's-complement 16-bit pattern: the byte that
/// comes second in little-endian order.
pub open spec fn sample_hi(x: i16) -> u8 {
    (((x as u16) >> 8) & 0xff) as u8
}

/// The little-endian byte reframing of a sample sequence: each sample
/// contributes two bytes, low byte first, and sample order is preserved.
pub open spec fn le_bytes_of(samples: Seq<i16>) -> Seq<u8> {
    Seq::new(
        2 * samples.len(),
        |i: int|
            if i % 2 == 0 {
                sample_lo(samples[i / 2])
            } else {
                sample_hi(samples[i / 2])
            },
    )
}

/// Byte reframing is order-preserving and little-endian: the reframed
/// sequence is exactly twice as long as the input, and sample `i` occupies
/// bytes `2 * i` (its low byte) and `2 * i + 1` (its high byte).
pub proof fn lemma_le_bytes_order(samples: Seq<i16>)
    ensures
        le_bytes_of(samples).len() == 2 * samples.len(),
        forall|i: int|
            0 <= i < samples.len() ==> #[trigger] le_bytes_of(samples)[2 * i] == sample_lo(
                samples[i],
            ),
        forall|i: int|
            0 <= i < samples.len() ==> #[trigger] le_bytes_of(samples)[2 * i + 1] == sample_hi(
                samples[i],
            ),
{
    assert forall|i: int| 0 <= i < samples.len() implies #[trigger] le_bytes_of(samples)[2 * i]
        == sample_lo(samples[i]) by {
        assert((2 * i) % 2 == 0);
        assert((2 * i) / 2 == i);
    }
    assert forall|i: int| 0 <= i < samples.len() implies #[trigger] le_bytes_of(samples)[2 * i + 1]
        == sample_hi(samples[i]) by {
        assert((2 * i + 1) % 2 == 1);
        assert((2 * i + 1) / 2 == i);
    }
}

/// The two bytes of a sample are the base-256 digits of its 16-bit
/// two's-complement pattern `x as u16`, low digit first: little-endian in
/// the arithmetic sense, not only bit by bit.
pub proof fn lemma_sample_bytes_are_base256_digits(x: i16)
    by (bit_vector)
    ensures
        sample_lo(x) == (x as u16) % 0x100,
        sample_hi(x) == (x as u16) / 0x100,
        x >= 0 ==> (x as u16) == x,
{
}

/// Kind of job submitted to the encoding engine.  This core only ever
/// submits compressed single-sample loads.
#[derive(Clone, Copy, Debug, PartialEq, Eq, Structural)]
pub enum JobKind {
    /// Load one sample into a slot, compressed.
    SampleCompress,
}

/// Byte order of the sample data a job descriptor references.
#[derive(Clone, Copy, Debug, PartialEq, Eq, Structural)]
pub enum SampleEndian {
    LittleEndian,
    BigEndian,
}

/// Description of one encode job: the byte-reframed audio payload together
/// with the metadata the encoding engine reads.  The payload is owned here so
/// that it stays alive and unmoved for as long as the descriptor does.
#[derive(Debug)]
pub struct JobDescriptor {
    /// Job kind; fixed to compressed single-sample.
    pub kind: JobKind,
    /// The audio, reframed as bytes.
    pub data: Vec<u8>,
    /// Destination slot on the hardware, in `0..=MAX_SLOT`.
    pub slot: u32,
    /// Length of `data` in bytes.
    pub size: u32,
    /// Compression quality; fixed to `COMPRESSION_QUALITY`.
    pub quality: u32,
    /// Sample rate of the source audio, in hertz.
    pub rate: u32,
    /// Byte order of `data`; fixed to little-endian.
    pub endian: SampleEndian,
}

impl JobDescriptor {
    /// Well-formedness: what every descriptor this library builds satisfies.
    pub open spec fn wf(self) -> bool {
        &&& self.kind is SampleCompress
        &&& self.slot <= MAX_SLOT
        &&& self.size == self.data@.len()
        &&& self.quality == COMPRESSION_QUALITY
        &&& self.rate >= 1
        &&& self.endian is LittleEndian
    }
}

/// Reframes the audio as bytes, little-endian, preserving sample order.
fn reframe_le(src_audio: &[i16]) -> (bytes: Vec<u8>)
    ensures
        bytes@ == le_bytes_of(src_audio@),
{
    let n: usize = src_audio.len();
    let mut bytes: Vec<u8> = Vec::new();
    let mut i: usize = 0;
    while i < n
        invariant
            i <= n,
            n == src_audio@.len(),
            bytes@ == le_bytes_of(src_audio@.take(i as int)),
        decreases n - i,
    {
        let s: i16 = src_audio[i];
        let u: u16 = #[verifier::truncate] (s as u16);
        proof {
            assert(u & 0xff < 0x100) by (bit_vector);
            assert((u >> 8) & 0xff < 0x100) by (bit_vector);
        }
        let lo: u8 = (u & 0xff) as u8;
        let hi: u8 = ((u >> 8) & 0xff) as u8;
        bytes.push(lo);
        bytes.push(hi);
        proof {
            let prev = src_audio@.take(i as int);
            let cur = src_audio@.take(i as int + 1);
            assert forall|j: int| 0 <= j < 2 * cur.len() implies bytes@[j] == le_bytes_of(cur)[j] by {
                if j < 2 * i {
                    assert(j / 2 < i);
                    assert(cur[j / 2] == prev[j / 2]);
                } else if j == 2 * i {
                    assert(j % 2 == 0 && j / 2 == i);
                } else {
                    assert(j == 2 * i + 1);
                    assert(j % 2 == 1 && j / 2 == i);
                }
            }
            assert(bytes@ =~= le_bytes_of(cur));
        }
        i = i + 1;
    }
    proof {
        assert(src_audio@.take(n as int) =~= src_audio@);
    }
    bytes
}

/// Builds the job descriptor for loading `src_audio` (mono samples at
/// `src_rate` hertz) into slot `dst_slot`.
///
/// The slot is validated first and unconditionally: an out-of-range slot is
/// rejected before any byte reframing happens.  The function is a pure
/// transform of its inputs; it never touches the encoding engine.
pub fn prepare_syrodata(src_audio: &[i16], src_rate: u32, dst_slot: u32) -> (result: Result<
    JobDescriptor,
    SyroError,
>)
    requires
        src_rate >= 1,
        2 * src_audio@.len() <= u32::MAX,
    ensures
        result is Ok <==> dst_slot <= MAX_SLOT,
        result matches Err(e) ==> e == SyroError::InvalidSlot(dst_slot),
        result matches Ok(d) ==> ({
            &&& d.wf()
            &&& d.data@ == le_bytes_of(src_audio@)
            &&& d.slot == dst_slot
            &&& d.size == 2 * src_audio@.len()
            &&& d.rate == src_rate
        }),
{
    if dst_slot > MAX_SLOT {
        return Err(SyroError::InvalidSlot(dst_slot));
    }
    let bytes: Vec<u8> = reframe_le(src_audio);
    let size: u32 = bytes.len() as u32;
    Ok(
        JobDescriptor {
            kind: JobKind::SampleCompress,
            data: bytes,
            slot: dst_slot,
            size,
            quality: COMPRESSION_QUALITY,
            rate: src_rate,
            endian: SampleEndian::LittleEndian,
        },
    )
}

} // verus!
