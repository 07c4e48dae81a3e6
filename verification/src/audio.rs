//! Captured audio and its framing for the wire.

use vstd::prelude::*;

verus! {

/// A run of mono samples with the time of its capture, in milliseconds
/// since the Unix epoch.
#[derive(Debug)]
pub struct SampleData {
    pub data: Vec<i16>,
    pub timestamp: u64,
}

/// A sample as an unsigned 16-bit pattern, in two's complement.
pub open spec fn pattern(sample: i16) -> int {
    if sample >= 0 {
        sample as int
    } else {
        sample + 65536
    }
}

/// The low byte of a sample's pattern.
pub open spec fn low_byte(sample: i16) -> u8 {
    (pattern(sample) % 256) as u8
}

/// The high byte of a sample's pattern.
pub open spec fn high_byte(sample: i16) -> u8 {
    (pattern(sample) / 256) as u8
}

/// The samples as little-endian bytes: two for each sample, the low byte
/// first.
pub open spec fn pcm_bytes(samples: Seq<i16>) -> Seq<u8> {
    Seq::new(
        2 * samples.len(),
        |k: int|
            if k % 2 == 0 {
                low_byte(samples[k / 2])
            } else {
                high_byte(samples[k / 2])
            },
    )
}

impl SampleData {
    /// The payload of the binary frame that carries these samples.
    pub fn to_pcm(&self) -> (r: Vec<u8>)
        ensures
            r@ == pcm_bytes(self.data@),
    {
        let mut bytes: Vec<u8> = Vec::new();
        let mut i: usize = 0;
        while i < self.data.len()
            invariant
                i <= self.data@.len(),
                bytes@ == pcm_bytes(self.data@.take(i as int)),
            decreases self.data@.len() - i,
        {
            let sample: i16 = self.data[i];
            let bits: u32 = if sample >= 0 {
                sample as u32
            } else {
                (sample as i32 + 65536) as u32
            };
            bytes.push((bits % 256) as u8);
            bytes.push((bits / 256) as u8);
            assert(bytes@ =~= pcm_bytes(self.data@.take(i + 1)));
            i += 1;
        }
        assert(self.data@.take(i as int) =~= self.data@);
        bytes
    }
}

} // verus!
