//! Sound samples as bytes: 16-bit signed, little-endian.

use vstd::prelude::*;

verus! {

/// Opus frame size: 320 samples = 20ms at 16kHz.
pub const OPUS_FRAME_SAMPLES: usize = 320;

/// The bytes of one frame of 16-bit samples.
pub const FRAME_BYTES: usize = OPUS_FRAME_SAMPLES * 2;

/// The sample whose bytes are `low` and `high`.
pub open spec fn sample_of(low: u8, high: u8) -> i16 {
    let n = low as int + 256 * high as int;
    if n < 0x8000 {
        n as i16
    } else {
        (n - 0x10000) as i16
    }
}

/// The low byte of a sample.
pub open spec fn low_byte(sample: i16) -> u8 {
    (sample as int % 256) as u8
}

/// The high byte of a sample.
pub open spec fn high_byte(sample: i16) -> u8 {
    (sample as int / 256 % 256) as u8
}

/// The samples that `bytes` hold, two bytes each; an odd last byte is left out.
pub open spec fn samples_of(bytes: Seq<u8>) -> Seq<i16> {
    Seq::new(bytes.len() / 2, |i: int| sample_of(bytes[2 * i], bytes[2 * i + 1]))
}

/// The bytes of `samples`, two each.
pub open spec fn bytes_of(samples: Seq<i16>) -> Seq<u8> {
    Seq::new(
        samples.len() * 2,
        |i: int|
            if i % 2 == 0 {
                low_byte(samples[i / 2])
            } else {
                high_byte(samples[i / 2])
            },
    )
}

fn sample_from_bytes(low: u8, high: u8) -> (sample: i16)
    ensures
        sample == sample_of(low, high),
{
    let n: i32 = low as i32 + 256 * high as i32;
    if n < 0x8000 {
        n as i16
    } else {
        (n - 0x10000) as i16
    }
}

fn bytes_from_sample(sample: i16) -> (bytes: (u8, u8))
    ensures
        bytes.0 == low_byte(sample),
        bytes.1 == high_byte(sample),
{
    let n: i32 = if sample < 0 {
        sample as i32 + 0x10000
    } else {
        sample as i32
    };
    ((n % 256) as u8, (n / 256) as u8)
}

/// Read samples from bytes; an odd last byte is left out.
pub fn samples_from_bytes(bytes: &[u8]) -> (samples: Vec<i16>)
    ensures
        samples@ == samples_of(bytes@),
{
    let len: usize = bytes.len();
    let count: usize = len / 2;
    let mut samples: Vec<i16> = Vec::with_capacity(count);
    let mut i: usize = 0;
    while i < count
        invariant
            len == bytes@.len(),
            count == len / 2,
            i <= count,
            samples@.len() == i,
            forall|k: int|
                0 <= k < i ==> #[trigger] samples@[k] == sample_of(bytes@[2 * k], bytes@[2 * k + 1]),
        decreases count - i,
    {
        samples.push(sample_from_bytes(bytes[2 * i], bytes[2 * i + 1]));
        i = i + 1;
    }
    assert(samples@ =~= samples_of(bytes@));
    samples
}

/// Write the first `count` samples as bytes.
pub fn samples_to_bytes(samples: &[i16], count: usize) -> (bytes: Vec<u8>)
    requires
        count <= samples@.len(),
    ensures
        bytes@ == bytes_of(samples@.take(count as int)),
{
    let mut bytes: Vec<u8> = Vec::new();
    let mut i: usize = 0;
    assert(bytes@ =~= bytes_of(samples@.take(0)));
    while i < count
        invariant
            i <= count <= samples@.len(),
            bytes@ == bytes_of(samples@.take(i as int)),
        decreases count - i,
    {
        let (low, high) = bytes_from_sample(samples[i]);
        bytes.push(low);
        bytes.push(high);
        assert(bytes@ =~= bytes_of(samples@.take(i + 1)));
        i = i + 1;
    }
    bytes
}

/// Reading what was written gives back the samples.
pub proof fn law_samples_round_trip(samples: Seq<i16>)
    ensures
        samples_of(bytes_of(samples)) == samples,
{
    let read = samples_of(bytes_of(samples));
    assert forall|k: int| 0 <= k < samples.len() implies read[k] == samples[k] by {
        assert((2 * k) / 2 == k && (2 * k + 1) / 2 == k);
        assert((2 * k) % 2 == 0 && (2 * k + 1) % 2 == 1);
        assert(bytes_of(samples)[2 * k] == low_byte(samples[k]));
        assert(bytes_of(samples)[2 * k + 1] == high_byte(samples[k]));
    }
    assert(read =~= samples);
}

/// Writing what was read gives back the bytes, where they come in pairs.
pub proof fn law_bytes_round_trip(bytes: Seq<u8>)
    requires
        bytes.len() % 2 == 0,
    ensures
        bytes_of(samples_of(bytes)) == bytes,
{
    let written = bytes_of(samples_of(bytes));
    assert forall|i: int| 0 <= i < bytes.len() implies written[i] == bytes[i] by {
        let k = i / 2;
        assert(samples_of(bytes)[k] == sample_of(bytes[2 * k], bytes[2 * k + 1]));
    }
    assert(written =~= bytes);
}

/// Bytes are read as 16-bit signed numbers, two bytes each, low byte first; an odd
/// last byte is left out.
pub proof fn law_bytes_become_samples(bytes: Seq<u8>)
    ensures
        samples_of(bytes).len() == bytes.len() / 2,
        forall|k: int|
            0 <= k < bytes.len() / 2 ==> {
                let unsigned = bytes[2 * k] as int + 256 * bytes[2 * k + 1] as int;
                #[trigger] samples_of(bytes)[k] as int == if unsigned < 32768 {
                    unsigned
                } else {
                    unsigned - 65536
                }
            },
{
}

/// Samples are written as 16-bit signed numbers, two bytes each, low byte first,
/// in order.
pub proof fn law_samples_become_bytes(samples: Seq<i16>)
    ensures
        bytes_of(samples).len() == 2 * samples.len(),
        forall|k: int|
            0 <= k < samples.len() ==> {
                let unsigned = bytes_of(samples)[2 * k] as int + 256 * bytes_of(samples)[2 * k
                    + 1] as int;
                #[trigger] samples[k] as int == if unsigned < 32768 {
                    unsigned
                } else {
                    unsigned - 65536
                }
            },
{
    assert forall|k: int| 0 <= k < samples.len() implies {
        let unsigned = bytes_of(samples)[2 * k] as int + 256 * bytes_of(samples)[2 * k + 1] as int;
        #[trigger] samples[k] as int == if unsigned < 32768 {
            unsigned
        } else {
            unsigned - 65536
        }
    } by {
        assert((2 * k) / 2 == k && (2 * k + 1) / 2 == k);
        assert((2 * k) % 2 == 0 && (2 * k + 1) % 2 == 1);
        assert(bytes_of(samples)[2 * k] == low_byte(samples[k]));
        assert(bytes_of(samples)[2 * k + 1] == high_byte(samples[k]));
    }
}

/// A frame is 20 milliseconds of sound, at 16000 samples for each second and two
/// bytes for each sample.
pub proof fn law_frame_size(frame: Seq<u8>)
    requires
        frame.len() == FRAME_BYTES,
    ensures
        frame.len() == 640,
        samples_of(frame).len() == 320,
        samples_of(frame).len() == OPUS_FRAME_SAMPLES,
        samples_of(frame).len() * 1000 == 16_000 * 20,
{
}

/// What is read from bytes, and what is written for samples, is each sample as a
/// 16-bit signed number, low byte first.
pub proof fn law_conversion_answers(
    bytes: &[u8],
    read: Vec<i16>,
    samples: &[i16],
    count: usize,
    written: Vec<u8>,
)
    requires
        call_ensures(samples_from_bytes, (bytes,), read),
        count <= samples@.len(),
        call_ensures(samples_to_bytes, (samples, count), written),
    ensures
        read@.len() == bytes@.len() / 2,
        forall|k: int|
            0 <= k < bytes@.len() / 2 ==> {
                let unsigned = bytes@[2 * k] as int + 256 * bytes@[2 * k + 1] as int;
                #[trigger] read@[k] as int == if unsigned < 32768 {
                    unsigned
                } else {
                    unsigned - 65536
                }
            },
        written@.len() == 2 * count,
        forall|k: int|
            0 <= k < count ==> {
                let unsigned = written@[2 * k] as int + 256 * written@[2 * k + 1] as int;
                #[trigger] samples@[k] as int == if unsigned < 32768 {
                    unsigned
                } else {
                    unsigned - 65536
                }
            },
{
    law_bytes_become_samples(bytes@);
    let first = samples@.take(count as int);
    law_samples_become_bytes(first);
    assert forall|k: int| 0 <= k < count implies first[k] == #[trigger] samples@[k] by {}
}

} // verus!
