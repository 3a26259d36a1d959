//! Little-endian PCM16 conversion.
use vstd::prelude::*;

verus! {

/// The sample that a pair of little-endian bytes stands for.
pub open spec fn sample_of(lo: u8, hi: u8) -> i16 {
    let word = lo as int + 256 * (hi as int);
    if word < 32768 {
        word as i16
    } else {
        (word - 65536) as i16
    }
}

/// The low byte of a sample.
pub open spec fn low_byte(s: i16) -> u8 {
    ((s as int) % 256) as u8
}

/// The high byte of a sample.
pub open spec fn high_byte(s: i16) -> u8 {
    (((s as int) % 65536) / 256) as u8
}

/// The samples held by the whole byte pairs of `data`; a trailing odd byte is ignored.
pub open spec fn samples_of(data: Seq<u8>) -> Seq<i16> {
    Seq::new(data.len() / 2, |i: int| sample_of(data[2 * i], data[2 * i + 1]))
}

/// The little-endian bytes of `samples`, two for each.
pub open spec fn bytes_of(samples: Seq<i16>) -> Seq<u8> {
    Seq::new(
        2 * samples.len(),
        |i: int|
            if i % 2 == 0 {
                low_byte(samples[i / 2])
            } else {
                high_byte(samples[i / 2])
            },
    )
}

/// Joins two little-endian bytes into a sample.
pub fn sample_from_bytes(lo: u8, hi: u8) -> (s: i16)
    ensures
        s == sample_of(lo, hi),
{
    let word: i32 = lo as i32 + 256 * (hi as i32);
    if word < 32768 {
        word as i16
    } else {
        (word - 65536) as i16
    }
}

/// The low and high byte of a sample.
pub fn sample_to_bytes(s: i16) -> (b: (u8, u8))
    ensures
        b.0 == low_byte(s),
        b.1 == high_byte(s),
{
    let word: i32 = if s >= 0 {
        s as i32
    } else {
        s as i32 + 65536
    };
    ((word % 256) as u8, (word / 256) as u8)
}

/// Splitting a sample into bytes and joining them again gives the sample back.
pub proof fn law_sample_round_trip(s: i16)
    ensures
        sample_of(low_byte(s), high_byte(s)) == s,
{
}

/// Writing samples as bytes and reading them again gives the samples back.
pub proof fn law_bytes_round_trip(samples: Seq<i16>)
    ensures
        samples_of(bytes_of(samples)) == samples,
{
    let back = samples_of(bytes_of(samples));
    assert(back.len() == samples.len());
    assert forall|i: int| 0 <= i < samples.len() implies back[i] == samples[i] by {
        law_sample_round_trip(samples[i]);
        assert((2 * i) / 2 == i && (2 * i) % 2 == 0);
        assert((2 * i + 1) / 2 == i && (2 * i + 1) % 2 == 1);
    }
    assert(back =~= samples);
}

/// Converts little-endian PCM16 bytes, two for each sample, to samples.
pub fn bytes_to_i16(data: &[u8]) -> (samples: Vec<i16>)
    requires
        data@.len() % 2 == 0,
    ensures
        samples@.len() == data@.len() / 2,
        samples@ == samples_of(data@),
{
    whole_samples(data)
}

/// Converts the whole byte pairs of `data` to samples.
///
/// A trailing odd byte belongs to no sample and is dropped.
pub fn whole_samples(data: &[u8]) -> (samples: Vec<i16>)
    ensures
        samples@ == samples_of(data@),
{
    let len: usize = data.len();
    let count: usize = len / 2;
    let mut samples: Vec<i16> = Vec::with_capacity(count);
    for i in 0..count
        invariant
            count == data@.len() / 2,
            len == data@.len(),
            samples@.len() == i,
            forall|k: int| 0 <= k < i ==> samples@[k] == sample_of(data@[2 * k], data@[2 * k + 1]),
    {
        samples.push(sample_from_bytes(data[2 * i], data[2 * i + 1]));
    }
    assert(samples@ =~= samples_of(data@));
    samples
}

/// Converts samples to little-endian PCM16 bytes.
pub fn i16_to_bytes(samples: &[i16]) -> (data: Vec<u8>)
    ensures
        data@ == bytes_of(samples@),
{
    let mut data: Vec<u8> = Vec::new();
    for i in 0..samples.len()
        invariant
            data@ == bytes_of(samples@.take(i as int)),
    {
        let (lo, hi) = sample_to_bytes(samples[i]);
        data.push(lo);
        data.push(hi);
        assert(data@ =~= bytes_of(samples@.take(i as int + 1)));
    }
    assert(samples@.take(samples@.len() as int) =~= samples@);
    data
}

/// The bytes of samples are little-endian words in two's complement, in the order of the samples.
pub proof fn law_bytes_are_little_endian(samples: Seq<i16>, i: int)
    requires
        0 <= i < samples.len(),
    ensures
        bytes_of(samples).len() == 2 * samples.len(),
        bytes_of(samples)[2 * i] + 256 * bytes_of(samples)[2 * i + 1] == if samples[i] >= 0 {
            samples[i] as int
        } else {
            samples[i] + 65536
        },
{
    assert((2 * i) / 2 == i && (2 * i) % 2 == 0);
    assert((2 * i + 1) / 2 == i && (2 * i + 1) % 2 == 1);
}

/// Samples are read from little-endian words in two's complement, in the order of the bytes; a
/// last byte without a partner is none.
pub proof fn law_samples_are_little_endian(data: Seq<u8>, i: int)
    requires
        0 <= 2 * i < data.len() - 1,
    ensures
        samples_of(data).len() == data.len() / 2,
        ({
            let word = data[2 * i] + 256 * data[2 * i + 1];
            samples_of(data)[i] == if word < 32768 {
                word
            } else {
                word - 65536
            }
        }),
{
}

} // verus!
