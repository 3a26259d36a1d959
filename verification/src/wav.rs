//! WAV files: writing PCM16, and finding the audio in a RIFF container.
use crate::pcm::{bytes_of, sample_to_bytes};
use vstd::prelude::*;

verus! {

/// The two little-endian bytes of a number.
pub open spec fn le16(x: u16) -> Seq<u8> {
    seq![(x % 256) as u8, (x / 256) as u8]
}

/// The four little-endian bytes of a number.
pub open spec fn le32(x: u32) -> Seq<u8> {
    seq![
        (x % 256) as u8,
        (x / 256 % 256) as u8,
        (x / 65536 % 256) as u8,
        (x / 16777216) as u8,
    ]
}

/// The number that four little-endian bytes stand for.
pub open spec fn le32_at(b: Seq<u8>, at: int) -> u32 {
    (b[at] as int + 256 * (b[at + 1] as int) + 65536 * (b[at + 2] as int) + 16777216 * (b[at
        + 3] as int)) as u32
}

/// Reading the four bytes of a number gives the number back.
pub proof fn law_le32_round_trip(b: Seq<u8>, at: int, x: u32)
    requires
        0 <= at,
        at + 4 <= b.len(),
        b.subrange(at, at + 4) == le32(x),
    ensures
        le32_at(b, at) == x,
{
    let w = b.subrange(at, at + 4);
    assert(b[at] == w[0] && b[at + 1] == w[1] && b[at + 2] == w[2] && b[at + 3] == w[3]);
    assert(x % 256 + 256 * (x / 256 % 256) + 65536 * (x / 65536 % 256) + 16777216 * (x / 16777216)
        == x);
}

/// Appends a number as two little-endian bytes.
pub fn push_u16(out: &mut Vec<u8>, x: u16)
    ensures
        final(out)@ == old(out)@ + le16(x),
{
    out.push((x % 256) as u8);
    out.push((x / 256) as u8);
    assert(out@ =~= old(out)@ + le16(x));
}

/// Appends a number as four little-endian bytes.
pub fn push_u32(out: &mut Vec<u8>, x: u32)
    ensures
        final(out)@ == old(out)@ + le32(x),
{
    out.push((x % 256) as u8);
    out.push((x / 256 % 256) as u8);
    out.push((x / 65536 % 256) as u8);
    out.push((x / 16777216) as u8);
    assert(out@ =~= old(out)@ + le32(x));
}

/// Reads four little-endian bytes.
pub fn read_u32(b: &[u8], at: usize) -> (x: u32)
    requires
        at + 4 <= b@.len(),
    ensures
        x == le32_at(b@, at as int),
{
    b[at] as u32 + 256 * (b[at + 1] as u32) + 65536 * (b[at + 2] as u32) + 16777216 * (b[at
        + 3] as u32)
}

/// The chunk name `RIFF`.
pub open spec fn riff() -> Seq<u8> {
    seq![82u8, 73, 70, 70]
}

/// The form name `WAVE`.
pub open spec fn wave() -> Seq<u8> {
    seq![87u8, 65, 86, 69]
}

/// The chunk name `fmt `.
pub open spec fn fmt() -> Seq<u8> {
    seq![102u8, 109, 116, 32]
}

/// The chunk name `data`.
pub open spec fn data() -> Seq<u8> {
    seq![100u8, 97, 116, 97]
}

fn push_name(out: &mut Vec<u8>, name: [u8; 4])
    ensures
        final(out)@ == old(out)@ + name@,
{
    out.push(name[0]);
    out.push(name[1]);
    out.push(name[2]);
    out.push(name[3]);
    assert(out@ =~= old(out)@ + name@);
}

/// Whether the chunk name `name` stands in `b` at `at`.
pub open spec fn name_at(b: Seq<u8>, at: int, name: Seq<u8>) -> bool {
    b[at] == name[0] && b[at + 1] == name[1] && b[at + 2] == name[2] && b[at + 3] == name[3]
}

fn has_name(b: &[u8], at: usize, name: [u8; 4]) -> (r: bool)
    requires
        at + 4 <= b@.len(),
    ensures
        r == name_at(b@, at as int, name@),
{
    b[at] == name[0] && b[at + 1] == name[1] && b[at + 2] == name[2] && b[at + 3] == name[3]
}

/// The first 12 bytes of a PCM16 file with `bytes` bytes of audio.
pub open spec fn riff_header(bytes: nat) -> Seq<u8> {
    riff() + le32((36 + bytes) as u32) + wave()
}

/// The format chunk of a PCM16 file, 24 bytes.
pub open spec fn fmt_chunk(sample_rate: u32, channels: u16) -> Seq<u8> {
    fmt() + le32(16) + le16(1) + le16(channels) + le32(sample_rate) + le32(
        (sample_rate * channels * 2) as u32,
    ) + le16((channels * 2) as u16) + le16(16)
}

/// The start of the data chunk, 8 bytes.
pub open spec fn data_header(bytes: nat) -> Seq<u8> {
    data() + le32(bytes as u32)
}

/// The 44-byte header of a PCM16 file with `bytes` bytes of audio.
pub open spec fn wav_header(bytes: nat, sample_rate: u32, channels: u16) -> Seq<u8> {
    riff_header(bytes) + fmt_chunk(sample_rate, channels) + data_header(bytes)
}

/// The PCM16 file that holds `samples`.
pub open spec fn wav_file(samples: Seq<i16>, sample_rate: u32, channels: u16) -> Seq<u8> {
    wav_header(2 * samples.len(), sample_rate, channels) + bytes_of(samples)
}

/// What the size fields of the format can hold.
pub open spec fn wav_fits(len: nat, sample_rate: u32, channels: u16) -> bool {
    &&& 36 + 2 * len <= u32::MAX
    &&& sample_rate * channels * 2 <= u32::MAX
    &&& channels * 2 <= u16::MAX
}

fn write_header(size: u32, sample_rate: u32, channels: u16) -> (file: Vec<u8>)
    requires
        36 + size <= u32::MAX,
        sample_rate * channels * 2 <= u32::MAX,
        channels * 2 <= u16::MAX,
    ensures
        file@ == wav_header(size as nat, sample_rate, channels),
{
    let frame: u32 = channels as u32 * 2;
    assert(sample_rate * frame == sample_rate * channels * 2) by (nonlinear_arith)
        requires
            frame == channels * 2,
    ;
    let mut file: Vec<u8> = Vec::new();
    push_name(&mut file, [82, 73, 70, 70]);
    push_u32(&mut file, 36 + size);
    push_name(&mut file, [87, 65, 86, 69]);
    push_name(&mut file, [102, 109, 116, 32]);
    push_u32(&mut file, 16);
    push_u16(&mut file, 1);
    push_u16(&mut file, channels);
    push_u32(&mut file, sample_rate);
    push_u32(&mut file, sample_rate * frame);
    push_u16(&mut file, channels * 2);
    push_u16(&mut file, 16);
    push_name(&mut file, [100, 97, 116, 97]);
    push_u32(&mut file, size);
    assert(file@ =~= wav_header(size as nat, sample_rate, channels));
    file
}

/// Writes a PCM16 WAV file.
///
/// `channels` is 1 for mono and 2 for stereo, whose samples are interleaved.
pub fn write_wav(samples: &[i16], sample_rate: u32, channels: u16) -> (file: Vec<u8>)
    requires
        wav_fits(samples@.len(), sample_rate, channels),
    ensures
        file@ == wav_file(samples@, sample_rate, channels),
{
    let size: u32 = samples.len() as u32 * 2;
    let mut file = write_header(size, sample_rate, channels);
    let ghost header = file@;
    for i in 0..samples.len()
        invariant
            file@ == header + bytes_of(samples@.take(i as int)),
    {
        let (lo, hi) = sample_to_bytes(samples[i]);
        file.push(lo);
        file.push(hi);
        assert(file@ =~= header + bytes_of(samples@.take(i as int + 1)));
    }
    assert(samples@.take(samples@.len() as int) =~= samples@);
    file
}

/// The sample rate of uploaded speech.
pub const UPLOAD_RATE: u32 = 16_000;

/// Whether a file can hold this many bytes of audio.
pub open spec fn wav_bytes_fit(bytes: nat) -> bool {
    36 + bytes <= u32::MAX
}

/// The mono file at [`UPLOAD_RATE`] that holds `pcm`.
pub open spec fn wav_of_pcm(pcm: Seq<u8>) -> Seq<u8> {
    wav_header(pcm.len(), UPLOAD_RATE, 1) + pcm
}

/// Wraps 16 kHz mono PCM16 bytes as a WAV file.
pub fn pcm_to_wav(pcm: &[u8]) -> (file: Vec<u8>)
    requires
        wav_bytes_fit(pcm@.len()),
    ensures
        file@ == wav_of_pcm(pcm@),
{
    let mut file = write_header(pcm.len() as u32, UPLOAD_RATE, 1);
    file.extend_from_slice(pcm);
    assert(file@ =~= wav_of_pcm(pcm@));
    file
}

/// Audio with its native sample rate.
#[derive(Debug)]
pub struct DecodedAudio {
    /// Raw PCM16, little-endian, mono.
    pub pcm: Vec<u8>,
    pub sample_rate: u32,
}

/// Where a chunk scan from `pos` finds the audio: its start, its end, and the sample rate that the
/// last format chunk before it gave.
///
/// Chunks follow one another at even positions. There is no audio where no format chunk came
/// before it or where the file ends first.
pub open spec fn find_audio(b: Seq<u8>, pos: int, rate: u32) -> Option<(int, int, u32)>
    decreases
            (if pos < b.len() {
                b.len() - pos
            } else {
                0
            }),
{
    if pos < 0 || pos + 8 > b.len() {
        None
    } else {
        let size = le32_at(b, pos + 4);
        let next = pos + 8 + size + size % 2;
        if name_at(b, pos, fmt()) && size >= 16 {
            if pos + 16 > b.len() {
                None
            } else {
                find_audio(b, next, le32_at(b, pos + 12))
            }
        } else if name_at(b, pos, data()) {
            if rate == 0 {
                None
            } else {
                Some(
                    (
                        pos + 8,
                        if pos + 8 + size <= b.len() {
                            pos + 8 + size
                        } else {
                            b.len() as int
                        },
                        rate,
                    ),
                )
            }
        } else {
            find_audio(b, next, rate)
        }
    }
}

/// Whether `b` starts as a WAV file does.
pub open spec fn is_wav(b: Seq<u8>) -> bool {
    b.len() >= 44 && name_at(b, 0, riff()) && name_at(b, 8, wave())
}

/// What a WAV file decodes to: its audio bytes and sample rate.
pub open spec fn wav_audio(b: Seq<u8>) -> Option<(Seq<u8>, u32)> {
    if !is_wav(b) {
        None
    } else {
        match find_audio(b, 12, 0) {
            Some((from, to, rate)) => Some((b.subrange(from, to), rate)),
            None => None,
        }
    }
}

/// The audio that decoding gave, as a value.
pub open spec fn decoded_view(d: Option<DecodedAudio>) -> Option<(Seq<u8>, u32)> {
    match d {
        Some(a) => Some((a.pcm@, a.sample_rate)),
        None => None,
    }
}

/// Finds the audio of a WAV file.
///
/// A format chunk that the file cuts off before its sample rate gives no audio.
pub fn parse_wav(wav: &[u8]) -> (d: Option<DecodedAudio>)
    ensures
        decoded_view(d) == wav_audio(wav@),
{
    let len: usize = wav.len();
    if len < 44 || !has_name(wav, 0, [82, 73, 70, 70]) || !has_name(wav, 8, [87, 65, 86, 69]) {
        return None;
    }
    let mut pos: usize = 12;
    let mut sample_rate: u32 = 0;
    while len - pos >= 8
        invariant
            len == wav@.len(),
            12 <= pos <= len,
            find_audio(wav@, 12, 0) == find_audio(wav@, pos as int, sample_rate),
            is_wav(wav@),
        decreases len - pos,
    {
        let size: u32 = read_u32(wav, pos + 4);
        let rest: usize = len - pos - 8;
        if has_name(wav, pos, [102, 109, 116, 32]) && size >= 16 {
            if rest < 8 {
                return None;
            }
            sample_rate = read_u32(wav, pos + 12);
        } else if has_name(wav, pos, [100, 97, 116, 97]) {
            if sample_rate == 0 {
                return None;
            }
            let end: usize = if size as u64 <= rest as u64 {
                pos + 8 + size as usize
            } else {
                len
            };
            let pcm = vstd::slice::slice_to_vec(vstd::slice::slice_subrange(wav, pos + 8, end));
            return Some(DecodedAudio { pcm, sample_rate });
        }
        let skip: u64 = size as u64 + (size % 2) as u64;
        if skip > rest as u64 {
            assert(find_audio(wav@, pos + 8 + skip, sample_rate) is None);
            return None;
        }
        pos = pos + 8 + skip as usize;
    }
    None
}

/// What a synthesis response decodes to.
///
/// A response that starts as a WAV file describes itself and is parsed as one; any other non-empty
/// response is raw PCM at `assumed_rate`.
pub open spec fn response_audio(raw: Seq<u8>, assumed_rate: u32) -> Option<(Seq<u8>, u32)> {
    if is_wav(raw) {
        wav_audio(raw)
    } else if raw.len() > 0 {
        Some((raw, assumed_rate))
    } else {
        None
    }
}

/// Detects the format of a synthesis response and decodes it.
pub fn decode_audio(raw: &[u8], assumed_rate: u32) -> (d: Option<DecodedAudio>)
    ensures
        decoded_view(d) == response_audio(raw@, assumed_rate),
{
    if raw.len() >= 44 && has_name(raw, 0, [82, 73, 70, 70]) && has_name(raw, 8, [87, 65, 86, 69]) {
        parse_wav(raw)
    } else if raw.len() > 0 {
        Some(DecodedAudio { pcm: vstd::slice::slice_to_vec(raw), sample_rate: assumed_rate })
    } else {
        None
    }
}

proof fn lemma_fmt_chunk(sample_rate: u32, channels: u16)
    ensures
        fmt_chunk(sample_rate, channels).len() == 24,
        name_at(fmt_chunk(sample_rate, channels), 0, fmt()),
        le32_at(fmt_chunk(sample_rate, channels), 4) == 16,
        le32_at(fmt_chunk(sample_rate, channels), 12) == sample_rate,
{
    let c = fmt_chunk(sample_rate, channels);
    assert(c.subrange(4, 8) =~= le32(16));
    law_le32_round_trip(c, 4, 16);
    assert(c.subrange(12, 16) =~= le32(sample_rate));
    law_le32_round_trip(c, 12, sample_rate);
}

proof fn lemma_data_header(bytes: nat)
    requires
        bytes <= u32::MAX,
    ensures
        data_header(bytes).len() == 8,
        name_at(data_header(bytes), 0, data()),
        !name_at(data_header(bytes), 0, fmt()),
        le32_at(data_header(bytes), 4) == bytes,
{
    let c = data_header(bytes);
    assert(c.subrange(4, 8) =~= le32(bytes as u32));
    law_le32_round_trip(c, 4, bytes as u32);
}

/// What stands at a place of a part stands at the shifted place of the whole.
proof fn lemma_shifted(whole: Seq<u8>, part: Seq<u8>, at: int)
    requires
        0 <= at,
        at + part.len() <= whole.len(),
        whole.subrange(at, at + part.len()) == part,
    ensures
        forall|i: int|
            0 <= i && i + 4 <= part.len() ==> #[trigger] le32_at(part, i) == le32_at(whole, at + i),
        part.len() >= 4 ==> forall|name: Seq<u8>|
            #![trigger name_at(part, 0, name)]
            name_at(part, 0, name) == name_at(whole, at, name),
{
    let sub = whole.subrange(at, at + part.len());
    assert forall|i: int| 0 <= i < part.len() implies part[i] == whole[at + i] by {
        assert(sub[i] == whole[at + i]);
    }
}

/// Reading a written file gives back its samples and its sample rate.
pub proof fn law_wav_round_trip(samples: Seq<i16>, sample_rate: u32, channels: u16)
    requires
        wav_fits(samples.len(), sample_rate, channels),
        sample_rate > 0,
    ensures
        wav_audio(wav_file(samples, sample_rate, channels)) == Some(
            (bytes_of(samples), sample_rate),
        ),
{
    let b = wav_file(samples, sample_rate, channels);
    let size = 2 * samples.len();
    let head = riff_header(size);
    let format = fmt_chunk(sample_rate, channels);
    let start = data_header(size);
    lemma_fmt_chunk(sample_rate, channels);
    lemma_data_header(size);
    assert(head.len() == 12);
    assert(b.len() == 44 + size);
    assert(b.subrange(0, 12) =~= head);
    assert(b.subrange(12, 36) =~= format);
    assert(b.subrange(36, 44) =~= start);
    assert(b.subrange(44, b.len() as int) =~= bytes_of(samples));
    assert(is_wav(b)) by {
        assert(name_at(head, 0, riff()) && name_at(head, 8, wave()));
        let sub = b.subrange(0, 12);
        assert forall|i: int| 0 <= i < 12 implies b[i] == head[i] by {
            assert(sub[i] == b[i]);
        }
    }
    lemma_shifted(b, format, 12);
    lemma_shifted(b, start, 36);
    assert(name_at(format, 0, fmt()) == name_at(b, 12, fmt()));
    assert(le32_at(format, 4) == le32_at(b, 16));
    assert(le32_at(format, 12) == le32_at(b, 24));
    assert(name_at(start, 0, fmt()) == name_at(b, 36, fmt()));
    assert(name_at(start, 0, data()) == name_at(b, 36, data()));
    assert(le32_at(start, 4) == le32_at(b, 40));
    assert(find_audio(b, 36, sample_rate) == Some((44int, b.len() as int, sample_rate)));
    assert(find_audio(b, 12, 0) == find_audio(b, 36, sample_rate));
}

/// What is read out of a file is never more than the file holds.
pub proof fn law_audio_within_file(b: Seq<u8>, pos: int, rate: u32)
    requires
        pos >= 0,
    ensures
        find_audio(b, pos, rate) matches Some((from, to, r)) ==> pos <= from <= to <= b.len() && r
            != 0,
    decreases
            (if pos < b.len() {
                b.len() - pos
            } else {
                0
            }),
{
    if pos + 8 <= b.len() {
        let size = le32_at(b, pos + 4);
        let next = pos + 8 + size + size % 2;
        law_audio_within_file(b, next, rate);
        law_audio_within_file(b, next, le32_at(b, pos + 12));
    }
}

/// Numbers are written least significant byte first.
pub proof fn law_numbers_are_little_endian(x: u16, y: u32)
    ensures
        le16(x).len() == 2,
        le16(x)[0] + 256 * le16(x)[1] == x,
        le32(y).len() == 4,
        le32(y)[0] + 256 * le32(y)[1] + 65536 * le32(y)[2] + 16777216 * le32(y)[3] == y,
{
    assert(y % 256 + 256 * (y / 256 % 256) + 65536 * (y / 65536 % 256) + 16777216 * (y / 16777216)
        == y);
}

/// The number that two little-endian bytes of `b` stand for.
pub open spec fn word_at(b: Seq<u8>, at: int) -> int {
    b[at] + 256 * b[at + 1]
}

/// The number that four little-endian bytes of `b` stand for.
pub open spec fn long_at(b: Seq<u8>, at: int) -> int {
    b[at] + 256 * b[at + 1] + 65536 * b[at + 2] + 16777216 * b[at + 3]
}

/// The header of a file says what follows it: PCM, the channels and the rate, how many bytes a
/// second and a frame of it take, 16 bits a sample, and how many bytes there are.
pub proof fn law_header_describes_the_audio(bytes: nat, sample_rate: u32, channels: u16)
    requires
        36 + bytes <= u32::MAX,
        sample_rate * channels * 2 <= u32::MAX,
        channels * 2 <= u16::MAX,
    ensures
        ({
            let h = wav_header(bytes, sample_rate, channels);
            &&& h.len() == 44
            &&& h[0] == 'R' as u8 && h[1] == 'I' as u8 && h[2] == 'F' as u8 && h[3] == 'F' as u8
            &&& long_at(h, 4) == 36 + bytes
            &&& h[8] == 'W' as u8 && h[9] == 'A' as u8 && h[10] == 'V' as u8 && h[11] == 'E' as u8
            &&& h[12] == 'f' as u8 && h[13] == 'm' as u8 && h[14] == 't' as u8 && h[15] == ' ' as u8
            &&& long_at(h, 16) == 16
            &&& word_at(h, 20) == 1
            &&& word_at(h, 22) == channels
            &&& long_at(h, 24) == sample_rate
            &&& long_at(h, 28) == sample_rate * channels * 2
            &&& word_at(h, 32) == channels * 2
            &&& word_at(h, 34) == 16
            &&& h[36] == 'd' as u8 && h[37] == 'a' as u8 && h[38] == 't' as u8 && h[39] == 'a' as u8
            &&& long_at(h, 40) == bytes
        }),
{
    let h = wav_header(bytes, sample_rate, channels);
    lemma_long(h, 4, (36 + bytes) as u32);
    lemma_long(h, 16, 16);
    lemma_word(h, 20, 1);
    lemma_word(h, 22, channels);
    lemma_long(h, 24, sample_rate);
    lemma_long(h, 28, (sample_rate * channels * 2) as u32);
    lemma_word(h, 32, (channels * 2) as u16);
    lemma_word(h, 34, 16);
    lemma_long(h, 40, bytes as u32);
}

proof fn lemma_long(b: Seq<u8>, at: int, x: u32)
    requires
        0 <= at,
        at + 4 <= b.len(),
        b.subrange(at, at + 4) =~= le32(x),
    ensures
        long_at(b, at) == x,
{
    law_numbers_are_little_endian(0, x);
    let w = b.subrange(at, at + 4);
    assert(b[at] == w[0] && b[at + 1] == w[1] && b[at + 2] == w[2] && b[at + 3] == w[3]);
}

proof fn lemma_word(b: Seq<u8>, at: int, x: u16)
    requires
        0 <= at,
        at + 2 <= b.len(),
        b.subrange(at, at + 2) =~= le16(x),
    ensures
        word_at(b, at) == x,
{
    law_numbers_are_little_endian(x, 0);
    let w = b.subrange(at, at + 2);
    assert(b[at] == w[0] && b[at + 1] == w[1]);
}

/// A file holds its header and then the samples, as little-endian bytes, in order.
pub proof fn law_samples_follow_the_header(samples: Seq<i16>, sample_rate: u32, channels: u16, i: int)
    requires
        wav_fits(samples.len(), sample_rate, channels),
        0 <= i < samples.len(),
    ensures
        ({
            let b = wav_file(samples, sample_rate, channels);
            &&& b.len() == 44 + 2 * samples.len()
            &&& b.take(44) == wav_header(2 * samples.len(), sample_rate, channels)
            &&& word_at(b, 44 + 2 * i) == if samples[i] >= 0 {
                samples[i] as int
            } else {
                samples[i] + 65536
            }
        }),
{
    let b = wav_file(samples, sample_rate, channels);
    crate::pcm::law_bytes_are_little_endian(samples, i);
    assert(b.take(44) =~= wav_header(2 * samples.len(), sample_rate, channels));
    assert(b[44 + 2 * i] == bytes_of(samples)[2 * i]);
    assert(b[44 + 2 * i + 1] == bytes_of(samples)[2 * i + 1]);
}

/// Uploaded speech is a mono file of 16 kHz that holds all bytes of the audio.
pub proof fn law_upload_holds_the_audio(pcm: Seq<u8>)
    requires
        36 + pcm.len() <= u32::MAX,
    ensures
        wav_of_pcm(pcm).len() == 44 + pcm.len(),
        wav_of_pcm(pcm).take(44) == wav_header(pcm.len(), 16_000, 1),
        wav_of_pcm(pcm).skip(44) == pcm,
{
    assert(wav_of_pcm(pcm).take(44) =~= wav_header(pcm.len(), 16_000, 1));
    assert(wav_of_pcm(pcm).skip(44) =~= pcm);
}

/// A scan goes from chunk to chunk, each of which says how long it is and ends at an even place. A
/// format chunk gives the rate, a chunk of any other name but `data` is passed over, and `data` is
/// the audio, as far as the file goes, if a rate was given before it.
pub proof fn law_scan_goes_from_chunk_to_chunk(b: Seq<u8>, pos: int, rate: u32)
    requires
        0 <= pos,
        pos + 8 <= b.len(),
    ensures
        ({
            let size = long_at(b, pos + 4);
            let end = pos + 8 + size;
            let next = if size % 2 == 0 {
                end
            } else {
                end + 1
            };
            let is_data = b[pos] == 'd' as u8 && b[pos + 1] == 'a' as u8 && b[pos + 2] == 't' as u8
                && b[pos + 3] == 'a' as u8;
            let is_fmt = b[pos] == 'f' as u8 && b[pos + 1] == 'm' as u8 && b[pos + 2] == 't' as u8
                && b[pos + 3] == ' ' as u8;
            &&& !is_data && !is_fmt ==> find_audio(b, pos, rate) == find_audio(b, next, rate)
            &&& is_fmt && size >= 16 && pos + 16 <= b.len() ==> find_audio(b, pos, rate)
                == find_audio(b, next, long_at(b, pos + 12) as u32)
            &&& is_fmt && size < 16 ==> find_audio(b, pos, rate) == find_audio(b, next, rate)
            &&& is_data && rate == 0 ==> find_audio(b, pos, rate) is None
            &&& is_data && rate != 0 && end <= b.len() ==> find_audio(b, pos, rate) == Some(
                (pos + 8, end, rate),
            )
            &&& is_data && rate != 0 && end > b.len() ==> find_audio(b, pos, rate) == Some(
                (pos + 8, b.len() as int, rate),
            )
        }),
{
}

/// Only a file that starts with `RIFF` and `WAVE` and is as long as a header is taken for one, and
/// it never depends on the rate that is assumed of raw audio; everything else but nothing is raw
/// audio at that rate, byte for byte.
pub proof fn law_files_describe_themselves(raw: Seq<u8>, one: u32, other: u32)
    ensures
        ({
            let named = raw.len() >= 44 && raw[0] == 'R' as u8 && raw[1] == 'I' as u8 && raw[2]
                == 'F' as u8 && raw[3] == 'F' as u8 && raw[8] == 'W' as u8 && raw[9] == 'A' as u8
                && raw[10] == 'V' as u8 && raw[11] == 'E' as u8;
            &&& named ==> response_audio(raw, one) == response_audio(raw, other)
            &&& named ==> match find_audio(raw, 12, 0) {
                Some((from, to, rate)) => response_audio(raw, one) == Some(
                    (raw.subrange(from, to), rate),
                ),
                None => response_audio(raw, one) is None,
            }
            &&& !named && raw.len() > 0 ==> response_audio(raw, one) == Some((raw, one))
            &&& raw.len() == 0 ==> response_audio(raw, one) is None
        }),
{
}

/// The names in a file are the letters that they are called by.
pub proof fn law_names_are_spelled(i: int)
    requires
        0 <= i < 4,
    ensures
        riff().len() == 4 && riff()[i] == "RIFF"@[i] as u8,
        wave().len() == 4 && wave()[i] == "WAVE"@[i] as u8,
        fmt().len() == 4 && fmt()[i] == "fmt "@[i] as u8,
        data().len() == 4 && data()[i] == "data"@[i] as u8,
{
    reveal_strlit("RIFF");
    reveal_strlit("WAVE");
    reveal_strlit("fmt ");
    reveal_strlit("data");
}

} // verus!
