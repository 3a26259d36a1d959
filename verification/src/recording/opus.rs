//! OGG/Opus files: splitting audio into codec frames and framing the encoded packets.
//!
//! The codec itself runs between the two: [`encode_mono`] and [`encode_stereo`] say which frames it
//! has to encode, and [`mux_ogg_opus`] turns its packets into a file.
use crate::recording::mix::interleave_stereo;
use crate::wav::{push_u16, push_u32};
use vstd::prelude::*;

verus! {

/// Why audio cannot be encoded to Opus.
#[derive(Clone, Copy, Debug, PartialEq, Eq, Structural)]
pub enum OpusError {
    /// There is no audio.
    EmptyPcm,
    /// The codec supports 8000, 12000, 16000, 24000 and 48000 Hz only.
    UnsupportedRate(u32),
    /// The codec supports one or two channels only.
    UnsupportedChannels(u8),
}

/// An Opus stream: how it is framed, and the frames to encode.
#[derive(Debug)]
pub struct OpusStream {
    pub sample_rate: u32,
    pub channels: u8,
    /// Samples per channel in one frame of 20 ms.
    pub frame_samples: usize,
    /// Samples to skip at the start, at `sample_rate`.
    pub pre_skip: u16,
    /// Interleaved samples, one frame each; the last one is padded with silence.
    pub frames: Vec<Vec<i16>>,
}

/// The sample rates that the codec supports.
pub open spec fn is_opus_rate(rate: u32) -> bool {
    rate == 8000 || rate == 12000 || rate == 16000 || rate == 24000 || rate == 48000
}

/// The codec's output buffer: no packet is longer.
pub const MAX_PACKET_BYTES: usize = 4000;

/// The number of frames of `frame_total` values that `len` values fill.
pub open spec fn frame_count(len: nat, frame_total: nat) -> nat {
    (len + frame_total - 1) as nat / frame_total
}

/// The values of frame `i`, padded with silence to `frame_total`.
pub open spec fn frame_at(pcm: Seq<i16>, frame_total: nat, i: nat) -> Seq<i16> {
    Seq::new(
        frame_total,
        |k: int| crate::recording::mix::sample_or_zero(pcm, i * frame_total + k),
    )
}

/// Why `pcm` cannot be encoded, where it cannot.
pub open spec fn opus_refusal(len: nat, sample_rate: u32, channels: u8) -> Option<OpusError> {
    if len == 0 {
        Some(OpusError::EmptyPcm)
    } else if !is_opus_rate(sample_rate) {
        Some(OpusError::UnsupportedRate(sample_rate))
    } else if channels != 1 && channels != 2 {
        Some(OpusError::UnsupportedChannels(channels))
    } else {
        None
    }
}

/// `s` is the stream of `pcm`.
pub open spec fn is_stream_of(s: OpusStream, pcm: Seq<i16>, sample_rate: u32, channels: u8) -> bool {
    let frame_samples = (sample_rate / 50) as nat;
    let frame_total = frame_samples * channels as nat;
    &&& s.sample_rate == sample_rate
    &&& s.channels == channels
    &&& s.frame_samples == frame_samples
    &&& s.pre_skip == 312 * sample_rate / 48000
    &&& s.frames@.len() == frame_count(pcm.len(), frame_total)
    &&& forall|i: int|
        0 <= i < s.frames@.len() ==> (#[trigger] s.frames@[i])@ == frame_at(
            pcm,
            frame_total,
            i as nat,
        )
}

fn is_supported_rate(rate: u32) -> (r: bool)
    ensures
        r == is_opus_rate(rate),
{
    rate == 8000 || rate == 12000 || rate == 16000 || rate == 24000 || rate == 48000
}

/// Splits interleaved audio into the frames that the codec has to encode.
pub fn plan_ogg_opus(pcm: &[i16], sample_rate: u32, channels: u8) -> (r: Result<
    OpusStream,
    OpusError,
>)
    ensures
        r is Err <==> opus_refusal(pcm@.len(), sample_rate, channels) is Some,
        r matches Err(e) ==> opus_refusal(pcm@.len(), sample_rate, channels) == Some(e),
        r matches Ok(s) ==> is_stream_of(s, pcm@, sample_rate, channels),
{
    let len: usize = pcm.len();
    if len == 0 {
        return Err(OpusError::EmptyPcm);
    }
    if !is_supported_rate(sample_rate) {
        return Err(OpusError::UnsupportedRate(sample_rate));
    }
    if channels != 1 && channels != 2 {
        return Err(OpusError::UnsupportedChannels(channels));
    }
    let frame_samples: usize = (sample_rate / 50) as usize;
    let frame_total: usize = if channels == 1 {
        frame_samples
    } else {
        frame_samples * 2
    };
    let pre_skip: u16 = (312 * sample_rate / 48000) as u16;
    let count: usize = (len - 1) / frame_total + 1;
    assert(count == (len + frame_total - 1) / (frame_total as int)) by (nonlinear_arith)
        requires
            len >= 1,
            frame_total >= 1,
            count == (len - 1) / (frame_total as int) + 1,
    ;
    let mut frames: Vec<Vec<i16>> = Vec::new();
    for i in 0..count
        invariant
            len == pcm@.len(),
            160 <= frame_total <= 1920,
            count == (len + frame_total - 1) / (frame_total as int),
            frames@.len() == i,
            forall|k: int|
                0 <= k < i ==> (#[trigger] frames@[k])@ == frame_at(
                    pcm@,
                    frame_total as nat,
                    k as nat,
                ),
    {
        assert(i * frame_total <= len && i * frame_total + frame_total <= len + frame_total)
            by (nonlinear_arith)
            requires
                i < count,
                count == (len + frame_total - 1) / (frame_total as int),
                frame_total >= 160,
        ;
        let at: usize = i * frame_total;
        let mut frame: Vec<i16> = Vec::new();
        for k in 0..frame_total
            invariant
                len == pcm@.len(),
                frame_total <= 1920,
                at == i * frame_total,
                at <= len,
                frame@.len() == k,
                forall|j: int|
                    0 <= j < k ==> frame@[j] == crate::recording::mix::sample_or_zero(
                        pcm@,
                        at + j,
                    ),
        {
            let s: i16 = if k < len - at {
                pcm[at + k]
            } else {
                0
            };
            frame.push(s);
        }
        assert(frame@ =~= frame_at(pcm@, frame_total as nat, i as nat));
        frames.push(frame);
    }
    assert(frame_samples as nat * channels as nat == frame_total) by (nonlinear_arith)
        requires
            channels == 1 ==> frame_total == frame_samples,
            channels == 2 ==> frame_total == frame_samples * 2,
            channels == 1 || channels == 2,
    ;
    Ok(OpusStream { sample_rate, channels, frame_samples, pre_skip, frames })
}

/// Prepares mono samples for encoding to OGG/Opus.
pub fn encode_mono(samples: &[i16], sample_rate: u32) -> (r: Result<OpusStream, OpusError>)
    ensures
        r is Err <==> opus_refusal(samples@.len(), sample_rate, 1) is Some,
        r matches Err(e) ==> opus_refusal(samples@.len(), sample_rate, 1) == Some(e),
        r matches Ok(s) ==> is_stream_of(s, samples@, sample_rate, 1),
{
    plan_ogg_opus(samples, sample_rate, 1)
}

/// Prepares stereo samples for encoding to OGG/Opus.
///
/// The channels are interleaved; the shorter one is padded with silence.
pub fn encode_stereo(left: &[i16], right: &[i16], sample_rate: u32) -> (r: Result<
    OpusStream,
    OpusError,
>)
    ensures
        ({
            let pcm = crate::recording::mix::interleaved(left@, right@);
            &&& r is Err <==> opus_refusal(pcm.len(), sample_rate, 2) is Some
            &&& r matches Err(e) ==> opus_refusal(pcm.len(), sample_rate, 2) == Some(e)
            &&& r matches Ok(s) ==> is_stream_of(s, pcm, sample_rate, 2)
        }),
{
    let pcm = interleave_stereo(left, right);
    plan_ogg_opus(pcm.as_slice(), sample_rate, 2)
}

/// `OpusHead`, the name that starts the identification header.
pub open spec fn head_magic() -> Seq<u8> {
    seq![79u8, 112, 117, 115, 72, 101, 97, 100]
}

/// `OpusTags`, the name that starts the comment header.
pub open spec fn tags_magic() -> Seq<u8> {
    seq![79u8, 112, 117, 115, 84, 97, 103, 115]
}

/// `voice-trace`, the vendor in the comment header.
pub open spec fn vendor() -> Seq<u8> {
    seq![118u8, 111, 105, 99, 101, 45, 116, 114, 97, 99, 101]
}

/// The identification header: version 1, no output gain, mapping family 0.
pub open spec fn head_packet(channels: u8, pre_skip: u16, sample_rate: u32) -> Seq<u8> {
    head_magic() + seq![1u8, channels] + crate::wav::le16(pre_skip) + crate::wav::le32(sample_rate)
        + crate::wav::le16(0) + seq![0u8]
}

/// The comment header: the vendor and no comments.
pub open spec fn tags_packet() -> Seq<u8> {
    tags_magic() + crate::wav::le32(11) + vendor() + crate::wav::le32(0)
}

/// Builds the 19-byte identification header.
pub fn opus_head(channels: u8, pre_skip: u16, sample_rate: u32) -> (head: Vec<u8>)
    ensures
        head@ == head_packet(channels, pre_skip, sample_rate),
        head@.len() == 19,
{
    let mut head: Vec<u8> = vec![79, 112, 117, 115, 72, 101, 97, 100];
    head.push(1);
    head.push(channels);
    push_u16(&mut head, pre_skip);
    push_u32(&mut head, sample_rate);
    push_u16(&mut head, 0);
    head.push(0);
    assert(head@ =~= head_packet(channels, pre_skip, sample_rate));
    head
}

/// Builds the comment header.
pub fn opus_tags() -> (tags: Vec<u8>)
    ensures
        tags@ == tags_packet(),
{
    let mut tags: Vec<u8> = vec![79, 112, 117, 115, 84, 97, 103, 115];
    push_u32(&mut tags, 11);
    let name: [u8; 11] = [118, 111, 105, 99, 101, 45, 116, 114, 97, 99, 101];
    for i in 0..11usize
        invariant
            name@ == vendor(),
            tags@ == tags_magic() + crate::wav::le32(11) + vendor().take(i as int),
    {
        tags.push(name[i]);
        assert(tags@ =~= tags_magic() + crate::wav::le32(11) + vendor().take(i as int + 1));
    }
    push_u32(&mut tags, 0);
    assert(tags@ =~= tags_packet());
    tags
}

/// What a packet ends.
#[derive(Clone, Copy, Debug, PartialEq, Eq, Structural)]
pub enum PacketEnd {
    /// Nothing.
    Nothing,
    /// Its page.
    Page,
    /// The stream.
    Stream,
}

/// An `ogg::writing::PacketWriter` that writes into a byte vector.
#[verifier::external_body]
pub struct OggWriter {
    writer: ogg::writing::PacketWriter<'static, Vec<u8>>,
}

/// The packets given to a writer so far: bytes, stream serial, what each ends, granule position.
pub uninterp spec fn ogg_packets(w: OggWriter) -> Seq<(Seq<u8>, u32, PacketEnd, u64)>;

/// The file that `ogg::writing::PacketWriter` makes of a sequence of packets.
pub uninterp spec fn ogg_file(packets: Seq<(Seq<u8>, u32, PacketEnd, u64)>) -> Seq<u8>;

/// `PacketWriter::new` on an empty vector: a writer without packets.
#[verifier::external_body]
fn ogg_writer() -> (w: OggWriter)
    ensures
        ogg_packets(w) == Seq::<(Seq<u8>, u32, PacketEnd, u64)>::empty(),
{
    OggWriter { writer: ogg::writing::PacketWriter::new(Vec::new()) }
}

/// `PacketWriter::write_packet`: adds a packet.
///
/// Writing into a vector does not fail. The bounds keep the 32-bit page counter from running over:
/// a packet of at most 4000 bytes takes part in at most three pages.
#[verifier::external_body]
fn ogg_write(
    w: &mut OggWriter,
    packet: Vec<u8>,
    serial: u32,
    end: PacketEnd,
    granule: u64,
)
    requires
        packet@.len() <= MAX_PACKET_BYTES,
        ogg_packets(*old(w)).len() < 0x4000_0000,
    ensures
        ogg_packets(*final(w)) == ogg_packets(*old(w)).push((packet@, serial, end, granule)),
{
    let info = match end {
        PacketEnd::Nothing => ogg::writing::PacketWriteEndInfo::NormalPacket,
        PacketEnd::Page => ogg::writing::PacketWriteEndInfo::EndPage,
        PacketEnd::Stream => ogg::writing::PacketWriteEndInfo::EndStream,
    };
    w.writer.write_packet(packet, serial, info, granule).unwrap();
}

/// `PacketWriter::into_inner`: the bytes written.
///
/// They are a function of the packets alone. A file whose first packet ends its page starts with
/// the page marker `OggS`.
#[verifier::external_body]
fn ogg_finish(w: OggWriter) -> (file: Vec<u8>)
    ensures
        file@ == ogg_file(ogg_packets(w)),
        ogg_packets(w).len() > 0 && ogg_packets(w)[0].2 is Page ==> seq![79u8, 103, 103, 83]
            .is_prefix_of(file@),
{
    w.writer.into_inner()
}

/// The serial number of the one stream in a file.
pub const SERIAL: u32 = 1;

/// The packets of a file: two headers on pages of their own, then the audio packets, each with the
/// sample position at its end; the last one ends the stream.
pub open spec fn file_packets(s: OpusStream, packets: Seq<Vec<u8>>) -> Seq<
    (Seq<u8>, u32, PacketEnd, u64),
> {
    seq![
        (head_packet(s.channels, s.pre_skip, s.sample_rate), SERIAL, PacketEnd::Page, 0u64),
        (tags_packet(), SERIAL, PacketEnd::Page, 0u64),
    ] + audio_packets(s, packets)
}

/// The audio packets of a file.
pub open spec fn audio_packets(s: OpusStream, packets: Seq<Vec<u8>>) -> Seq<
    (Seq<u8>, u32, PacketEnd, u64),
> {
    Seq::new(
        packets.len(),
        |i: int|
            (
                packets[i]@,
                SERIAL,
                if i == packets.len() - 1 {
                    PacketEnd::Stream
                } else {
                    PacketEnd::Nothing
                },
                ((i + 1) * s.frame_samples) as u64,
            ),
    )
}

fn copy_bytes(v: &Vec<u8>) -> (r: Vec<u8>)
    ensures
        r@ == v@,
{
    vstd::slice::slice_to_vec(v.as_slice())
}

/// Frames the encoded packets of a stream as an OGG/Opus file.
///
/// `packets` holds one packet for each frame of `stream`.
pub fn mux_ogg_opus(stream: &OpusStream, packets: &Vec<Vec<u8>>) -> (file: Vec<u8>)
    requires
        stream.frame_samples <= 960,
        packets@.len() < 0x2000_0000,
        forall|i: int| 0 <= i < packets@.len() ==> (#[trigger] packets@[i])@.len()
            <= MAX_PACKET_BYTES,
    ensures
        file@ == ogg_file(file_packets(*stream, packets@)),
        seq![79u8, 103, 103, 83].is_prefix_of(file@),
{
    let mut w = ogg_writer();
    let head = opus_head(stream.channels, stream.pre_skip, stream.sample_rate);
    ogg_write(&mut w, head, SERIAL, PacketEnd::Page, 0);
    ogg_write(&mut w, opus_tags(), SERIAL, PacketEnd::Page, 0);
    let ghost headers = ogg_packets(w);
    let ghost all = audio_packets(*stream, packets@);
    let mut granule: u64 = 0;
    assert(0 * stream.frame_samples == 0) by (nonlinear_arith);
    for i in 0..packets.len()
        invariant
            headers.len() == 2,
            all == audio_packets(*stream, packets@),
            ogg_packets(w) == headers + all.take(i as int),
            granule == i * stream.frame_samples,
            stream.frame_samples <= 960,
            packets@.len() < 0x2000_0000,
            forall|k: int| 0 <= k < packets@.len() ==> (#[trigger] packets@[k])@.len()
                <= MAX_PACKET_BYTES,
    {
        assert(i * stream.frame_samples <= 0x2000_0000 * 960) by (nonlinear_arith)
            requires
                i < 0x2000_0000,
                stream.frame_samples <= 960,
        ;
        assert(i * stream.frame_samples + stream.frame_samples == (i + 1) * stream.frame_samples)
            by (nonlinear_arith);
        granule = granule + stream.frame_samples as u64;
        let end = if i == packets.len() - 1 {
            PacketEnd::Stream
        } else {
            PacketEnd::Nothing
        };
        ogg_write(&mut w, copy_bytes(&packets[i]), SERIAL, end, granule);
        assert(ogg_packets(w) =~= headers + all.take(i as int + 1));
    }
    assert(all.take(packets@.len() as int) =~= all);
    assert(ogg_packets(w) =~= file_packets(*stream, packets@));
    assert(ogg_packets(w)[0].2 is Page);
    ogg_finish(w)
}

/// Every sample reaches the codec once, in order: sample `j` is at place `j % n` of frame `j / n`,
/// and what the frames hold beyond the audio is silence.
pub proof fn law_frames_hold_the_audio(s: OpusStream, pcm: Seq<i16>, sample_rate: u32, channels: u8, j: int)
    requires
        opus_refusal(pcm.len(), sample_rate, channels) is None,
        is_stream_of(s, pcm, sample_rate, channels),
        0 <= j < pcm.len(),
    ensures
        ({
            let n = s.frame_samples * s.channels;
            &&& 0 <= j / n < s.frames@.len()
            &&& s.frames@[j / n]@.len() == n
            &&& s.frames@[j / n]@[j % n] == pcm[j]
        }),
{
    let n: int = s.frame_samples * s.channels;
    let len: int = pcm.len() as int;
    assert((sample_rate / 50) as nat * channels as nat == n);
    assert(n > 0) by (nonlinear_arith)
        requires
            n == s.frame_samples * s.channels,
            s.frame_samples >= 160,
            s.channels >= 1,
    ;
    assert(0 <= j / n && (j / n) * n <= j && j == (j / n) * n + j % n && 0 <= j % n < n)
        by (nonlinear_arith)
        requires
            0 <= j,
            n > 0,
    ;
    assert(j / n < (len + n - 1) / n) by (nonlinear_arith)
        requires
            0 <= j < len,
            n > 0,
    ;
}

/// A channel padded with silence to `n` samples.
pub open spec fn padded(s: Seq<i16>, n: nat) -> Seq<i16> {
    Seq::new(n, |i: int| crate::recording::mix::sample_or_zero(s, i))
}

/// Channels of different lengths are encoded as if the shorter one had been padded with silence to
/// the length of the longer one: the same inputs are refused, for the same reason, and the same
/// frames are encoded. So stereo audio of which only one channel is empty is not refused.
pub proof fn law_stereo_is_padded(left: Seq<i16>, right: Seq<i16>, sample_rate: u32)
    ensures
        ({
            let n = crate::recording::mix::longer(left.len(), right.len());
            let pcm = crate::recording::mix::interleaved(left, right);
            let even = crate::recording::mix::interleaved(padded(left, n), padded(right, n));
            &&& padded(left, n).len() == padded(right, n).len()
            &&& left.is_prefix_of(padded(left, n)) && right.is_prefix_of(padded(right, n))
            &&& opus_refusal(pcm.len(), sample_rate, 2) == opus_refusal(even.len(), sample_rate, 2)
            &&& opus_refusal(pcm.len(), sample_rate, 2) is None <==> n > 0 && is_opus_rate(
                sample_rate,
            )
            &&& forall|s: OpusStream| #[trigger]
                is_stream_of(s, pcm, sample_rate, 2) <==> is_stream_of(s, even, sample_rate, 2)
        }),
{
    let n = crate::recording::mix::longer(left.len(), right.len());
    assert(left =~= padded(left, n).take(left.len() as int));
    assert(right =~= padded(right, n).take(right.len() as int));
    assert(crate::recording::mix::interleaved(left, right)
        =~= crate::recording::mix::interleaved(padded(left, n), padded(right, n)));
}

/// Every frame is full, and the audio positions of the file rise by one frame per packet up to the
/// end of the last one.
pub proof fn law_granules_rise(s: OpusStream, packets: Seq<Vec<u8>>, i: int)
    requires
        0 <= i < packets.len() - 1,
        s.frame_samples <= 960,
        packets.len() < 0x2000_0000,
    ensures
        audio_packets(s, packets)[i + 1].3 == audio_packets(s, packets)[i].3 + s.frame_samples,
{
    assert((i + 1) * s.frame_samples <= 0x2000_0000 * 960 && (i + 2) * s.frame_samples
        <= 0x2000_0000 * 960 && (i + 2) * s.frame_samples == (i + 1) * s.frame_samples
        + s.frame_samples) by (nonlinear_arith)
        requires
            0 <= i,
            i + 2 <= 0x2000_0000,
            s.frame_samples <= 960,
    ;
    assert(i + 1 + 1 == i + 2);
}

/// The frames of a stream last 20 ms each, are all full, are no more than the audio needs, and hold
/// silence after its end.
pub proof fn law_frames_end_in_silence(
    s: OpusStream,
    pcm: Seq<i16>,
    sample_rate: u32,
    channels: u8,
    i: int,
    k: int,
)
    requires
        opus_refusal(pcm.len(), sample_rate, channels) is None,
        is_stream_of(s, pcm, sample_rate, channels),
        0 <= i < s.frames@.len(),
        0 <= k < s.frames@[i]@.len(),
    ensures
        s.frame_samples * 50 == sample_rate,
        s.frames@[i]@.len() == s.frame_samples * channels,
        i * (s.frame_samples * channels) < pcm.len(),
        i * (s.frame_samples * channels) + k >= pcm.len() ==> s.frames@[i]@[k] == 0,
        48000 * s.pre_skip <= 312 * sample_rate < 48000 * (s.pre_skip + 1),
        s.sample_rate == sample_rate,
        s.channels == channels,
{
    let n: int = s.frame_samples * channels;
    let len: int = pcm.len() as int;
    assert(n > 0) by (nonlinear_arith)
        requires
            n == s.frame_samples * channels,
            s.frame_samples >= 160,
            channels >= 1,
    ;
    assert(i * n < len) by (nonlinear_arith)
        requires
            0 <= i < (len + n - 1) / n,
            n > 0,
            len > 0,
    ;
}

/// Audio is refused where there is none, at other rates than the codec's five, and with other than
/// one or two channels; the first of these that holds is the reason.
pub proof fn law_refusals(len: nat, rate: u32, channels: u8)
    ensures
        opus_refusal(len, rate, channels) == Some(OpusError::EmptyPcm) <==> len == 0,
        opus_refusal(len, rate, channels) == Some(OpusError::UnsupportedRate(rate)) <==> len > 0
            && rate != 8000 && rate != 12000 && rate != 16000 && rate != 24000 && rate != 48000,
        opus_refusal(len, rate, channels) is None <==> len > 0 && 1 <= channels <= 2
            && (rate == 8000
            || rate == 12000 || rate == 16000 || rate == 24000 || rate == 48000),
{
}

/// A file holds two headers that end their pages at position 0, then every audio packet unchanged and
/// in order, each at the number of samples up to its end; only the last ends the stream.
pub proof fn law_file_holds_every_packet(s: OpusStream, packets: Seq<Vec<u8>>, i: int)
    requires
        0 <= i < packets.len(),
        s.frame_samples <= 960,
        packets.len() < 0x2000_0000,
    ensures
        ({
            let f = file_packets(s, packets);
            &&& f.len() == packets.len() + 2
            &&& f[0].2 is Page && f[1].2 is Page && f[0].3 == 0 && f[1].3 == 0
            &&& f[i + 2].0 == packets[i]@
            &&& f[i + 2].3 == (i + 1) * s.frame_samples
            &&& f[i + 2].2 is Stream <==> i == packets.len() - 1
            &&& !(f[i + 2].2 is Page)
            &&& f[i + 2].1 == f[0].1 && f[1].1 == f[0].1
        }),
{
    assert((i + 1) * s.frame_samples <= 0x2000_0000 * 960) by (nonlinear_arith)
        requires
            0 <= i < 0x2000_0000,
            s.frame_samples <= 960,
    ;
    assert((i + 1) * s.frame_samples >= 0) by (nonlinear_arith)
        requires
            0 <= i,
            s.frame_samples >= 0,
    ;
}

/// The identification header holds, each at its place and with the lowest byte first, the channels,
/// the samples to skip and the rate.
pub proof fn law_head_describes_the_stream(channels: u8, pre_skip: u16, rate: u32)
    ensures
        ({
            let h = head_packet(channels, pre_skip, rate);
            &&& h.len() == 19
            &&& h[8] == 1
            &&& h[9] == channels
            &&& h[10] + 256 * h[11] == pre_skip
            &&& h[12] + 256 * h[13] + 65536 * h[14] + 16777216 * h[15] == rate
            &&& h[16] == 0 && h[17] == 0 && h[18] == 0
        }),
{
    crate::wav::law_numbers_are_little_endian(pre_skip, rate);
    let h = head_packet(channels, pre_skip, rate);
    let a = crate::wav::le16(pre_skip);
    let b = crate::wav::le32(rate);
    assert(h[10] == a[0] && h[11] == a[1]);
    assert(h[12] == b[0] && h[13] == b[1] && h[14] == b[2] && h[15] == b[3]);
}

/// The headers start with their names, and the comment header holds the vendor with its length and
/// no comments.
pub proof fn law_headers_are_named(channels: u8, pre_skip: u16, rate: u32, i: int)
    ensures
        0 <= i < 8 ==> head_packet(channels, pre_skip, rate)[i] == "OpusHead"@[i] as u8,
        0 <= i < 8 ==> tags_packet()[i] == "OpusTags"@[i] as u8,
        tags_packet().len() == 27,
        tags_packet()[8] == 11 && tags_packet()[9] == 0 && tags_packet()[10] == 0
            && tags_packet()[11] == 0,
        0 <= i < 11 ==> tags_packet()[12 + i] == "voice-trace"@[i] as u8,
        23 <= i < 27 ==> tags_packet()[i] == 0,
{
    reveal_strlit("OpusHead");
    reveal_strlit("OpusTags");
    reveal_strlit("voice-trace");
    crate::wav::law_numbers_are_little_endian(0, 11);
    crate::wav::law_numbers_are_little_endian(0, 0);
    let t = tags_packet();
    let a = crate::wav::le32(11);
    let z = crate::wav::le32(0);
    assert(t[8] == a[0] && t[9] == a[1] && t[10] == a[2] && t[11] == a[3]);
    assert(t[23] == z[0] && t[24] == z[1] && t[25] == z[2] && t[26] == z[3]);
}

} // verus!
