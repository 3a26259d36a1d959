//! PCM, WAV and mixing.
use voice_engine::pcm::{bytes_to_i16, i16_to_bytes, whole_samples};
use voice_engine::recording::mix::{interleave_stereo, mix_mono, place_samples};
use voice_engine::recording::opus::{
    encode_mono, encode_stereo, mux_ogg_opus, opus_head, opus_tags, OpusError, OpusStream,
};
use voice_engine::timestamp::{iso8601, utc_now_iso8601};
use voice_engine::wav::{decode_audio, parse_wav, pcm_to_wav, write_wav};

#[test]
fn wav_header_correctness() {
    let samples = vec![0i16; 1600];
    let wav = write_wav(&samples, 16000, 1);
    assert_eq!(&wav[0..4], b"RIFF");
    let file_size = u32::from_le_bytes([wav[4], wav[5], wav[6], wav[7]]);
    assert_eq!(file_size, 36 + 3200);
    assert_eq!(&wav[8..12], b"WAVE");
    assert_eq!(&wav[12..16], b"fmt ");
    let fmt_size = u32::from_le_bytes([wav[16], wav[17], wav[18], wav[19]]);
    assert_eq!(fmt_size, 16);
    let format = u16::from_le_bytes([wav[20], wav[21]]);
    assert_eq!(format, 1);
    let channels = u16::from_le_bytes([wav[22], wav[23]]);
    assert_eq!(channels, 1);
    let sr = u32::from_le_bytes([wav[24], wav[25], wav[26], wav[27]]);
    assert_eq!(sr, 16000);
    assert_eq!(&wav[36..40], b"data");
    let data_size = u32::from_le_bytes([wav[40], wav[41], wav[42], wav[43]]);
    assert_eq!(data_size, 3200);
    assert_eq!(wav.len(), 44 + 3200);
}

#[test]
fn wav_stereo_header() {
    let samples = vec![0i16; 3200];
    let wav = write_wav(&samples, 16000, 2);
    let channels = u16::from_le_bytes([wav[22], wav[23]]);
    assert_eq!(channels, 2);
    let byte_rate = u32::from_le_bytes([wav[28], wav[29], wav[30], wav[31]]);
    assert_eq!(byte_rate, 64000);
    let block_align = u16::from_le_bytes([wav[32], wav[33]]);
    assert_eq!(block_align, 4);
}

#[test]
fn interleave_equal_length() {
    let user = vec![1, 2, 3];
    let agent = vec![10, 20, 30];
    let stereo = interleave_stereo(&user, &agent);
    assert_eq!(stereo, vec![1, 10, 2, 20, 3, 30]);
}

#[test]
fn interleave_user_longer() {
    let user = vec![1, 2, 3, 4];
    let agent = vec![10, 20];
    let stereo = interleave_stereo(&user, &agent);
    assert_eq!(stereo, vec![1, 10, 2, 20, 3, 0, 4, 0]);
}

#[test]
fn interleave_agent_longer() {
    let user = vec![1];
    let agent = vec![10, 20, 30];
    let stereo = interleave_stereo(&user, &agent);
    assert_eq!(stereo, vec![1, 10, 0, 20, 0, 30]);
}

#[test]
fn mix_mono_equal_length() {
    let user = vec![100, 200, -100];
    let agent = vec![100, -200, 100];
    let mono = mix_mono(&user, &agent);
    assert_eq!(mono, vec![100, 0, 0]);
}

#[test]
fn mix_mono_clamp() {
    let user = vec![i16::MAX];
    let agent = vec![i16::MAX];
    let mono = mix_mono(&user, &agent);
    assert_eq!(mono[0], i16::MAX);
}

#[test]
fn mixing_is_symmetric_and_rounds_to_zero() {
    let a = vec![3, -3, 100];
    let b = vec![0];
    assert_eq!(mix_mono(&a, &b), vec![1, -1, 50]);
    assert_eq!(mix_mono(&b, &a), mix_mono(&a, &b));
}

#[test]
fn placing_fills_gaps_with_silence() {
    let mut timeline = vec![1i16, 2, 3];
    place_samples(&mut timeline, &[9, 9], 2);
    assert_eq!(timeline, vec![1, 2, 12, 9]);
    place_samples(&mut timeline, &[7], 6);
    assert_eq!(timeline, vec![1, 2, 12, 9, 0, 0, 7]);
    place_samples(&mut timeline, &[i16::MAX], 3);
    assert_eq!(timeline[3], i16::MAX);
}

#[test]
fn bytes_to_i16_roundtrip() {
    let samples = vec![0i16, 1, -1, i16::MAX, i16::MIN];
    let mut bytes = Vec::new();
    for s in &samples {
        bytes.extend_from_slice(&s.to_le_bytes());
    }
    let decoded = bytes_to_i16(&bytes);
    assert_eq!(decoded, samples);
    assert_eq!(i16_to_bytes(&samples), bytes);
}

#[test]
fn odd_byte_is_dropped() {
    assert_eq!(whole_samples(&[0x34, 0x12, 0xff]), vec![0x1234]);
    assert_eq!(whole_samples(&[0x34, 0x12]), vec![0x1234]);
    assert!(whole_samples(&[7]).is_empty());
}

#[test]
fn utc_now_iso8601_format() {
    let ts = utc_now_iso8601();
    assert_eq!(ts.len(), 24);
    assert_eq!(&ts[4..5], "-");
    assert_eq!(&ts[7..8], "-");
    assert_eq!(&ts[10..11], "T");
    assert_eq!(&ts[13..14], ":");
    assert_eq!(&ts[16..17], ":");
    assert_eq!(&ts[19..20], ".");
    assert_eq!(&ts[23..24], "Z");
}

#[test]
fn instants_have_exact_texts() {
    assert_eq!(iso8601(0, 0).unwrap(), "1970-01-01T00:00:00.000Z");
    assert_eq!(iso8601(1_767_225_600, 5_999_999).unwrap(), "2026-01-01T00:00:00.005Z");
    assert!(iso8601(i64::MAX, 0).is_none());
}

fn make_wav(sample_rate: u32, pcm: &[u8]) -> Vec<u8> {
    let data_size = pcm.len() as u32;
    let file_size = 36 + data_size;
    let mut wav = Vec::with_capacity(44 + pcm.len());
    wav.extend_from_slice(b"RIFF");
    wav.extend_from_slice(&file_size.to_le_bytes());
    wav.extend_from_slice(b"WAVE");
    wav.extend_from_slice(b"fmt ");
    wav.extend_from_slice(&16u32.to_le_bytes());
    wav.extend_from_slice(&1u16.to_le_bytes());
    wav.extend_from_slice(&1u16.to_le_bytes());
    wav.extend_from_slice(&sample_rate.to_le_bytes());
    wav.extend_from_slice(&(sample_rate * 2).to_le_bytes());
    wav.extend_from_slice(&2u16.to_le_bytes());
    wav.extend_from_slice(&16u16.to_le_bytes());
    wav.extend_from_slice(b"data");
    wav.extend_from_slice(&data_size.to_le_bytes());
    wav.extend_from_slice(pcm);
    wav
}

#[test]
fn test_parse_wav_extracts_sample_rate() {
    let pcm = vec![0u8; 100];
    let wav = make_wav(44100, &pcm);
    let decoded = parse_wav(&wav).unwrap();
    assert_eq!(decoded.sample_rate, 44100);
    assert_eq!(decoded.pcm.len(), 100);
}

#[test]
fn test_parse_wav_24khz() {
    let pcm = vec![0u8; 200];
    let wav = make_wav(24000, &pcm);
    let decoded = parse_wav(&wav).unwrap();
    assert_eq!(decoded.sample_rate, 24000);
    assert_eq!(decoded.pcm.len(), 200);
}

#[test]
fn test_decode_raw_pcm_defaults_to_24khz() {
    let raw = vec![0u8; 100];
    let decoded = decode_audio(&raw, 24_000).unwrap();
    assert_eq!(decoded.sample_rate, 24_000);
    assert_eq!(decoded.pcm.len(), 100);
}

#[test]
fn test_decode_raw_pcm_uses_assumed_rate() {
    let raw = vec![0u8; 100];
    let decoded = decode_audio(&raw, 16_000).unwrap();
    assert_eq!(decoded.sample_rate, 16_000);
}

#[test]
fn test_decode_empty_returns_none() {
    assert!(decode_audio(&[], 24_000).is_none());
}

#[test]
fn file_without_audio_decodes_to_none_of_it() {
    let file = write_wav(&[], 8000, 1);
    assert_eq!(file.len(), 44);
    let decoded = decode_audio(&file, 24_000).unwrap();
    assert_eq!(decoded.sample_rate, 8000);
    assert!(decoded.pcm.is_empty());
}

#[test]
fn short_start_of_a_file_is_raw_audio() {
    let start = &write_wav(&[], 8000, 1)[..43];
    let decoded = decode_audio(start, 24_000).unwrap();
    assert_eq!((decoded.pcm.as_slice(), decoded.sample_rate), (start, 24_000));
}

#[test]
fn written_audio_is_read_back() {
    let samples = vec![5i16, -6, 7, i16::MIN];
    let file = write_wav(&samples, 8000, 1);
    assert_eq!(file, make_wav(8000, &i16_to_bytes(&samples)));
    let decoded = parse_wav(&file).unwrap();
    assert_eq!(decoded.sample_rate, 8000);
    assert_eq!(bytes_to_i16(&decoded.pcm), samples);
}

#[test]
fn upload_is_a_16khz_file() {
    let file = pcm_to_wav(&[1, 2, 3]);
    assert_eq!(file, make_wav(16_000, &[1, 2, 3]));
}

#[test]
fn unknown_chunks_are_skipped() {
    let mut wav = make_wav(22050, &[1, 2, 3, 4]);
    let mut extra = b"LIST".to_vec();
    extra.extend_from_slice(&4u32.to_le_bytes());
    extra.extend_from_slice(b"abcd");
    let tail = wav.split_off(36);
    wav.extend_from_slice(&extra);
    wav.extend_from_slice(&tail);
    let decoded = parse_wav(&wav).unwrap();
    assert_eq!(decoded.sample_rate, 22050);
    assert_eq!(decoded.pcm, vec![1, 2, 3, 4]);
}

#[test]
fn files_without_audio_are_refused() {
    assert!(parse_wav(b"RIFF").is_none());
    assert!(parse_wav(&make_wav(8000, &[])[..40]).is_none());
}

/// Packets of a fixed small size in place of a codec's.
fn packets_for(stream: &OpusStream) -> Vec<Vec<u8>> {
    stream.frames.iter().map(|f| vec![f.len() as u8; 80]).collect()
}

fn sine(hz: f64, sample_rate: u32) -> Vec<i16> {
    (0..sample_rate as usize)
        .map(|i| {
            let t = i as f64 / sample_rate as f64;
            (f64::sin(2.0 * std::f64::consts::PI * hz * t) * 16000.0) as i16
        })
        .collect()
}

#[test]
fn opus_mono_encode() {
    let sample_rate = 48000u32;
    let samples = sine(440.0, sample_rate);
    let stream = encode_mono(&samples, sample_rate).expect("Opus mono encode");
    assert_eq!(stream.frames.len(), 50);
    assert_eq!(stream.frames.concat(), samples);
    let opus = mux_ogg_opus(&stream, &packets_for(&stream));
    assert!(opus.len() > 100, "Opus too small: {} bytes", opus.len());
    assert!(opus.len() < 96000, "Opus should be smaller than WAV: {} bytes", opus.len());
    assert_eq!(&opus[..4], b"OggS", "Invalid OGG header");
}

#[test]
fn opus_stereo_encode() {
    let sample_rate = 48000u32;
    let left = sine(440.0, sample_rate);
    let right = sine(880.0, sample_rate);
    let stream = encode_stereo(&left, &right, sample_rate).expect("Opus stereo encode");
    assert_eq!(stream.frames.concat(), interleave_stereo(&left, &right));
    let opus = mux_ogg_opus(&stream, &packets_for(&stream));
    assert!(opus.len() > 100, "Opus too small: {} bytes", opus.len());
    assert!(opus.len() < 192000, "Opus unexpectedly large: {} bytes", opus.len());
}

#[test]
fn opus_stereo_unequal_lengths() {
    let sample_rate = 48000u32;
    let left: Vec<i16> = vec![1000; 48000];
    let right: Vec<i16> = vec![1000; 24000];
    let stream = encode_stereo(&left, &right, sample_rate).expect("Opus unequal encode");
    assert_eq!(stream.frames.len(), 50);
    let opus = mux_ogg_opus(&stream, &packets_for(&stream));
    assert!(opus.len() > 100, "Opus too small: {} bytes", opus.len());
}

#[test]
fn shorter_stereo_channel_is_padded() {
    let padded = encode_stereo(&[1, 2, 3], &[9, 0, 0], 8000).unwrap();
    let stream = encode_stereo(&[1, 2, 3], &[9], 8000).unwrap();
    assert_eq!(stream.frames, padded.frames);
    assert_eq!(stream.frames[0][..8], [1, 9, 2, 0, 3, 0, 0, 0]);
    let one = encode_stereo(&[], &[4], 8000).unwrap();
    assert_eq!(one.frames[0][..4], [0, 4, 0, 0]);
    assert!(matches!(encode_stereo(&[], &[], 8000), Err(OpusError::EmptyPcm)));
}

#[test]
fn opus_refuses_what_it_cannot_encode() {
    assert!(matches!(encode_mono(&[], 48000), Err(OpusError::EmptyPcm)));
    assert!(matches!(encode_mono(&[1, 2], 44100), Err(OpusError::UnsupportedRate(44100))));
}

#[test]
fn last_opus_frame_is_padded() {
    let stream = encode_mono(&vec![7i16; 161], 8000).unwrap();
    assert_eq!(stream.frame_samples, 160);
    assert_eq!(stream.frames.len(), 2);
    assert_eq!(stream.frames[1].len(), 160);
    assert_eq!(stream.frames[1][0], 7);
    assert_eq!(stream.frames[1][1], 0);
}

#[test]
fn opus_headers_are_exact() {
    let head = opus_head(2, 312, 48000);
    let mut expected = b"OpusHead".to_vec();
    expected.push(1);
    expected.push(2);
    expected.extend_from_slice(&312u16.to_le_bytes());
    expected.extend_from_slice(&48000u32.to_le_bytes());
    expected.extend_from_slice(&0i16.to_le_bytes());
    expected.push(0);
    assert_eq!(head, expected);
    assert_eq!(&opus_tags()[..8], b"OpusTags");
}

#[test]
fn ogg_file_holds_the_packets() {
    let stream = encode_mono(&vec![1i16; 320], 8000).unwrap();
    let file = mux_ogg_opus(&stream, &vec![vec![0xaa; 5], vec![0xbb; 6]]);
    let mut reader = ogg::PacketReader::new(std::io::Cursor::new(file));
    let head = reader.read_packet_expected().unwrap();
    assert_eq!(head.data, opus_head(1, stream.pre_skip, 8000));
    assert!(head.first_in_stream());
    let tags = reader.read_packet_expected().unwrap();
    assert_eq!(tags.data, opus_tags());
    let first = reader.read_packet_expected().unwrap();
    assert_eq!(first.data, vec![0xaa; 5]);
    let last = reader.read_packet_expected().unwrap();
    assert_eq!(last.data, vec![0xbb; 6]);
    assert!(last.last_in_stream());
    assert!(reader.read_packet().unwrap().is_none());
}
