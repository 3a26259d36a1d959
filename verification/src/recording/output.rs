//! Finishing a recording: encoding the timelines and deciding where the files go.
use crate::recording::config::{AudioFormat, AudioLayout, RecordingConfig};
use crate::recording::mix::{interleave_stereo, mix_mono, MAX_TIMELINE_SAMPLES};
use crate::recording::opus::{encode_mono, encode_stereo, mux_ogg_opus, OpusError, OpusStream};
use crate::recording::transcript::TranscriptEntry;
use crate::text::{concat, strip_prefix};
use crate::wav::write_wav;
use vstd::prelude::*;

verus! {

/// The complete transcript document of a session.
#[derive(Debug)]
pub struct SessionTranscript {
    pub session_id: String,
    pub started_at: String,
    pub ended_at: String,
    /// Length of the recorded audio in samples at `sample_rate`.
    pub duration_samples: usize,
    pub sample_rate: u32,
    pub entries: Vec<TranscriptEntry>,
}

/// A finished recording.
#[derive(Debug)]
pub struct RecordingOutput {
    /// The session, which names the files.
    pub session_id: String,
    /// The encoded audio; empty once it is stored.
    pub audio_bytes: Vec<u8>,
    /// `"opus"` or `"wav"`.
    pub audio_extension: &'static str,
    /// 1 for mono, 2 for stereo.
    pub channels: u16,
    /// Length of the recorded audio in samples at `sample_rate`.
    pub duration_samples: usize,
    pub sample_rate: u32,
    /// The transcript, where the configuration asks for one.
    pub transcript: Option<SessionTranscript>,
    /// Where the audio was stored; empty until it is.
    pub storage_uri: String,
}

/// The samples that a recording of both channels encodes.
pub open spec fn layout_pcm(layout: AudioLayout, user: Seq<i16>, agent: Seq<i16>) -> Seq<i16> {
    match layout {
        AudioLayout::Mono => crate::recording::mix::mixed(user, agent),
        AudioLayout::Stereo => crate::recording::mix::interleaved(user, agent),
    }
}

/// The number of channels of a layout.
pub open spec fn layout_channels(layout: AudioLayout) -> u8 {
    match layout {
        AudioLayout::Mono => 1,
        AudioLayout::Stereo => 2,
    }
}

/// Whether a WAV header can hold the byte rate of a recording.
pub open spec fn rate_fits_wav(options: RecordingConfig) -> bool {
    options.sample_rate * layout_channels(options.audio_layout) * 2 <= u32::MAX
}

/// Whether a recording is to be encoded with Opus.
pub fn resolve_use_opus(format: AudioFormat) -> (r: bool)
    ensures
        r == (format is Opus),
{
    format == AudioFormat::Opus
}

/// The frames that the codec has to encode for a recording; none where it has no audio or is not
/// to be encoded with Opus.
pub fn plan_opus(options: &RecordingConfig, user: &[i16], agent: &[i16]) -> (r: Option<
    Result<OpusStream, OpusError>,
>)
    ensures
        r is Some <==> (options.audio_format is Opus && (user@.len() > 0 || agent@.len() > 0)),
        r matches Some(s) ==> {
            let pcm = layout_pcm(options.audio_layout, user@, agent@);
            let channels = layout_channels(options.audio_layout);
            let refusal = crate::recording::opus::opus_refusal(
                pcm.len(),
                options.sample_rate,
                channels,
            );
            &&& s is Err <==> refusal is Some
            &&& s matches Err(e) ==> refusal == Some(e)
            &&& s matches Ok(x) ==> crate::recording::opus::is_stream_of(
                x,
                pcm,
                options.sample_rate,
                channels,
            )
        },
{
    if (user.len() == 0 && agent.len() == 0) || !resolve_use_opus(options.audio_format) {
        return None;
    }
    match options.audio_layout {
        AudioLayout::Mono => {
            let pcm = mix_mono(user, agent);
            Some(encode_mono(pcm.as_slice(), options.sample_rate))
        },
        AudioLayout::Stereo => Some(encode_stereo(user, agent, options.sample_rate)),
    }
}

/// What the codec made of a planned stream: one packet for each of its frames.
pub struct OpusPackets {
    pub stream: OpusStream,
    pub packets: Vec<Vec<u8>>,
}

/// `o` is what the codec made of the audio of a recording.
pub open spec fn is_encoded(
    o: OpusPackets,
    options: RecordingConfig,
    user: Seq<i16>,
    agent: Seq<i16>,
) -> bool {
    let pcm = layout_pcm(options.audio_layout, user, agent);
    let channels = layout_channels(options.audio_layout);
    &&& crate::recording::opus::opus_refusal(pcm.len(), options.sample_rate, channels) is None
    &&& crate::recording::opus::is_stream_of(o.stream, pcm, options.sample_rate, channels)
    &&& o.packets@.len() == o.stream.frames@.len()
    &&& forall|i: int|
        0 <= i < o.packets@.len() ==> (#[trigger] o.packets@[i])@.len()
            <= crate::recording::opus::MAX_PACKET_BYTES
}

/// The encoded audio of a recording and the extension of its file.
pub open spec fn encoded_audio(
    options: RecordingConfig,
    user: Seq<i16>,
    agent: Seq<i16>,
    opus: Option<OpusPackets>,
) -> (Seq<u8>, Seq<char>) {
    if options.audio_format is Opus && opus is Some {
        (
            crate::recording::opus::ogg_file(
                crate::recording::opus::file_packets(opus->0.stream, opus->0.packets@),
            ),
            "opus"@,
        )
    } else {
        (
            crate::wav::wav_file(
                layout_pcm(options.audio_layout, user, agent),
                options.sample_rate,
                layout_channels(options.audio_layout) as u16,
            ),
            "wav"@,
        )
    }
}

/// `t` is the transcript document with the given contents.
pub open spec fn is_document(
    t: SessionTranscript,
    session_id: Seq<char>,
    started_at: Seq<char>,
    ended_at: Seq<char>,
    duration_samples: nat,
    sample_rate: u32,
    entries: Seq<TranscriptEntry>,
) -> bool {
    &&& t.session_id@ == session_id
    &&& t.started_at@ == started_at
    &&& t.ended_at@ == ended_at
    &&& t.duration_samples == duration_samples
    &&& t.sample_rate == sample_rate
    &&& t.entries@ == entries
}

/// Encodes the timelines of a session. There is no recording where neither side has audio.
///
/// `opus` is what the codec made of the frames that [`plan_opus`] gave, where that succeeded.
/// Without it a recording that should be Opus is written as WAV.
pub fn encode_recording(
    session_id: &str,
    options: &RecordingConfig,
    user: &[i16],
    agent: &[i16],
    transcript: Vec<TranscriptEntry>,
    started_at: &str,
    ended_at: &str,
    opus: Option<OpusPackets>,
) -> (r: Option<RecordingOutput>)
    requires
        user@.len() <= MAX_TIMELINE_SAMPLES,
        agent@.len() <= MAX_TIMELINE_SAMPLES,
        (user@.len() > 0 || agent@.len() > 0) ==> rate_fits_wav(*options),
        opus matches Some(o) ==> is_encoded(o, *options, user@, agent@),
    ensures
        r is None <==> user@.len() == 0 && agent@.len() == 0,
        r matches Some(out) ==> {
            let audio = encoded_audio(*options, user@, agent@, opus);
            let len = crate::recording::mix::longer(user@.len(), agent@.len());
            &&& out.session_id@ == session_id@
            &&& out.audio_bytes@ == audio.0
            &&& out.audio_extension@ == audio.1
            &&& out.channels == layout_channels(options.audio_layout)
            &&& out.duration_samples == len
            &&& out.sample_rate == options.sample_rate
            &&& out.storage_uri@ == Seq::<char>::empty()
            &&& out.transcript is Some <==> options.save_transcript
            &&& out.transcript matches Some(t) ==> is_document(
                t,
                session_id@,
                started_at@,
                ended_at@,
                len,
                options.sample_rate,
                transcript@,
            )
        },
{
    if user.len() == 0 && agent.len() == 0 {
        return None;
    }
    let duration_samples: usize = if user.len() >= agent.len() {
        user.len()
    } else {
        agent.len()
    };
    let channels: u16 = if options.audio_layout == AudioLayout::Mono {
        1
    } else {
        2
    };
    let encoded = if resolve_use_opus(options.audio_format) {
        opus
    } else {
        None
    };
    let (audio_bytes, audio_extension) = match encoded {
        Some(o) => {
            proof {
                let pcm = layout_pcm(options.audio_layout, user@, agent@);
                let n = (options.sample_rate / 50) as nat * layout_channels(
                    options.audio_layout,
                ) as nat;
                assert(n >= 160) by (nonlinear_arith)
                    requires
                        n == (options.sample_rate / 50) as nat * layout_channels(
                            options.audio_layout,
                        ) as nat,
                        options.sample_rate >= 8000,
                        layout_channels(options.audio_layout) >= 1,
                ;
                assert((pcm.len() + n - 1) / (n as int) <= pcm.len() + n - 1) by (nonlinear_arith)
                    requires
                        n >= 1,
                        pcm.len() >= 0,
                ;
                assert((pcm.len() + n - 1) / (n as int) < 0x2000_0000) by (nonlinear_arith)
                    requires
                        n >= 160,
                        0 <= pcm.len() <= 0x4000_0000,
                ;
            }
            (mux_ogg_opus(&o.stream, &o.packets), "opus")
        },
        None => {
            let pcm = match options.audio_layout {
                AudioLayout::Mono => mix_mono(user, agent),
                AudioLayout::Stereo => interleave_stereo(user, agent),
            };
            (write_wav(pcm.as_slice(), options.sample_rate, channels), "wav")
        },
    };
    let transcript = if options.save_transcript {
        Some(
            SessionTranscript {
                session_id: session_id.to_owned(),
                started_at: started_at.to_owned(),
                ended_at: ended_at.to_owned(),
                duration_samples,
                sample_rate: options.sample_rate,
                entries: transcript,
            },
        )
    } else {
        None
    };
    Some(
        RecordingOutput {
            session_id: session_id.to_owned(),
            audio_bytes,
            audio_extension,
            channels,
            duration_samples,
            sample_rate: options.sample_rate,
            transcript,
            storage_uri: String::new(),
        },
    )
}

/// The path that a `file://` URI names; none for any other URI.
pub open spec fn file_path(uri: Seq<char>) -> Option<Seq<char>> {
    if "file://"@.is_prefix_of(uri) {
        Some(uri.skip("file://"@.len() as int))
    } else {
        None
    }
}

/// Resolves a `file://` URI to a path.
///
/// `file:///abs` is the absolute path `/abs`; `file://./rel` and `file://rel` are relative.
pub fn resolve_file_path(uri: &str) -> (r: Option<String>)
    ensures
        r is Some <==> file_path(uri@) is Some,
        r matches Some(p) ==> Some(p@) == file_path(uri@),
{
    strip_prefix(uri, "file://")
}

/// Where the files of a recording go.
#[derive(Debug)]
pub enum StoragePlan {
    /// Into a directory, under these names.
    Directory { dir: String, audio_name: String, transcript_name: Option<String> },
    /// Nowhere: the destination is not understood.
    Discard,
}

/// Decides where the files of a recording go: `{session_id}.{extension}` for the audio and
/// `{session_id}.json` for the transcript, in the directory that `output_uri` names.
pub fn plan_storage(output: &RecordingOutput, output_uri: &str) -> (p: StoragePlan)
    ensures
        match p {
            StoragePlan::Directory { dir, audio_name, transcript_name } => {
                &&& file_path(output_uri@) == Some(dir@)
                &&& audio_name@ == output.session_id@ + "."@ + output.audio_extension@
                &&& transcript_name is Some <==> output.transcript is Some
                &&& transcript_name matches Some(n) ==> n@ == output.session_id@ + ".json"@
            },
            StoragePlan::Discard => file_path(output_uri@) is None,
        },
{
    match resolve_file_path(output_uri) {
        Some(dir) => {
            let stem = concat(output.session_id.as_str(), ".");
            let audio_name = concat(stem.as_str(), output.audio_extension);
            let transcript_name = if output.transcript.is_some() {
                Some(concat(output.session_id.as_str(), ".json"))
            } else {
                None
            };
            StoragePlan::Directory { dir, audio_name, transcript_name }
        },
        None => StoragePlan::Discard,
    }
}

/// Notes where the audio was stored, and lets go of its bytes; `path` is its absolute path, where it
/// was written at all.
pub fn stored(output: RecordingOutput, path: Option<&str>) -> (r: RecordingOutput)
    ensures
        r == (RecordingOutput {
            storage_uri: r.storage_uri,
            audio_bytes: r.audio_bytes,
            ..output
        }),
        r.audio_bytes@ == Seq::<u8>::empty(),
        r.storage_uri@ == match path {
            Some(p) => "file://"@ + p@,
            None => Seq::<char>::empty(),
        },
{
    let mut r = output;
    r.audio_bytes = Vec::new();
    r.storage_uri = match path {
        Some(p) => concat("file://", p),
        None => String::new(),
    };
    r
}

/// A stored recording is found again: the path of its URI is the path it was written to.
pub proof fn law_stored_uri_resolves(path: Seq<char>)
    ensures
        file_path("file://"@ + path) == Some(path),
{
    let uri = "file://"@ + path;
    assert(uri.take("file://"@.len() as int) =~= "file://"@);
    assert(uri.skip("file://"@.len() as int) =~= path);
}

/// A recording of both sides as WAV can be read back: it holds the chosen layout of both timelines
/// at the configured rate.
pub proof fn law_wav_recording_reads_back(
    options: RecordingConfig,
    user: Seq<i16>,
    agent: Seq<i16>,
)
    requires
        user.len() <= MAX_TIMELINE_SAMPLES,
        agent.len() <= MAX_TIMELINE_SAMPLES,
        0 < options.sample_rate,
        rate_fits_wav(options),
        options.audio_format is Wav,
    ensures
        crate::wav::wav_audio(encoded_audio(options, user, agent, None).0) == Some(
            (
                crate::pcm::bytes_of(layout_pcm(options.audio_layout, user, agent)),
                options.sample_rate,
            ),
        ),
{
    crate::wav::law_wav_round_trip(
        layout_pcm(options.audio_layout, user, agent),
        options.sample_rate,
        layout_channels(options.audio_layout) as u16,
    );
}

/// A mono recording holds one value for each sample of the longer side, a stereo one two: first the
/// user's, then the agent's.
pub proof fn law_layout_holds_both_sides(
    layout: AudioLayout,
    user: Seq<i16>,
    agent: Seq<i16>,
    i: int,
)
    requires
        0 <= i < user.len(),
        i < agent.len(),
    ensures
        ({
            let pcm = layout_pcm(layout, user, agent);
            let n = layout_channels(layout) as int;
            let frames = if user.len() >= agent.len() {
                user.len()
            } else {
                agent.len()
            };
            &&& pcm.len() == n * frames
            &&& layout is Mono ==> n == 1 && -1 <= 2 * pcm[i] - (user[i] + agent[i]) <= 1
            &&& layout is Stereo ==> n == 2 && pcm[2 * i] == user[i] && pcm[2 * i + 1] == agent[i]
        }),
{
    let pcm = layout_pcm(layout, user, agent);
    match layout {
        AudioLayout::Mono => {
            assert(pcm.len() == crate::recording::mix::longer(user.len(), agent.len()));
        },
        AudioLayout::Stereo => {
            assert(pcm.len() == 2 * crate::recording::mix::longer(user.len(), agent.len()));
        },
    }
}

/// Where only one side has audio left, mono holds half of it, rounded toward zero, and stereo holds
/// silence on the other side.
pub proof fn law_shorter_side_is_silent(
    layout: AudioLayout,
    user: Seq<i16>,
    agent: Seq<i16>,
    i: int,
)
    requires
        agent.len() <= i < user.len(),
    ensures
        layout is Mono ==> -1 <= 2 * layout_pcm(layout, user, agent)[i] - user[i] <= 1,
        layout is Stereo ==> layout_pcm(layout, user, agent)[2 * i] == user[i] && layout_pcm(
            layout,
            user,
            agent,
        )[2 * i + 1] == 0,
        layout is Stereo ==> layout_pcm(layout, agent, user)[2 * i] == 0 && layout_pcm(
            layout,
            agent,
            user,
        )[2 * i + 1] == user[i],
{
}

/// A recording is an Opus file where that is asked for and the codec has made its packets, and a WAV
/// file with the samples of both sides otherwise; the extension says which.
pub proof fn law_extension_tells_the_format(
    options: RecordingConfig,
    user: Seq<i16>,
    agent: Seq<i16>,
    opus: Option<OpusPackets>,
)
    requires
        0 < options.sample_rate,
        user.len() <= MAX_TIMELINE_SAMPLES,
        agent.len() <= MAX_TIMELINE_SAMPLES,
        rate_fits_wav(options),
    ensures
        ({
            let audio = encoded_audio(options, user, agent, opus);
            &&& audio.1 == "opus"@ <==> options.audio_format is Opus && opus is Some
            &&& audio.1 != "opus"@ ==> audio.1 == "wav"@ && crate::wav::wav_audio(audio.0) == Some(
                (
                    crate::pcm::bytes_of(layout_pcm(options.audio_layout, user, agent)),
                    options.sample_rate,
                ),
            )
        }),
{
    reveal_strlit("opus");
    reveal_strlit("wav");
    assert("opus"@.len() == 4 && "wav"@.len() == 3);
    crate::wav::law_wav_round_trip(
        layout_pcm(options.audio_layout, user, agent),
        options.sample_rate,
        layout_channels(options.audio_layout) as u16,
    );
}

/// A URI names a path exactly where it is `file://` followed by that path.
pub proof fn law_file_uris_name_their_path(uri: Seq<char>, path: Seq<char>)
    ensures
        file_path(uri) == Some(path) <==> uri == "file://"@ + path,
{
    law_stored_uri_resolves(path);
    let n = "file://"@.len() as int;
    if file_path(uri) == Some(path) {
        assert(uri =~= uri.take(n) + uri.skip(n));
    }
}

} // verus!
