//! Recording configuration.
use vstd::prelude::*;

verus! {

/// Container of the recorded audio.
#[derive(Clone, Copy, Debug, PartialEq, Eq, Structural)]
pub enum AudioFormat {
    Opus,
    Wav,
}

/// Channel layout of the recorded audio.
#[derive(Clone, Copy, Debug, PartialEq, Eq, Structural)]
pub enum AudioLayout {
    /// User left, agent right.
    Stereo,
    /// Both mixed into one channel.
    Mono,
}

/// How a session is recorded.
#[derive(Clone, Debug)]
pub struct RecordingConfig {
    pub enabled: bool,
    pub audio_layout: AudioLayout,
    pub sample_rate: u32,
    pub audio_format: AudioFormat,
    /// Longest recording in seconds; zero for no limit.
    pub max_duration_secs: u32,
    pub save_transcript: bool,
    pub include_tool_details: bool,
    pub include_llm_metadata: bool,
    /// Where the files go, as a `file://` URI.
    pub output_uri: String,
}

/// A recording configuration as a session request gives it: an absent choice leaves the default.
#[derive(Clone, Debug)]
pub struct RecordingRequest {
    pub enabled: bool,
    pub audio_layout: Option<AudioLayout>,
    /// Zero for the default.
    pub sample_rate: u32,
    pub audio_format: Option<AudioFormat>,
    /// Zero for the default.
    pub max_duration_secs: u32,
    pub save_transcript: bool,
    pub include_tool_details: bool,
    pub include_llm_metadata: bool,
    /// Empty for the default.
    pub output_uri: String,
}

/// The configuration that a request makes of the defaults.
pub open spec fn requested(base: RecordingConfig, r: RecordingRequest) -> RecordingConfig {
    RecordingConfig {
        enabled: r.enabled,
        audio_layout: match r.audio_layout {
            Some(l) => l,
            None => base.audio_layout,
        },
        sample_rate: if r.sample_rate != 0 {
            r.sample_rate
        } else {
            base.sample_rate
        },
        audio_format: match r.audio_format {
            Some(f) => f,
            None => base.audio_format,
        },
        max_duration_secs: if r.max_duration_secs != 0 {
            r.max_duration_secs
        } else {
            base.max_duration_secs
        },
        save_transcript: r.save_transcript,
        include_tool_details: r.include_tool_details,
        include_llm_metadata: r.include_llm_metadata,
        output_uri: if r.output_uri@.len() > 0 {
            r.output_uri
        } else {
            base.output_uri
        },
    }
}

/// Applies a request to the default configuration.
pub fn map_recording_config(base: RecordingConfig, request: &RecordingRequest) -> (c: RecordingConfig)
    ensures
        c == requested(base, *request),
{
    let mut c = base;
    c.enabled = request.enabled;
    if let Some(layout) = request.audio_layout {
        c.audio_layout = layout;
    }
    if request.sample_rate != 0 {
        c.sample_rate = request.sample_rate;
    }
    if let Some(format) = request.audio_format {
        c.audio_format = format;
    }
    if request.max_duration_secs != 0 {
        c.max_duration_secs = request.max_duration_secs;
    }
    c.save_transcript = request.save_transcript;
    c.include_tool_details = request.include_tool_details;
    c.include_llm_metadata = request.include_llm_metadata;
    if !request.output_uri.as_str().is_empty() {
        c.output_uri = request.output_uri.clone();
    }
    c
}

/// What a request chooses is taken from it, and what it leaves open from the defaults; its switches
/// always count.
pub proof fn law_requests_choose(base: RecordingConfig, r: RecordingRequest)
    ensures
        ({
            let c = requested(base, r);
            &&& c.enabled == r.enabled
            &&& c.save_transcript == r.save_transcript
            &&& c.include_tool_details == r.include_tool_details
            &&& c.include_llm_metadata == r.include_llm_metadata
            &&& r.audio_layout is Some ==> Some(c.audio_layout) == r.audio_layout
            &&& r.audio_layout is None ==> c.audio_layout == base.audio_layout
            &&& r.audio_format is Some ==> Some(c.audio_format) == r.audio_format
            &&& r.audio_format is None ==> c.audio_format == base.audio_format
            &&& r.sample_rate > 0 ==> c.sample_rate == r.sample_rate
            &&& r.sample_rate == 0 ==> c.sample_rate == base.sample_rate
            &&& r.max_duration_secs > 0 ==> c.max_duration_secs == r.max_duration_secs
            &&& r.max_duration_secs == 0 ==> c.max_duration_secs == base.max_duration_secs
            &&& r.output_uri@.len() > 0 ==> c.output_uri == r.output_uri
            &&& r.output_uri@.len() == 0 ==> c.output_uri == base.output_uri
        }),
{
}

} // verus!
