//! Recording sessions.
use voice_engine::event::Event;
use voice_engine::pcm::i16_to_bytes;
use voice_engine::recording::config::{AudioFormat, AudioLayout, RecordingConfig};
use voice_engine::recording::output::{
    encode_recording, plan_opus, plan_storage, resolve_file_path, resolve_use_opus, stored,
    OpusPackets, StoragePlan,
};
use voice_engine::recording::recorder::{Recorder, RecorderStep};
use voice_engine::recording::track::{
    barge_in_cutoff_samples, convert_offset, AudioPlan, AudioTrack,
};
use voice_engine::recording::transcript::TranscriptEntry;
use voice_engine::wav::parse_wav;

fn options(format: AudioFormat, layout: AudioLayout) -> RecordingConfig {
    RecordingConfig {
        enabled: true,
        audio_layout: layout,
        sample_rate: 8000,
        audio_format: format,
        max_duration_secs: 0,
        save_transcript: true,
        include_tool_details: true,
        include_llm_metadata: true,
        output_uri: "file:///tmp/rec".to_string(),
    }
}

fn agent(offset: u64) -> Event {
    Event::AgentAudio { pcm: vec![], sample_rate: 8000, offset_samples: offset }
}

fn user() -> Event {
    Event::UserAudio { pcm: vec![], sample_rate: 8000 }
}

#[test]
fn offsets_are_converted_to_the_recording_rate() {
    assert_eq!(convert_offset(480, 48000, 16000), 160);
    assert_eq!(convert_offset(1, 48000, 24000), 1);
    assert_eq!(convert_offset(77, 8000, 8000), 77);
    assert_eq!(barge_in_cutoff_samples(1_000_000_000, 8000), 9600);
}

#[test]
fn user_frames_follow_each_other() {
    let mut t = AudioTrack::new(8000, 0);
    assert_eq!(t.plan_user(8000), AudioPlan::Direct);
    assert_eq!(t.plan_user(16000), AudioPlan::Resample { from: 16000, to: 8000 });
    t.on_user_audio(&i16_to_bytes(&[1, 2]));
    t.on_user_audio(&i16_to_bytes(&[3]));
    assert_eq!(t.user, vec![1, 2, 3]);
}

#[test]
fn agent_audio_starts_where_it_is_announced() {
    let mut t = AudioTrack::new(8000, 0);
    assert!(t.on_agent_audio(&i16_to_bytes(&[5]), 8000, 2));
    assert_eq!(t.agent, vec![0, 0, 5]);
    assert!(!t.on_agent_audio(&i16_to_bytes(&[6]), 8000, 1));
    assert_eq!(t.agent, vec![0, 0, 5, 6]);
}

#[test]
fn muted_agent_is_heard_again_in_the_next_turn() {
    let mut t = AudioTrack::new(8000, 0);
    t.on_agent_audio(&i16_to_bytes(&vec![1; 4000]), 8000, 0);
    t.on_interrupt(0);
    assert_eq!(t.agent.len(), 1600);
    assert_eq!(t.plan_agent(8000), AudioPlan::Drop);
    assert!(!t.on_agent_audio(&i16_to_bytes(&[2]), 8000, 9000));
    assert_eq!(t.agent.len(), 1600);
    t.on_turn_started();
    assert_eq!(t.plan_agent(8000), AudioPlan::Direct);
    t.on_agent_audio(&i16_to_bytes(&[2]), 8000, 1700);
    assert_eq!(t.agent.len(), 1701);
}

#[test]
fn long_recordings_are_capped() {
    let mut t = AudioTrack::new(4, 1);
    t.on_user_audio(&i16_to_bytes(&[1, 2, 3, 4, 5]));
    assert!(t.duration_capped);
    t.on_user_audio(&i16_to_bytes(&[6]));
    assert_eq!(t.user.len(), 5);
    assert_eq!(t.plan_user(4), AudioPlan::Drop);
}

#[test]
fn nothing_muted_is_recorded() {
    let o = options(AudioFormat::Wav, AudioLayout::Mono);
    let mut r = Recorder::new(&o, ts(0));
    r.on_event(Event::TurnStarted { turn_number: 1 }, &[], ts(1), 0);
    r.on_event(agent(0), &i16_to_bytes(&[1, 2]), ts(2), 0);
    r.on_event(Event::Interrupt, &[], ts(3), 5_000_000_000);
    for n in 4..8 {
        assert_eq!(r.audio_plan(&agent(9)), AudioPlan::Drop);
        r.on_event(agent(9), &[], ts(n), 0);
        r.on_event(user(), &i16_to_bytes(&[7]), ts(n), 0);
    }
    assert_eq!(r.track.agent, vec![1, 2]);
    assert_eq!(r.track.user, vec![7, 7, 7, 7]);
    r.on_event(Event::TurnStarted { turn_number: 2 }, &[], ts(9), 0);
    r.on_event(agent(3), &i16_to_bytes(&[5]), ts(10), 0);
    assert_eq!(r.track.agent, vec![1, 2, 0, 5]);
}

#[test]
fn capped_recording_takes_no_audio() {
    let mut o = options(AudioFormat::Wav, AudioLayout::Mono);
    o.max_duration_secs = 1;
    let mut r = Recorder::new(&o, ts(0));
    r.on_event(user(), &i16_to_bytes(&vec![1; 8000]), ts(1), 0);
    assert!(r.track.duration_capped);
    r.on_event(Event::TurnStarted { turn_number: 1 }, &[], ts(2), 0);
    for n in 3..6 {
        assert_eq!(r.audio_plan(&user()), AudioPlan::Drop);
        assert_eq!(r.audio_plan(&agent(0)), AudioPlan::Drop);
        r.on_event(user(), &[], ts(n), 0);
        r.on_event(agent(0), &[], ts(n), 0);
    }
    assert_eq!((r.track.user.len(), r.track.agent.len()), (8000, 0));
}

fn ts(n: u32) -> String {
    format!("t{}", n)
}

#[test]
fn transcript_follows_the_session() {
    let mut r = Recorder::new(&options(AudioFormat::Wav, AudioLayout::Mono), ts(0));
    assert_eq!(r.audio_plan(&user()), AudioPlan::Direct);
    assert_eq!(r.audio_plan(&Event::SessionReady), AudioPlan::Drop);
    r.on_event(Event::TurnStarted { turn_number: 1 }, &[], ts(1), 0);
    r.on_event(agent(10), &i16_to_bytes(&[1]), ts(2), 0);
    r.on_event(
        Event::Transcript { role: "assistant".to_string(), text: "hi".to_string() },
        &[],
        ts(3),
        0,
    );
    assert!(matches!(
        r.on_event(Event::Interrupt, &[], ts(4), 5_000_000_000),
        RecorderStep::ResetAgentResamplers
    ));
    r.on_event(
        Event::TurnEnded {
            turn_number: 1,
            was_interrupted: true,
            turn_duration_ms: None,
            user_agent_latency_ms: None,
            vad_silence_ms: None,
        },
        &[],
        ts(5),
        0,
    );
    assert!(matches!(
        r.on_event(Event::SessionEnded, &[], ts(6), 0),
        RecorderStep::Finish
    ));
    let e = &r.log.entries;
    assert_eq!(e.len(), 4);
    assert!(matches!(&e[0], TranscriptEntry::SessionEvent { kind, .. } if kind == "started"));
    assert!(
        matches!(&e[1], TranscriptEntry::SessionEvent { kind, .. } if kind == "turn_started (1)")
    );
    assert!(matches!(
        &e[2],
        TranscriptEntry::Message { text, timestamp, was_interrupted: true, .. }
            if text == "hi" && timestamp == "t2"
    ));
    assert!(matches!(&e[3], TranscriptEntry::SessionEvent { kind, .. } if kind == "ended"));
}

#[test]
fn wav_recording_is_read_back() {
    let o = options(AudioFormat::Wav, AudioLayout::Stereo);
    assert!(!resolve_use_opus(o.audio_format));
    assert!(plan_opus(&o, &[1], &[2]).is_none());
    let out = encode_recording("s", &o, &[1, 2], &[9], vec![], "a", "b", None).unwrap();
    assert_eq!(out.audio_extension, "wav");
    assert_eq!((out.channels, out.duration_samples), (2, 2));
    let d = parse_wav(&out.audio_bytes).unwrap();
    assert_eq!(d.pcm, i16_to_bytes(&[1, 9, 2, 0]));
    let t = out.transcript.unwrap();
    assert_eq!((t.session_id.as_str(), t.started_at.as_str(), t.ended_at.as_str()), ("s", "a", "b"));
    assert!(encode_recording("s", &o, &[], &[], vec![], "a", "b", None).is_none());
}

#[test]
fn mono_rate_may_be_twice_as_high() {
    let mut o = options(AudioFormat::Wav, AudioLayout::Mono);
    o.sample_rate = 0x7fff_ffff;
    let out = encode_recording("s", &o, &[1], &[], vec![], "a", "b", None).unwrap();
    assert_eq!(&out.audio_bytes[28..32], &0xffff_fffeu32.to_le_bytes());
    assert_eq!(parse_wav(&out.audio_bytes).unwrap().sample_rate, 0x7fff_ffff);
    o.sample_rate = u32::MAX;
    assert!(encode_recording("s", &o, &[], &[], vec![], "a", "b", None).is_none());
}

#[test]
fn opus_recording_falls_back_to_wav() {
    let o = options(AudioFormat::Opus, AudioLayout::Mono);
    let out = encode_recording("s", &o, &[1, 2], &[], vec![], "a", "b", None).unwrap();
    assert_eq!(out.audio_extension, "wav");
    let stream = plan_opus(&o, &[1, 2], &[]).unwrap().unwrap();
    assert_eq!(stream.frames.len(), 1);
    let packets = vec![vec![1u8, 2, 3]];
    let opus = Some(OpusPackets { stream, packets });
    let out = encode_recording("s", &o, &[1, 2], &[], vec![], "a", "b", opus).unwrap();
    assert_eq!(out.audio_extension, "opus");
    assert_eq!(&out.audio_bytes[..4], b"OggS");
}

#[test]
fn files_are_named_after_the_session() {
    let o = options(AudioFormat::Wav, AudioLayout::Mono);
    let out = encode_recording("s1", &o, &[1], &[], vec![], "a", "b", None).unwrap();
    match plan_storage(&out, "file:///tmp/rec") {
        StoragePlan::Directory { dir, audio_name, transcript_name } => {
            assert_eq!(dir, "/tmp/rec");
            assert_eq!(audio_name, "s1.wav");
            assert_eq!(transcript_name.as_deref(), Some("s1.json"));
        }
        StoragePlan::Discard => panic!("expected a directory"),
    }
    assert!(matches!(plan_storage(&out, "s3://bucket"), StoragePlan::Discard));
    assert_eq!(resolve_file_path("file://./rel").as_deref(), Some("./rel"));
    let kept = stored(out, Some("/tmp/rec/s1.wav"));
    assert_eq!(kept.storage_uri, "file:///tmp/rec/s1.wav");
    assert!(kept.audio_bytes.is_empty());
    assert_eq!(stored(kept, None).storage_uri, "");
}
