//! Turn metrics, the tracer, the event bus and native sessions.
use voice_engine::audio_ml::vad::{VadEvent, VadThreshold};
use voice_engine::bus::{CategorySet, Delivery, FilteredReceiver, Received};
use voice_engine::clock::{ms_between, ms_between_opt, ms_or_zero, Millis};
use voice_engine::event::{Event, EventCategory};
use voice_engine::native_session::{
    system_prompt_with_greeting, Admission, NativeSession, Reconnect, ReconnectStep,
};
use voice_engine::sink_event::{event_category_name, event_type_name, from_event};
use voice_engine::tracer::Tracer;
use voice_engine::turn_tracker::TurnTracker;

fn ms(n: u64) -> Millis {
    Millis { ns: n * 1_000_000 }
}

fn at(n: u64) -> u64 {
    n * 1_000_000
}

fn kinds(events: &[Event]) -> Vec<&'static str> {
    events
        .iter()
        .map(|e| match e {
            Event::SessionReady => "ready",
            Event::SessionEnded => "ended",
            Event::Interrupt => "interrupt",
            Event::StateChanged { .. } => "state",
            Event::Transcript { .. } => "transcript",
            Event::TranscriptChunk { .. } => "chunk",
            Event::ToolActivity { .. } => "tool",
            Event::Error { .. } => "error",
            Event::Trace { .. } => "trace",
            Event::TurnStarted { .. } => "turn_started",
            Event::TurnEnded { .. } => "turn_ended",
            Event::TurnMetrics(_) => "metrics",
            Event::SttComplete { .. } => "stt",
            Event::LlmComplete(_) => "llm",
            Event::TtsComplete { .. } => "tts",
            Event::AgentAudio { .. } => "agent_audio",
            Event::UserAudio { .. } => "user_audio",
            Event::AgentEvent { .. } => "agent",
        })
        .collect()
}

#[test]
fn spans_do_not_run_backwards() {
    assert_eq!(ms_between(5, 8), Millis { ns: 3 });
    assert_eq!(ms_between(8, 5), Millis { ns: 0 });
    assert_eq!(ms_between_opt(None, Some(1)), None);
    assert_eq!(ms_or_zero(None), Millis { ns: 0 });
}

fn full_turn() -> TurnTracker {
    let mut t = TurnTracker::new();
    t.set_vad_silence_ms(ms(200));
    t.set_input_audio_duration(ms(1500));
    t.mark_stt_audio_start(at(100));
    t.mark_vad_speech_ended(at(1200));
    t.mark_stt_finalize_sent(at(1200));
    t.mark_stt_first_text(at(1250));
    t.mark_transcript(at(1300));
    t.commit_input_anchors();
    t.mark_speech_ended(at(1350));
    t.mark_llm_first_token(at(1600));
    t.mark_tts_start(at(1650));
    t.mark_tts_text_fed(at(1700));
    t.mark_tts_first_audio(at(1900));
    t.mark_tts_finished(at(2500));
    t
}

#[test]
fn metrics_of_a_full_turn() {
    let mut t = full_turn();
    let m = t.finish(7, at(3000)).unwrap();
    assert_eq!(m.turn_id, 7);
    assert_eq!(m.vad_silence_ms, ms(200));
    assert_eq!(m.tts_first_audio_ms, ms(200));
    assert_eq!(m.tts_ttfb_ms, Some(ms(200)));
    assert_eq!(m.text_aggregation_ms, Some(ms(100)));
    assert_eq!(m.stt_ttfb_ms, Some(ms(50)));
    assert_eq!(m.stt_total_duration_ms, ms(1200));
    assert_eq!(m.input_audio_duration_ms, ms(1500));
    assert_eq!(m.user_agent_latency_ms, Some(ms(900)));
    assert_eq!(m.tts_total_duration_ms, ms(800));
    assert!(t.finish(8, at(3000)).is_none());
}

#[test]
fn turn_lasts_until_synthesis_ends() {
    let mut t = TurnTracker::new();
    assert!(t.finish(1, at(1)).is_none());
    t.mark_speech_ended(at(10));
    t.mark_tts_start(at(30));
    t.mark_tts_text_fed(at(70));
    t.mark_tts_first_audio(at(150));
    t.mark_tts_finished(at(310));
    let m = t.finish(1, at(630)).unwrap();
    assert_eq!(m.tts_first_audio_ms, ms(80));
    assert_eq!(m.total_ms, ms(300));
    assert_eq!(m.tts_duration_ms, ms(280));
    assert_eq!(m.ttfa_ms, ms(140));
    assert_eq!(m.tts_ttfb_ms, Some(ms(80)));
    assert_eq!(m.tts_total_duration_ms, ms(240));
}

#[test]
fn turn_without_an_end_of_synthesis_lasts_until_it_is_finished() {
    let mut t = TurnTracker::new();
    t.mark_speech_ended(at(10));
    t.mark_tts_start(at(30));
    let m = t.finish(1, at(630)).unwrap();
    assert_eq!(m.total_ms, ms(620));
    assert_eq!(m.tts_duration_ms, ms(600));
}

#[test]
fn only_a_marked_turn_is_finished() {
    let mut t = TurnTracker::new();
    t.mark_speech_ended(at(10));
    t.mark_tts_start(at(20));
    t.reset_pipeline();
    assert!(t.finish(1, at(30)).is_none());
    t.mark_speech_ended(at(40));
    t.mark_transcript(at(50));
    assert!(t.finish(2, at(60)).is_some());
    assert!(t.finish(3, at(70)).is_none());
    t.mark_speech_ended(at(80));
    t.reset();
    assert!(t.finish(4, at(90)).is_none());
}

#[test]
fn first_mark_of_a_turn_counts() {
    let mut t = full_turn();
    t.mark_llm_first_token(at(1));
    t.mark_tts_first_audio(at(2));
    assert_eq!(t.pipeline.llm_first_token, Some(at(1600)));
    assert_eq!(t.pipeline.tts_first_audio, Some(at(1900)));
}

#[test]
fn barge_in_keeps_the_next_input() {
    let mut t = full_turn();
    t.mark_transcript(at(9000));
    t.reset_pipeline();
    assert_eq!(t.input.transcript, Some(at(9000)));
    assert!(t.pipeline.speech_ended.is_none());
    t.reset();
    assert!(t.input.transcript.is_none());
}

#[test]
fn turn_events_come_in_order() {
    let mut t = Tracer::new(0);
    t.start_turn("p", "m", "hello", "en", true, at(10));
    t.mark_speech_ended(at(10));
    t.mark_tts_text_fed(at(20));
    t.append_tts_text("h\u{e9}");
    let m = t.finish_turn(false, "tp", "tm", "v", at(30));
    assert!(m.is_some());
    let events = t.drain_events();
    assert_eq!(kinds(&events), ["turn_started", "stt", "tts", "metrics", "turn_ended"]);
    match &events[2] {
        Event::TtsComplete { text, character_count, .. } => {
            assert_eq!(text, "h\u{e9}");
            assert_eq!(*character_count, 2);
        }
        _ => unreachable!(),
    }
    assert!(t.finish_turn(false, "tp", "tm", "v", at(40)).is_none());
    assert!(t.drain_events().is_empty());
}

#[test]
fn unmarked_synthesis_is_reported_by_its_text() {
    let mut t = Tracer::new(0);
    t.start_turn("sp", "sm", "hello", "en", true, at(10));
    t.drain_events();
    t.append_tts_text("hi");
    assert!(t.finish_turn(false, "p", "m", "v", at(30)).is_none());
    let events = t.drain_events();
    assert_eq!(kinds(&events), ["tts", "turn_ended"]);
    match &events[0] {
        Event::TtsComplete {
            provider,
            model,
            text,
            voice_id,
            character_count,
            duration_ms,
            ttfb_ms,
            text_aggregation_ms,
        } => {
            assert_eq!((provider.as_str(), model.as_str()), ("p", "m"));
            assert_eq!((text.as_str(), voice_id.as_str()), ("hi", "v"));
            assert_eq!(*character_count, 2);
            assert_eq!(*duration_ms, ms(0));
            assert!(ttfb_ms.is_none() && text_aggregation_ms.is_none());
        }
        _ => unreachable!(),
    }
    match &events[1] {
        Event::TurnEnded {
            turn_number,
            was_interrupted,
            turn_duration_ms,
            user_agent_latency_ms,
            vad_silence_ms,
        } => {
            assert_eq!((*turn_number, *was_interrupted), (1, false));
            assert!(turn_duration_ms.is_none());
            assert!(user_agent_latency_ms.is_none() && vad_silence_ms.is_none());
        }
        _ => unreachable!(),
    }
}

#[test]
fn silent_turn_reports_no_synthesis() {
    let mut t = Tracer::new(0);
    t.start_turn("sp", "sm", "hello", "en", true, at(10));
    t.drain_events();
    assert!(t.finish_turn(true, "p", "m", "v", at(30)).is_none());
    assert_eq!(kinds(&t.drain_events()), ["turn_ended"]);
}

#[test]
fn open_turn_is_cancelled_by_the_next() {
    let mut t = Tracer::new(0);
    t.start_turn("p", "m", "a", "en", true, 0);
    t.start_turn("p", "m", "b", "en", true, 0);
    t.cancel_turn();
    t.cancel_turn();
    let events = t.drain_events();
    assert_eq!(
        kinds(&events),
        ["turn_started", "stt", "turn_ended", "turn_started", "stt", "turn_ended"]
    );
    assert!(matches!(
        events[2],
        Event::TurnEnded { turn_number: 1, was_interrupted: true, turn_duration_ms: None, .. }
    ));
    assert!(matches!(events[5], Event::TurnEnded { turn_number: 2, .. }));
}

#[test]
fn traces_are_numbered() {
    let mut t = Tracer::new(at(1));
    t.trace("a", at(3));
    t.trace("b", at(4));
    let events = t.drain_events();
    assert!(matches!(&events[0], Event::Trace { seq: 1, elapsed_us: 2000, label } if label == "a"));
    assert!(matches!(&events[1], Event::Trace { seq: 2, elapsed_us: 3000, .. }));
}

#[test]
fn receivers_filter_by_category() {
    let mut set = CategorySet::new();
    assert!(set.is_empty());
    set.insert(EventCategory::Error);
    set.insert(EventCategory::Error);
    assert!(set.contains(EventCategory::Error) && !set.contains(EventCategory::Trace));
    let rx = FilteredReceiver::new(set);
    let error = Event::Error { source: "s".to_string(), message: "m".to_string() };
    assert_eq!(error.category(), EventCategory::Error);
    assert!(rx.accepts(&error));
    assert!(matches!(rx.recv(Received::Event(error)), Delivery::Yield(Event::Error { .. })));
    assert!(matches!(rx.recv(Received::Event(Event::SessionReady)), Delivery::Skip));
    assert!(matches!(rx.recv(Received::Lagged(3)), Delivery::Skip));
    assert!(matches!(rx.recv(Received::Closed), Delivery::End));
}

#[test]
fn audio_and_traces_are_not_stored() {
    let audio = Event::AgentAudio { pcm: vec![], sample_rate: 1, offset_samples: 0 };
    assert!(from_event(&audio).is_none());
    let trace = Event::Trace { seq: 1, elapsed_us: 1, label: "x".to_string() };
    assert!(from_event(&trace).is_none());
    let s = from_event(&Event::TurnStarted { turn_number: 3 }).unwrap();
    assert_eq!(event_type_name(&s), "turn_started");
    assert_eq!(event_category_name(&s), "observability");
}

fn native() -> NativeSession {
    NativeSession::new(Tracer::new(0), None, "v".to_string(), "en".to_string(), true)
}

#[test]
fn greeting_is_added_to_the_prompt() {
    assert_eq!(
        system_prompt_with_greeting("p", &Some(" hi ".to_string())),
        "p\n\nYour first message must be EXACTLY this greeting: \"hi\""
    );
    assert_eq!(system_prompt_with_greeting("p", &Some(" ".to_string())), "p");
    assert_eq!(system_prompt_with_greeting("p", &None), "p");
}

#[test]
fn session_needs_a_key() {
    let mut s = native();
    assert_eq!(s.start(" \t"), Admission::Refused);
    assert_eq!(kinds(&s.tracer.drain_events()), ["ready", "error", "ended"]);
    assert_eq!(s.start("key"), Admission::Connect);
    s.on_connect_failed("no route");
    let events = s.tracer.drain_events();
    assert_eq!(kinds(&events), ["ready", "error", "ended"]);
    assert!(matches!(
        &events[1],
        Event::Error { message, .. } if message == "Gemini Live connect failed: no route"
    ));
}

#[test]
fn barge_in_ends_the_turn() {
    let mut s = native();
    s.set_vad_ok(true);
    assert_eq!(s.vad_threshold(), VadThreshold::Idle);
    s.on_input_transcript("hel".to_string(), false, 0);
    s.on_input_transcript("hello".to_string(), true, 0);
    assert!(s.on_bot_audio_begin(at(5)));
    assert!(!s.on_bot_audio_begin(at(6)));
    assert_eq!(s.vad_threshold(), VadThreshold::PlaybackRaw);
    s.on_bot_audio(vec![1, 2], 7, 0, at(6));
    s.on_output_transcript(" I was ".to_string(), false, at(6));
    s.tracer.drain_events();
    assert!(s.on_vad_event(Some(VadEvent::SpeechStart), at(7)));
    let events = s.tracer.drain_events();
    assert_eq!(
        kinds(&events),
        ["trace", "transcript", "turn_ended", "trace", "interrupt", "state"]
    );
    assert!(matches!(&events[1], Event::Transcript { text, .. } if text == "I was"));
    assert!(!s.on_vad_event(Some(VadEvent::SpeechStart), at(8)));
    assert!(!s.on_vad_event(Some(VadEvent::SpeechEnd), at(8)));
    assert_eq!(kinds(&s.tracer.drain_events()), ["trace"]);
}

#[test]
fn interim_texts_are_put_on_the_bus() {
    let mut s = native();
    s.on_input_transcript("hel".to_string(), false, 0);
    s.on_output_transcript("I".to_string(), false, 0);
    s.on_output_transcript(String::new(), false, 0);
    s.on_output_transcript("I am.".to_string(), true, 0);
    let events = s.tracer.drain_events();
    assert_eq!(kinds(&events), ["chunk", "chunk"]);
    assert!(matches!(
        &events[0],
        Event::TranscriptChunk { role, text, is_final: false } if role == "user" && text == "hel"
    ));
    assert!(matches!(
        &events[1],
        Event::TranscriptChunk { role, text, is_final: false } if role == "assistant" && text == "I"
    ));
    assert_eq!(events[0].category(), EventCategory::Transcript);
    assert!(from_event(&events[0]).is_none());
    assert_eq!(s.bot_transcript, "I am.");
}

#[test]
fn completed_turn_reports_its_text_once() {
    let mut s = native();
    s.on_input_transcript("hello".to_string(), true, 0);
    s.on_output_transcript("a".to_string(), false, 0);
    s.on_output_transcript("ab.".to_string(), true, 0);
    s.tracer.drain_events();
    s.on_turn_complete(3, 4, at(9));
    let events = s.tracer.drain_events();
    assert_eq!(kinds(&events), ["transcript", "llm", "tts", "turn_ended"]);
    assert!(matches!(&events[0], Event::Transcript { text, .. } if text == "ab."));
    assert!(matches!(
        &events[1],
        Event::LlmComplete(d) if d.prompt_tokens == 3 && d.completion_tokens == 4
            && d.model == "gemini_live"
    ));
    s.on_turn_complete(0, 0, at(10));
    assert_eq!(kinds(&s.tracer.drain_events()), ["llm"]);
}

#[test]
fn hang_up_waits_for_playback() {
    let mut s = native();
    let second = 1_000_000_000;
    s.on_hang_up(3 * second, 10 * second);
    assert_eq!(s.hangup_target, Some(13 * second));
    s.on_hang_up(0, 11 * second);
    assert_eq!(s.hangup_target, Some(13 * second));
    s.on_bot_audio(vec![], 0, 60 * second, 12 * second);
    assert_eq!(s.hangup_target, Some(25 * second));
    s.on_hangup_elapsed(25 * second);
    s.end();
    assert_eq!(kinds(&s.tracer.drain_events()), ["tool", "agent_audio", "ended"]);
}

#[test]
fn other_native_events() {
    let mut s = native();
    assert_eq!(s.on_mic_frame(&[1, 0, 2, 0, 9]), vec![1, 2]);
    s.on_tool_started("1".to_string(), "t".to_string());
    s.on_tool_completed("t".to_string(), false);
    s.on_provider_error("bad".to_string());
    s.on_input_transcript("x".to_string(), true, 0);
    s.on_reconnected();
    let events = s.tracer.drain_events();
    assert_eq!(
        kinds(&events),
        [
            "user_audio", "tool", "tool", "error", "transcript", "turn_started", "stt",
            "turn_ended"
        ]
    );
    assert!(matches!(&events[2], Event::ToolActivity { status, .. } if status == "failed"));
}

#[test]
fn reconnecting_backs_off() {
    let mut r = Reconnect::new();
    let mut waits = Vec::new();
    loop {
        match r.on_attempt(false) {
            ReconnectStep::Retry { wait_ms } => waits.push(wait_ms),
            ReconnectStep::GiveUp { wait_ms } => {
                waits.push(wait_ms);
                break;
            }
            ReconnectStep::Connected => unreachable!(),
        }
    }
    assert_eq!(waits, [500, 1000, 2000, 4000, 8000]);
    assert_eq!(Reconnect::new().on_attempt(true), ReconnectStep::Connected);
}
