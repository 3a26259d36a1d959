//! Exporting events.
use voice_engine::clock::Millis;
use voice_engine::event::{Event, EventCategory, Float64, LlmCompletionData};
use voice_engine::sinks::attrs::{AttrValue, Attrs};
use voice_engine::sinks::langfuse::{init, LangfuseConfig, LangfuseSessionObserver, SpanAction};
use voice_engine::sinks::otel::{span_of, subscribed_categories};
use voice_engine::sinks::pg::{
    parse_category, DbAdapterConfig, DbSubscriber, DbWriter, DropPolicy, EventQueue, Offer,
};

fn text<'a>(attrs: &'a Attrs, key: &str) -> Option<&'a str> {
    attrs.items.iter().find(|a| a.key == key).and_then(|a| match &a.value {
        AttrValue::Text(t) => Some(t.as_str()),
        _ => None,
    })
}

#[test]
fn traces_need_both_keys() {
    let mut c = LangfuseConfig::default();
    assert!(!c.is_enabled());
    assert_eq!(c.base_url, "https://cloud.langfuse.com");
    c.public_key = "pk".to_string();
    assert!(init(&c).is_none());
    c.secret_key = "sk".to_string();
    let s = init(&c).unwrap();
    assert_eq!(s.endpoint, "https://cloud.langfuse.com/api/public/otel/v1/traces");
    assert_eq!(s.authorization, "Basic cGs6c2s=");
}

fn observer() -> LangfuseSessionObserver {
    let c = LangfuseConfig {
        public_key: "p".to_string(),
        secret_key: "s".to_string(),
        trace_public: true,
        ..LangfuseConfig::default()
    };
    let settings = init(&c).unwrap();
    let (o, attrs) = LangfuseSessionObserver::new("sid".to_string(), Some(&settings)).unwrap();
    assert_eq!(text(&attrs, "conversation.id"), Some("sid"));
    assert_eq!(text(&attrs, "conversation.type"), Some("voice"));
    o
}

#[test]
fn one_turn_span_is_open_at_a_time() {
    assert!(LangfuseSessionObserver::new("sid".to_string(), None).is_none());
    let mut o = observer();
    let a = o.on_event(&Event::TurnStarted { turn_number: 1 });
    assert!(matches!(&a[..], [SpanAction::StartTurn { name, .. }] if name == "turn-1"));
    let a = o.on_event(&Event::TurnStarted { turn_number: 2 });
    assert!(matches!(&a[..], [SpanAction::EndTurn { .. }, SpanAction::StartTurn { .. }]));
    let end = Event::TurnEnded {
        turn_number: 2,
        was_interrupted: true,
        turn_duration_ms: Some(Millis { ns: 5 }),
        user_agent_latency_ms: None,
        vad_silence_ms: None,
    };
    let a = o.on_event(&end);
    match &a[..] {
        [SpanAction::EndTurn { attrs }] => {
            let keys: Vec<&str> = attrs.items.iter().map(|x| x.key).collect();
            assert_eq!(keys, ["turn.number", "turn.was_interrupted", "turn.duration_ms"]);
        }
        _ => panic!("expected the end of a turn"),
    }
    assert!(o.on_event(&end).is_empty());
    assert!(matches!(&o.finish()[..], [SpanAction::EndConversation]));
}

#[test]
fn generations_carry_their_input() {
    let mut o = observer();
    let d = LlmCompletionData {
        provider: "p".to_string(),
        model: "m".to_string(),
        input_json: "[1]".to_string(),
        output_json: "{}".to_string(),
        tools_json: Some("[2]".to_string()),
        temperature: Float64 { bits: 0 },
        max_tokens: 1,
        duration_ms: Millis { ns: 1 },
        ttfb_ms: None,
        prompt_tokens: 1,
        completion_tokens: 2,
        cache_read_tokens: None,
        span_label: "llm".to_string(),
    };
    let a = o.on_event(&Event::LlmComplete(d));
    match &a[..] {
        [SpanAction::Step { under_turn, name, attrs }] => {
            assert!(!under_turn);
            assert_eq!(name, "llm");
            assert_eq!(text(attrs, "input"), Some(r#"{"messages":[1],"tools":[2]}"#));
            assert!(attrs.items.iter().any(|x| x.key == "langfuse.trace.public"));
        }
        _ => panic!("expected a step"),
    }
}

#[test]
fn flat_spans_are_named_after_events() {
    let e = Event::Error { source: "stt".to_string(), message: "m".to_string() };
    let s = span_of(&e).unwrap();
    assert_eq!(s.name, "voice.error.stt");
    assert_eq!(text(&s.attrs, "voice.error.message"), Some("m"));
    assert!(span_of(&Event::SessionReady).is_none());
    assert!(subscribed_categories().contains(EventCategory::Error));
    assert!(!subscribed_categories().contains(EventCategory::AgentAudio));
}

fn config(policy: DropPolicy, queue: usize, batch: usize) -> DbAdapterConfig {
    DbAdapterConfig {
        categories: vec!["Error".to_string(), "nonsense".to_string()],
        event_types: vec![],
        drop_policy: policy,
        queue_size: queue,
        batch_size: batch,
        flush_interval_ms: 1,
        shutdown_flush_timeout_ms: 1000,
    }
}

#[test]
fn adapter_settings_have_floors() {
    let c = config(DropPolicy::Block, 0, 0);
    assert_eq!((c.queue_capacity(), c.batch_target()), (1, 1));
    assert_eq!((c.flush_every_ms(), c.shutdown_timeout_ms()), (50, 1000));
    assert!(c.categories_set().contains(EventCategory::Error));
    assert!(!c.categories_set().contains(EventCategory::Session));
    assert_eq!(DropPolicy::from_str("DROP_OLDEST"), DropPolicy::DropOldest);
    assert_eq!(parse_category("user_audio"), Some(EventCategory::UserAudio));
    assert_eq!(parse_category("x"), None);
}

#[test]
fn rows_are_numbered() {
    let mut s = DbSubscriber::new(7, "sid".to_string(), vec!["turn_started".to_string()]);
    assert!(s.prepare(&Event::SessionReady, 1, (0, 0)).is_none());
    let r = s.prepare(&Event::TurnStarted { turn_number: 1 }, 9, (5, 6)).unwrap();
    assert_eq!((r.id, r.call_id, r.seq, r.occurred_at), (9, 7, 1, (5, 6)));
    assert_eq!((r.event_type, r.event_category), ("turn_started", "observability"));
    let a = s.next_row(&Event::TurnStarted { turn_number: 2 }).unwrap();
    let b = s.next_row(&Event::TurnStarted { turn_number: 3 }).unwrap();
    assert_eq!((a.seq, b.seq), (2, 3));
    assert_ne!(a.id, b.id);
    assert!(a.occurred_at.0 > 1_700_000_000);
}

fn rows(n: u64) -> Vec<voice_engine::sinks::pg::CallEvent> {
    let mut s = DbSubscriber::new(0, "s".to_string(), vec![]);
    (0..n)
        .map(|i| s.prepare(&Event::TurnStarted { turn_number: i }, 0, (0, 0)).unwrap())
        .collect()
}

#[test]
fn full_queue_follows_its_policy() {
    let mut q = EventQueue::new(&config(DropPolicy::DropOldest, 2, 1));
    for r in rows(2) {
        assert!(matches!(q.offer(r), Offer::Queued));
    }
    let r = rows(3).pop().unwrap();
    assert!(matches!(q.offer(r), Offer::DroppedOldest));
    let seqs: Vec<i64> = q.rows.iter().map(|r| r.seq).collect();
    assert_eq!(seqs, [2, 3]);
    let mut q = EventQueue::new(&config(DropPolicy::DropNewest, 1, 1));
    let mut two = rows(2);
    let second = two.pop().unwrap();
    q.offer(two.pop().unwrap());
    assert!(matches!(q.offer(second), Offer::DroppedNewest));
    let mut q = EventQueue::new(&config(DropPolicy::Block, 1, 1));
    let mut two = rows(2);
    let second = two.pop().unwrap();
    q.offer(two.pop().unwrap());
    assert!(matches!(q.offer(second), Offer::Blocked(r) if r.seq == 2));
}

#[test]
fn writer_keeps_the_order() {
    let c = config(DropPolicy::DropNewest, 10, 2);
    let mut q = EventQueue::new(&c);
    let mut w = DbWriter::new(&c);
    for r in rows(5) {
        q.offer(r);
    }
    let step = w.on_wake(&mut q, false);
    assert_eq!(step.write.iter().map(|r| r.seq).collect::<Vec<_>>(), [1, 2]);
    assert!(step.wake_again);
    let step = w.on_wake(&mut q, false);
    assert_eq!(step.write.iter().map(|r| r.seq).collect::<Vec<_>>(), [3, 4]);
    let step = w.on_wake(&mut q, false);
    assert!(step.write.is_empty() && !step.wake_again);
    let rest = w.on_shutdown(&mut q);
    assert_eq!(rest.iter().map(|r| r.seq).collect::<Vec<_>>(), [5]);
}

#[test]
fn the_writer_writes_everything_at_the_end() {
    let c = config(DropPolicy::DropNewest, 10, 2);
    let mut q = EventQueue::new(&c);
    let mut w = DbWriter::new(&c);
    for r in rows(1) {
        q.offer(r);
    }
    let step = w.on_wake(&mut q, true);
    assert_eq!(step.write.iter().map(|r| r.seq).collect::<Vec<_>>(), [1]);
    assert!(!step.wake_again);
    assert!(w.on_shutdown(&mut q).is_empty());

    for r in rows(3) {
        q.offer(r);
    }
    let step = w.on_wake(&mut q, true);
    assert_eq!(step.write.iter().map(|r| r.seq).collect::<Vec<_>>(), [1, 2]);
    assert!(!step.wake_again);
    let rest = w.on_shutdown(&mut q);
    assert_eq!(rest.iter().map(|r| r.seq).collect::<Vec<_>>(), [3]);
}
