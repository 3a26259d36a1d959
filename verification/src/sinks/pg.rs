//! Database sink: stored events go through a bounded queue to a batching writer.
use crate::bus::CategorySet;
use crate::event::{Event, EventCategory};
use crate::sink_event::{event_category_name, event_type_name, from_event, SinkEvent};
use crate::text::{same, to_ascii_lowercase};
use std::collections::VecDeque;
use vstd::prelude::*;

verus! {

/// What happens to an event when the queue is full.
#[derive(Clone, Copy, Debug, PartialEq, Eq, Structural)]
pub enum DropPolicy {
    /// The new event is discarded.
    DropNewest,
    /// The oldest queued event makes room.
    DropOldest,
    /// The subscriber waits until the writer has made room.
    Block,
    /// The new event is discarded, as with `DropNewest`.
    Ignore,
}

/// The policy of a configured name, whatever the case of its letters.
pub open spec fn policy_named(v: Seq<char>) -> DropPolicy {
    let name = crate::text::ascii_lowered(v);
    if name == "drop_oldest"@ {
        DropPolicy::DropOldest
    } else if name == "block"@ {
        DropPolicy::Block
    } else if name == "ignore"@ {
        DropPolicy::Ignore
    } else {
        DropPolicy::DropNewest
    }
}

impl DropPolicy {
    /// The policy of a configured name; `DropNewest` for any unknown name.
    pub fn from_str(v: &str) -> (p: Self)
        ensures
            p == policy_named(v@),
    {
        let name = to_ascii_lowercase(v);
        if same(name.as_str(), "drop_oldest") {
            DropPolicy::DropOldest
        } else if same(name.as_str(), "block") {
            DropPolicy::Block
        } else if same(name.as_str(), "ignore") {
            DropPolicy::Ignore
        } else {
            DropPolicy::DropNewest
        }
    }
}

/// Configuration of the sink.
#[derive(Clone, Debug)]
pub struct DbAdapterConfig {
    pub categories: Vec<String>,
    /// Event types to store; empty for all.
    pub event_types: Vec<String>,
    pub drop_policy: DropPolicy,
    pub queue_size: usize,
    pub batch_size: usize,
    pub flush_interval_ms: u64,
    pub shutdown_flush_timeout_ms: u64,
}

/// The category of a configured name, whatever the case of its letters.
pub open spec fn category_named(v: Seq<char>) -> Option<EventCategory> {
    let name = crate::text::ascii_lowered(v);
    if name == "session"@ {
        Some(EventCategory::Session)
    } else if name == "transcript"@ {
        Some(EventCategory::Transcript)
    } else if name == "tool"@ {
        Some(EventCategory::Tool)
    } else if name == "agent"@ {
        Some(EventCategory::Agent)
    } else if name == "agent_audio"@ {
        Some(EventCategory::AgentAudio)
    } else if name == "metrics"@ {
        Some(EventCategory::Metrics)
    } else if name == "trace"@ {
        Some(EventCategory::Trace)
    } else if name == "error"@ {
        Some(EventCategory::Error)
    } else if name == "observability"@ {
        Some(EventCategory::Observability)
    } else if name == "user_audio"@ {
        Some(EventCategory::UserAudio)
    } else {
        None
    }
}

/// The category of a configured name.
pub fn parse_category(v: &str) -> (c: Option<EventCategory>)
    ensures
        c == category_named(v@),
{
    let name = to_ascii_lowercase(v);
    let n = name.as_str();
    if same(n, "session") {
        Some(EventCategory::Session)
    } else if same(n, "transcript") {
        Some(EventCategory::Transcript)
    } else if same(n, "tool") {
        Some(EventCategory::Tool)
    } else if same(n, "agent") {
        Some(EventCategory::Agent)
    } else if same(n, "agent_audio") {
        Some(EventCategory::AgentAudio)
    } else if same(n, "metrics") {
        Some(EventCategory::Metrics)
    } else if same(n, "trace") {
        Some(EventCategory::Trace)
    } else if same(n, "error") {
        Some(EventCategory::Error)
    } else if same(n, "observability") {
        Some(EventCategory::Observability)
    } else if same(n, "user_audio") {
        Some(EventCategory::UserAudio)
    } else {
        None
    }
}

/// The categories that are stored where the configuration names none that is known.
pub open spec fn default_categories() -> Set<EventCategory> {
    Set::empty().insert(EventCategory::Session).insert(EventCategory::Metrics).insert(
        EventCategory::Observability,
    ).insert(EventCategory::Tool).insert(EventCategory::Error)
}

/// Whether one of the configured names is that of `c`.
pub open spec fn names_category(names: Seq<String>, c: EventCategory) -> bool {
    exists|i: int| 0 <= i < names.len() && category_named(#[trigger] names[i]@) == Some(c)
}

/// The categories of the configured names, or the default ones where none is known.
pub open spec fn configured_categories(names: Seq<String>) -> Set<EventCategory> {
    let known = Set::new(|c: EventCategory| names_category(names, c));
    if known == Set::<EventCategory>::empty() {
        default_categories()
    } else {
        known
    }
}

impl DbAdapterConfig {
    /// The categories to store.
    pub fn categories_set(&self) -> (s: CategorySet)
        ensures
            s.wf(),
            s@ == configured_categories(self.categories@),
    {
        let mut out = CategorySet::new();
        for i in 0..self.categories.len()
            invariant
                out.wf(),
                forall|c: EventCategory| #[trigger] out@.contains(c) <==> exists|k: int|
                    0 <= k < i && category_named(#[trigger] self.categories@[k]@) == Some(c),
        {
            let ghost before = out@;
            let parsed = parse_category(self.categories[i].as_str());
            if let Some(c) = parsed {
                out.insert(c);
            }
            assert forall|c: EventCategory| #[trigger] out@.contains(c) <==> exists|k: int|
                0 <= k < i + 1 && category_named(#[trigger] self.categories@[k]@) == Some(c) by {
                if out@.contains(c) && !before.contains(c) {
                    assert(category_named(self.categories@[i as int]@) == Some(c));
                }
                if before.contains(c) {
                    let k = choose|k: int|
                        0 <= k < i && category_named(#[trigger] self.categories@[k]@) == Some(c);
                    assert(0 <= k < i + 1);
                }
            }
        }
        let ghost known = Set::new(|c: EventCategory| names_category(self.categories@, c));
        assert(out@ =~= known);
        if out.is_empty() {
            out.insert(EventCategory::Session);
            out.insert(EventCategory::Metrics);
            out.insert(EventCategory::Observability);
            out.insert(EventCategory::Tool);
            out.insert(EventCategory::Error);
        }
        out
    }

    /// How many events the queue holds: at least one.
    pub fn queue_capacity(&self) -> (n: usize)
        ensures
            n == if self.queue_size >= 1 {
                self.queue_size
            } else {
                1
            },
    {
        if self.queue_size >= 1 {
            self.queue_size
        } else {
            1
        }
    }

    /// How many events the writer collects before it writes: at least one.
    pub fn batch_target(&self) -> (n: usize)
        ensures
            n == if self.batch_size >= 1 {
                self.batch_size
            } else {
                1
            },
    {
        if self.batch_size >= 1 {
            self.batch_size
        } else {
            1
        }
    }

    /// How often the writer looks at the queue without being woken: every 50 ms at most.
    pub fn flush_every_ms(&self) -> (ms: u64)
        ensures
            ms == if self.flush_interval_ms >= 50 {
                self.flush_interval_ms
            } else {
                50
            },
    {
        if self.flush_interval_ms >= 50 {
            self.flush_interval_ms
        } else {
            50
        }
    }

    /// How long the last write may take: at least 50 ms.
    pub fn shutdown_timeout_ms(&self) -> (ms: u64)
        ensures
            ms == if self.shutdown_flush_timeout_ms >= 50 {
                self.shutdown_flush_timeout_ms
            } else {
                50
            },
    {
        if self.shutdown_flush_timeout_ms >= 50 {
            self.shutdown_flush_timeout_ms
        } else {
            50
        }
    }
}

/// One row of the event table.
#[derive(Debug)]
pub struct CallEvent {
    /// Random identifier of the row.
    pub id: u128,
    pub call_id: u128,
    pub session_id: String,
    /// Position of the event among the stored ones, from 1.
    pub seq: i64,
    pub event_type: &'static str,
    pub event_category: &'static str,
    /// When the event was stored, in seconds and nanoseconds since the Unix epoch.
    pub occurred_at: (i64, u32),
    pub event: SinkEvent,
}

/// `uuid::Uuid::new_v4`: a random identifier, of which nothing is known.
#[verifier::external_body]
fn random_id() -> (id: u128) {
    uuid::Uuid::new_v4().as_u128()
}

/// Turns bus events into rows.
#[derive(Debug)]
pub struct DbSubscriber {
    pub call_id: u128,
    pub session_id: String,
    pub event_types: Vec<String>,
    /// Position of the last stored event.
    pub seq: i64,
}

/// Whether `name` is one of `names`.
pub open spec fn lists(names: Seq<String>, name: Seq<char>) -> bool {
    exists|i: int| 0 <= i < names.len() && (#[trigger] names[i])@ == name
}

impl DbSubscriber {
    /// Whether an event is stored.
    pub open spec fn stores(self, e: Event) -> bool {
        match crate::sink_event::sink_of(e) {
            Some(s) => self.event_types@.len() == 0 || lists(
                self.event_types@,
                crate::sink_event::type_name_of(s),
            ),
            None => false,
        }
    }

    /// `row` is the row of event `e`, as the next one after `self`.
    pub open spec fn is_row(self, row: CallEvent, e: Event) -> bool {
        &&& crate::sink_event::sink_of(e) == Some(row.event)
        &&& row.call_id == self.call_id
        &&& row.session_id == self.session_id
        &&& row.seq == self.seq + 1
        &&& row.event_type@ == crate::sink_event::type_name_of(row.event)
        &&& row.event_category@ == crate::sink_event::category_name_of(row.event)
    }

    /// The position of the last stored event, after event `e`.
    pub open spec fn seq_after(self, e: Event) -> int {
        if self.stores(e) {
            self.seq + 1
        } else {
            self.seq as int
        }
    }

    /// A subscriber that has stored nothing yet.
    pub fn new(call_id: u128, session_id: String, event_types: Vec<String>) -> (s: Self)
        ensures
            s == (DbSubscriber { call_id, session_id, event_types, seq: 0 }),
    {
        DbSubscriber { call_id, session_id, event_types, seq: 0 }
    }

    fn lists_type(&self, name: &str) -> (r: bool)
        ensures
            r == lists(self.event_types@, name@),
    {
        for i in 0..self.event_types.len()
            invariant
                forall|k: int| 0 <= k < i ==> (#[trigger] self.event_types@[k])@ != name@,
        {
            if same(self.event_types[i].as_str(), name) {
                return true;
            }
        }
        false
    }

    /// The row of `raw`, with the given identifier and time; none where it is not stored.
    pub fn prepare(&mut self, raw: &Event, id: u128, occurred_at: (i64, u32)) -> (row: Option<
        CallEvent,
    >)
        requires
            old(self).seq < i64::MAX,
        ensures
            row is Some <==> old(self).stores(*raw),
            row matches Some(r) ==> old(self).is_row(r, *raw) && r.id == id && r.occurred_at
                == occurred_at,
            final(self).seq == old(self).seq_after(*raw),
            *final(self) == (DbSubscriber {
                seq: if row is Some {
                    (old(self).seq + 1) as i64
                } else {
                    old(self).seq
                },
                ..*old(self)
            }),
    {
        let event = match from_event(raw) {
            Some(e) => e,
            None => return None,
        };
        let event_type = event_type_name(&event);
        if self.event_types.len() > 0 && !self.lists_type(event_type) {
            return None;
        }
        let event_category = event_category_name(&event);
        self.seq = self.seq + 1;
        Some(
            CallEvent {
                id,
                call_id: self.call_id,
                session_id: self.session_id.clone(),
                seq: self.seq,
                event_type,
                event_category,
                occurred_at,
                event,
            },
        )
    }

    /// The row of `raw`, with a random identifier and the current time; none where it is not
    /// stored.
    pub fn next_row(&mut self, raw: &Event) -> (row: Option<CallEvent>)
        requires
            old(self).seq < i64::MAX,
        ensures
            row is Some <==> old(self).stores(*raw),
            row matches Some(r) ==> old(self).is_row(r, *raw),
            final(self).seq == old(self).seq_after(*raw),
            *final(self) == (DbSubscriber {
                seq: if row is Some {
                    (old(self).seq + 1) as i64
                } else {
                    old(self).seq
                },
                ..*old(self)
            }),
    {
        let id = random_id();
        let now = crate::timestamp::utc_now();
        self.prepare(raw, id, now)
    }
}

/// What became of a row that was offered to the queue.
pub enum Offer {
    /// It is queued.
    Queued,
    /// It is discarded: the queue is full.
    DroppedNewest,
    /// It is queued, and the oldest row is discarded for it.
    DroppedOldest,
    /// It has to wait: the queue is full.
    Blocked(CallEvent),
}

/// Rows on their way to the writer, oldest first.
pub struct EventQueue {
    pub capacity: usize,
    pub policy: DropPolicy,
    pub rows: VecDeque<CallEvent>,
}

impl EventQueue {
    /// The queue has room for at least one row and holds no more rows than it has room for.
    pub open spec fn wf(&self) -> bool {
        self.capacity >= 1 && self.rows@.len() <= self.capacity
    }

    /// Whether the queue is full.
    pub open spec fn full(&self) -> bool {
        self.rows@.len() >= self.capacity
    }

    /// The rows after `row` was offered.
    pub open spec fn rows_after(self, row: CallEvent) -> Seq<CallEvent> {
        if !self.full() {
            self.rows@.push(row)
        } else if self.policy is DropOldest {
            self.rows@.drop_first().push(row)
        } else {
            self.rows@
        }
    }

    /// What becomes of `row` when it is offered.
    pub open spec fn outcome(self, row: CallEvent) -> Offer {
        if !self.full() {
            Offer::Queued
        } else if self.policy is DropOldest {
            Offer::DroppedOldest
        } else if self.policy is Block {
            Offer::Blocked(row)
        } else {
            Offer::DroppedNewest
        }
    }

    /// An empty queue.
    pub fn new(config: &DbAdapterConfig) -> (q: Self)
        ensures
            q.wf(),
            q.capacity == if config.queue_size >= 1 {
                config.queue_size
            } else {
                1
            },
            q.policy == config.drop_policy,
            q.rows@ == Seq::<CallEvent>::empty(),
    {
        EventQueue {
            capacity: config.queue_capacity(),
            policy: config.drop_policy,
            rows: VecDeque::new(),
        }
    }

    /// Offers a row to the queue.
    pub fn offer(&mut self, row: CallEvent) -> (o: Offer)
        requires
            old(self).wf(),
        ensures
            final(self).wf(),
            final(self).capacity == old(self).capacity,
            final(self).policy == old(self).policy,
            final(self).rows@ == old(self).rows_after(row),
            o == old(self).outcome(row),
            o == if !old(self).full() {
                Offer::Queued
            } else {
                match old(self).policy {
                    DropPolicy::DropNewest | DropPolicy::Ignore => Offer::DroppedNewest,
                    DropPolicy::DropOldest => Offer::DroppedOldest,
                    DropPolicy::Block => Offer::Blocked(row),
                }
            },
    {
        if self.rows.len() < self.capacity {
            self.rows.push_back(row);
            return Offer::Queued;
        }
        match self.policy {
            DropPolicy::DropNewest | DropPolicy::Ignore => Offer::DroppedNewest,
            DropPolicy::DropOldest => {
                let _evicted = self.rows.pop_front();
                self.rows.push_back(row);
                assert(self.rows@ =~= old(self).rows@.drop_first().push(row));
                Offer::DroppedOldest
            },
            DropPolicy::Block => Offer::Blocked(row),
        }
    }

    /// Moves the oldest `n` rows to the end of `batch`.
    fn take_into(&mut self, batch: &mut Vec<CallEvent>, n: usize)
        requires
            old(self).wf(),
            n <= old(self).rows@.len(),
        ensures
            final(self).wf(),
            final(self).capacity == old(self).capacity,
            final(self).policy == old(self).policy,
            final(self).rows@ == old(self).rows@.skip(n as int),
            final(batch)@ == old(batch)@ + old(self).rows@.take(n as int),
    {
        for i in 0..n
            invariant
                old(self).wf(),
                n <= old(self).rows@.len(),
                self.capacity == old(self).capacity,
                self.policy == old(self).policy,
                self.rows@ == old(self).rows@.skip(i as int),
                batch@ == old(batch)@ + old(self).rows@.take(i as int),
        {
            if let Some(row) = self.rows.pop_front() {
                batch.push(row);
            }
            assert(self.rows@ =~= old(self).rows@.skip(i as int + 1));
            assert(batch@ =~= old(batch)@ + old(self).rows@.take(i as int + 1));
        }
        assert(self.rows@ =~= old(self).rows@.skip(n as int));
        assert(batch@ =~= old(batch)@ + old(self).rows@.take(n as int));
    }
}

/// Collects rows into batches.
pub struct DbWriter {
    /// How many rows make a batch.
    pub target: usize,
    /// The batch that is being collected.
    pub batch: Vec<CallEvent>,
}

/// What the writer does after it was woken.
pub struct WriterStep {
    /// Rows to write now.
    pub write: Vec<CallEvent>,
    /// Whether to look at the queue again at once.
    pub wake_again: bool,
}

impl DbWriter {
    /// How many rows the writer takes from a queue of length `len`.
    pub open spec fn takes(self, len: nat) -> nat {
        let room = if self.target >= self.batch@.len() {
            (self.target - self.batch@.len()) as nat
        } else {
            0
        };
        if room <= len {
            room
        } else {
            len
        }
    }

    /// The batch after the writer took rows from the queue.
    pub open spec fn collected(self, rows: Seq<CallEvent>) -> Seq<CallEvent> {
        self.batch@ + rows.take(self.takes(rows.len()) as int)
    }

    /// Woken with `rows` in the queue, the writer writes `write`, keeps `batch`, leaves `left`, and
    /// looks again at once where `again` says so.
    pub open spec fn wakes(
        self,
        rows: Seq<CallEvent>,
        done: bool,
        write: Seq<CallEvent>,
        batch: Seq<CallEvent>,
        left: Seq<CallEvent>,
        again: bool,
    ) -> bool {
        let all = self.collected(rows);
        &&& left == rows.skip(self.takes(rows.len()) as int)
        &&& again == (!done && left.len() > 0)
        &&& if all.len() >= self.target || done {
            write == all && batch == Seq::<CallEvent>::empty()
        } else {
            write == Seq::<CallEvent>::empty() && batch == all
        }
    }

    /// A writer without rows.
    pub fn new(config: &DbAdapterConfig) -> (w: Self)
        ensures
            w.target == if config.batch_size >= 1 {
                config.batch_size
            } else {
                1
            },
            w.batch@ == Seq::<CallEvent>::empty(),
    {
        DbWriter { target: config.batch_target(), batch: Vec::new() }
    }

    /// Takes rows from the queue up to a full batch. A full batch is written; when the session is
    /// over (`done`), any batch is.
    pub fn on_wake(&mut self, queue: &mut EventQueue, done: bool) -> (step: WriterStep)
        requires
            old(queue).wf(),
        ensures
            final(queue).wf(),
            final(queue).capacity == old(queue).capacity,
            final(queue).policy == old(queue).policy,
            final(queue).rows@ == old(queue).rows@.skip(
                old(self).takes(old(queue).rows@.len()) as int,
            ),
            final(self).target == old(self).target,
            ({
                let batch = old(self).collected(old(queue).rows@);
                if batch.len() >= old(self).target || done {
                    step.write@ == batch && final(self).batch@ == Seq::<CallEvent>::empty()
                } else {
                    step.write@ == Seq::<CallEvent>::empty() && final(self).batch@ == batch
                }
            }),
            step.wake_again == (!done && final(queue).rows@.len() > 0),
            old(self).wakes(
                old(queue).rows@,
                done,
                step.write@,
                final(self).batch@,
                final(queue).rows@,
                step.wake_again,
            ),
    {
        let room: usize = if self.target >= self.batch.len() {
            self.target - self.batch.len()
        } else {
            0
        };
        let take: usize = if room <= queue.rows.len() {
            room
        } else {
            queue.rows.len()
        };
        queue.take_into(&mut self.batch, take);
        let mut write: Vec<CallEvent> = Vec::new();
        if self.batch.len() >= self.target || done {
            std::mem::swap(&mut write, &mut self.batch);
        }
        WriterStep { write, wake_again: !done && queue.rows.len() > 0 }
    }

    /// The session is over: takes every row that is left, for the last write.
    pub fn on_shutdown(&mut self, queue: &mut EventQueue) -> (write: Vec<CallEvent>)
        requires
            old(queue).wf(),
        ensures
            final(queue).wf(),
            final(queue).capacity == old(queue).capacity,
            final(queue).policy == old(queue).policy,
            final(queue).rows@ == Seq::<CallEvent>::empty(),
            final(self).target == old(self).target,
            final(self).batch@ == Seq::<CallEvent>::empty(),
            write@ == old(self).batch@ + old(queue).rows@,
    {
        let all: usize = queue.rows.len();
        queue.take_into(&mut self.batch, all);
        assert(old(queue).rows@.take(all as int) =~= old(queue).rows@);
        assert(queue.rows@ =~= Seq::<CallEvent>::empty());
        let mut write: Vec<CallEvent> = Vec::new();
        std::mem::swap(&mut write, &mut self.batch);
        write
    }
}

/// The queue never holds more than its capacity, and a row that is not discarded or blocked is the
/// last one in it.
pub proof fn law_queue_bounded(q: EventQueue, row: CallEvent)
    requires
        q.wf(),
    ensures
        q.rows_after(row).len() <= q.capacity,
        !q.full() || q.policy is DropOldest ==> q.rows_after(row).last() == row,
        !(q.policy is DropOldest) ==> q.rows@.is_prefix_of(q.rows_after(row)),
{
}

/// The writer loses and reorders nothing: what it writes, what it keeps and what it leaves in the
/// queue are, one after the other, what it had and what the queue held.
pub proof fn law_writer_keeps_order(w: DbWriter, rows: Seq<CallEvent>)
    ensures
        w.collected(rows) + rows.skip(w.takes(rows.len()) as int) == w.batch@ + rows,
        w.batch@.len() <= w.target ==> w.collected(rows).len() <= w.target,
{
    let n = w.takes(rows.len()) as int;
    assert(rows.take(n) + rows.skip(n) =~= rows);
    assert(w.collected(rows) + rows.skip(n) =~= w.batch@ + rows);
}

/// Every category of the stored events can be named in the configuration by its stored name.
pub proof fn law_category_names_parse(e: Event)
    requires
        crate::sink_event::sink_of(e) is Some,
    ensures
        category_named(
            crate::sink_event::category_name_of(crate::sink_event::sink_of(e)->0),
        ) == Some(crate::event::category_of(e)),
{
    reveal_strlit("session");
    reveal_strlit("transcript");
    reveal_strlit("tool");
    reveal_strlit("agent");
    reveal_strlit("metrics");
    reveal_strlit("error");
    reveal_strlit("observability");
    lemma_lower_is_lowered("session"@);
    lemma_lower_is_lowered("transcript"@);
    lemma_lower_is_lowered("tool"@);
    lemma_lower_is_lowered("agent"@);
    lemma_lower_is_lowered("metrics"@);
    lemma_lower_is_lowered("error"@);
    lemma_lower_is_lowered("observability"@);
    reveal_strlit("agent_audio");
    reveal_strlit("trace");
    reveal_strlit("user_audio");
    let c = crate::sink_event::category_name_of(crate::sink_event::sink_of(e)->0);
    assert("tool"@.len() == 4 && "agent"@.len() == 5 && "error"@.len() == 5 && "trace"@.len() == 5);
    assert("agent"@[0] == 'a' && "error"@[0] == 'e' && "trace"@[0] == 't');
    assert("session"@.len() == 7 && "metrics"@.len() == 7);
    assert("session"@[0] == 's' && "metrics"@[0] == 'm');
    assert("transcript"@.len() == 10 && "user_audio"@.len() == 10);
    assert("transcript"@[0] == 't' && "user_audio"@[0] == 'u');
    assert("observability"@.len() == 13 && "agent_audio"@.len() == 11);
}

/// A text without capital letters is its own lower-case form.
pub proof fn lemma_lower_is_lowered(s: Seq<char>)
    requires
        forall|i: int| 0 <= i < s.len() ==> !('A' <= #[trigger] s[i] <= 'Z'),
    ensures
        crate::text::ascii_lowered(s) == s,
{
    assert(crate::text::ascii_lowered(s) =~= s);
}

/// A queue with room takes a row at its end. A full one stays as it is, unless the oldest row makes
/// room: then that one leaves, all others move up, and the new one is last.
pub proof fn law_full_queue_follows_its_policy(q: EventQueue, row: CallEvent)
    requires
        q.wf(),
    ensures
        ({
            let n = q.rows@.len() as int;
            let after = q.rows_after(row);
            let o = q.outcome(row);
            &&& n < q.capacity ==> o is Queued && after == q.rows@.push(row)
            &&& n == q.capacity && q.policy is DropOldest ==> {
                &&& o is DroppedOldest
                &&& after.len() == n
                &&& after[n - 1] == row
                &&& forall|i: int| 0 <= i < n - 1 ==> after[i] == q.rows@[i + 1]
            }
            &&& n == q.capacity && !(q.policy is DropOldest) ==> after == q.rows@
            &&& n == q.capacity && q.policy is Block ==> o == Offer::Blocked(row)
            &&& n == q.capacity && (q.policy is DropNewest || q.policy is Ignore)
                ==> o is DroppedNewest
        }),
{
}

/// What is written comes first, then what is kept, then what is left in the queue; together they are
/// what the writer had and what was queued. Only a full batch is written, or the rest at the end,
/// and no batch grows past its size.
pub proof fn law_writer_writes_full_batches(
    w: DbWriter,
    rows: Seq<CallEvent>,
    done: bool,
    write: Seq<CallEvent>,
    batch: Seq<CallEvent>,
    left: Seq<CallEvent>,
    again: bool,
)
    requires
        w.target >= 1,
        w.batch@.len() < w.target,
        w.wakes(rows, done, write, batch, left, again),
    ensures
        write + batch + left == w.batch@ + rows,
        write.len() == 0 || batch.len() == 0,
        !done && write.len() > 0 ==> write.len() == w.target,
        write.len() <= w.target,
        batch.len() < w.target,
        done ==> batch.len() == 0,
        write.len() == 0 ==> left.len() == 0,
        again <==> !done && left.len() > 0,
{
    let n = w.takes(rows.len()) as int;
    assert(rows.take(n) + rows.skip(n) =~= rows);
    assert(write + batch + left =~= w.batch@ + rows);
}

/// The rows of a call are numbered one after the other in the order of their events; events that are
/// not stored use no number.
pub proof fn law_rows_are_numbered_in_order(s: DbSubscriber, row: CallEvent, e: Event)
    requires
        s.is_row(row, e),
    ensures
        s.stores(e) ==> row.seq == s.seq_after(e),
        s.seq_after(e) == s.seq || s.seq_after(e) == s.seq + 1,
        s.seq_after(e) == s.seq + 1 <==> s.stores(e),
        row.call_id == s.call_id,
        row.session_id == s.session_id,
        crate::sink_event::sink_of(e) == Some(row.event),
        row.event_type@ == crate::sink_event::type_name_of(row.event),
        row.event_category@ == crate::sink_event::label_of(crate::event::category_of(e)),
{
    crate::sink_event::law_stored_category(e);
}

/// An event is stored where it is kept at all and its type is asked for; where no type is asked for,
/// all are.
pub proof fn law_asked_types_are_stored(s: DbSubscriber, e: Event, i: int)
    ensures
        crate::sink_event::sink_of(e) is None ==> !s.stores(e),
        crate::sink_event::sink_of(e) is Some && s.event_types@.len() == 0 ==> s.stores(e),
        crate::sink_event::sink_of(e) matches Some(x) ==> 0 <= i < s.event_types@.len()
            && s.event_types@[i]@ == crate::sink_event::type_name_of(x) ==> s.stores(e),
        s.stores(e) && s.event_types@.len() > 0 ==> exists|k: int|
            0 <= k < s.event_types@.len() && (#[trigger] s.event_types@[k])@
                == crate::sink_event::type_name_of(crate::sink_event::sink_of(e)->0),
{
}

/// The categories that are stored are those that are named and known; where none is, sessions,
/// metrics, turns, tools and errors are.
pub proof fn law_named_categories_are_stored(names: Seq<String>, c: EventCategory, i: int)
    ensures
        0 <= i < names.len() && category_named(names[i]@) == Some(c) ==> configured_categories(
            names,
        ).contains(c),
        names.len() == 0 ==> (configured_categories(names).contains(c) <==> c is Session
            || c is Metrics || c is Observability || c is Tool || c is Error),
{
    let known = Set::new(|x: EventCategory| names_category(names, x));
    if names.len() == 0 {
        assert(known =~= Set::<EventCategory>::empty());
    } else if 0 <= i < names.len() && category_named(names[i]@) == Some(c) {
        assert(names_category(names, c));
        assert(known.contains(c));
    }
}

/// A policy goes by its name, in letters of any case; every other name drops the newest.
pub proof fn law_policies_go_by_name(v: Seq<char>)
    ensures
        crate::text::ascii_lowered(v) == "drop_oldest"@ <==> policy_named(v) is DropOldest,
        crate::text::ascii_lowered(v) == "block"@ <==> policy_named(v) is Block,
        crate::text::ascii_lowered(v) == "ignore"@ <==> policy_named(v) is Ignore,
{
    reveal_strlit("drop_oldest");
    reveal_strlit("block");
    reveal_strlit("ignore");
    assert("drop_oldest"@.len() == 11 && "block"@.len() == 5 && "ignore"@.len() == 6);
}

} // verus!
