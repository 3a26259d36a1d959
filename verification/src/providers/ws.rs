//! Supervision of WebSocket connections: keepalive, reconnecting, status.
//!
//! The caller owns the socket. It hands in how a connection ended and how an attempt to bring it
//! back went, and does what the supervisor says.
use crate::clock::Millis;
use crate::text::{concat, contains, decimal_of};
use vstd::prelude::*;

verus! {

/// How a connection is kept alive.
#[derive(Clone, Debug)]
pub enum WsKeepalive {
    /// A ping frame without payload.
    WsPing { interval: Millis },
    /// A text message.
    TextMessage { interval: Millis, message: String },
    /// A binary message.
    BinaryMessage { interval: Millis, payload: Vec<u8> },
    /// Not at all.
    Off,
}

/// A message to send.
#[derive(Debug)]
pub enum WsMessage {
    /// A ping frame without payload.
    Ping,
    Text(String),
    Binary(Vec<u8>),
}

impl WsKeepalive {
    /// How often the keepalive message is sent.
    pub open spec fn every(self) -> Option<Millis> {
        match self {
            WsKeepalive::WsPing { interval } => Some(interval),
            WsKeepalive::TextMessage { interval, .. } => Some(interval),
            WsKeepalive::BinaryMessage { interval, .. } => Some(interval),
            WsKeepalive::Off => None,
        }
    }

    /// How often the keepalive message is sent.
    pub fn interval(&self) -> (i: Option<Millis>)
        ensures
            i == self.every(),
    {
        match self {
            WsKeepalive::WsPing { interval } => Some(*interval),
            WsKeepalive::TextMessage { interval, .. } => Some(*interval),
            WsKeepalive::BinaryMessage { interval, .. } => Some(*interval),
            WsKeepalive::Off => None,
        }
    }

    /// The keepalive message.
    pub fn message(&self) -> (m: Option<WsMessage>)
        ensures
            match *self {
                WsKeepalive::WsPing { .. } => m == Some(WsMessage::Ping),
                WsKeepalive::TextMessage { message, .. } => m == Some(WsMessage::Text(message)),
                WsKeepalive::BinaryMessage { payload, .. } => m matches Some(WsMessage::Binary(b))
                    && b@ == payload@,
                WsKeepalive::Off => m is None,
            },
            m is Some <==> self.every() is Some,
    {
        match self {
            WsKeepalive::WsPing { .. } => Some(WsMessage::Ping),
            WsKeepalive::TextMessage { message, .. } => Some(WsMessage::Text(message.clone())),
            WsKeepalive::BinaryMessage { payload, .. } => Some(
                WsMessage::Binary(vstd::slice::slice_to_vec(payload.as_slice())),
            ),
            WsKeepalive::Off => None,
        }
    }
}

/// Configuration of a supervised connection.
#[derive(Clone, Debug)]
pub struct WsConfig {
    pub keepalive: WsKeepalive,
    /// Attempts to reconnect in one round; zero for none.
    pub max_reconnect_attempts: u32,
    /// Wait before each attempt.
    pub reconnect_delay: Millis,
    /// Rounds before giving up for good. A round ends with a connection; the limit stops the
    /// cycle when a server accepts connections only to drop them.
    pub max_total_reconnect_rounds: u32,
}

impl Default for WsConfig {
    fn default() -> (c: Self)
        ensures
            c.keepalive == (WsKeepalive::WsPing {
                interval: crate::clock::millis(30_000_000_000),
            }),
            c.max_reconnect_attempts == 3,
            c.reconnect_delay == crate::clock::millis(1_000_000_000),
            c.max_total_reconnect_rounds == 5,
    {
        WsConfig {
            keepalive: WsKeepalive::WsPing { interval: Millis { ns: 30_000_000_000 } },
            max_reconnect_attempts: 3,
            reconnect_delay: Millis { ns: 1_000_000_000 },
            max_total_reconnect_rounds: 5,
        }
    }
}

/// Where a connection stands.
#[derive(Clone, Debug, PartialEq, Eq)]
pub enum WsStatus {
    /// It is alive.
    Connected,
    /// It was lost; attempt number `attempt` to bring it back is being made.
    Reconnecting { attempt: u32 },
    /// It was lost for good.
    Disconnected { reason: String },
}

/// What happened on a live connection.
pub enum ConnEvent {
    /// No one will send messages any more.
    SenderDropped,
    /// A message could not be written.
    WriteFailed,
    /// The keepalive message could not be written.
    KeepaliveFailed,
    /// A message came in; `pong` tells whether it only answers a ping.
    Incoming { pong: bool },
    /// No one will read messages any more.
    ReceiverDropped,
    /// Reading failed.
    ReadFailed(String),
    /// The server closed the connection.
    Closed,
}

/// What to do about it.
pub enum ConnAction {
    /// Go on.
    Continue,
    /// Hand the message on, then go on.
    Forward,
    /// The connection is over, for this reason.
    End(String),
}

/// The reason for which an event ends the connection, where it does.
pub open spec fn end_reason(e: ConnEvent) -> Option<Seq<char>> {
    match e {
        ConnEvent::SenderDropped => Some("sender dropped (shutdown)"@),
        ConnEvent::WriteFailed => Some("write error"@),
        ConnEvent::KeepaliveFailed => Some("keepalive write error"@),
        ConnEvent::Incoming { .. } => None,
        ConnEvent::ReceiverDropped => Some("incoming channel closed (receiver dropped)"@),
        ConnEvent::ReadFailed(error) => Some("read error: "@ + error@),
        ConnEvent::Closed => Some("connection closed by server"@),
    }
}

/// Decides what an event on a live connection means. Answers to pings are not handed on.
pub fn on_connection_event(event: ConnEvent) -> (a: ConnAction)
    ensures
        match end_reason(event) {
            Some(r) => a matches ConnAction::End(reason) && reason@ == r,
            None => if event matches ConnEvent::Incoming { pong } && pong {
                a is Continue
            } else {
                a is Forward
            },
        },
{
    match event {
        ConnEvent::SenderDropped => ConnAction::End("sender dropped (shutdown)".to_owned()),
        ConnEvent::WriteFailed => ConnAction::End("write error".to_owned()),
        ConnEvent::KeepaliveFailed => ConnAction::End("keepalive write error".to_owned()),
        ConnEvent::Incoming { pong } => {
            if pong {
                ConnAction::Continue
            } else {
                ConnAction::Forward
            }
        },
        ConnEvent::ReceiverDropped => ConnAction::End(
            "incoming channel closed (receiver dropped)".to_owned(),
        ),
        ConnEvent::ReadFailed(error) => ConnAction::End(concat("read error: ", error.as_str())),
        ConnEvent::Closed => ConnAction::End("connection closed by server".to_owned()),
    }
}

/// Whether a connection ended because this side wanted it to.
pub open spec fn is_shutdown(reason: Seq<char>) -> bool {
    crate::text::occurs_in(reason, "sender dropped"@) || crate::text::occurs_in(
        reason,
        "receiver dropped"@,
    )
}

/// What to do about a lost connection.
#[derive(Debug)]
pub enum WsAction {
    /// Nothing more: report that the connection is lost for good.
    Stop { reason: String },
    /// Report attempt number `attempt`, wait, and make it.
    Attempt { attempt: u32 },
}

/// Follows a connection through its losses.
#[derive(Debug)]
pub struct WsSupervisor {
    pub max_reconnect_attempts: u32,
    pub max_total_reconnect_rounds: u32,
    /// Rounds begun so far.
    pub round: u32,
    /// The attempt being made; zero while connected.
    pub attempt: u32,
    /// Why the connection was lost last.
    pub reason: String,
}

/// The reason given when the attempts of a round are used up.
pub open spec fn attempts_exhausted(n: u32, reason: Seq<char>) -> Seq<char> {
    "exhausted "@ + crate::text::decimal(n as nat) + " reconnect attempts after: "@ + reason
}

/// The reason given when the rounds are used up.
pub open spec fn rounds_exhausted(n: u32, reason: Seq<char>) -> Seq<char> {
    "exhausted "@ + crate::text::decimal(n as nat) + " total reconnect rounds after: "@ + reason
}

fn exhausted(n: u32, what: &str, reason: &str) -> (r: String)
    ensures
        r@ == "exhausted "@ + crate::text::decimal(n as nat) + what@ + reason@,
{
    let mut r = concat("exhausted ", decimal_of(n as u64).as_str());
    r.append(what);
    r.append(reason);
    r
}

impl WsSupervisor {
    /// Rounds and attempts are within their limits.
    pub open spec fn wf(&self) -> bool {
        &&& self.round <= self.max_total_reconnect_rounds
        &&& self.attempt <= self.max_reconnect_attempts
        &&& self.attempt > 0 ==> self.round > 0
    }

    /// `next` and `a` follow the loss of a connection for `reason`.
    pub open spec fn loses(self, reason: Seq<char>, next: WsSupervisor, a: WsAction) -> bool {
        if is_shutdown(reason) || self.max_reconnect_attempts == 0 {
            (a matches WsAction::Stop { reason: r } && r@ == reason) && next == self
        } else if self.round >= self.max_total_reconnect_rounds {
            &&& a matches WsAction::Stop { reason: r }
            &&& r@ == rounds_exhausted(self.max_total_reconnect_rounds, reason)
            &&& next == self
        } else {
            &&& a == (WsAction::Attempt { attempt: 1 })
            &&& next == (WsSupervisor {
                round: (self.round + 1) as u32,
                attempt: 1,
                reason: next.reason,
                ..self
            })
            &&& next.reason@ == reason
        }
    }

    /// `next` and `a` follow an attempt that has failed.
    pub open spec fn fails(self, next: WsSupervisor, a: WsAction) -> bool {
        if self.attempt < self.max_reconnect_attempts {
            &&& a == (WsAction::Attempt { attempt: (self.attempt + 1) as u32 })
            &&& next == (WsSupervisor { attempt: (self.attempt + 1) as u32, ..self })
        } else {
            &&& a matches WsAction::Stop { reason }
            &&& reason@ == attempts_exhausted(self.max_reconnect_attempts, self.reason@)
            &&& next == self
        }
    }

    /// `next` follows an attempt that has succeeded.
    pub open spec fn recovers(self, next: WsSupervisor) -> bool {
        next == (WsSupervisor { attempt: 0, ..self })
    }

    /// Follows a connection that is alive.
    pub fn new(config: &WsConfig) -> (s: Self)
        ensures
            s.wf(),
            s.max_reconnect_attempts == config.max_reconnect_attempts,
            s.max_total_reconnect_rounds == config.max_total_reconnect_rounds,
            s.round == 0,
            s.attempt == 0,
            s.reason@ == Seq::<char>::empty(),
    {
        WsSupervisor {
            max_reconnect_attempts: config.max_reconnect_attempts,
            max_total_reconnect_rounds: config.max_total_reconnect_rounds,
            round: 0,
            attempt: 0,
            reason: String::new(),
        }
    }

    /// The connection has ended. An intended end stops; any other begins a round of attempts, as
    /// long as attempts are made at all and rounds are left.
    pub fn on_connection_end(&mut self, reason: String) -> (a: WsAction)
        requires
            old(self).wf(),
        ensures
            final(self).wf(),
            old(self).loses(reason@, *final(self), a),
            final(self).max_reconnect_attempts == old(self).max_reconnect_attempts,
            final(self).max_total_reconnect_rounds == old(self).max_total_reconnect_rounds,
            if is_shutdown(reason@) || old(self).max_reconnect_attempts == 0 {
                a == (WsAction::Stop { reason }) && *final(self) == *old(self)
            } else if old(self).round >= old(self).max_total_reconnect_rounds {
                &&& a matches WsAction::Stop { reason: r }
                &&& r@ == rounds_exhausted(old(self).max_total_reconnect_rounds, reason@)
                &&& *final(self) == *old(self)
            } else {
                &&& a == (WsAction::Attempt { attempt: 1 })
                &&& final(self).round == old(self).round + 1
                &&& final(self).attempt == 1
                &&& final(self).reason == reason
            },
    {
        if contains(reason.as_str(), "sender dropped") || contains(
            reason.as_str(),
            "receiver dropped",
        ) || self.max_reconnect_attempts == 0 {
            return WsAction::Stop { reason };
        }
        if self.round >= self.max_total_reconnect_rounds {
            let reason = exhausted(
                self.max_total_reconnect_rounds,
                " total reconnect rounds after: ",
                reason.as_str(),
            );
            return WsAction::Stop { reason };
        }
        self.round = self.round + 1;
        self.attempt = 1;
        self.reason = reason;
        WsAction::Attempt { attempt: 1 }
    }

    /// The attempt that is being made has failed: makes the next one, or stops where it was the
    /// last of its round.
    pub fn on_attempt_failed(&mut self) -> (a: WsAction)
        requires
            old(self).wf(),
            old(self).attempt > 0,
        ensures
            final(self).wf(),
            old(self).fails(*final(self), a),
            final(self).max_reconnect_attempts == old(self).max_reconnect_attempts,
            final(self).max_total_reconnect_rounds == old(self).max_total_reconnect_rounds,
            final(self).round == old(self).round,
            final(self).reason == old(self).reason,
            if old(self).attempt < old(self).max_reconnect_attempts {
                &&& a == (WsAction::Attempt { attempt: (old(self).attempt + 1) as u32 })
                &&& final(self).attempt == old(self).attempt + 1
            } else {
                &&& a matches WsAction::Stop { reason }
                &&& reason@ == attempts_exhausted(
                    old(self).max_reconnect_attempts,
                    old(self).reason@,
                )
                &&& final(self).attempt == old(self).attempt
            },
    {
        if self.attempt < self.max_reconnect_attempts {
            self.attempt = self.attempt + 1;
            return WsAction::Attempt { attempt: self.attempt };
        }
        let reason = exhausted(
            self.max_reconnect_attempts,
            " reconnect attempts after: ",
            self.reason.as_str(),
        );
        WsAction::Stop { reason }
    }

    /// The attempt that is being made has succeeded: the connection is alive again.
    pub fn on_reconnected(&mut self)
        requires
            old(self).wf(),
        ensures
            final(self).wf(),
            old(self).recovers(*final(self)),
            *final(self) == (WsSupervisor { attempt: 0, ..*old(self) }),
    {
        self.attempt = 0;
    }

    /// How many more attempts can be made at most.
    pub open spec fn attempts_left(self) -> int {
        (self.max_total_reconnect_rounds - self.round) * self.max_reconnect_attempts
            + if self.attempt > 0 {
            self.max_reconnect_attempts - self.attempt
        } else {
            0
        }
    }
}

/// Reconnecting ends: whatever the server does, each attempt leaves fewer attempts to make, and a
/// connection that is brought back does not add any.
pub proof fn law_reconnecting_ends(before: WsSupervisor, after: WsSupervisor)
    requires
        before.wf(),
        after.max_reconnect_attempts == before.max_reconnect_attempts,
        after.max_total_reconnect_rounds == before.max_total_reconnect_rounds,
        before.max_reconnect_attempts > 0,
        ({
            ||| before.attempt == 0 && before.round < before.max_total_reconnect_rounds
                && after.round == before.round + 1 && after.attempt == 1
            ||| before.attempt > 0 && before.attempt < before.max_reconnect_attempts && after.round
                == before.round && after.attempt == before.attempt + 1
        }),
    ensures
        0 <= after.attempts_left() < before.attempts_left(),
        (WsSupervisor { attempt: 0, ..after }).attempts_left() <= after.attempts_left(),
{
    let n = before.max_reconnect_attempts as int;
    let left = before.max_total_reconnect_rounds - before.round;
    assert((left - 1) * n == left * n - n) by (nonlinear_arith);
    assert(left * n >= 0) by (nonlinear_arith)
        requires
            left >= 0,
            n >= 0,
    ;
    if before.attempt == 0 {
        assert(left * n >= n) by (nonlinear_arith)
            requires
                left >= 1,
                n >= 0,
        ;
    }
}

/// A connection that this side ended is never brought back: however it ended it, the reason is
/// recognised as intended.
pub proof fn law_shutdown_is_recognised(e: ConnEvent)
    requires
        e is SenderDropped || e is ReceiverDropped,
    ensures
        end_reason(e) is Some,
        is_shutdown(end_reason(e)->0),
{
    reveal_strlit("sender dropped (shutdown)");
    reveal_strlit("sender dropped");
    reveal_strlit("incoming channel closed (receiver dropped)");
    reveal_strlit("receiver dropped");
    let a = "sender dropped (shutdown)"@;
    assert(a.subrange(0, 14) =~= "sender dropped"@);
    assert(crate::text::occurs_at(a, "sender dropped"@, 0));
    let b = "incoming channel closed (receiver dropped)"@;
    assert(b.subrange(25, 41) =~= "receiver dropped"@);
    assert(crate::text::occurs_at(b, "receiver dropped"@, 25));
}

/// A round makes as many attempts as are allowed, one after the other, and then gives up: states
/// `s`, in which attempt after attempt fails, with what is done after each.
pub proof fn law_a_round_uses_every_attempt(s: Seq<WsSupervisor>, a: Seq<WsAction>, i: int)
    requires
        s.len() == a.len() + 1,
        s[0].attempt == 1,
        s[0].wf(),
        forall|k: int| 0 <= k < a.len() ==> (#[trigger] s[k]).fails(s[k + 1], a[k]),
        0 <= i < a.len(),
        i < s[0].max_reconnect_attempts,
    ensures
        s[i].attempt == i + 1,
        s[i].round == s[0].round,
        s[i].max_reconnect_attempts == s[0].max_reconnect_attempts,
        i + 1 < s[0].max_reconnect_attempts ==> a[i] == (WsAction::Attempt {
            attempt: (i + 2) as u32,
        }),
        i + 1 == s[0].max_reconnect_attempts ==> a[i] is Stop,
    decreases i,
{
    if i > 0 {
        law_a_round_uses_every_attempt(s, a, i - 1);
        assert(s[i - 1].fails(s[i], a[i - 1]));
    }
    assert(s[i].fails(s[i + 1], a[i]));
}

/// A lost connection is brought back unless this side ended it, no attempt is ever made, or all
/// rounds were used; each loss uses one round and starts with the first attempt. The reason is
/// passed on.
pub proof fn law_losses_start_rounds(
    s: WsSupervisor,
    reason: Seq<char>,
    next: WsSupervisor,
    a: WsAction,
)
    requires
        s.wf(),
        s.loses(reason, next, a),
    ensures
        a is Attempt <==> !is_shutdown(reason) && s.max_reconnect_attempts > 0 && s.round
            < s.max_total_reconnect_rounds,
        a matches WsAction::Attempt { attempt } ==> attempt == 1 && next.attempt == 1 && next.round
            == s.round + 1 && next.reason@ == reason,
        a matches WsAction::Stop { reason: r } ==> next == s && exists|at: int|
            crate::text::occurs_at(r@, reason, at),
        is_shutdown(reason) ==> (a matches WsAction::Stop { reason: r } && r@ == reason),
{
    if a is Stop {
        let r = a->reason;
        if r@ == reason {
            assert(r@.subrange(0, reason.len() as int) =~= reason);
            assert(crate::text::occurs_at(r@, reason, 0));
        } else {
            let at = r@.len() - reason.len();
            assert(r@.subrange(at, at + reason.len()) =~= reason);
            assert(crate::text::occurs_at(r@, reason, at));
        }
    }
}

/// A connection that came back keeps its count of rounds, so that a server which only accepts and
/// drops connections does not keep it busy for ever.
pub proof fn law_rounds_are_not_given_back(s: WsSupervisor, next: WsSupervisor)
    requires
        s.recovers(next),
    ensures
        next.round == s.round,
        next.attempt == 0,
        next.max_total_reconnect_rounds == s.max_total_reconnect_rounds,
        next.max_reconnect_attempts == s.max_reconnect_attempts,
{
}

/// Every event but a message that comes in ends the connection.
pub proof fn law_only_messages_keep_the_connection(e: ConnEvent)
    ensures
        end_reason(e) is None <==> e is Incoming,
        e matches ConnEvent::ReadFailed(error) ==> exists|at: int|
            crate::text::occurs_at(end_reason(e)->0, error@, at),
{
    if let ConnEvent::ReadFailed(error) = e {
        let r = end_reason(e)->0;
        let at = r.len() - error@.len();
        assert(r.subrange(at, at + error@.len()) =~= error@);
        assert(crate::text::occurs_at(r, error@, at));
    }
}

/// A connection whose loss was none of this side's doing is not taken for one that it ended.
pub proof fn law_loss_is_no_shutdown(e: ConnEvent)
    requires
        e is WriteFailed || e is KeepaliveFailed || e is Closed,
    ensures
        !is_shutdown(end_reason(e)->0),
{
    reveal_strlit("write error");
    reveal_strlit("keepalive write error");
    reveal_strlit("connection closed by server");
    reveal_strlit("sender dropped");
    reveal_strlit("receiver dropped");
    let r = end_reason(e)->0;
    assert("sender dropped"@[7] == 'd' && "sender dropped"@[6] == ' '
        && "sender dropped"@[10] == 'p'
        && "sender dropped"@.len() == 14);
    assert("receiver dropped"@[12] == 'p' && "receiver dropped"@.len() == 16);
    assert forall|k: int| 0 <= k < r.len() implies (#[trigger] r[k] == 'p' ==> k < 10) by {}
    assert forall|at: int| !crate::text::occurs_at(r, "sender dropped"@, at) by {
        if crate::text::occurs_at(r, "sender dropped"@, at) {
            assert(r.subrange(at, at + 14)[10] == r[at + 10]);
        }
    }
    assert forall|at: int| !crate::text::occurs_at(r, "receiver dropped"@, at) by {
        if crate::text::occurs_at(r, "receiver dropped"@, at) {
            assert(r.subrange(at, at + 16)[12] == r[at + 12]);
        }
    }
}

/// A keepalive message comes as often as it was configured, and none does where there is none.
pub proof fn law_keepalive_interval(k: WsKeepalive)
    ensures
        k matches WsKeepalive::WsPing { interval } ==> k.every() == Some(interval),
        k matches WsKeepalive::TextMessage { interval, message } ==> k.every() == Some(interval),
        k matches WsKeepalive::BinaryMessage { interval, payload } ==> k.every() == Some(interval),
        k.every() is None <==> k is Off,
{
}

} // verus!
