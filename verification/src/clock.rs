//! Time as the engine measures it: instants and spans in whole nanoseconds.
//!
//! An instant is a reading of a monotonic clock in nanoseconds since some fixed origin. The caller
//! reads the clock and hands the reading in, so that every computation here is a function of its
//! arguments.
use vstd::prelude::*;

verus! {

/// A duration that is reported in milliseconds, held exactly in nanoseconds.
#[derive(Clone, Copy, Debug, PartialEq, Eq, Structural)]
pub struct Millis {
    pub ns: u64,
}

/// The span of `ns` nanoseconds.
pub open spec fn millis(ns: u64) -> Millis {
    Millis { ns }
}

/// The span from instant `a` to instant `b`; zero where `b` is not after `a`.
pub open spec fn span(a: u64, b: u64) -> Millis {
    millis(
        if b >= a {
            (b - a) as u64
        } else {
            0
        },
    )
}

/// The span between two optional instants, known where both are.
pub open spec fn span_opt(a: Option<u64>, b: Option<u64>) -> Option<Millis> {
    match (a, b) {
        (Some(x), Some(y)) => Some(span(x, y)),
        _ => None,
    }
}

/// The span, or zero where none is known.
pub open spec fn or_zero(m: Option<Millis>) -> Millis {
    match m {
        Some(x) => x,
        None => millis(0),
    }
}

/// The span from instant `a` to instant `b`; zero where `b` is not after `a`.
pub fn ms_between(a: u64, b: u64) -> (m: Millis)
    ensures
        m == span(a, b),
{
    if b >= a {
        Millis { ns: b - a }
    } else {
        Millis { ns: 0 }
    }
}

/// The span between two optional instants, known where both are.
pub fn ms_between_opt(a: Option<u64>, b: Option<u64>) -> (m: Option<Millis>)
    ensures
        m == span_opt(a, b),
{
    match (a, b) {
        (Some(x), Some(y)) => Some(ms_between(x, y)),
        _ => None,
    }
}

/// The span, or zero where none is known.
pub fn ms_or_zero(m: Option<Millis>) -> (r: Millis)
    ensures
        r == or_zero(m),
{
    match m {
        Some(x) => x,
        None => Millis { ns: 0 },
    }
}

/// Spans are measured in the time that passed: what is `ns` later is that far away, spans that
/// follow each other add up, and nothing lies in the past.
pub proof fn law_spans_add_up(a: u64, b: u64, c: u64)
    requires
        a <= b <= c,
    ensures
        a + span(a, b).ns == b,
        span(a, b).ns + span(b, c).ns == span(a, c).ns,
        span(b, a).ns == 0,
        or_zero(span_opt(Some(a), Some(b))).ns == b - a,
        span_opt(None, Some(b)) is None,
        span_opt(Some(a), None) is None,
        or_zero(None).ns == 0,
{
}

} // verus!
