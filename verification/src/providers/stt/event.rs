//! What recognition reports.
use crate::text::concat;
use vstd::prelude::*;

verus! {

/// A report of a recognition provider.
#[derive(Debug)]
pub enum SttEvent {
    /// The first text of an utterance was recognised.
    FirstTextReceived,
    /// Text that may still change.
    PartialTranscript(String),
    /// The text of an utterance.
    Transcript(String),
    /// Recognition is not available any more.
    Error(String),
}

/// An [`SttEvent`] as a value.
pub enum SttView {
    FirstTextReceived,
    PartialTranscript(Seq<char>),
    Transcript(Seq<char>),
    Error(Seq<char>),
}

impl View for SttEvent {
    type V = SttView;

    open spec fn view(&self) -> SttView {
        match *self {
            SttEvent::FirstTextReceived => SttView::FirstTextReceived,
            SttEvent::PartialTranscript(t) => SttView::PartialTranscript(t@),
            SttEvent::Transcript(t) => SttView::Transcript(t@),
            SttEvent::Error(t) => SttView::Error(t@),
        }
    }
}

/// Reports as values, in order.
pub open spec fn stt_views(events: Seq<SttEvent>) -> Seq<SttView> {
    events.map_values(|e: SttEvent| e@)
}

/// `events` with the report that text was recognised, where `first` says that it is due.
pub open spec fn with_first(first: bool) -> Seq<SttView> {
    if first {
        seq![SttView::FirstTextReceived]
    } else {
        Seq::empty()
    }
}

/// The report that a connection was lost for good, where its status says so.
pub fn on_disconnected(prefix: &str, reason: Option<&str>) -> (e: Option<SttEvent>)
    ensures
        e is Some <==> reason is Some,
        e matches Some(x) ==> x@ == SttView::Error(prefix@ + reason->0@),
{
    match reason {
        Some(r) => Some(SttEvent::Error(concat(prefix, r))),
        None => None,
    }
}

/// Reports keep their order and their texts as values.
pub proof fn law_reports_keep_order(events: Seq<SttEvent>, i: int)
    requires
        0 <= i < events.len(),
    ensures
        stt_views(events).len() == events.len(),
        events[i] is FirstTextReceived <==> stt_views(events)[i] is FirstTextReceived,
        events[i] matches SttEvent::PartialTranscript(t) ==> stt_views(events)[i]
            == SttView::PartialTranscript(t@),
        events[i] matches SttEvent::Transcript(t)
            ==> stt_views(events)[i] == SttView::Transcript(t@),
        events[i] matches SttEvent::Error(t) ==> stt_views(events)[i] == SttView::Error(t@),
{
}

} // verus!
