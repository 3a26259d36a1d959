//! Span attributes.
use crate::clock::Millis;
use crate::event::Float64;
use vstd::prelude::*;

verus! {

/// The value of a span attribute.
#[derive(Clone, Debug)]
pub enum AttrValue {
    Text(String),
    Int(i64),
    Flag(bool),
    Span(Millis),
    Float(Float64),
}

/// A span attribute.
#[derive(Clone, Debug)]
pub struct Attr {
    pub key: &'static str,
    pub value: AttrValue,
}

/// The value of a span attribute, as a value.
pub enum AttrView {
    Text(Seq<char>),
    Int(i64),
    Flag(bool),
    Span(Millis),
    Float(Float64),
}

/// Attributes as values, in order.
pub type AttrSeq = Seq<(Seq<char>, AttrView)>;

impl View for AttrValue {
    type V = AttrView;

    open spec fn view(&self) -> AttrView {
        match *self {
            AttrValue::Text(s) => AttrView::Text(s@),
            AttrValue::Int(i) => AttrView::Int(i),
            AttrValue::Flag(b) => AttrView::Flag(b),
            AttrValue::Span(m) => AttrView::Span(m),
            AttrValue::Float(f) => AttrView::Float(f),
        }
    }
}

/// The attributes of a span, in the order in which they were set.
#[derive(Clone, Debug)]
pub struct Attrs {
    pub items: Vec<Attr>,
}

impl View for Attrs {
    type V = AttrSeq;

    open spec fn view(&self) -> AttrSeq {
        self.items@.map_values(|a: Attr| (a.key@, a.value@))
    }
}

/// `s` with a text attribute.
pub open spec fn with_text(s: AttrSeq, key: Seq<char>, value: Seq<char>) -> AttrSeq {
    s.push((key, AttrView::Text(value)))
}

/// `s` with an integer attribute.
pub open spec fn with_int(s: AttrSeq, key: Seq<char>, value: i64) -> AttrSeq {
    s.push((key, AttrView::Int(value)))
}

/// `s` with a flag attribute.
pub open spec fn with_flag(s: AttrSeq, key: Seq<char>, value: bool) -> AttrSeq {
    s.push((key, AttrView::Flag(value)))
}

/// `s` with a span attribute.
pub open spec fn with_span(s: AttrSeq, key: Seq<char>, value: Millis) -> AttrSeq {
    s.push((key, AttrView::Span(value)))
}

/// `s` with a span attribute where the span is known.
pub open spec fn with_span_opt(s: AttrSeq, key: Seq<char>, value: Option<Millis>) -> AttrSeq {
    match value {
        Some(m) => with_span(s, key, m),
        None => s,
    }
}

/// `s` with a text attribute where the text is known.
pub open spec fn with_text_opt(s: AttrSeq, key: Seq<char>, value: Option<String>) -> AttrSeq {
    match value {
        Some(t) => with_text(s, key, t@),
        None => s,
    }
}

impl Attrs {
    /// No attributes.
    pub fn new() -> (a: Self)
        ensures
            a@ == AttrSeq::empty(),
    {
        let a = Attrs { items: Vec::new() };
        assert(a@ =~= AttrSeq::empty());
        a
    }

    fn push(&mut self, key: &'static str, value: AttrValue)
        ensures
            final(self)@ == old(self)@.push((key@, value@)),
    {
        self.items.push(Attr { key, value });
        assert(self@ =~= old(self)@.push((key@, value@)));
    }

    /// Sets a text attribute.
    pub fn text(&mut self, key: &'static str, value: &str)
        ensures
            final(self)@ == with_text(old(self)@, key@, value@),
    {
        self.push(key, AttrValue::Text(value.to_owned()));
    }

    /// Sets an integer attribute.
    pub fn number(&mut self, key: &'static str, value: i64)
        ensures
            final(self)@ == with_int(old(self)@, key@, value),
    {
        self.push(key, AttrValue::Int(value));
    }

    /// Sets a flag attribute.
    pub fn flag(&mut self, key: &'static str, value: bool)
        ensures
            final(self)@ == with_flag(old(self)@, key@, value),
    {
        self.push(key, AttrValue::Flag(value));
    }

    /// Sets a span attribute.
    pub fn span(&mut self, key: &'static str, value: Millis)
        ensures
            final(self)@ == with_span(old(self)@, key@, value),
    {
        self.push(key, AttrValue::Span(value));
    }

    /// Sets a floating-point attribute.
    pub fn float(&mut self, key: &'static str, value: Float64)
        ensures
            final(self)@ == old(self)@.push((key@, AttrView::Float(value))),
    {
        self.push(key, AttrValue::Float(value));
    }

    /// Sets a span attribute where the span is known.
    pub fn span_opt(&mut self, key: &'static str, value: Option<Millis>)
        ensures
            final(self)@ == with_span_opt(old(self)@, key@, value),
    {
        if let Some(m) = value {
            self.span(key, m);
        }
    }

    /// Sets a text attribute where the text is known.
    pub fn text_opt(&mut self, key: &'static str, value: &Option<String>)
        ensures
            final(self)@ == with_text_opt(old(self)@, key@, *value),
    {
        if let Some(t) = value {
            self.text(key, t.as_str());
        }
    }
}

/// An attribute that was set is there, and setting another one takes none away.
pub proof fn lemma_attributes_stay()
    ensures
        forall|s: AttrSeq, a: (Seq<char>, AttrView), b: (Seq<char>, AttrView)| #[trigger]
            s.push(a).contains(b) <==> s.contains(b) || a == b,
{
    assert forall|s: AttrSeq, a: (Seq<char>, AttrView), b: (Seq<char>, AttrView)| #[trigger]
        s.push(a).contains(b) <==> s.contains(b) || a == b by {
        if s.contains(b) {
            let i = choose|i: int| 0 <= i < s.len() && s[i] == b;
            assert(s.push(a)[i] == b);
        }
        if a == b {
            assert(s.push(a)[s.len() as int] == b);
        }
    }
}

/// Setting an attribute adds exactly it, behind those that were set before; one that is not known is
/// not set.
pub proof fn law_attributes_are_added(
    s: AttrSeq,
    key: Seq<char>,
    text: Seq<char>,
    number: i64,
    flag: bool,
    span: Millis,
)
    ensures
        with_text(s, key, text) == s + seq![(key, AttrView::Text(text))],
        with_int(s, key, number) == s + seq![(key, AttrView::Int(number))],
        with_flag(s, key, flag) == s + seq![(key, AttrView::Flag(flag))],
        with_span(s, key, span) == s + seq![(key, AttrView::Span(span))],
        with_span_opt(s, key, Some(span)) == s + seq![(key, AttrView::Span(span))],
        with_span_opt(s, key, None) == s,
        with_text_opt(s, key, None) == s,
{
    assert(with_text(s, key, text) =~= s + seq![(key, AttrView::Text(text))]);
    assert(with_int(s, key, number) =~= s + seq![(key, AttrView::Int(number))]);
    assert(with_flag(s, key, flag) =~= s + seq![(key, AttrView::Flag(flag))]);
    assert(with_span(s, key, span) =~= s + seq![(key, AttrView::Span(span))]);
}

} // verus!
