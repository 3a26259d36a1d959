//! The event bus: events on their way to subscribers, and category filters.
use crate::event::{Event, EventCategory};
use vstd::prelude::*;

verus! {

/// How many events the broadcast channel behind a bus holds before a slow subscriber misses some.
pub const BUS_CAPACITY: usize = 2048;

/// A set of event categories.
#[derive(Clone, Debug)]
pub struct CategorySet {
    items: Vec<EventCategory>,
}

impl View for CategorySet {
    type V = Set<EventCategory>;

    closed spec fn view(&self) -> Set<EventCategory> {
        self.items@.to_set()
    }
}

impl CategorySet {
    /// No category is listed twice.
    pub closed spec fn wf(&self) -> bool {
        self.items@.no_duplicates()
    }

    /// The empty set.
    pub fn new() -> (s: Self)
        ensures
            s.wf(),
            s@ == Set::<EventCategory>::empty(),
    {
        let s = CategorySet { items: Vec::new() };
        assert(s@ =~= Set::<EventCategory>::empty());
        s
    }

    /// Whether the set holds `c`.
    pub fn contains(&self, c: EventCategory) -> (r: bool)
        ensures
            r == self@.contains(c),
    {
        for i in 0..self.items.len()
            invariant
                forall|k: int| 0 <= k < i ==> self.items@[k] != c,
        {
            if self.items[i] == c {
                assert(self.items@.contains(c));
                return true;
            }
        }
        assert(!self.items@.contains(c));
        false
    }

    /// Adds `c`.
    pub fn insert(&mut self, c: EventCategory)
        requires
            old(self).wf(),
        ensures
            final(self).wf(),
            final(self)@ == old(self)@.insert(c),
    {
        let ghost before = self.items@;
        if !self.contains(c) {
            self.items.push(c);
            assert(self.items@.to_set() =~= before.to_set().insert(c)) by {
                assert forall|x: EventCategory| #[trigger]
                    self.items@.to_set().contains(x) == before.to_set().insert(c).contains(x) by {
                    if before.contains(x) {
                        let k = before.index_of(x);
                        assert(self.items@[k] == x);
                    }
                    if x == c {
                        assert(self.items@[before.len() as int] == c);
                    }
                }
            }
            assert(self.items@.no_duplicates()) by {
                assert forall|i: int, j: int|
                    0 <= i < self.items@.len() && 0 <= j < self.items@.len() && i
                        != j implies self.items@[i] != self.items@[j] by {
                    if i == before.len() {
                        assert(before.contains(before[j]));
                    } else if j == before.len() {
                        assert(before.contains(before[i]));
                    }
                }
            }
        } else {
            assert(before.to_set() =~= before.to_set().insert(c));
        }
    }

    /// Whether the set holds nothing.
    pub fn is_empty(&self) -> (r: bool)
        ensures
            r == (self@ == Set::<EventCategory>::empty()),
    {
        proof {
            if self.items@.len() > 0 {
                assert(self.items@.contains(self.items@[0]));
                assert(self@.contains(self.items@[0]));
            } else {
                assert(self@ =~= Set::<EventCategory>::empty());
            }
        }
        self.items.len() == 0
    }
}

/// Events that were emitted and not yet handed to subscribers, oldest first.
pub struct EventBus {
    pub pending: Vec<Event>,
}

impl EventBus {
    /// A bus without events.
    pub fn new() -> (bus: Self)
        ensures
            bus.pending@ == Seq::<Event>::empty(),
    {
        EventBus { pending: Vec::new() }
    }

    /// Emits an event to all subscribers. Never blocks.
    pub fn emit(&mut self, event: Event)
        ensures
            final(self).pending@ == old(self).pending@.push(event),
    {
        self.pending.push(event);
    }

    /// Takes the emitted events, in the order of emission.
    pub fn drain(&mut self) -> (events: Vec<Event>)
        ensures
            events@ == old(self).pending@,
            final(self).pending@ == Seq::<Event>::empty(),
    {
        let mut events: Vec<Event> = Vec::new();
        std::mem::swap(&mut events, &mut self.pending);
        events
    }
}

impl Default for EventBus {
    fn default() -> (bus: Self)
        ensures
            bus.pending@ == Seq::<Event>::empty(),
    {
        EventBus::new()
    }
}

/// What a broadcast receiver reports.
pub enum Received {
    /// The next event.
    Event(Event),
    /// The receiver was too slow and missed this many events.
    Lagged(u64),
    /// The bus is gone.
    Closed,
}

/// What a filtered receiver does with a report.
pub enum Delivery {
    /// Hand the event out.
    Yield(Event),
    /// Wait for the next report.
    Skip,
    /// Nothing will come any more.
    End,
}

/// What a filter for `categories` does with a report: events of other categories and lag reports are
/// skipped, and the end of the bus ends the filter.
pub open spec fn delivery_of(categories: Set<EventCategory>, received: Received) -> Delivery {
    match received {
        Received::Event(e) => if categories.contains(crate::event::category_of(e)) {
            Delivery::Yield(e)
        } else {
            Delivery::Skip
        },
        Received::Lagged(_) => Delivery::Skip,
        Received::Closed => Delivery::End,
    }
}

/// The events that a filter for `categories` hands out of a sequence of reports.
pub open spec fn delivered(categories: Set<EventCategory>, reports: Seq<Received>) -> Seq<Event>
    decreases reports.len(),
{
    if reports.len() == 0 {
        Seq::empty()
    } else {
        let before = delivered(categories, reports.drop_last());
        match delivery_of(categories, reports.last()) {
            Delivery::Yield(e) => before.push(e),
            _ => before,
        }
    }
}

/// A filtered view of the event bus: it lets through the events of the chosen categories.
#[derive(Clone, Debug)]
pub struct FilteredReceiver {
    pub categories: CategorySet,
}

impl FilteredReceiver {
    /// A filter that lets `categories` through.
    pub fn new(categories: CategorySet) -> (f: Self)
        ensures
            f.categories == categories,
    {
        FilteredReceiver { categories }
    }

    /// Whether `event` passes the filter.
    pub fn accepts(&self, event: &Event) -> (r: bool)
        ensures
            r == self.categories@.contains(crate::event::category_of(*event)),
    {
        self.categories.contains(event.category())
    }

    /// Decides what a report of the underlying receiver means for the filtered one.
    pub fn recv(&self, received: Received) -> (d: Delivery)
        ensures
            d == delivery_of(self.categories@, received),
    {
        match received {
            Received::Event(event) => {
                if self.accepts(&event) {
                    Delivery::Yield(event)
                } else {
                    Delivery::Skip
                }
            },
            Received::Lagged(_) => Delivery::Skip,
            Received::Closed => Delivery::End,
        }
    }
}

/// A filter hands out every event of its categories and no other, in the order of emission.
pub proof fn law_filter_is_exact(categories: Set<EventCategory>, events: Seq<Event>)
    ensures
        delivered(categories, events.map_values(|e: Event| Received::Event(e))) == events.filter(
            |e: Event| categories.contains(crate::event::category_of(e)),
        ),
    decreases events.len(),
{
    reveal(Seq::filter);
    let wrap = |e: Event| Received::Event(e);
    if events.len() > 0 {
        law_filter_is_exact(categories, events.drop_last());
        assert(events.map_values(wrap).drop_last() =~= events.drop_last().map_values(wrap));
    }
}

/// A filter hands out an event that passes as it is, waits on where one does not or some were missed,
/// and ends with the bus only.
pub proof fn law_filter_ends_with_the_bus(categories: Set<EventCategory>, r: Received)
    ensures
        delivery_of(categories, r) is End <==> r is Closed,
        delivery_of(categories, r) matches Delivery::Yield(e) ==> r == Received::Event(e)
            && categories.contains(crate::event::category_of(e)),
        r matches Received::Event(e) ==> categories.contains(crate::event::category_of(e))
            ==> delivery_of(categories, r) == Delivery::Yield(e),
        r is Lagged ==> delivery_of(categories, r) is Skip,
{
}

} // verus!
