//! The sink: the channel that receives trace events.

use crate::event::{EventView, TraceEvent};
use vstd::prelude::*;

verus! {

/// What each of `events` holds, in the same order.
pub open spec fn views(events: Seq<TraceEvent>) -> Seq<EventView> {
    Seq::new(events.len(), |i: int| events[i]@)
}

/// Receives trace events in the order in which they are written and keeps
/// them until they are taken out. While the sink is disabled it drops what is
/// written to it; that is no error.
pub struct Sink {
    enabled: bool,
    events: Vec<TraceEvent>,
}

impl View for Sink {
    type V = Seq<EventView>;

    /// The events that the sink holds, oldest first.
    closed spec fn view(&self) -> Seq<EventView> {
        views(self.events@)
    }
}

impl Sink {
    /// Whether the sink records what is written to it.
    pub closed spec fn enabled(&self) -> bool {
        self.enabled
    }

    /// What the sink holds once `events` have been written to it.
    pub open spec fn after(&self, events: Seq<EventView>) -> Seq<EventView> {
        if self.enabled() {
            self@ + events
        } else {
            self@
        }
    }

    /// `self` is what `before` becomes when `events` are written to it.
    pub open spec fn follows(&self, before: &Sink, events: Seq<EventView>) -> bool {
        &&& self.enabled() == before.enabled()
        &&& self@ == before.after(events)
    }

    /// An empty sink.
    pub fn new(enabled: bool) -> (sink: Self)
        ensures
            sink@ == Seq::<EventView>::empty(),
            sink.enabled() == enabled,
    {
        Sink { enabled, events: Vec::new() }
    }

    /// Whether the sink records what is written to it.
    pub fn is_enabled(&self) -> (enabled: bool)
        ensures
            enabled == self.enabled(),
    {
        self.enabled
    }

    /// Switches recording on or off. What the sink holds stays.
    pub fn set_enabled(&mut self, enabled: bool)
        ensures
            final(self).enabled() == enabled,
            final(self)@ == old(self)@,
    {
        self.enabled = enabled;
    }

    /// Writes one event: it becomes the newest event of an enabled sink, and
    /// a disabled sink stays as it is.
    pub fn write(&mut self, event: TraceEvent)
        ensures
            final(self).follows(old(self), seq![event@]),
            !old(self).enabled() ==> final(self)@ == old(self)@,
    {
        if self.enabled {
            self.events.push(event);
            assert(views(self.events@) =~= views(old(self).events@) + seq![event@]);
        }
    }

    /// The number of events that the sink holds.
    pub fn len(&self) -> (len: usize)
        ensures
            len == self@.len(),
    {
        self.events.len()
    }

    /// The events that the sink holds, oldest first.
    pub fn events(&self) -> (events: &Vec<TraceEvent>)
        ensures
            views(events@) == self@,
    {
        &self.events
    }

    /// Takes out the events that the sink holds, oldest first, and leaves it
    /// empty.
    pub fn take(&mut self) -> (events: Vec<TraceEvent>)
        ensures
            views(events@) == old(self)@,
            final(self)@ == Seq::<EventView>::empty(),
            final(self).enabled() == old(self).enabled(),
    {
        let mut events: Vec<TraceEvent> = Vec::new();
        std::mem::swap(&mut self.events, &mut events);
        events
    }

    /// Forgets the events that the sink holds. The room they took is kept for
    /// the events to come.
    pub fn clear(&mut self)
        ensures
            final(self)@ == Seq::<EventView>::empty(),
            final(self).enabled() == old(self).enabled(),
    {
        self.events.clear();
    }

    /// Writing to a disabled sink is a no-op: whatever `events` are written
    /// to it, it holds what it held before and stays disabled.
    pub proof fn lemma_disabled_is_noop(&self, before: &Sink, events: Seq<EventView>)
        requires
            !before.enabled(),
            self.follows(before, events),
        ensures
            self@ == before@,
            !self.enabled(),
    {
    }

    /// Writing `first` and then `second` is writing the two in a row.
    pub proof fn lemma_follows_twice(
        &self,
        middle: &Sink,
        before: &Sink,
        first: Seq<EventView>,
        second: Seq<EventView>,
    )
        requires
            middle.follows(before, first),
            self.follows(middle, second),
        ensures
            self.follows(before, first + second),
    {
        assert((before@ + first) + second =~= before@ + (first + second));
    }
}

} // verus!
