//! The tracepoints of the binding's own executor: spinning and time updates.
//!
//! Times are given as whole seconds and the nanoseconds beyond them, so that
//! a reader decodes them without loss.

use crate::event::{EventView, TraceEvent};
use crate::identity::TracingId;
use crate::sink::Sink;
use vstd::prelude::*;

verus! {

/// A node starts to spin for at most `timeout_s` seconds and `timeout_ns`
/// nanoseconds.
pub fn trace_spin_start(sink: &mut Sink, node: TracingId, timeout_s: u64, timeout_ns: u32)
    ensures
        final(sink).follows(
            old(sink),
            seq![EventView::SpinStart { node: node@, timeout_s, timeout_ns }],
        ),
{
    sink.write(TraceEvent::SpinStart { node: node.address(), timeout_s, timeout_ns });
}

/// A node's spin ended with work done.
pub fn trace_spin_end(sink: &mut Sink, node: TracingId)
    ensures
        final(sink).follows(old(sink), seq![EventView::SpinEnd { node: node@ }]),
{
    sink.write(TraceEvent::SpinEnd { node: node.address() });
}

/// A node's spin ran out of time.
pub fn trace_spin_timeout(sink: &mut Sink, node: TracingId)
    ensures
        final(sink).follows(old(sink), seq![EventView::SpinTimeout { node: node@ }]),
{
    sink.write(TraceEvent::SpinTimeout { node: node.address() });
}

/// A subscriber's clock is set to `time_s` seconds and `time_ns` nanoseconds.
pub fn trace_update_time(sink: &mut Sink, subscriber: TracingId, time_s: i32, time_ns: u32)
    ensures
        final(sink).follows(
            old(sink),
            seq![EventView::UpdateTime { subscriber: subscriber@, time_s, time_ns }],
        ),
{
    sink.write(TraceEvent::UpdateTime { subscriber: subscriber.address(), time_s, time_ns });
}

} // verus!
