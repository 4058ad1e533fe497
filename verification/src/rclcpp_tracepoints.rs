//! The tracepoints of the client library: message flow, the links between
//! entities and callbacks, callback execution and the executor's phases.
//!
//! Each function packs its arguments into one event and writes it to the
//! sink. None of them blocks, retries or reports a failure, and on a disabled
//! sink each is a no-op.

use crate::event::{encodable, EventView, TraceEvent};
use crate::identity::TracingId;
use crate::sink::Sink;
use vstd::prelude::*;

verus! {

/// Message publication: notes the address of the message being published.
pub fn trace_publish(sink: &mut Sink, message: TracingId)
    ensures
        final(sink).follows(old(sink), seq![EventView::Publish { message: message@ }]),
{
    sink.write(TraceEvent::Publish { message: message.address() });
}

/// Subscription object initialisation: links a subscription object to the
/// handle of the subscription it belongs to. There can be more than one object
/// for one handle.
pub fn trace_subscription_init(
    sink: &mut Sink,
    subscription_handle: TracingId,
    subscription: TracingId,
)
    ensures
        final(sink).follows(
            old(sink),
            seq![
                EventView::SubscriptionInit {
                    subscription_handle: subscription_handle@,
                    subscription: subscription@,
                },
            ],
        ),
{
    sink.write(
        TraceEvent::SubscriptionInit {
            subscription_handle: subscription_handle.address(),
            subscription: subscription.address(),
        },
    );
}

/// Links a subscription callback to the subscription object it belongs to.
pub fn trace_subscription_callback_added(
    sink: &mut Sink,
    subscription: TracingId,
    callback_id: usize,
)
    ensures
        final(sink).follows(
            old(sink),
            seq![
                EventView::SubscriptionCallbackAdded {
                    subscription: subscription@,
                    callback: callback_id,
                },
            ],
        ),
{
    sink.write(
        TraceEvent::SubscriptionCallbackAdded {
            subscription: subscription.address(),
            callback: callback_id,
        },
    );
}

/// Message taking: notes the address of the message being taken.
pub fn trace_take(sink: &mut Sink, message: TracingId)
    ensures
        final(sink).follows(old(sink), seq![EventView::Take { message: message@ }]),
{
    sink.write(TraceEvent::Take { message: message.address() });
}

/// Links a service callback to the service it belongs to.
pub fn trace_service_callback_added(sink: &mut Sink, service: TracingId, callback_id: usize)
    ensures
        final(sink).follows(
            old(sink),
            seq![EventView::ServiceCallbackAdded { service: service@, callback: callback_id }],
        ),
{
    sink.write(
        TraceEvent::ServiceCallbackAdded { service: service.address(), callback: callback_id },
    );
}

/// Links a timer callback to the timer it belongs to.
pub fn trace_timer_callback_added(sink: &mut Sink, timer: TracingId, callback_id: usize)
    ensures
        final(sink).follows(
            old(sink),
            seq![EventView::TimerCallbackAdded { timer: timer@, callback: callback_id }],
        ),
{
    sink.write(TraceEvent::TimerCallbackAdded { timer: timer.address(), callback: callback_id });
}

/// Links a timer to the node it belongs to.
pub fn trace_timer_link_node(sink: &mut Sink, timer: TracingId, node: TracingId)
    ensures
        final(sink).follows(
            old(sink),
            seq![EventView::TimerLinkNode { timer: timer@, node: node@ }],
        ),
{
    sink.write(TraceEvent::TimerLinkNode { timer: timer.address(), node: node.address() });
}

/// Registers the symbol of the function behind a callback. The symbol is
/// marshalled as a terminated string, so it must not hold the terminator
/// itself.
pub fn trace_callback_register(sink: &mut Sink, callback_id: usize, function_symbol: &str)
    requires
        encodable(function_symbol@),
    ensures
        final(sink).follows(
            old(sink),
            seq![
                EventView::CallbackRegister { callback: callback_id, symbol: function_symbol@ },
            ],
        ),
{
    sink.write(
        TraceEvent::CallbackRegister {
            callback: callback_id,
            symbol: function_symbol.to_owned(),
        },
    );
}

/// Start of a callback, and whether it is run within the process.
pub fn trace_callback_start(sink: &mut Sink, callback_id: usize, is_intra_process: bool)
    ensures
        final(sink).follows(
            old(sink),
            seq![EventView::CallbackStart { callback: callback_id, is_intra_process }],
        ),
{
    sink.write(TraceEvent::CallbackStart { callback: callback_id, is_intra_process });
}

/// End of a callback.
pub fn trace_callback_end(sink: &mut Sink, callback_id: usize)
    ensures
        final(sink).follows(old(sink), seq![EventView::CallbackEnd { callback: callback_id }]),
{
    sink.write(TraceEvent::CallbackEnd { callback: callback_id });
}

/// Notes the start of the executor phase that gets the next executable that
/// is ready.
pub fn trace_executor_get_next_ready(sink: &mut Sink)
    ensures
        final(sink).follows(old(sink), seq![EventView::ExecutorGetNextReady]),
{
    sink.write(TraceEvent::ExecutorGetNextReady);
}

/// Notes the start of the executor phase that waits for work, and the timeout
/// of the wait.
pub fn trace_executor_wait_for_work(sink: &mut Sink, timeout: i64)
    ensures
        final(sink).follows(old(sink), seq![EventView::ExecutorWaitForWork { timeout }]),
{
    sink.write(TraceEvent::ExecutorWaitForWork { timeout });
}

/// Notes that the executable behind `handle`, a timer or a subscription, is
/// being executed.
pub fn trace_executor_execute(sink: &mut Sink, handle: TracingId)
    ensures
        final(sink).follows(old(sink), seq![EventView::ExecutorExecute { handle: handle@ }]),
{
    sink.write(TraceEvent::ExecutorExecute { handle: handle.address() });
}

} // verus!
