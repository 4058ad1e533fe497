//! The wire schema: for each kind of event its name and the types of its
//! fields, in the order in which they are written.

use crate::event::{EventKind, EventView, FieldType, FieldValue, FieldView, TraceEvent};
use vstd::prelude::*;

verus! {

impl EventKind {
    /// The name under which events of this kind are recorded.
    pub open spec fn wire_name(self) -> Seq<char> {
        match self {
            EventKind::Publish => "publish"@,
            EventKind::SubscriptionInit => "subscription_init"@,
            EventKind::SubscriptionCallbackAdded => "subscription_callback_added"@,
            EventKind::Take => "take"@,
            EventKind::ServiceCallbackAdded => "service_callback_added"@,
            EventKind::TimerCallbackAdded => "timer_callback_added"@,
            EventKind::TimerLinkNode => "timer_link_node"@,
            EventKind::CallbackRegister => "callback_register"@,
            EventKind::CallbackStart => "callback_start"@,
            EventKind::CallbackEnd => "callback_end"@,
            EventKind::ExecutorGetNextReady => "executor_get_next_ready"@,
            EventKind::ExecutorWaitForWork => "executor_wait_for_work"@,
            EventKind::ExecutorExecute => "executor_execute"@,
            EventKind::SpinStart => "spin_start"@,
            EventKind::SpinEnd => "spin_end"@,
            EventKind::SpinTimeout => "spin_timeout"@,
            EventKind::UpdateTime => "update_time"@,
        }
    }

    /// The types of the fields of an event of this kind, in wire order.
    pub open spec fn wire_schema(self) -> Seq<FieldType> {
        match self {
            EventKind::Publish => seq![FieldType::Address],
            EventKind::SubscriptionInit => seq![FieldType::Address, FieldType::Address],
            EventKind::SubscriptionCallbackAdded => seq![FieldType::Address, FieldType::Token],
            EventKind::Take => seq![FieldType::Address],
            EventKind::ServiceCallbackAdded => seq![FieldType::Address, FieldType::Token],
            EventKind::TimerCallbackAdded => seq![FieldType::Address, FieldType::Token],
            EventKind::TimerLinkNode => seq![FieldType::Address, FieldType::Address],
            EventKind::CallbackRegister => seq![FieldType::Token, FieldType::Text],
            EventKind::CallbackStart => seq![FieldType::Token, FieldType::Bool],
            EventKind::CallbackEnd => seq![FieldType::Token],
            EventKind::ExecutorGetNextReady => Seq::empty(),
            EventKind::ExecutorWaitForWork => seq![FieldType::I64],
            EventKind::ExecutorExecute => seq![FieldType::Address],
            EventKind::SpinStart => seq![FieldType::Address, FieldType::U64, FieldType::U32],
            EventKind::SpinEnd => seq![FieldType::Address],
            EventKind::SpinTimeout => seq![FieldType::Address],
            EventKind::UpdateTime => seq![FieldType::Address, FieldType::I32, FieldType::U32],
        }
    }

    /// The name under which events of this kind are recorded.
    pub fn name(&self) -> (name: &'static str)
        ensures
            name@ == self.wire_name(),
    {
        match self {
            EventKind::Publish => "publish",
            EventKind::SubscriptionInit => "subscription_init",
            EventKind::SubscriptionCallbackAdded => "subscription_callback_added",
            EventKind::Take => "take",
            EventKind::ServiceCallbackAdded => "service_callback_added",
            EventKind::TimerCallbackAdded => "timer_callback_added",
            EventKind::TimerLinkNode => "timer_link_node",
            EventKind::CallbackRegister => "callback_register",
            EventKind::CallbackStart => "callback_start",
            EventKind::CallbackEnd => "callback_end",
            EventKind::ExecutorGetNextReady => "executor_get_next_ready",
            EventKind::ExecutorWaitForWork => "executor_wait_for_work",
            EventKind::ExecutorExecute => "executor_execute",
            EventKind::SpinStart => "spin_start",
            EventKind::SpinEnd => "spin_end",
            EventKind::SpinTimeout => "spin_timeout",
            EventKind::UpdateTime => "update_time",
        }
    }

    /// The types of the fields of an event of this kind, in wire order.
    pub fn schema(&self) -> (schema: Vec<FieldType>)
        ensures
            schema@ == self.wire_schema(),
    {
        match self {
            EventKind::Publish => vec![FieldType::Address],
            EventKind::SubscriptionInit => vec![FieldType::Address, FieldType::Address],
            EventKind::SubscriptionCallbackAdded => vec![FieldType::Address, FieldType::Token],
            EventKind::Take => vec![FieldType::Address],
            EventKind::ServiceCallbackAdded => vec![FieldType::Address, FieldType::Token],
            EventKind::TimerCallbackAdded => vec![FieldType::Address, FieldType::Token],
            EventKind::TimerLinkNode => vec![FieldType::Address, FieldType::Address],
            EventKind::CallbackRegister => vec![FieldType::Token, FieldType::Text],
            EventKind::CallbackStart => vec![FieldType::Token, FieldType::Bool],
            EventKind::CallbackEnd => vec![FieldType::Token],
            EventKind::ExecutorGetNextReady => Vec::new(),
            EventKind::ExecutorWaitForWork => vec![FieldType::I64],
            EventKind::ExecutorExecute => vec![FieldType::Address],
            EventKind::SpinStart => vec![FieldType::Address, FieldType::U64, FieldType::U32],
            EventKind::SpinEnd => vec![FieldType::Address],
            EventKind::SpinTimeout => vec![FieldType::Address],
            EventKind::UpdateTime => vec![FieldType::Address, FieldType::I32, FieldType::U32],
        }
    }
}

impl EventView {
    /// The kind of this event.
    pub open spec fn kind(self) -> EventKind {
        match self {
            EventView::Publish { .. } => EventKind::Publish,
            EventView::SubscriptionInit { .. } => EventKind::SubscriptionInit,
            EventView::SubscriptionCallbackAdded { .. } => EventKind::SubscriptionCallbackAdded,
            EventView::Take { .. } => EventKind::Take,
            EventView::ServiceCallbackAdded { .. } => EventKind::ServiceCallbackAdded,
            EventView::TimerCallbackAdded { .. } => EventKind::TimerCallbackAdded,
            EventView::TimerLinkNode { .. } => EventKind::TimerLinkNode,
            EventView::CallbackRegister { .. } => EventKind::CallbackRegister,
            EventView::CallbackStart { .. } => EventKind::CallbackStart,
            EventView::CallbackEnd { .. } => EventKind::CallbackEnd,
            EventView::ExecutorGetNextReady => EventKind::ExecutorGetNextReady,
            EventView::ExecutorWaitForWork { .. } => EventKind::ExecutorWaitForWork,
            EventView::ExecutorExecute { .. } => EventKind::ExecutorExecute,
            EventView::SpinStart { .. } => EventKind::SpinStart,
            EventView::SpinEnd { .. } => EventKind::SpinEnd,
            EventView::SpinTimeout { .. } => EventKind::SpinTimeout,
            EventView::UpdateTime { .. } => EventKind::UpdateTime,
        }
    }

    /// The fields of this event, in wire order.
    pub open spec fn fields(self) -> Seq<FieldView> {
        match self {
            EventView::Publish { message } => seq![FieldView::Address(message)],
            EventView::SubscriptionInit { subscription_handle, subscription } => seq![
                FieldView::Address(subscription_handle),
                FieldView::Address(subscription),
            ],
            EventView::SubscriptionCallbackAdded { subscription, callback } => seq![
                FieldView::Address(subscription),
                FieldView::Token(callback),
            ],
            EventView::Take { message } => seq![FieldView::Address(message)],
            EventView::ServiceCallbackAdded { service, callback } => seq![
                FieldView::Address(service),
                FieldView::Token(callback),
            ],
            EventView::TimerCallbackAdded { timer, callback } => seq![
                FieldView::Address(timer),
                FieldView::Token(callback),
            ],
            EventView::TimerLinkNode { timer, node } => seq![
                FieldView::Address(timer),
                FieldView::Address(node),
            ],
            EventView::CallbackRegister { callback, symbol } => seq![
                FieldView::Token(callback),
                FieldView::Text(symbol),
            ],
            EventView::CallbackStart { callback, is_intra_process } => seq![
                FieldView::Token(callback),
                FieldView::Bool(is_intra_process),
            ],
            EventView::CallbackEnd { callback } => seq![FieldView::Token(callback)],
            EventView::ExecutorGetNextReady => Seq::empty(),
            EventView::ExecutorWaitForWork { timeout } => seq![FieldView::I64(timeout)],
            EventView::ExecutorExecute { handle } => seq![FieldView::Address(handle)],
            EventView::SpinStart { node, timeout_s, timeout_ns } => seq![
                FieldView::Address(node),
                FieldView::U64(timeout_s),
                FieldView::U32(timeout_ns),
            ],
            EventView::SpinEnd { node } => seq![FieldView::Address(node)],
            EventView::SpinTimeout { node } => seq![FieldView::Address(node)],
            EventView::UpdateTime { subscriber, time_s, time_ns } => seq![
                FieldView::Address(subscriber),
                FieldView::I32(time_s),
                FieldView::U32(time_ns),
            ],
        }
    }

    /// Every event has the fields that the schema of its kind lists: as many,
    /// in the same order, of the same types.
    pub proof fn lemma_fields_follow_schema(self)
        ensures
            self.fields().len() == self.kind().wire_schema().len(),
            forall|i: int|
                0 <= i < self.fields().len() ==> (#[trigger] self.fields()[i]).field_type()
                    == self.kind().wire_schema()[i],
    {
    }
}

impl TraceEvent {
    /// The kind of this event.
    pub fn kind(&self) -> (kind: EventKind)
        ensures
            kind == self@.kind(),
    {
        match self {
            TraceEvent::Publish { .. } => EventKind::Publish,
            TraceEvent::SubscriptionInit { .. } => EventKind::SubscriptionInit,
            TraceEvent::SubscriptionCallbackAdded { .. } => EventKind::SubscriptionCallbackAdded,
            TraceEvent::Take { .. } => EventKind::Take,
            TraceEvent::ServiceCallbackAdded { .. } => EventKind::ServiceCallbackAdded,
            TraceEvent::TimerCallbackAdded { .. } => EventKind::TimerCallbackAdded,
            TraceEvent::TimerLinkNode { .. } => EventKind::TimerLinkNode,
            TraceEvent::CallbackRegister { .. } => EventKind::CallbackRegister,
            TraceEvent::CallbackStart { .. } => EventKind::CallbackStart,
            TraceEvent::CallbackEnd { .. } => EventKind::CallbackEnd,
            TraceEvent::ExecutorGetNextReady => EventKind::ExecutorGetNextReady,
            TraceEvent::ExecutorWaitForWork { .. } => EventKind::ExecutorWaitForWork,
            TraceEvent::ExecutorExecute { .. } => EventKind::ExecutorExecute,
            TraceEvent::SpinStart { .. } => EventKind::SpinStart,
            TraceEvent::SpinEnd { .. } => EventKind::SpinEnd,
            TraceEvent::SpinTimeout { .. } => EventKind::SpinTimeout,
            TraceEvent::UpdateTime { .. } => EventKind::UpdateTime,
        }
    }

    /// The name under which this event is recorded.
    pub fn name(&self) -> (name: &'static str)
        ensures
            name@ == self@.kind().wire_name(),
    {
        self.kind().name()
    }

    /// The fields of this event, in wire order.
    pub fn fields(&self) -> (fields: Vec<FieldValue>)
        ensures
            fields@.len() == self@.fields().len(),
            forall|i: int| 0 <= i < fields@.len() ==> (#[trigger] fields@[i])@ == self@.fields()[i],
    {
        match self {
            TraceEvent::Publish { message } => vec![FieldValue::Address(*message)],
            TraceEvent::SubscriptionInit { subscription_handle, subscription } => vec![
                FieldValue::Address(*subscription_handle),
                FieldValue::Address(*subscription),
            ],
            TraceEvent::SubscriptionCallbackAdded { subscription, callback } => vec![
                FieldValue::Address(*subscription),
                FieldValue::Token(*callback),
            ],
            TraceEvent::Take { message } => vec![FieldValue::Address(*message)],
            TraceEvent::ServiceCallbackAdded { service, callback } => vec![
                FieldValue::Address(*service),
                FieldValue::Token(*callback),
            ],
            TraceEvent::TimerCallbackAdded { timer, callback } => vec![
                FieldValue::Address(*timer),
                FieldValue::Token(*callback),
            ],
            TraceEvent::TimerLinkNode { timer, node } => vec![
                FieldValue::Address(*timer),
                FieldValue::Address(*node),
            ],
            TraceEvent::CallbackRegister { callback, symbol } => vec![
                FieldValue::Token(*callback),
                FieldValue::Text(symbol.clone()),
            ],
            TraceEvent::CallbackStart { callback, is_intra_process } => vec![
                FieldValue::Token(*callback),
                FieldValue::Bool(*is_intra_process),
            ],
            TraceEvent::CallbackEnd { callback } => vec![FieldValue::Token(*callback)],
            TraceEvent::ExecutorGetNextReady => Vec::new(),
            TraceEvent::ExecutorWaitForWork { timeout } => vec![FieldValue::I64(*timeout)],
            TraceEvent::ExecutorExecute { handle } => vec![FieldValue::Address(*handle)],
            TraceEvent::SpinStart { node, timeout_s, timeout_ns } => vec![
                FieldValue::Address(*node),
                FieldValue::U64(*timeout_s),
                FieldValue::U32(*timeout_ns),
            ],
            TraceEvent::SpinEnd { node } => vec![FieldValue::Address(*node)],
            TraceEvent::SpinTimeout { node } => vec![FieldValue::Address(*node)],
            TraceEvent::UpdateTime { subscriber, time_s, time_ns } => vec![
                FieldValue::Address(*subscriber),
                FieldValue::I32(*time_s),
                FieldValue::U32(*time_ns),
            ],
        }
    }
}

} // verus!
