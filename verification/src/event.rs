//! Trace events and the wire schema that readers of a trace decode them by.

use vstd::prelude::*;

verus! {

/// The kinds of trace event, one for each tracepoint.
#[derive(Clone, Copy, Debug, PartialEq, Eq, Structural)]
pub enum EventKind {
    Publish,
    SubscriptionInit,
    SubscriptionCallbackAdded,
    Take,
    ServiceCallbackAdded,
    TimerCallbackAdded,
    TimerLinkNode,
    CallbackRegister,
    CallbackStart,
    CallbackEnd,
    ExecutorGetNextReady,
    ExecutorWaitForWork,
    ExecutorExecute,
    SpinStart,
    SpinEnd,
    SpinTimeout,
    UpdateTime,
}

/// The type of one field of an event on the wire.
#[derive(Clone, Copy, Debug, PartialEq, Eq, Structural)]
pub enum FieldType {
    /// The address of an entity, pointer-wide, shown in hexadecimal.
    Address,
    /// A callback's correlation token, pointer-wide.
    Token,
    Bool,
    /// A string without an interior terminator.
    Text,
    I32,
    I64,
    U32,
    U64,
}

/// One field of an event, as it goes on the wire.
#[derive(Debug, PartialEq, Eq)]
pub enum FieldValue {
    Address(usize),
    Token(usize),
    Bool(bool),
    Text(String),
    I32(i32),
    I64(i64),
    U32(u32),
    U64(u64),
}

/// What a [`FieldValue`] holds.
pub enum FieldView {
    Address(usize),
    Token(usize),
    Bool(bool),
    Text(Seq<char>),
    I32(i32),
    I64(i64),
    U32(u32),
    U64(u64),
}

impl FieldView {
    /// The wire type of this field.
    pub open spec fn field_type(self) -> FieldType {
        match self {
            FieldView::Address(_) => FieldType::Address,
            FieldView::Token(_) => FieldType::Token,
            FieldView::Bool(_) => FieldType::Bool,
            FieldView::Text(_) => FieldType::Text,
            FieldView::I32(_) => FieldType::I32,
            FieldView::I64(_) => FieldType::I64,
            FieldView::U32(_) => FieldType::U32,
            FieldView::U64(_) => FieldType::U64,
        }
    }
}

impl View for FieldValue {
    type V = FieldView;

    open spec fn view(&self) -> FieldView {
        match self {
            FieldValue::Address(address) => FieldView::Address(*address),
            FieldValue::Token(token) => FieldView::Token(*token),
            FieldValue::Bool(flag) => FieldView::Bool(*flag),
            FieldValue::Text(text) => FieldView::Text(text@),
            FieldValue::I32(value) => FieldView::I32(*value),
            FieldValue::I64(value) => FieldView::I64(*value),
            FieldValue::U32(value) => FieldView::U32(*value),
            FieldValue::U64(value) => FieldView::U64(*value),
        }
    }
}

impl Clone for FieldValue {
    /// A copy that holds what `self` holds.
    fn clone(&self) -> (copy: Self)
        ensures
            copy@ == self@,
    {
        match self {
            FieldValue::Address(address) => FieldValue::Address(*address),
            FieldValue::Token(token) => FieldValue::Token(*token),
            FieldValue::Bool(flag) => FieldValue::Bool(*flag),
            FieldValue::Text(text) => FieldValue::Text(text.clone()),
            FieldValue::I32(value) => FieldValue::I32(*value),
            FieldValue::I64(value) => FieldValue::I64(*value),
            FieldValue::U32(value) => FieldValue::U32(*value),
            FieldValue::U64(value) => FieldValue::U64(*value),
        }
    }
}

impl FieldValue {
    /// The wire type of this field.
    pub fn field_type(&self) -> (ty: FieldType)
        ensures
            ty == self@.field_type(),
    {
        match self {
            FieldValue::Address(_) => FieldType::Address,
            FieldValue::Token(_) => FieldType::Token,
            FieldValue::Bool(_) => FieldType::Bool,
            FieldValue::Text(_) => FieldType::Text,
            FieldValue::I32(_) => FieldType::I32,
            FieldValue::I64(_) => FieldType::I64,
            FieldValue::U32(_) => FieldType::U32,
            FieldValue::U64(_) => FieldType::U64,
        }
    }
}

/// A symbolic name can be marshalled for the sink when no character of it is
/// the terminator.
pub open spec fn encodable(symbol: Seq<char>) -> bool {
    !symbol.contains('\0')
}

/// Whether `symbol` can be marshalled for the sink.
pub fn is_encodable(symbol: &str) -> (ok: bool)
    ensures
        ok == encodable(symbol@),
{
    broadcast use vstd::string::group_string_axioms;

    let mut ok = true;
    for c in it: symbol.chars()
        invariant
            it.seq() == symbol@,
            ok == (forall|i: int| 0 <= i < it.index() ==> symbol@[i] != '\0'),
    {
        if c == '\0' {
            ok = false;
        }
    }
    ok
}

/// A trace event: write-once, with the fields of its kind in wire order.
/// Addresses and tokens are plain integers, times are pairs of whole and
/// fractional units.
#[derive(Debug, PartialEq, Eq)]
pub enum TraceEvent {
    /// A message is published.
    Publish { message: usize },
    /// A subscription object is tied to its subscription handle.
    SubscriptionInit { subscription_handle: usize, subscription: usize },
    /// A callback is tied to the subscription object that owns it.
    SubscriptionCallbackAdded { subscription: usize, callback: usize },
    /// A message is taken.
    Take { message: usize },
    /// A callback is tied to the service that owns it.
    ServiceCallbackAdded { service: usize, callback: usize },
    /// A callback is tied to the timer that owns it.
    TimerCallbackAdded { timer: usize, callback: usize },
    /// A timer is tied to its node.
    TimerLinkNode { timer: usize, node: usize },
    /// A callback's token is bound to its symbolic name.
    CallbackRegister { callback: usize, symbol: String },
    /// A callback is about to run.
    CallbackStart { callback: usize, is_intra_process: bool },
    /// A callback has returned.
    CallbackEnd { callback: usize },
    /// The executor starts to look for the next ready executable.
    ExecutorGetNextReady,
    /// The executor starts to wait for work, for at most `timeout`.
    ExecutorWaitForWork { timeout: i64 },
    /// The executor runs the executable behind `handle`.
    ExecutorExecute { handle: usize },
    /// A node starts to spin, for at most the given time.
    SpinStart { node: usize, timeout_s: u64, timeout_ns: u32 },
    /// A node's spin ended with work done.
    SpinEnd { node: usize },
    /// A node's spin ran out of time.
    SpinTimeout { node: usize },
    /// A subscriber's clock is set.
    UpdateTime { subscriber: usize, time_s: i32, time_ns: u32 },
}

/// What a [`TraceEvent`] holds.
pub enum EventView {
    Publish { message: usize },
    SubscriptionInit { subscription_handle: usize, subscription: usize },
    SubscriptionCallbackAdded { subscription: usize, callback: usize },
    Take { message: usize },
    ServiceCallbackAdded { service: usize, callback: usize },
    TimerCallbackAdded { timer: usize, callback: usize },
    TimerLinkNode { timer: usize, node: usize },
    CallbackRegister { callback: usize, symbol: Seq<char> },
    CallbackStart { callback: usize, is_intra_process: bool },
    CallbackEnd { callback: usize },
    ExecutorGetNextReady,
    ExecutorWaitForWork { timeout: i64 },
    ExecutorExecute { handle: usize },
    SpinStart { node: usize, timeout_s: u64, timeout_ns: u32 },
    SpinEnd { node: usize },
    SpinTimeout { node: usize },
    UpdateTime { subscriber: usize, time_s: i32, time_ns: u32 },
}

impl View for TraceEvent {
    type V = EventView;

    open spec fn view(&self) -> EventView {
        match self {
            TraceEvent::Publish { message } => EventView::Publish { message: *message },
            TraceEvent::SubscriptionInit { subscription_handle, subscription } => {
                EventView::SubscriptionInit {
                    subscription_handle: *subscription_handle,
                    subscription: *subscription,
                }
            },
            TraceEvent::SubscriptionCallbackAdded { subscription, callback } => {
                EventView::SubscriptionCallbackAdded {
                    subscription: *subscription,
                    callback: *callback,
                }
            },
            TraceEvent::Take { message } => EventView::Take { message: *message },
            TraceEvent::ServiceCallbackAdded { service, callback } => {
                EventView::ServiceCallbackAdded { service: *service, callback: *callback }
            },
            TraceEvent::TimerCallbackAdded { timer, callback } => {
                EventView::TimerCallbackAdded { timer: *timer, callback: *callback }
            },
            TraceEvent::TimerLinkNode { timer, node } => {
                EventView::TimerLinkNode { timer: *timer, node: *node }
            },
            TraceEvent::CallbackRegister { callback, symbol } => {
                EventView::CallbackRegister { callback: *callback, symbol: symbol@ }
            },
            TraceEvent::CallbackStart { callback, is_intra_process } => {
                EventView::CallbackStart {
                    callback: *callback,
                    is_intra_process: *is_intra_process,
                }
            },
            TraceEvent::CallbackEnd { callback } => EventView::CallbackEnd { callback: *callback },
            TraceEvent::ExecutorGetNextReady => EventView::ExecutorGetNextReady,
            TraceEvent::ExecutorWaitForWork { timeout } => {
                EventView::ExecutorWaitForWork { timeout: *timeout }
            },
            TraceEvent::ExecutorExecute { handle } => EventView::ExecutorExecute { handle: *handle },
            TraceEvent::SpinStart { node, timeout_s, timeout_ns } => {
                EventView::SpinStart {
                    node: *node,
                    timeout_s: *timeout_s,
                    timeout_ns: *timeout_ns,
                }
            },
            TraceEvent::SpinEnd { node } => EventView::SpinEnd { node: *node },
            TraceEvent::SpinTimeout { node } => EventView::SpinTimeout { node: *node },
            TraceEvent::UpdateTime { subscriber, time_s, time_ns } => {
                EventView::UpdateTime {
                    subscriber: *subscriber,
                    time_s: *time_s,
                    time_ns: *time_ns,
                }
            },
        }
    }
}

impl Clone for TraceEvent {
    /// A copy that holds what `self` holds.
    fn clone(&self) -> (copy: Self)
        ensures
            copy@ == self@,
    {
        match self {
            TraceEvent::Publish { message } => TraceEvent::Publish { message: *message },
            TraceEvent::SubscriptionInit { subscription_handle, subscription } => {
                TraceEvent::SubscriptionInit {
                    subscription_handle: *subscription_handle,
                    subscription: *subscription,
                }
            },
            TraceEvent::SubscriptionCallbackAdded { subscription, callback } => {
                TraceEvent::SubscriptionCallbackAdded {
                    subscription: *subscription,
                    callback: *callback,
                }
            },
            TraceEvent::Take { message } => TraceEvent::Take { message: *message },
            TraceEvent::ServiceCallbackAdded { service, callback } => {
                TraceEvent::ServiceCallbackAdded { service: *service, callback: *callback }
            },
            TraceEvent::TimerCallbackAdded { timer, callback } => {
                TraceEvent::TimerCallbackAdded { timer: *timer, callback: *callback }
            },
            TraceEvent::TimerLinkNode { timer, node } => {
                TraceEvent::TimerLinkNode { timer: *timer, node: *node }
            },
            TraceEvent::CallbackRegister { callback, symbol } => {
                TraceEvent::CallbackRegister { callback: *callback, symbol: symbol.clone() }
            },
            TraceEvent::CallbackStart { callback, is_intra_process } => {
                TraceEvent::CallbackStart {
                    callback: *callback,
                    is_intra_process: *is_intra_process,
                }
            },
            TraceEvent::CallbackEnd { callback } => TraceEvent::CallbackEnd { callback: *callback },
            TraceEvent::ExecutorGetNextReady => TraceEvent::ExecutorGetNextReady,
            TraceEvent::ExecutorWaitForWork { timeout } => {
                TraceEvent::ExecutorWaitForWork { timeout: *timeout }
            },
            TraceEvent::ExecutorExecute { handle } => TraceEvent::ExecutorExecute { handle: *handle },
            TraceEvent::SpinStart { node, timeout_s, timeout_ns } => {
                TraceEvent::SpinStart {
                    node: *node,
                    timeout_s: *timeout_s,
                    timeout_ns: *timeout_ns,
                }
            },
            TraceEvent::SpinEnd { node } => TraceEvent::SpinEnd { node: *node },
            TraceEvent::SpinTimeout { node } => TraceEvent::SpinTimeout { node: *node },
            TraceEvent::UpdateTime { subscriber, time_s, time_ns } => {
                TraceEvent::UpdateTime {
                    subscriber: *subscriber,
                    time_s: *time_s,
                    time_ns: *time_ns,
                }
            },
        }
    }
}

} // verus!
