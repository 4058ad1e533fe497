//! Correlated trace events for a publish/subscribe middleware.
//!
//! Runtime entities are known by their addresses, callbacks by tokens that are
//! never handed out twice. Every tracepoint packs its arguments into one
//! [`TraceEvent`] of a fixed shape and writes it to a [`Sink`]; the events that
//! a [`Callback`] writes bracket each invocation and nest like a stack.
//!
//! The sink keeps what is written to it, in order, until it is taken out. A
//! program that traces for real hands each event to its trace provider as
//! soon as the tracepoint has returned; tools that read the trace decode the
//! events by the schema of their kind.
//!
//! Nothing here reaches through an address, blocks, or fails: a tracepoint
//! on a disabled sink does nothing, and the one input that cannot be traced,
//! a symbolic name that holds a string terminator, is ruled out beforehand by
//! [`is_encodable`].

#![allow(unused_imports)]

pub mod callback;
pub mod event;
pub mod identity;
pub mod r2r_tracepoints;
pub mod rclcpp_tracepoints;
pub mod schema;
pub mod sink;
pub mod stream;
pub mod token;

pub use callback::{Callback, OwnerKind};
pub use event::{is_encodable, EventKind, FieldType, FieldValue, TraceEvent};
pub use identity::TracingId;
pub use r2r_tracepoints::{
    trace_spin_end, trace_spin_start, trace_spin_timeout, trace_update_time,
};
pub use rclcpp_tracepoints::{
    trace_callback_end, trace_callback_register, trace_callback_start, trace_executor_execute,
    trace_executor_get_next_ready, trace_executor_wait_for_work, trace_publish,
    trace_service_callback_added, trace_subscription_callback_added, trace_subscription_init,
    trace_take, trace_timer_callback_added, trace_timer_link_node,
};
pub use sink::Sink;
pub use stream::{is_well_nested, running_after};
pub use token::TokenGenerator;
