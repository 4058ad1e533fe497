use r2r_tracing::FieldType::{Address, Bool, Text, Token, I32, I64, U32, U64};
use r2r_tracing::{is_encodable, EventKind, FieldType, FieldValue, TraceEvent};

fn one_of_each() -> Vec<TraceEvent> {
    vec![
        TraceEvent::Publish { message: 1 },
        TraceEvent::SubscriptionInit { subscription_handle: 2, subscription: 3 },
        TraceEvent::SubscriptionCallbackAdded { subscription: 3, callback: 4 },
        TraceEvent::Take { message: 5 },
        TraceEvent::ServiceCallbackAdded { service: 6, callback: 7 },
        TraceEvent::TimerCallbackAdded { timer: 8, callback: 9 },
        TraceEvent::TimerLinkNode { timer: 8, node: 10 },
        TraceEvent::CallbackRegister { callback: 9, symbol: String::from("tick") },
        TraceEvent::CallbackStart { callback: 9, is_intra_process: true },
        TraceEvent::CallbackEnd { callback: 9 },
        TraceEvent::ExecutorGetNextReady,
        TraceEvent::ExecutorWaitForWork { timeout: -1 },
        TraceEvent::ExecutorExecute { handle: 8 },
        TraceEvent::SpinStart { node: 10, timeout_s: 2, timeout_ns: 500 },
        TraceEvent::SpinEnd { node: 10 },
        TraceEvent::SpinTimeout { node: 10 },
        TraceEvent::UpdateTime { subscriber: 2, time_s: -3, time_ns: 999_999_999 },
    ]
}

#[test]
fn event_names_are_those_of_the_catalog() {
    let names: Vec<&str> = one_of_each().iter().map(|event| event.name()).collect();
    assert_eq!(
        names,
        vec![
            "publish",
            "subscription_init",
            "subscription_callback_added",
            "take",
            "service_callback_added",
            "timer_callback_added",
            "timer_link_node",
            "callback_register",
            "callback_start",
            "callback_end",
            "executor_get_next_ready",
            "executor_wait_for_work",
            "executor_execute",
            "spin_start",
            "spin_end",
            "spin_timeout",
            "update_time",
        ]
    );
}

#[test]
fn kind_names_match_event_names() {
    for event in one_of_each() {
        assert_eq!(event.kind().name(), event.name());
    }
    assert_eq!(EventKind::CallbackStart.name(), "callback_start");
    assert_eq!(EventKind::SpinTimeout.name(), "spin_timeout");
}

#[test]
fn schemas_are_those_of_the_catalog() {
    assert_eq!(EventKind::Publish.schema(), vec![Address]);
    assert_eq!(EventKind::SubscriptionInit.schema(), vec![Address, Address]);
    assert_eq!(EventKind::SubscriptionCallbackAdded.schema(), vec![Address, Token]);
    assert_eq!(EventKind::Take.schema(), vec![Address]);
    assert_eq!(EventKind::ServiceCallbackAdded.schema(), vec![Address, Token]);
    assert_eq!(EventKind::TimerCallbackAdded.schema(), vec![Address, Token]);
    assert_eq!(EventKind::TimerLinkNode.schema(), vec![Address, Address]);
    assert_eq!(EventKind::CallbackRegister.schema(), vec![Token, Text]);
    assert_eq!(EventKind::CallbackStart.schema(), vec![Token, Bool]);
    assert_eq!(EventKind::CallbackEnd.schema(), vec![Token]);
    assert_eq!(EventKind::ExecutorGetNextReady.schema(), Vec::<FieldType>::new());
    assert_eq!(EventKind::ExecutorWaitForWork.schema(), vec![I64]);
    assert_eq!(EventKind::ExecutorExecute.schema(), vec![Address]);
    assert_eq!(EventKind::SpinStart.schema(), vec![Address, U64, U32]);
    assert_eq!(EventKind::SpinEnd.schema(), vec![Address]);
    assert_eq!(EventKind::SpinTimeout.schema(), vec![Address]);
    assert_eq!(EventKind::UpdateTime.schema(), vec![Address, I32, U32]);
}

#[test]
fn fields_come_in_wire_order() {
    assert_eq!(
        TraceEvent::SpinStart { node: 0xBB, timeout_s: 2, timeout_ns: 500 }.fields(),
        vec![FieldValue::Address(0xBB), FieldValue::U64(2), FieldValue::U32(500)]
    );
    assert_eq!(
        TraceEvent::UpdateTime { subscriber: 0x10, time_s: -7, time_ns: 42 }.fields(),
        vec![FieldValue::Address(0x10), FieldValue::I32(-7), FieldValue::U32(42)]
    );
    assert_eq!(
        TraceEvent::CallbackRegister { callback: 3, symbol: String::from("on_msg") }.fields(),
        vec![FieldValue::Token(3), FieldValue::Text(String::from("on_msg"))]
    );
    assert_eq!(
        TraceEvent::CallbackStart { callback: 3, is_intra_process: false }.fields(),
        vec![FieldValue::Token(3), FieldValue::Bool(false)]
    );
    assert_eq!(
        TraceEvent::SubscriptionInit { subscription_handle: 1, subscription: 2 }.fields(),
        vec![FieldValue::Address(1), FieldValue::Address(2)]
    );
    assert_eq!(
        TraceEvent::TimerLinkNode { timer: 1, node: 2 }.fields(),
        vec![FieldValue::Address(1), FieldValue::Address(2)]
    );
    assert_eq!(
        TraceEvent::ExecutorWaitForWork { timeout: i64::MIN }.fields(),
        vec![FieldValue::I64(i64::MIN)]
    );
    assert_eq!(TraceEvent::ExecutorGetNextReady.fields(), Vec::<FieldValue>::new());
}

#[test]
fn fields_of_every_event_follow_the_schema_of_its_kind() {
    for event in one_of_each() {
        let types: Vec<FieldType> =
            event.fields().iter().map(|field| field.field_type()).collect();
        assert_eq!(types, event.kind().schema(), "{}", event.name());
    }
}

#[test]
fn field_types_of_values() {
    assert_eq!(FieldValue::Address(1).field_type(), FieldType::Address);
    assert_eq!(FieldValue::Token(1).field_type(), FieldType::Token);
    assert_eq!(FieldValue::Bool(true).field_type(), FieldType::Bool);
    assert_eq!(FieldValue::Text(String::new()).field_type(), FieldType::Text);
    assert_eq!(FieldValue::I32(-1).field_type(), FieldType::I32);
    assert_eq!(FieldValue::I64(-1).field_type(), FieldType::I64);
    assert_eq!(FieldValue::U32(1).field_type(), FieldType::U32);
    assert_eq!(FieldValue::U64(1).field_type(), FieldType::U64);
}

#[test]
fn a_symbol_with_a_terminator_cannot_be_encoded() {
    assert!(is_encodable("my_closure"));
    assert!(is_encodable(""));
    assert!(is_encodable("node::{{closure}}<é>"));
    assert!(!is_encodable("my\0closure"));
    assert!(!is_encodable("\0"));
    assert!(!is_encodable("tail\0"));
}
