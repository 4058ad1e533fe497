use r2r_tracing::{Sink, TraceEvent};

#[test]
fn new_sink_is_empty() {
    let sink = Sink::new(true);
    assert!(sink.is_enabled());
    assert_eq!(sink.len(), 0);
    assert!(sink.events().is_empty());
    assert!(!Sink::new(false).is_enabled());
}

#[test]
fn enabled_sink_keeps_events_in_order() {
    let mut sink = Sink::new(true);
    sink.write(TraceEvent::Publish { message: 1 });
    sink.write(TraceEvent::Take { message: 1 });
    sink.write(TraceEvent::ExecutorGetNextReady);
    assert_eq!(sink.len(), 3);
    assert_eq!(
        sink.events(),
        &vec![
            TraceEvent::Publish { message: 1 },
            TraceEvent::Take { message: 1 },
            TraceEvent::ExecutorGetNextReady,
        ]
    );
}

#[test]
fn disabled_sink_drops_events() {
    let mut sink = Sink::new(false);
    sink.write(TraceEvent::Publish { message: 1 });
    sink.write(TraceEvent::CallbackEnd { callback: 9 });
    assert_eq!(sink.len(), 0);
    assert!(sink.events().is_empty());
    assert!(!sink.is_enabled());
}

#[test]
fn switching_keeps_what_was_recorded() {
    let mut sink = Sink::new(true);
    sink.write(TraceEvent::Publish { message: 1 });
    sink.set_enabled(false);
    sink.write(TraceEvent::Publish { message: 2 });
    assert_eq!(sink.events(), &vec![TraceEvent::Publish { message: 1 }]);
    sink.set_enabled(true);
    sink.write(TraceEvent::Publish { message: 3 });
    assert_eq!(
        sink.events(),
        &vec![TraceEvent::Publish { message: 1 }, TraceEvent::Publish { message: 3 }]
    );
}

#[test]
fn take_empties_the_sink() {
    let mut sink = Sink::new(true);
    sink.write(TraceEvent::SpinEnd { node: 4 });
    sink.write(TraceEvent::SpinTimeout { node: 4 });
    let taken = sink.take();
    assert_eq!(taken, vec![TraceEvent::SpinEnd { node: 4 }, TraceEvent::SpinTimeout { node: 4 }]);
    assert_eq!(sink.len(), 0);
    assert!(sink.is_enabled());
    sink.write(TraceEvent::SpinEnd { node: 5 });
    assert_eq!(sink.take(), vec![TraceEvent::SpinEnd { node: 5 }]);
    assert_eq!(sink.take(), Vec::<TraceEvent>::new());
}

#[test]
fn clear_forgets_the_events_and_keeps_the_switch() {
    let mut sink = Sink::new(true);
    sink.write(TraceEvent::Publish { message: 1 });
    sink.write(TraceEvent::Take { message: 1 });
    sink.clear();
    assert_eq!(sink.len(), 0);
    assert!(sink.is_enabled());
    sink.write(TraceEvent::Take { message: 2 });
    assert_eq!(sink.events(), &vec![TraceEvent::Take { message: 2 }]);

    let mut off = Sink::new(false);
    off.clear();
    assert!(!off.is_enabled());
    assert_eq!(off.len(), 0);
}
