//! Dispatch, naming and forking behaviour, observed through a backend that
//! captures every identity registration and every dispatched command.

use std::cell::RefCell;
use std::rc::Rc;

use app_metrics::Kind;
use app_metrics::Rate;
use app_metrics::ScopeCommand;
use app_metrics::ScopeFn;
use app_metrics::ScopeTarget;
use app_metrics::Sink;
use app_metrics::metrics;

#[derive(Clone, Debug, PartialEq)]
struct Registration {
    kind: Kind,
    name: String,
    rate: Rate,
}

#[derive(Clone)]
struct CaptureTarget {
    commands: Rc<RefCell<Vec<ScopeCommand<u64>>>>,
}

impl ScopeTarget<u64> for CaptureTarget {
    fn accept(&self, command: &ScopeCommand<u64>) {
        self.commands.borrow_mut().push(*command);
    }
}

struct CaptureSink {
    registrations: Rc<RefCell<Vec<Registration>>>,
    commands: Rc<RefCell<Vec<ScopeCommand<u64>>>>,
    scope_requests: Rc<RefCell<Vec<bool>>>,
    next_identity: Rc<RefCell<u64>>,
}

impl CaptureSink {
    fn new() -> (
        CaptureSink,
        Rc<RefCell<Vec<Registration>>>,
        Rc<RefCell<Vec<ScopeCommand<u64>>>>,
    ) {
        let registrations = Rc::new(RefCell::new(Vec::new()));
        let commands = Rc::new(RefCell::new(Vec::new()));
        let sink = CaptureSink {
            registrations: registrations.clone(),
            commands: commands.clone(),
            scope_requests: Rc::new(RefCell::new(Vec::new())),
            next_identity: Rc::new(RefCell::new(0)),
        };
        (sink, registrations, commands)
    }
}

impl Sink<u64> for CaptureSink {
    type Target = CaptureTarget;

    fn new_metric(&self, kind: Kind, name: &str, rate: Rate) -> u64 {
        let mut next = self.next_identity.borrow_mut();
        *next += 1;
        self.registrations.borrow_mut().push(Registration {
            kind,
            name: name.to_string(),
            rate,
        });
        *next
    }

    fn new_scope(&self, auto_flush: bool) -> ScopeFn<u64, CaptureTarget> {
        self.scope_requests.borrow_mut().push(auto_flush);
        ScopeFn::new(
            CaptureTarget {
                commands: self.commands.clone(),
            },
            auto_flush,
        )
    }
}

#[test]
fn facade_requests_one_auto_flushing_scope() {
    let (sink, _registrations, _commands) = CaptureSink::new();
    let scope_requests = sink.scope_requests.clone();
    let facade = metrics(sink);
    let _fork = facade.with_prefix("svc.");
    assert_eq!(*scope_requests.borrow(), vec![true]);
}

#[test]
fn qualified_name_prepends_nonempty_prefix() {
    let (sink, _registrations, _commands) = CaptureSink::new();
    let facade = metrics(sink).with_prefix("svc.");
    assert_eq!(facade.qualified_name("requests"), "svc.requests");
}

#[test]
fn qualified_name_keeps_name_under_empty_prefix() {
    let (sink, _registrations, _commands) = CaptureSink::new();
    let facade = metrics(sink);
    assert_eq!(facade.qualified_name("requests"), "requests");
}

#[test]
fn marker_always_writes_one() {
    let (sink, registrations, commands) = CaptureSink::new();
    let facade = metrics(sink);
    let mut marker = facade.marker("events");
    let mut counter = facade.counter("amount");
    marker.mark();
    counter.count(5u64);
    marker.mark();
    let registered = registrations.borrow();
    assert_eq!(registered[0].kind, Kind::Marker);
    assert_eq!(registered[1].kind, Kind::Counter);
    let marker_id = 1u64;
    let counter_id = 2u64;
    assert_eq!(
        *commands.borrow(),
        vec![
            ScopeCommand::Write(marker_id, 1),
            ScopeCommand::Write(counter_id, 5),
            ScopeCommand::Write(marker_id, 1),
        ]
    );
}

#[test]
fn counter_coercion_preserves_value_across_representations() {
    let (sink, _registrations, commands) = CaptureSink::new();
    let facade = metrics(sink);
    let mut counter = facade.counter("amount");
    counter.count(3u64);
    counter.count(3u8);
    counter.count(3i32);
    counter.count(3usize);
    counter.count(3u128);
    counter.count(3i128);
    let identity = 1u64;
    assert_eq!(
        *commands.borrow(),
        vec![
            ScopeCommand::Write(identity, 3),
            ScopeCommand::Write(identity, 3),
            ScopeCommand::Write(identity, 3),
            ScopeCommand::Write(identity, 3),
            ScopeCommand::Write(identity, 3),
            ScopeCommand::Write(identity, 3),
        ]
    );
}

#[test]
fn counter_accepts_the_largest_magnitude() {
    let (sink, _registrations, commands) = CaptureSink::new();
    let facade = metrics(sink);
    let mut counter = facade.counter("amount");
    counter.count(u64::MAX);
    counter.count(0u64);
    let identity = 1u64;
    assert_eq!(
        *commands.borrow(),
        vec![
            ScopeCommand::Write(identity, u64::MAX),
            ScopeCommand::Write(identity, 0),
        ]
    );
}

#[test]
fn gauge_writes_recorded_values() {
    let (sink, _registrations, commands) = CaptureSink::new();
    let facade = metrics(sink);
    let mut gauge = facade.gauge("level");
    gauge.value(7i64);
    gauge.value(0u8);
    let identity = 1u64;
    assert_eq!(
        *commands.borrow(),
        vec![
            ScopeCommand::Write(identity, 7),
            ScopeCommand::Write(identity, 0),
        ]
    );
}

#[test]
fn with_prefix_replaces_prefix_and_spares_prior_instruments() {
    let (sink, registrations, commands) = CaptureSink::new();
    let base = metrics(sink);
    let app = base.with_prefix("app.");
    let mut earlier = app.marker("started");
    let module = app.with_prefix("module.");
    let mut later = module.marker("started");
    earlier.mark();
    later.mark();
    earlier.mark();
    let registered = registrations.borrow();
    assert_eq!(registered.len(), 2);
    assert_eq!(registered[0].name, "app.started");
    assert_eq!(registered[1].name, "module.started");
    let earlier_id = 1u64;
    let later_id = 2u64;
    assert_eq!(
        *commands.borrow(),
        vec![
            ScopeCommand::Write(earlier_id, 1),
            ScopeCommand::Write(later_id, 1),
            ScopeCommand::Write(earlier_id, 1),
        ]
    );
}

#[test]
fn flush_scope_issues_exactly_one_flush() {
    let (sink, _registrations, commands) = CaptureSink::new();
    let mut facade = metrics(sink);
    facade.flush_scope();
    assert_eq!(*commands.borrow(), vec![ScopeCommand::<u64>::Flush]);
}

#[test]
fn end_to_end_counter_under_prefix() {
    let (sink, registrations, commands) = CaptureSink::new();
    let facade = metrics(sink).with_prefix("app.");
    let mut errors = facade.counter("errors");
    errors.count(5u64);
    let registered = registrations.borrow();
    assert_eq!(registered.len(), 1);
    assert_eq!(
        registered[0],
        Registration {
            kind: Kind::Counter,
            name: "app.errors".to_string(),
            rate: Rate::full(),
        }
    );
    let identity = 1u64;
    assert_eq!(*commands.borrow(), vec![ScopeCommand::Write(identity, 5)]);
}
