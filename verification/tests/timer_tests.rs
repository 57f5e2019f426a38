//! Timing behaviour: interval pass-through, start/stop intervals, repeated
//! stops on one handle, and the closure-wrapping form.

use std::cell::RefCell;
use std::rc::Rc;
use std::time::Instant;

use app_metrics::Kind;
use app_metrics::Rate;
use app_metrics::ScopeCommand;
use app_metrics::ScopeFn;
use app_metrics::ScopeTarget;
use app_metrics::Sink;
use app_metrics::metrics;

#[derive(Clone)]
struct CaptureTarget {
    commands: Rc<RefCell<Vec<ScopeCommand<u64>>>>,
}

impl ScopeTarget<u64> for CaptureTarget {
    fn accept(&self, command: &ScopeCommand<u64>) {
        self.commands.borrow_mut().push(*command);
    }
}

struct CaptureSink {
    commands: Rc<RefCell<Vec<ScopeCommand<u64>>>>,
}

impl CaptureSink {
    fn new() -> (CaptureSink, Rc<RefCell<Vec<ScopeCommand<u64>>>>) {
        let commands = Rc::new(RefCell::new(Vec::new()));
        let sink = CaptureSink {
            commands: commands.clone(),
        };
        (sink, commands)
    }
}

impl Sink<u64> for CaptureSink {
    type Target = CaptureTarget;

    fn new_metric(&self, _kind: Kind, _name: &str, _rate: Rate) -> u64 {
        1
    }

    fn new_scope(&self, auto_flush: bool) -> ScopeFn<u64, CaptureTarget> {
        ScopeFn::new(
            CaptureTarget {
                commands: self.commands.clone(),
            },
            auto_flush,
        )
    }
}

#[test]
fn interval_us_writes_and_passes_value_through() {
    let (sink, commands) = CaptureSink::new();
    let facade = metrics(sink);
    let mut timer = facade.timer("latency");
    let returned = timer.interval_us(42u64);
    assert_eq!(returned, 42u64);
    let returned_u16 = timer.interval_us(7u16);
    assert_eq!(returned_u16, 7u16);
    assert_eq!(
        *commands.borrow(),
        vec![ScopeCommand::Write(1, 42), ScopeCommand::Write(1, 7)]
    );
}

#[test]
fn stop_reports_non_negative_and_non_decreasing_intervals() {
    let (sink, commands) = CaptureSink::new();
    let facade = metrics(sink);
    let mut timer = facade.timer("latency");
    let handle = timer.start();
    let anchor = Instant::now();
    let first = timer.stop(handle);
    // The handle was captured before the anchor, so once eleven more
    // milliseconds have passed on the anchor, at least that much has passed
    // on the handle too.
    while Instant::now().duration_since(anchor).as_micros() < first as u128 + 11_000 {}
    let second = timer.stop(handle);
    assert!(second >= first);
    assert!(second >= first + 10_000);
    let captured = commands.borrow();
    assert_eq!(captured.len(), 2);
    assert_eq!(captured[0], ScopeCommand::Write(1, first));
    assert_eq!(captured[1], ScopeCommand::Write(1, second));
}

#[test]
fn time_runs_the_operation_and_records_one_interval() {
    let (sink, commands) = CaptureSink::new();
    let facade = metrics(sink);
    let mut timer = facade.timer("latency");
    let result = timer.time(|| 6 * 7);
    assert_eq!(result, 42);
    let captured = commands.borrow();
    assert_eq!(captured.len(), 1);
    match captured[0] {
        ScopeCommand::Write(identity, _elapsed) => assert_eq!(identity, 1),
        ScopeCommand::Flush => panic!("time must not flush"),
    }
}
