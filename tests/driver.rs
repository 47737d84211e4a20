use curve_fit::driver::{ITERATIONS_PER_PARAM, MAX_STEP_RETRIES};
use curve_fit::{default_max_iterations, Driver, Error, Event, Stop};

#[test]
fn default_budget_is_per_parameter() {
    assert_eq!(default_max_iterations(2), 200);
    assert_eq!(default_max_iterations(0), 0);
    assert_eq!(default_max_iterations(usize::MAX), usize::MAX);
    assert_eq!(default_max_iterations(usize::MAX / 100 + 1), usize::MAX);
    assert_eq!(ITERATIONS_PER_PARAM, 100);
}

#[test]
fn for_params_starts_iterating() {
    let d = Driver::for_params(2);
    assert!(d.is_running());
    assert_eq!(d.iterations, 0);
    assert_eq!(d.max_iterations, 200);
    assert_eq!(d.retries, 0);
    assert_eq!(d.max_retries, MAX_STEP_RETRIES);
}

#[test]
fn converged_step_stops_with_success() {
    let mut d = Driver::new(10, 3);
    assert_eq!(d.step(Event::Accepted { converged: false }), None);
    assert_eq!(d.step(Event::Accepted { converged: true }), Some(Stop::Converged));
    assert_eq!(d.iterations, 2);
    assert!(!d.is_running());
    assert!(Stop::Converged.into_result().is_ok());
}

#[test]
fn non_finite_value_stops_with_its_index() {
    let mut d = Driver::new(10, 3);
    assert_eq!(d.step(Event::NonFinite { index: 7 }), Some(Stop::NonFinite { index: 7 }));
    let r = d.stop.unwrap().into_result();
    assert!(matches!(r, Err(Error::NonFinite { index: 7 })));
    assert!(r.unwrap_err().is_numerical());
}

#[test]
fn spent_retries_stop_as_step_failure() {
    let mut d = Driver::new(100, 2);
    assert_eq!(d.step(Event::Rejected), None);
    assert_eq!(d.step(Event::Rejected), None);
    assert_eq!(d.retries, 2);
    assert_eq!(d.step(Event::Rejected), Some(Stop::StepFailed { retries: 2 }));
    let r = d.stop.unwrap().into_result();
    assert!(matches!(r, Err(Error::StepFailed { retries: 2 })));
}

#[test]
fn accepted_step_resets_retries() {
    let mut d = Driver::new(100, 2);
    d.step(Event::Rejected);
    d.step(Event::Rejected);
    d.step(Event::Accepted { converged: false });
    assert_eq!(d.retries, 0);
    assert_eq!(d.step(Event::Rejected), None);
    assert_eq!(d.step(Event::Rejected), None);
    assert_eq!(d.iterations, 5);
}

#[test]
fn budget_ends_in_max_iterations() {
    let mut d = Driver::new(3, 10);
    assert_eq!(d.step(Event::Accepted { converged: false }), None);
    assert_eq!(d.step(Event::Rejected), None);
    assert_eq!(
        d.step(Event::Accepted { converged: false }),
        Some(Stop::MaxIterationsReached { iterations: 3 })
    );
    let e = d.stop.unwrap().into_result().unwrap_err();
    assert!(matches!(e, Error::MaxIterationsReached { iterations: 3 }));
    assert!(!e.is_numerical());
    assert!(!e.is_validation());
}

#[test]
fn empty_budget_stops_at_first_unconverged_step() {
    let mut d = Driver::new(0, 10);
    assert!(d.is_running());
    assert_eq!(
        d.step(Event::Rejected),
        Some(Stop::MaxIterationsReached { iterations: 1 })
    );
}

#[test]
fn stopped_driver_ignores_events() {
    let mut d = Driver::new(10, 3);
    d.step(Event::NonFinite { index: 1 });
    assert_eq!(d.step(Event::Accepted { converged: true }), Some(Stop::NonFinite { index: 1 }));
    assert_eq!(d.iterations, 0);
}

// A model that cannot follow the data: every step is unproductive, and the
// loop still ends, in an error.
#[test]
fn unproductive_fit_terminates_in_error() {
    let mut d = Driver::for_params(2);
    let mut steps: usize = 0;
    let stop = loop {
        steps += 1;
        if let Some(s) = d.step(Event::Rejected) {
            break s;
        }
    };
    assert_eq!(stop, Stop::StepFailed { retries: MAX_STEP_RETRIES });
    assert_eq!(steps, MAX_STEP_RETRIES + 1);
    assert!(stop.into_result().is_err());

    let mut d = Driver::for_params(2);
    let mut steps: usize = 0;
    let stop = loop {
        steps += 1;
        let ev = if steps % 2 == 0 { Event::Rejected } else { Event::Accepted { converged: false } };
        if let Some(s) = d.step(ev) {
            break s;
        }
    };
    assert_eq!(stop, Stop::MaxIterationsReached { iterations: 200 });
    assert_eq!(steps, 200);
}

#[test]
fn same_events_same_outcome() {
    let evs = [
        Event::Accepted { converged: false },
        Event::Rejected,
        Event::Accepted { converged: false },
        Event::Accepted { converged: true },
    ];
    let mut a = Driver::new(50, 4);
    let mut b = Driver::new(50, 4);
    let mut ra = None;
    let mut rb = None;
    for ev in evs.iter() {
        ra = a.step(*ev);
        rb = b.step(*ev);
    }
    assert_eq!(ra, rb);
    assert_eq!(ra, Some(Stop::Converged));
    assert_eq!(a.iterations, b.iterations);
}
