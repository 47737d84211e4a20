use vstd::prelude::*;
use crate::error::Error;

verus! {

/// Iterations granted per model parameter by the default budget.
pub const ITERATIONS_PER_PARAM: usize = 100;

/// Consecutive unproductive steps tolerated before a fit gives up.
pub const MAX_STEP_RETRIES: usize = 30;

/// What one pass of the iterate loop reports: the residual and Jacobian
/// were evaluated, a step was proposed and judged by its gain ratio.
#[derive(Debug, Clone, Copy, PartialEq, Eq, Structural)]
pub enum Event {
    /// A residual or Jacobian entry at `index` was not finite.
    NonFinite { index: usize },
    /// The trial step was productive and was taken; `converged` when the
    /// cost or the step met its tolerance.
    Accepted { converged: bool },
    /// The trial step was unproductive or could not be computed; the
    /// iterate is kept and the control value adapted for a retry.
    Rejected,
}

/// The terminal states of a fit.
#[derive(Debug, Clone, Copy, PartialEq, Eq, Structural)]
pub enum Stop {
    Converged,
    NonFinite { index: usize },
    StepFailed { retries: usize },
    MaxIterationsReached { iterations: usize },
}

impl Stop {
    /// What the caller of a fit is told: success only on convergence.
    pub open spec fn result_spec(self) -> Result<(), Error> {
        match self {
            Stop::Converged => Ok(()),
            Stop::NonFinite { index } => Err(Error::NonFinite { index }),
            Stop::StepFailed { retries } => Err(Error::StepFailed { retries }),
            Stop::MaxIterationsReached { iterations } => Err(
                Error::MaxIterationsReached { iterations },
            ),
        }
    }

    pub fn into_result(self) -> (r: Result<(), Error>)
        ensures
            r == self.result_spec(),
    {
        match self {
            Stop::Converged => Ok(()),
            Stop::NonFinite { index } => Err(Error::NonFinite { index }),
            Stop::StepFailed { retries } => Err(Error::StepFailed { retries }),
            Stop::MaxIterationsReached { iterations } => Err(
                Error::MaxIterationsReached { iterations },
            ),
        }
    }
}

/// The iteration budget for a model of `n_params` parameters:
/// `ITERATIONS_PER_PARAM` each, saturating at the largest `usize`.
pub open spec fn default_budget(n_params: nat) -> nat {
    let b = ITERATIONS_PER_PARAM * n_params;
    if b <= usize::MAX {
        b as nat
    } else {
        usize::MAX as nat
    }
}

pub fn default_max_iterations(n_params: usize) -> (r: usize)
    ensures
        r == default_budget(n_params as nat),
{
    if n_params <= usize::MAX / ITERATIONS_PER_PARAM {
        ITERATIONS_PER_PARAM * n_params
    } else {
        usize::MAX
    }
}

/// The decision side of the iterate loop: counts iterations and
/// consecutive retries, and moves to a terminal state.
pub struct Driver {
    pub iterations: usize,
    pub max_iterations: usize,
    pub retries: usize,
    pub max_retries: usize,
    /// `None` while iterating.
    pub stop: Option<Stop>,
}


impl Driver {
    pub open spec fn running(self) -> bool {
        self.stop is None
    }

    /// While iterating, the count stays below the budget (or at zero for
    /// an empty budget) and the retries within theirs.
    pub open spec fn wf(self) -> bool {
        self.running() ==> {
            &&& (self.iterations < self.max_iterations || self.iterations == 0)
            &&& self.retries <= self.max_retries
        }
    }

    /// Iterations that may still be started before the driver stops.
    pub open spec fn remaining(self) -> nat {
        if self.iterations < self.max_iterations {
            (self.max_iterations - self.iterations) as nat
        } else {
            1
        }
    }

    /// The driver after one event. A stopped driver ignores events. Non-finite
    /// values stop at once; an accepted step resets the retries and stops on
    /// convergence; an unproductive step fails once the retries are spent.
    /// Otherwise the iteration is counted and the budget checked.
    pub open spec fn next(self, ev: Event) -> Driver {
        let n = (self.iterations + 1) as usize;
        if !self.running() {
            self
        } else {
            match ev {
                Event::NonFinite { index } => Driver {
                    stop: Some(Stop::NonFinite { index }),
                    ..self
                },
                Event::Accepted { converged } => if converged {
                    Driver { iterations: n, retries: 0, stop: Some(Stop::Converged), ..self }
                } else if n >= self.max_iterations {
                    Driver {
                        iterations: n,
                        retries: 0,
                        stop: Some(Stop::MaxIterationsReached { iterations: n }),
                        ..self
                    }
                } else {
                    Driver { iterations: n, retries: 0, ..self }
                },
                Event::Rejected => if self.retries >= self.max_retries {
                    Driver {
                        iterations: n,
                        stop: Some(Stop::StepFailed { retries: self.retries }),
                        ..self
                    }
                } else if n >= self.max_iterations {
                    Driver {
                        iterations: n,
                        retries: (self.retries + 1) as usize,
                        stop: Some(Stop::MaxIterationsReached { iterations: n }),
                        ..self
                    }
                } else {
                    Driver { iterations: n, retries: (self.retries + 1) as usize, ..self }
                },
            }
        }
    }

    /// The driver after a sequence of events, in order.
    pub open spec fn run(self, evs: Seq<Event>) -> Driver
        decreases evs.len(),
    {
        if evs.len() == 0 {
            self
        } else {
            self.next(evs[0]).run(evs.drop_first())
        }
    }

    /// A driver that has started no iteration.
    pub fn new(max_iterations: usize, max_retries: usize) -> (d: Driver)
        ensures
            d == (Driver { iterations: 0, max_iterations, retries: 0, max_retries, stop: None }),
            d.wf(),
    {
        Driver { iterations: 0, max_iterations, retries: 0, max_retries, stop: None }
    }

    /// A driver with the default budget for `n_params` parameters.
    pub fn for_params(n_params: usize) -> (d: Driver)
        ensures
            d == (Driver {
                iterations: 0,
                max_iterations: default_budget(n_params as nat) as usize,
                retries: 0,
                max_retries: MAX_STEP_RETRIES,
                stop: None,
            }),
            d.wf(),
    {
        Driver::new(default_max_iterations(n_params), MAX_STEP_RETRIES)
    }

    pub fn is_running(&self) -> (r: bool)
        ensures
            r == self.running(),
    {
        self.stop.is_none()
    }

    /// Takes one event; returns the terminal state once there is one.
    pub fn step(&mut self, ev: Event) -> (r: Option<Stop>)
        requires
            old(self).wf(),
        ensures
            *final(self) == old(self).next(ev),
            final(self).wf(),
            r == final(self).stop,
    {
        if self.stop.is_some() {
            return self.stop;
        }
        match ev {
            Event::NonFinite { index } => {
                self.stop = Some(Stop::NonFinite { index });
            },
            Event::Accepted { converged } => {
                self.iterations = self.iterations + 1;
                self.retries = 0;
                if converged {
                    self.stop = Some(Stop::Converged);
                } else if self.iterations >= self.max_iterations {
                    self.stop = Some(Stop::MaxIterationsReached { iterations: self.iterations });
                }
            },
            Event::Rejected => {
                if self.retries >= self.max_retries {
                    self.iterations = self.iterations + 1;
                    self.stop = Some(Stop::StepFailed { retries: self.retries });
                } else {
                    self.iterations = self.iterations + 1;
                    self.retries = self.retries + 1;
                    if self.iterations >= self.max_iterations {
                        self.stop = Some(
                            Stop::MaxIterationsReached { iterations: self.iterations },
                        );
                    }
                }
            },
        }
        self.stop
    }
}

/// A stopped driver is left as it is by any further events.
pub proof fn lemma_stopped_stays(d: Driver, evs: Seq<Event>)
    requires
        !d.running(),
    ensures
        d.run(evs) == d,
    decreases evs.len(),
{
    if evs.len() > 0 {
        lemma_stopped_stays(d.next(evs[0]), evs.drop_first());
    }
}

/// Every fit stops: from a well-formed driver, as many events as there are
/// iterations left bring it to a terminal state, whatever the events.
pub proof fn lemma_stops_within_budget(d: Driver, evs: Seq<Event>)
    requires
        d.wf(),
        evs.len() >= d.remaining(),
    ensures
        !d.run(evs).running(),
    decreases evs.len(),
{
    if !d.running() {
        lemma_stopped_stays(d, evs);
    } else {
        let d1 = d.next(evs[0]);
        if !d1.running() {
            lemma_stopped_stays(d1, evs.drop_first());
        } else {
            lemma_stops_within_budget(d1, evs.drop_first());
        }
    }
}

/// Without a converged step among the events, a driver that has not
/// converged does not converge.
pub proof fn lemma_no_convergence_without_converged_step(d: Driver, evs: Seq<Event>)
    requires
        d.stop != Some(Stop::Converged),
        forall|i: int| 0 <= i < evs.len() ==> evs[i] != (Event::Accepted { converged: true }),
    ensures
        d.run(evs).stop != Some(Stop::Converged),
    decreases evs.len(),
{
    if evs.len() > 0 {
        let rest = evs.drop_first();
        assert forall|i: int| 0 <= i < rest.len() implies rest[i] != (Event::Accepted {
            converged: true,
        }) by {
            assert(rest[i] == evs[i + 1]);
        }
        assert(evs[0] != (Event::Accepted { converged: true }));
        lemma_no_convergence_without_converged_step(d.next(evs[0]), rest);
    }
}

/// A fit whose steps never meet the convergence tolerance (a model that
/// cannot follow the data) does not loop forever: once its iteration budget
/// is spent it has stopped, and the caller is told an error, a numerical
/// failure or non-convergence.
pub proof fn lemma_unconverged_fit_fails(d: Driver, evs: Seq<Event>)
    requires
        d.wf(),
        d.running(),
        evs.len() >= d.remaining(),
        forall|i: int| 0 <= i < evs.len() ==> evs[i] != (Event::Accepted { converged: true }),
    ensures
        d.run(evs).stop matches Some(s) && s.result_spec() is Err,
{
    lemma_stops_within_budget(d, evs);
    lemma_no_convergence_without_converged_step(d, evs);
}

/// The driver's decisions depend on nothing but its state and the events:
/// two equal drivers given the same events end in the same state.
pub proof fn lemma_deterministic(d1: Driver, d2: Driver, evs: Seq<Event>)
    requires
        d1 == d2,
    ensures
        d1.run(evs) == d2.run(evs),
{
}

} // verus!
