//! Nonlinear least-squares curve fitting: the checks made before a fit
//! starts and the state machine that drives the iterate loop to one of its
//! terminal states.
pub mod driver;
pub mod error;
pub mod method;
pub mod validate;

pub use driver::{default_max_iterations, Driver, Event, Stop};

pub use error::{Error, Violation};
pub use method::Method;
pub use validate::check_inputs;
