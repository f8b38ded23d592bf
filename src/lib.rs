//! The integer-valued core of an N-body gravity simulation: the state of
//! each body as `f64` bit patterns, the order in which pairwise pulls are
//! accumulated, the checks that a configuration can be stepped, and the
//! sequencing of a run's steps.

mod body;
mod checks;
mod driver;
mod error;
mod pairs;
mod render;
mod step;

pub use body::Body;
pub use checks::{check_configuration, first_non_finite, validate_masses};
pub use driver::{is_report_step, lemma_run_takes_each_step_once, Action, Driver, Outcome, Status};
pub use error::SimError;
pub use pairs::{find_coincident, ordered_pairs};
pub use render::{marker_color, MarkerColor};
pub use step::{Simulation, Step};
