use vstd::prelude::*;

use crate::body::{positive_bits, Body};
use crate::checks::{all_finite, first_non_finite, validate_masses};
use crate::error::SimError;

verus! {

/// A snapshot of all bodies at one instant: the state before step
/// `step_id`'s update, at simulated time `step_id * time_step`.
#[derive(Debug, Clone)]
pub struct Step {
    pub step_id: u64,
    pub bodies: Vec<Body>,
}

fn copy_bodies(bodies: &Vec<Body>) -> (r: Vec<Body>)
    ensures
        r@ == bodies@,
{
    let mut r: Vec<Body> = Vec::new();
    let mut i: usize = 0;
    while i < bodies.len()
        invariant
            i <= bodies@.len(),
            r@ == bodies@.subrange(0, i as int),
        decreases bodies@.len() - i,
    {
        r.push(bodies[i]);
        i += 1;
        assert(r@ =~= bodies@.subrange(0, i as int));
    }
    assert(r@ =~= bodies@);
    r
}

impl Step {
    /// Step 0: the initial bodies, unchanged.
    pub fn initial(bodies: Vec<Body>) -> (s: Step)
        ensures
            s.step_id == 0,
            s.bodies@ == bodies@,
    {
        Step { step_id: 0, bodies }
    }

    /// The step after this one, holding `bodies`.
    pub fn next(&self, bodies: Vec<Body>) -> (s: Step)
        requires
            self.step_id < u64::MAX,
            bodies@.len() == self.bodies@.len(),
        ensures
            s.step_id == self.step_id + 1,
            s.bodies@ == bodies@,
    {
        Step { step_id: self.step_id + 1, bodies }
    }
}

/// Every body of `bodies` has a strictly positive mass.
pub open spec fn all_positive_masses(bodies: Seq<Body>) -> bool {
    forall|k: int| 0 <= k < bodies.len() ==> positive_bits(#[trigger] bodies[k].mass)
}

/// A fixed set of bodies under gravitation, with the gravitational constant
/// and the time step (both `f64` bit patterns), and the current step.
#[derive(Debug, Clone)]
pub struct Simulation {
    pub initial: Vec<Body>,
    pub gravitational_constant: u64,
    pub time_step: u64,
    pub current: Step,
}

impl Simulation {
    /// The body count never changes and the initial masses are positive.
    pub open spec fn wf(&self) -> bool {
        &&& self.current.bodies@.len() == self.initial@.len()
        &&& all_positive_masses(self.initial@)
    }

    /// A simulation at step 0, rejected when a body's mass is not strictly
    /// positive (the first such body is reported).
    pub fn new(initial_bodies: Vec<Body>, gravitational_constant: u64, time_step: u64) -> (r: Result<
        Simulation,
        SimError,
    >)
        ensures
            r is Ok <==> all_positive_masses(initial_bodies@),
            r matches Ok(s) ==> s.wf() && s.initial@ == initial_bodies@ && s.gravitational_constant
                == gravitational_constant && s.time_step == time_step && s.current.step_id == 0
                && s.current.bodies@ == initial_bodies@,
            r matches Err(e) ==> e matches SimError::InvalidMass { index } && index
                < initial_bodies@.len() && !positive_bits(initial_bodies@[index as int].mass)
                && forall|k: int| 0 <= k < index ==> positive_bits(#[trigger] initial_bodies@[k].mass),
    {
        match validate_masses(&initial_bodies) {
            Err(e) => Err(e),
            Ok(()) => {
                let current = Step::initial(copy_bodies(&initial_bodies));
                Ok(Simulation { initial: initial_bodies, gravitational_constant, time_step, current })
            },
        }
    }

    /// Commits the bodies computed for the current step as the next step,
    /// unless one of them has a position or velocity that is not finite: then
    /// the first such body is reported and nothing is committed.
    pub fn commit(&mut self, next: Vec<Body>) -> (r: Result<(), SimError>)
        requires
            old(self).wf(),
            old(self).current.step_id < u64::MAX,
            next@.len() == old(self).current.bodies@.len(),
        ensures
            final(self).wf(),
            final(self).initial@ == old(self).initial@,
            final(self).gravitational_constant == old(self).gravitational_constant,
            final(self).time_step == old(self).time_step,
            r is Ok <==> all_finite(next@),
            r is Ok ==> final(self).current.step_id == old(self).current.step_id + 1
                && final(self).current.bodies@ == next@,
            r matches Err(e) ==> e matches SimError::NumericOverflow { index } && index
                < next@.len() && !next@[index as int].finite_spec() && forall|k: int|
                0 <= k < index ==> (#[trigger] next@[k]).finite_spec(),
            r is Err ==> final(self).current.step_id == old(self).current.step_id
                && final(self).current.bodies@ == old(self).current.bodies@,
    {
        match first_non_finite(&next) {
            Some(index) => Err(SimError::NumericOverflow { index }),
            None => {
                self.current = self.current.next(next);
                Ok(())
            },
        }
    }
}

} // verus!
