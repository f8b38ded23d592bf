use vstd::prelude::*;

use crate::body::{positive_bits, Body};
use crate::error::SimError;
use crate::pairs::{all_distinct, find_coincident, no_equal_pair_before};

verus! {

/// Every body's position and velocity are finite numbers.
pub open spec fn all_finite(bodies: Seq<Body>) -> bool {
    forall|k: int| 0 <= k < bodies.len() ==> (#[trigger] bodies[k]).finite_spec()
}

/// The position keys of `bodies`, in order.
pub open spec fn keys_of(bodies: Seq<Body>) -> Seq<(u64, u64)> {
    Seq::new(bodies.len(), |k: int| bodies[k].key_spec())
}

/// The first body whose position or velocity is not finite, if any.
pub fn first_non_finite(bodies: &Vec<Body>) -> (r: Option<usize>)
    ensures
        r is None <==> all_finite(bodies@),
        r matches Some(index) ==> index < bodies@.len() && !bodies@[index as int].finite_spec()
            && forall|k: int| 0 <= k < index ==> (#[trigger] bodies@[k]).finite_spec(),
{
    let mut i: usize = 0;
    while i < bodies.len()
        invariant
            i <= bodies@.len(),
            forall|k: int| 0 <= k < i ==> (#[trigger] bodies@[k]).finite_spec(),
        decreases bodies@.len() - i,
    {
        if !bodies[i].is_finite() {
            return Some(i);
        }
        i += 1;
    }
    None
}

/// Checks that a configuration can be stepped: every body's position and
/// velocity are finite, and no two bodies stand at the same point. The first
/// non-finite body is reported before any coincidence; of coinciding bodies,
/// the first pair in row-major order.
pub fn check_configuration(bodies: &Vec<Body>) -> (r: Result<(), SimError>)
    ensures
        r is Ok <==> all_finite(bodies@) && all_distinct(keys_of(bodies@)),
        r matches Err(SimError::NumericOverflow { index }) ==> index < bodies@.len()
            && !bodies@[index as int].finite_spec() && forall|k: int|
            0 <= k < index ==> (#[trigger] bodies@[k]).finite_spec(),
        r matches Err(SimError::SingularConfiguration { first, second }) ==> all_finite(bodies@)
            && first < second < bodies@.len() && bodies@[first as int].key_spec()
            == bodies@[second as int].key_spec() && no_equal_pair_before(
            keys_of(bodies@),
            first as int,
            second as int,
        ),
        !(r matches Err(SimError::InvalidMass { .. })),
        (all_finite(bodies@) && exists|i: int, j: int|
            0 <= i < bodies@.len() && 0 <= j < bodies@.len() && i != j
                && (#[trigger] bodies@[i]).position == (#[trigger] bodies@[j]).position) ==> r matches Err(
            SimError::SingularConfiguration { .. },
        ),
{
    if let Some(index) = first_non_finite(bodies) {
        return Err(SimError::NumericOverflow { index });
    }
    let mut keys: Vec<(u64, u64)> = Vec::new();
    let mut i: usize = 0;
    while i < bodies.len()
        invariant
            i <= bodies@.len(),
            keys@.len() == i,
            forall|k: int| 0 <= k < i ==> keys@[k] == (#[trigger] bodies@[k]).key_spec(),
        decreases bodies@.len() - i,
    {
        keys.push(bodies[i].key());
        i += 1;
    }
    assert(keys@ =~= keys_of(bodies@));
    let r = match find_coincident(&keys) {
        None => Ok(()),
        Some((a, b)) => Err(SimError::SingularConfiguration { first: a, second: b }),
    };
    assert forall|x: int, y: int|
        0 <= x < bodies@.len() && 0 <= y < bodies@.len() && x != y && #[trigger] bodies@[x].position
            == #[trigger] bodies@[y].position implies keys@[x] == keys@[y] by {
        assert(keys@[x] == bodies@[x].key_spec());
        assert(keys@[y] == bodies@[y].key_spec());
    }
    r
}

/// Checks the masses of a new simulation: the first body whose mass is not
/// strictly positive is reported.
pub fn validate_masses(bodies: &Vec<Body>) -> (r: Result<(), SimError>)
    ensures
        r is Ok <==> forall|k: int| 0 <= k < bodies@.len() ==> positive_bits(#[trigger] bodies@[k].mass),
        r matches Err(e) ==> e matches SimError::InvalidMass { index } && index < bodies@.len()
            && !positive_bits(bodies@[index as int].mass) && forall|k: int|
            0 <= k < index ==> positive_bits(#[trigger] bodies@[k].mass),
{
    let mut i: usize = 0;
    while i < bodies.len()
        invariant
            i <= bodies@.len(),
            forall|k: int| 0 <= k < i ==> positive_bits(#[trigger] bodies@[k].mass),
        decreases bodies@.len() - i,
    {
        if !bodies[i].has_positive_mass() {
            return Err(SimError::InvalidMass { index: i });
        }
        i += 1;
    }
    Ok(())
}

} // verus!
