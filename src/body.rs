use vstd::prelude::*;

verus! {

/// The bit pattern of the `f64` value `1.0`.
pub const ONE_BITS: u64 = 0x3FF0_0000_0000_0000;

/// The bit pattern of the `f64` value `-0.0`.
pub const NEG_ZERO_BITS: u64 = 0x8000_0000_0000_0000;

/// The exponent field of an `f64` bit pattern, all ones for infinities and NaNs.
pub const EXPONENT_MASK: u64 = 0x7FF0_0000_0000_0000;

/// The `f64` with bit pattern `x` is neither infinite nor NaN.
pub open spec fn finite_bits(x: u64) -> bool {
    x & EXPONENT_MASK != EXPONENT_MASK
}

/// The `f64` with bit pattern `x` is greater than zero: every positive
/// finite value, and positive infinity, but neither zero nor a NaN.
pub open spec fn positive_bits(x: u64) -> bool {
    0 < x <= EXPONENT_MASK
}

/// The bit pattern shared by all `f64` values equal to `x`'s, for finite
/// `x`: the two zeros are the one value `0.0`.
pub open spec fn canonical_bits(x: u64) -> u64 {
    if x == NEG_ZERO_BITS {
        0
    } else {
        x
    }
}

/// One point mass at one instant. Each quantity is an `f64`, held as its
/// IEEE 754 bit pattern (`f64::to_bits`), so that the simulation's state
/// can be checked and sequenced here while the force law works on the values.
#[derive(Debug, Clone, Copy, PartialEq, Eq)]
pub struct Body {
    pub mass: u64,
    pub position: (u64, u64),
    pub velocity: (u64, u64),
}

impl Body {
    /// Position and velocity are all finite numbers.
    pub open spec fn finite_spec(&self) -> bool {
        finite_bits(self.position.0) && finite_bits(self.position.1) && finite_bits(
            self.velocity.0,
        ) && finite_bits(self.velocity.1)
    }

    /// The position, with each coordinate in canonical form: for finite
    /// positions, two bodies have the same key exactly when they stand at the
    /// same point.
    pub open spec fn key_spec(&self) -> (u64, u64) {
        (canonical_bits(self.position.0), canonical_bits(self.position.1))
    }

    /// A body of unit mass at rest at `position`.
    pub fn new(position: (u64, u64)) -> (b: Body)
        ensures
            b.mass == ONE_BITS,
            b.velocity == (0u64, 0u64),
            b.position == position,
    {
        Body { mass: ONE_BITS, position, velocity: (0, 0) }
    }

    /// A body with the given mass, position and velocity.
    pub fn with_state(mass: u64, position: (u64, u64), velocity: (u64, u64)) -> (b: Body)
        ensures
            b.mass == mass,
            b.position == position,
            b.velocity == velocity,
    {
        Body { mass, position, velocity }
    }

    pub fn is_finite(&self) -> (r: bool)
        ensures
            r == self.finite_spec(),
    {
        self.position.0 & EXPONENT_MASK != EXPONENT_MASK && self.position.1 & EXPONENT_MASK
            != EXPONENT_MASK && self.velocity.0 & EXPONENT_MASK != EXPONENT_MASK
            && self.velocity.1 & EXPONENT_MASK != EXPONENT_MASK
    }

    pub fn has_positive_mass(&self) -> (r: bool)
        ensures
            r == positive_bits(self.mass),
    {
        0 < self.mass && self.mass <= EXPONENT_MASK
    }

    pub fn key(&self) -> (r: (u64, u64))
        ensures
            r == self.key_spec(),
    {
        let x = if self.position.0 == NEG_ZERO_BITS {
            0
        } else {
            self.position.0
        };
        let y = if self.position.1 == NEG_ZERO_BITS {
            0
        } else {
            self.position.1
        };
        (x, y)
    }
}

} // verus!
