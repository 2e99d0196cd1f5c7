use vstd::prelude::*;

verus! {

/// The sign bit of an IEEE-754 binary64 value.
pub const SIGN_BIT: u64 = 0x8000_0000_0000_0000;

/// The bit pattern of positive infinity; every larger magnitude is a NaN.
pub const INFINITY_BITS: u64 = 0x7ff0_0000_0000_0000;

/// The magnitude of a binary64 bit pattern: every bit but the sign.
pub open spec fn magnitude(bits: u64) -> int {
    if bits >= SIGN_BIT {
        bits - SIGN_BIT
    } else {
        bits as int
    }
}

/// Whether a binary64 bit pattern encodes a NaN.
pub open spec fn is_nan_bits(bits: u64) -> bool {
    magnitude(bits) > INFINITY_BITS
}

/// The signed magnitude of a binary64 bit pattern. On patterns that are not
/// NaN it orders exactly as the numbers they encode, with both zeros at 0.
pub open spec fn order_key(bits: u64) -> int {
    if bits >= SIGN_BIT {
        -magnitude(bits)
    } else {
        magnitude(bits)
    }
}

/// Three-way comparison of two integers.
pub open spec fn compare_ints(a: int, b: int) -> core::cmp::Ordering {
    if a < b {
        core::cmp::Ordering::Less
    } else if a > b {
        core::cmp::Ordering::Greater
    } else {
        core::cmp::Ordering::Equal
    }
}

/// A fitness value that was rejected because it is not a number.
#[derive(Debug, Clone, Copy, PartialEq, Eq, Structural)]
pub struct InvalidFitness {
    pub bits: u64,
}

/// A fitness score: a binary64 number, held as its bit pattern, that is
/// never NaN, so that fitness values are totally ordered.
#[derive(Debug, Clone, Copy)]
pub struct Fitness {
    bits: u64,
}

impl Fitness {
    #[verifier::type_invariant]
    spec fn not_nan(self) -> bool {
        !is_nan_bits(self.bits)
    }

    /// The bit pattern of this fitness.
    pub closed spec fn spec_bits(self) -> u64 {
        self.bits
    }

    /// The position of this fitness in the numeric order.
    pub open spec fn key(self) -> int {
        order_key(self.spec_bits())
    }

    /// Makes a fitness from a binary64 bit pattern; a NaN is rejected.
    pub fn from_bits(bits: u64) -> (r: Result<Fitness, InvalidFitness>)
        ensures
            is_nan_bits(bits) <==> r is Err,
            r matches Ok(f) ==> f.spec_bits() == bits,
            r matches Err(e) ==> e.bits == bits,
    {
        let m: u64 = if bits >= SIGN_BIT { bits - SIGN_BIT } else { bits };
        if m > INFINITY_BITS {
            Err(InvalidFitness { bits })
        } else {
            Ok(Fitness { bits })
        }
    }

    /// The binary64 bit pattern of this fitness.
    pub fn to_bits(&self) -> (r: u64)
        ensures
            r == self.spec_bits(),
            !is_nan_bits(r),
    {
        proof {
            use_type_invariant(self);
        }
        self.bits
    }

    /// Compares two fitness values in numeric order; the two zeros are equal.
    pub fn compare(&self, other: &Fitness) -> (r: core::cmp::Ordering)
        ensures
            r == compare_ints(self.key(), other.key()),
    {
        let a_neg = self.bits >= SIGN_BIT;
        let b_neg = other.bits >= SIGN_BIT;
        let a_mag: u64 = if a_neg { self.bits - SIGN_BIT } else { self.bits };
        let b_mag: u64 = if b_neg { other.bits - SIGN_BIT } else { other.bits };
        if a_neg {
            if b_neg {
                if a_mag > b_mag {
                    core::cmp::Ordering::Less
                } else if a_mag < b_mag {
                    core::cmp::Ordering::Greater
                } else {
                    core::cmp::Ordering::Equal
                }
            } else if a_mag == 0 && b_mag == 0 {
                core::cmp::Ordering::Equal
            } else {
                core::cmp::Ordering::Less
            }
        } else if b_neg {
            if a_mag == 0 && b_mag == 0 {
                core::cmp::Ordering::Equal
            } else {
                core::cmp::Ordering::Greater
            }
        } else if a_mag < b_mag {
            core::cmp::Ordering::Less
        } else if a_mag > b_mag {
            core::cmp::Ordering::Greater
        } else {
            core::cmp::Ordering::Equal
        }
    }
}

impl PartialEq for Fitness {
    /// Numeric equality: the two zeros are equal.
    fn eq(&self, other: &Fitness) -> (r: bool) {
        match self.compare(other) {
            core::cmp::Ordering::Equal => true,
            _ => false,
        }
    }
}

impl vstd::std_specs::cmp::PartialEqSpecImpl for Fitness {
    open spec fn obeys_eq_spec() -> bool {
        true
    }

    open spec fn eq_spec(&self, other: &Fitness) -> bool {
        self.key() == other.key()
    }
}

} // verus!
