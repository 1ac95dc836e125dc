//! Validated order-quantity value types for a commerce domain: a strictly
//! positive count of discrete items, a strictly positive mass in kilograms,
//! and a tagged choice between the two. Validation happens once, at
//! construction; after that an invalid value is unrepresentable.

use vstd::prelude::*;

verus! {

/// Why a quantity was rejected at construction.
#[derive(Debug, PartialEq, Eq, Structural)]
pub enum OrderQuantityError {
    /// The unit quantity argument was zero.
    UnitQuantityNonPositive,
    /// The mass quantity argument was zero, negative, or NaN.
    KilogramsQuantityNonPositive,
}

/// A count of discrete items. Every value of this type holds a count of at
/// least one; equality is equality of the counts.
#[derive(Debug, Clone, Copy, PartialEq, Eq, Structural)]
pub struct UnitQuantity {
    value: usize,
}

impl UnitQuantity {
    /// The count this quantity holds.
    pub closed spec fn spec_value(&self) -> usize {
        self.value
    }

    #[verifier::type_invariant]
    spec fn inv(self) -> bool {
        self.value >= 1
    }

    /// Builds a unit quantity holding `value`, rejecting zero.
    pub fn new(value: usize) -> (r: Result<UnitQuantity, OrderQuantityError>)
        ensures
            value >= 1 ==> (r matches Ok(q) && q.spec_value() == value),
            value == 0 ==> (r matches Err(e) && e == OrderQuantityError::UnitQuantityNonPositive),
    {
        if value >= 1 {
            Ok(UnitQuantity { value })
        } else {
            Err(OrderQuantityError::UnitQuantityNonPositive)
        }
    }

    /// The stored count, always at least one.
    pub fn value(&self) -> (v: usize)
        ensures
            v == self.spec_value(),
            v >= 1,
    {
        proof {
            use_type_invariant(self);
        }
        self.value
    }
}

/// Two unit quantities are equal exactly when they hold the same count, so
/// quantities built from the same integer compare equal and quantities built
/// from different integers compare unequal.
pub proof fn lemma_unit_quantity_eq(a: UnitQuantity, b: UnitQuantity)
    ensures
        (a == b) <==> (a.spec_value() == b.spec_value()),
{
}

/// The bit pattern of positive infinity for an IEEE 754 64-bit double: sign
/// bit clear, exponent bits all ones, mantissa bits zero.
pub const F64_POSITIVE_INFINITY_BITS: u64 = 0x7FF0_0000_0000_0000;

/// Holds of `bits` exactly when it is the IEEE 754 bit pattern of a 64-bit
/// double strictly greater than zero. Such a double has its sign bit clear and
/// is neither a zero (all bits zero, given a clear sign bit) nor a NaN
/// (exponent bits all ones and mantissa nonzero, so every pattern above the
/// one of positive infinity, given a clear sign bit); the patterns left are
/// exactly `1 ..= F64_POSITIVE_INFINITY_BITS`, the positive subnormals and
/// normals and positive infinity.
pub open spec fn f64_bits_positive(bits: u64) -> bool {
    1 <= bits && bits <= F64_POSITIVE_INFINITY_BITS
}

/// A mass in kilograms, held as the IEEE 754 bit pattern of a 64-bit double.
/// Every value of this type holds the pattern of a strictly positive double:
/// never a zero, a negative number, or a NaN. Equality is equality of the bit
/// patterns, which on the admitted patterns coincides with exact
/// floating-point equality (no two distinct admitted patterns denote the same
/// double, and no admitted pattern is a NaN).
#[derive(Debug, Clone, Copy, PartialEq, Eq, Structural)]
pub struct KilogramsQuantity {
    bits: u64,
}

impl KilogramsQuantity {
    /// The bit pattern of the double this quantity holds.
    pub closed spec fn spec_bits(&self) -> u64 {
        self.bits
    }

    #[verifier::type_invariant]
    spec fn inv(self) -> bool {
        f64_bits_positive(self.bits)
    }

    /// Builds a mass quantity from the bit pattern of a double, rejecting
    /// every pattern that does not denote a double strictly greater than
    /// zero: both zeroes, all negative numbers, and all NaNs.
    pub fn new(bits: u64) -> (r: Result<KilogramsQuantity, OrderQuantityError>)
        ensures
            f64_bits_positive(bits) ==> (r matches Ok(q) && q.spec_bits() == bits),
            !f64_bits_positive(bits) ==> (r matches Err(e) && e
                == OrderQuantityError::KilogramsQuantityNonPositive),
    {
        if 1 <= bits && bits <= F64_POSITIVE_INFINITY_BITS {
            Ok(KilogramsQuantity { bits })
        } else {
            Err(OrderQuantityError::KilogramsQuantityNonPositive)
        }
    }

    /// The stored bit pattern, always that of a strictly positive double.
    pub fn bits(&self) -> (b: u64)
        ensures
            b == self.spec_bits(),
            f64_bits_positive(b),
    {
        proof {
            use_type_invariant(self);
        }
        self.bits
    }
}

/// Two mass quantities are equal exactly when they hold the same bit pattern,
/// so masses built from the same double compare equal and masses built from
/// different doubles compare unequal.
pub proof fn lemma_kilograms_quantity_eq(a: KilogramsQuantity, b: KilogramsQuantity)
    ensures
        (a == b) <==> (a.spec_bits() == b.spec_bits()),
{
}

/// Either a count of discrete items or a mass in kilograms. Wrapping performs
/// no validation of its own: the payload was validated when it was built, and
/// the variant does no more than tag which kind it carries.
pub enum OrderQuantity {
    UnitQuantity(UnitQuantity),
    KilogramsQuantity(KilogramsQuantity),
}

/// An order quantity built from a payload discriminates as the corresponding
/// variant and hands back exactly the payload it was built from, for either
/// kind.
pub proof fn lemma_order_quantity_round_trip(u: UnitQuantity, k: KilogramsQuantity)
    ensures
        OrderQuantity::UnitQuantity(u) matches OrderQuantity::UnitQuantity(v) && v == u,
        OrderQuantity::KilogramsQuantity(k) matches OrderQuantity::KilogramsQuantity(w) && w == k,
{
}

} // verus!
