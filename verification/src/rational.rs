use vstd::prelude::*;

use crate::algebra::{DivBy, Minus, Plus, Times};

verus! {

/// An exact rational number: `num / den`.
///
/// A well-formed value keeps `den` strictly positive (`rat_wf`); the value is
/// not kept in lowest terms, so two representations are compared by cross
/// multiplication (`rat_eq`, and the hand-written `PartialEq`).
#[derive(Clone, Copy, Debug)]
pub struct Rat {
    pub num: i64,
    pub den: i64,
}

/// Whether a mathematical integer fits the 64-bit machine representation.
pub open spec fn in_i64(x: int) -> bool {
    i64::MIN <= x <= i64::MAX
}

/// Whether a mathematical integer and its negation both fit in 64 bits.
pub open spec fn in_i64_sym(x: int) -> bool {
    -i64::MAX <= x <= i64::MAX
}

/// Well-formedness: the denominator is strictly positive.
pub open spec fn rat_wf(a: Rat) -> bool {
    a.den > 0
}

/// Value equality of two rationals, by cross multiplication.
/// Agrees with `==` on well-formed values.
pub open spec fn rat_eq(a: Rat, b: Rat) -> bool {
    a.num * b.den == b.num * a.den
}

/// Strict value order on well-formed rationals, by cross multiplication.
pub open spec fn rat_lt(a: Rat, b: Rat) -> bool {
    a.num * b.den < b.num * a.den
}

/// The product of two 64-bit values stays well inside the 128-bit range.
proof fn lemma_prod_in_i128(a: int, b: int)
    by (nonlinear_arith)
    requires
        i64::MIN <= a <= i64::MAX,
        i64::MIN <= b <= i64::MAX,
    ensures
        -0x40000000000000000000000000000000 <= a * b
            <= 0x40000000000000000000000000000000,
{
}

impl Rat {
    /// The rational `num / den`. Any pair is accepted; a well-formed value
    /// (positive `den`) is what the arithmetic below preserves.
    pub fn new(num: i64, den: i64) -> (r: Rat)
        ensures
            r.num == num,
            r.den == den,
    {
        Rat { num, den }
    }

    /// The rational with the exact value of a machine integer.
    pub fn from_int(value: i64) -> (r: Rat)
        ensures
            r.num == value,
            r.den == 1,
    {
        Rat { num: value, den: 1 }
    }

    /// Whether the value is zero, whatever its denominator.
    pub open spec fn spec_is_zero(self) -> bool {
        self.num == 0
    }
}

impl Plus for Rat {
    open spec fn plus_ok(self, rhs: Rat) -> bool {
        &&& in_i64(self.num * rhs.den + rhs.num * self.den)
        &&& in_i64(self.den * rhs.den)
    }

    open spec fn plus_spec(self, rhs: Rat) -> Rat {
        Rat {
            num: (self.num * rhs.den + rhs.num * self.den) as i64,
            den: (self.den * rhs.den) as i64,
        }
    }

    fn plus(self, rhs: Rat) -> (r: Rat) {
        proof {
            lemma_prod_in_i128(self.num as int, rhs.den as int);
            lemma_prod_in_i128(rhs.num as int, self.den as int);
            lemma_prod_in_i128(self.den as int, rhs.den as int);
        }
        let n: i128 = (self.num as i128) * (rhs.den as i128)
            + (rhs.num as i128) * (self.den as i128);
        let d: i128 = (self.den as i128) * (rhs.den as i128);
        Rat { num: n as i64, den: d as i64 }
    }
}

impl Minus for Rat {
    open spec fn minus_ok(self, rhs: Rat) -> bool {
        &&& in_i64(self.num * rhs.den - rhs.num * self.den)
        &&& in_i64(self.den * rhs.den)
    }

    open spec fn minus_spec(self, rhs: Rat) -> Rat {
        Rat {
            num: (self.num * rhs.den - rhs.num * self.den) as i64,
            den: (self.den * rhs.den) as i64,
        }
    }

    fn minus(self, rhs: Rat) -> (r: Rat) {
        proof {
            lemma_prod_in_i128(self.num as int, rhs.den as int);
            lemma_prod_in_i128(rhs.num as int, self.den as int);
            lemma_prod_in_i128(self.den as int, rhs.den as int);
        }
        let n: i128 = (self.num as i128) * (rhs.den as i128)
            - (rhs.num as i128) * (self.den as i128);
        let d: i128 = (self.den as i128) * (rhs.den as i128);
        Rat { num: n as i64, den: d as i64 }
    }
}

impl Times<Rat> for Rat {
    type Output = Rat;

    open spec fn times_ok(self, rhs: Rat) -> bool {
        &&& in_i64(self.num * rhs.num)
        &&& in_i64(self.den * rhs.den)
    }

    open spec fn times_spec(self, rhs: Rat) -> Rat {
        Rat {
            num: (self.num * rhs.num) as i64,
            den: (self.den * rhs.den) as i64,
        }
    }

    fn times(self, rhs: Rat) -> (r: Rat) {
        proof {
            lemma_prod_in_i128(self.num as int, rhs.num as int);
            lemma_prod_in_i128(self.den as int, rhs.den as int);
        }
        let n: i128 = (self.num as i128) * (rhs.num as i128);
        let d: i128 = (self.den as i128) * (rhs.den as i128);
        Rat { num: n as i64, den: d as i64 }
    }
}

impl DivBy<Rat> for Rat {
    type Output = Rat;

    open spec fn div_ok(self, rhs: Rat) -> bool {
        &&& rhs.num != 0
        &&& in_i64_sym(self.num * rhs.den)
        &&& in_i64_sym(self.den * rhs.num)
    }

    open spec fn div_spec(self, rhs: Rat) -> Rat {
        if rhs.num >= 0 {
            Rat {
                num: (self.num * rhs.den) as i64,
                den: (self.den * rhs.num) as i64,
            }
        } else {
            Rat {
                num: (-(self.num * rhs.den)) as i64,
                den: (-(self.den * rhs.num)) as i64,
            }
        }
    }

    fn div_by(self, rhs: Rat) -> (r: Rat) {
        proof {
            lemma_prod_in_i128(self.num as int, rhs.den as int);
            lemma_prod_in_i128(self.den as int, rhs.num as int);
        }
        let n: i128 = (self.num as i128) * (rhs.den as i128);
        let d: i128 = (self.den as i128) * (rhs.num as i128);
        if rhs.num >= 0 {
            Rat { num: n as i64, den: d as i64 }
        } else {
            Rat { num: (-n) as i64, den: (-d) as i64 }
        }
    }
}

impl PartialEq for Rat {
    /// Value equality by cross multiplication, so that two representations
    /// of one rational compare equal.
    fn eq(&self, other: &Rat) -> (r: bool) {
        proof {
            lemma_prod_in_i128(self.num as int, other.den as int);
            lemma_prod_in_i128(other.num as int, self.den as int);
        }
        (self.num as i128) * (other.den as i128)
            == (other.num as i128) * (self.den as i128)
    }
}

impl vstd::std_specs::cmp::PartialEqSpecImpl for Rat {
    open spec fn obeys_eq_spec() -> bool {
        true
    }

    open spec fn eq_spec(&self, other: &Rat) -> bool {
        rat_eq(*self, *other)
    }
}

impl PartialOrd for Rat {
    /// Cross-multiplied comparison; it orders by value when both
    /// denominators are positive.
    fn partial_cmp(&self, other: &Rat) -> (r: Option<core::cmp::Ordering>) {
        proof {
            lemma_prod_in_i128(self.num as int, other.den as int);
            lemma_prod_in_i128(other.num as int, self.den as int);
        }
        let lhs: i128 = (self.num as i128) * (other.den as i128);
        let rhs: i128 = (other.num as i128) * (self.den as i128);
        if lhs < rhs {
            Some(core::cmp::Ordering::Less)
        } else if lhs == rhs {
            Some(core::cmp::Ordering::Equal)
        } else {
            Some(core::cmp::Ordering::Greater)
        }
    }
}

impl vstd::std_specs::cmp::PartialOrdSpecImpl for Rat {
    open spec fn obeys_partial_cmp_spec() -> bool {
        true
    }

    open spec fn partial_cmp_spec(&self, other: &Rat) -> Option<core::cmp::Ordering> {
        if rat_lt(*self, *other) {
            Some(core::cmp::Ordering::Less)
        } else if rat_eq(*self, *other) {
            Some(core::cmp::Ordering::Equal)
        } else {
            Some(core::cmp::Ordering::Greater)
        }
    }
}

} // verus!
