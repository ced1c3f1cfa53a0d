use vstd::prelude::*;

verus! {

/// An exact rational number `num / den`.
///
/// A value with `den > 0` is well formed (`wf`); two values are equal as
/// numbers when their cross products agree (`same_value`), which is also
/// what `==` compares at run time.
#[derive(Clone, Copy, Debug)]
pub struct Ratio {
    pub num: i64,
    pub den: u64,
}

impl Ratio {
    pub open spec fn wf(self) -> bool {
        self.den > 0
    }

    /// `self` and `other` denote the same number.
    pub open spec fn same_value(self, other: Ratio) -> bool {
        self.num * other.den == other.num * self.den
    }

    pub open spec fn of(num: int, den: int) -> Ratio {
        Ratio { num: num as i64, den: den as u64 }
    }

    pub fn new(num: i64, den: u64) -> (r: Ratio)
        ensures
            r.num == num,
            r.den == den,
    {
        Ratio { num, den }
    }

    /// The integer `n`, as `n / 1`.
    pub fn integer(n: i64) -> (r: Ratio)
        ensures
            r.num == n,
            r.den == 1,
    {
        Ratio { num: n, den: 1 }
    }

    /// Compares two values as numbers.
    pub fn same(&self, other: &Ratio) -> (r: bool)
        ensures
            r == self.same_value(*other),
    {
        proof {
            lemma_product_fits_i128(self.num, other.den);
            lemma_product_fits_i128(other.num, self.den);
        }
        (self.num as i128) * (other.den as i128) == (other.num as i128) * (self.den as i128)
    }
}

/// The product of an `i64` and a `u64` lies strictly inside the range of `i128`.
proof fn lemma_product_fits_i128(a: i64, b: u64)
    ensures
        -0x7fff_ffff_ffff_ffff_ffff_ffff_ffff_ffff <= a * b <= 0x7fff_ffff_ffff_ffff_ffff_ffff_ffff_ffff,
{
    assert(-0x8000_0000_0000_0000 <= a <= 0x7fff_ffff_ffff_ffff);
    assert(0 <= b <= 0xffff_ffff_ffff_ffff);
    assert(-0x7fff_ffff_ffff_ffff_ffff_ffff_ffff_ffff <= a * b <= 0x7fff_ffff_ffff_ffff_ffff_ffff_ffff_ffff)
        by (nonlinear_arith)
        requires
            -0x8000_0000_0000_0000 <= a <= 0x7fff_ffff_ffff_ffff,
            0 <= b <= 0xffff_ffff_ffff_ffff,
    ;
}

impl PartialEq for Ratio {
    fn eq(&self, other: &Ratio) -> (r: bool) {
        self.same(other)
    }
}

impl vstd::std_specs::cmp::PartialEqSpecImpl for Ratio {
    open spec fn obeys_eq_spec() -> bool {
        true
    }

    open spec fn eq_spec(&self, other: &Ratio) -> bool {
        self.same_value(*other)
    }
}

} // verus!
