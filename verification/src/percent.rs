//! Usage percentages as exact rationals.
//!
//! A percentage is carried as a fraction `num / den` of percent units, so
//! threshold comparisons and rounding are exact integer arithmetic rather
//! than approximations.

use vstd::prelude::*;

verus! {

/// A percentage in `[0, 100]`, represented exactly as `num / den` percent.
///
/// For a disk with `used` of `total` bytes the usage percent is
/// `Percent { num: used * 100, den: total }`; a figure already expressed in
/// ten-thousandths of a percent `v` is `Percent { num: v, den: 10000 }`.
pub struct Percent {
    pub num: u128,
    pub den: u64,
}

/// Division of `a` by `b` rounded to the nearest integer, halves away
/// from zero.
pub open spec fn spec_rdiv(a: nat, b: nat) -> nat
    recommends
        b > 0,
{
    (2 * a + b) / (2 * b)
}

impl Percent {
    /// Well-formed: a positive denominator and a value of at most 100%.
    pub open spec fn wf(self) -> bool {
        self.den > 0 && self.num <= 100 * self.den
    }

    /// The percentage rounded to a whole number, as shown in percent-number
    /// displays.
    pub open spec fn spec_rounded(self) -> nat {
        spec_rdiv(self.num as nat, self.den as nat)
    }

    /// The number of filled cells in a ten-cell bar: the percentage divided
    /// by ten, rounded to the nearest cell.
    pub open spec fn spec_fill(self) -> nat {
        spec_rdiv(self.num as nat, 10 * self.den as nat)
    }

    /// Builds the exact percentage `num / den`.
    pub fn from_ratio(num: u128, den: u64) -> (p: Percent)
        requires
            den > 0,
            num <= 100 * den,
        ensures
            p.num == num,
            p.den == den,
            p.wf(),
    {
        Percent { num, den }
    }

    /// Builds a percentage given in ten-thousandths of a percent.
    pub fn from_e4(v: u64) -> (p: Percent)
        requires
            v <= 1000000,
        ensures
            p.num == v,
            p.den == 10000,
            p.wf(),
    {
        Percent { num: v as u128, den: 10000 }
    }

    /// The rounded whole-number percentage; never exceeds 100 for a
    /// well-formed value.
    pub fn rounded(&self) -> (r: u64)
        requires
            self.wf(),
        ensures
            r == self.spec_rounded(),
            r <= 100,
    {
        proof {
            self.lemma_rounded_le_100();
        }
        let d: u128 = self.den as u128;
        let r: u128 = (2 * self.num + d) / (2 * d);
        r as u64
    }

    /// The filled-cell count of a ten-cell bar; never exceeds 10 for a
    /// well-formed value.
    pub fn fill_cells(&self) -> (r: usize)
        requires
            self.wf(),
        ensures
            r == self.spec_fill(),
            r <= 10,
    {
        proof {
            self.lemma_fill_le_10();
        }
        let d: u128 = self.den as u128;
        let r: u128 = (2 * self.num + 10 * d) / (20 * d);
        r as usize
    }

    /// The percentage in hundredths, rounded to the nearest hundredth, as
    /// shown by two-decimal displays.
    pub open spec fn spec_rounded_hundredths(self) -> nat {
        spec_rdiv((self.num * 100) as nat, self.den as nat)
    }

    /// The percentage rounded to hundredths; never exceeds 10000 for a
    /// well-formed value.
    pub fn rounded_hundredths(&self) -> (r: u64)
        requires
            self.wf(),
        ensures
            r == self.spec_rounded_hundredths(),
            r <= 10000,
    {
        proof {
            assert((2 * (self.num * 100) + self.den) / (2 * self.den) <= 10000)
                by (nonlinear_arith)
                requires
                    self.den > 0,
                    self.num <= 100 * self.den,
            ;
        }
        let d: u128 = self.den as u128;
        let r: u128 = (2 * (self.num * 100) + d) / (2 * d);
        r as u64
    }

    /// True when the percentage exceeds `bound` percent, exactly.
    pub fn exceeds(&self, bound: u64) -> (r: bool)
        requires
            self.wf(),
            bound <= 100,
        ensures
            r == (self.num > bound * self.den),
    {
        proof {
            assert((bound as int) * (self.den as int) <= 100 * (u64::MAX as int)) by (nonlinear_arith)
                requires
                    bound <= 100,
                    self.den <= u64::MAX,
            ;
        }
        self.num > (bound as u128) * (self.den as u128)
    }

    /// A well-formed percentage rounds to at most 100.
    pub proof fn lemma_rounded_le_100(self)
        requires
            self.wf(),
        ensures
            self.spec_rounded() <= 100,
    {
        assert((2 * self.num + self.den) / (2 * self.den) <= 100) by (nonlinear_arith)
            requires
                self.den > 0,
                self.num <= 100 * self.den,
        ;
    }

    /// A well-formed percentage fills at most the 10 cells of the bar.
    pub proof fn lemma_fill_le_10(self)
        requires
            self.wf(),
        ensures
            self.spec_fill() <= 10,
    {
        assert((2 * self.num + 10 * self.den) / (20 * self.den) <= 10) by (nonlinear_arith)
            requires
                self.den > 0,
                self.num <= 100 * self.den,
        ;
    }

    /// Above 50% at least half the bar is filled.
    pub proof fn lemma_fill_ge_5(self)
        requires
            self.wf(),
            self.num > 50 * self.den,
        ensures
            self.spec_fill() >= 5,
    {
        assert((2 * self.num + 10 * self.den) / (20 * self.den) >= 5) by (nonlinear_arith)
            requires
                self.den > 0,
                self.num > 50 * self.den,
        ;
    }

    /// Above 75% at least eight cells are filled.
    pub proof fn lemma_fill_ge_8(self)
        requires
            self.wf(),
            self.num > 75 * self.den,
        ensures
            self.spec_fill() >= 8,
    {
        assert((2 * self.num + 10 * self.den) / (20 * self.den) >= 8) by (nonlinear_arith)
            requires
                self.den > 0,
                self.num > 75 * self.den,
        ;
    }
}

} // verus!
