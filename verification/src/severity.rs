//! Severity bands for usage percentages.

use vstd::prelude::*;

use crate::percent::Percent;

verus! {

/// The three severity bands of a usage percentage: at most 50% is Normal,
/// above 50% and at most 75% is Warning, above 75% is Critical. Both
/// boundaries are inclusive at the lower band.
#[derive(Clone, Copy, Debug, PartialEq, Eq, Structural)]
pub enum SeverityBand {
    Normal,
    Warning,
    Critical,
}

/// The band of the exact percentage `p.num / p.den`.
pub open spec fn spec_classify(p: Percent) -> SeverityBand {
    if p.num <= 50 * p.den {
        SeverityBand::Normal
    } else if p.num <= 75 * p.den {
        SeverityBand::Warning
    } else {
        SeverityBand::Critical
    }
}

/// Classifies a percentage into its severity band. Total over all
/// well-formed percentages, with the thresholds compared exactly.
pub fn classify(p: &Percent) -> (b: SeverityBand)
    requires
        p.wf(),
    ensures
        b == spec_classify(*p),
{
    let d: u128 = p.den as u128;
    if p.num <= 50 * d {
        SeverityBand::Normal
    } else if p.num <= 75 * d {
        SeverityBand::Warning
    } else {
        SeverityBand::Critical
    }
}

} // verus!
