//! Classification predicates, derived from the two fields' categories.

use vstd::prelude::*;

use crate::bits::{fabs, fnan, is_inf_b, is_nan_b, is_subnormal_b, is_zero_b, INF_BITS,
    MIN_NORMAL_BITS};
use crate::phasor::{Category, Phasor};

verus! {

impl Phasor {

    /// The value is NaN exactly when either field is NaN.
    pub open spec fn spec_is_nan(&self) -> bool {
        is_nan_b(self.mag) || is_nan_b(self.tan)
    }

    /// NaN dominates; otherwise the class follows the magnitude.
    pub open spec fn spec_classify(&self) -> Category {
        if is_nan_b(self.tan) || is_nan_b(self.mag) {
            Category::Nan
        } else if is_inf_b(self.mag) {
            Category::Infinite
        } else if is_zero_b(self.mag) {
            Category::Zero
        } else if is_subnormal_b(self.mag) {
            Category::Subnormal
        } else {
            Category::Normal
        }
    }

    pub open spec fn spec_is_infinite(&self) -> bool {
        self.spec_classify() == Category::Infinite
    }

    pub open spec fn spec_is_finite(&self) -> bool {
        !(self.spec_classify() == Category::Infinite || self.spec_classify() == Category::Nan)
    }

    pub open spec fn spec_is_zero(&self) -> bool {
        self.spec_classify() == Category::Zero
    }

    pub open spec fn spec_is_subnormal(&self) -> bool {
        self.spec_classify() == Category::Subnormal
    }

    pub open spec fn spec_is_normal(&self) -> bool {
        self.spec_classify() == Category::Normal
    }

    /// Real: the tangent is a signed zero and the value is not NaN.
    pub open spec fn spec_is_real(&self) -> bool {
        is_zero_b(self.tan) && !is_nan_b(self.mag)
    }

    /// Imaginary: the tangent is a signed infinity and the value is not NaN.
    pub open spec fn spec_is_imaginary(&self) -> bool {
        is_inf_b(self.tan) && !is_nan_b(self.mag)
    }

    /// NaN if either field is NaN; otherwise the magnitude's category.
    pub fn classify(&self) -> (r: Category)
        ensures
            r == self.spec_classify(),
    {
        if fnan(self.tan) || fnan(self.mag) {
            Category::Nan
        } else {
            let a: u64 = fabs(self.mag);
            if a == INF_BITS {
                Category::Infinite
            } else if a == 0 {
                Category::Zero
            } else if a < MIN_NORMAL_BITS {
                Category::Subnormal
            } else {
                Category::Normal
            }
        }
    }

    #[verifier::when_used_as_spec(spec_is_nan)]
    pub fn is_nan(&self) -> (r: bool)
        ensures
            r == self.spec_is_nan(),
    {
        fnan(self.mag) || fnan(self.tan)
    }

    #[verifier::when_used_as_spec(spec_is_infinite)]
    pub fn is_infinite(&self) -> (r: bool)
        ensures
            r == self.spec_is_infinite(),
    {
        self.classify() == Category::Infinite
    }

    #[verifier::when_used_as_spec(spec_is_finite)]
    pub fn is_finite(&self) -> (r: bool)
        ensures
            r == self.spec_is_finite(),
    {
        let c: Category = self.classify();
        !(c == Category::Infinite || c == Category::Nan)
    }

    #[verifier::when_used_as_spec(spec_is_zero)]
    pub fn is_zero(&self) -> (r: bool)
        ensures
            r == self.spec_is_zero(),
    {
        self.classify() == Category::Zero
    }

    #[verifier::when_used_as_spec(spec_is_subnormal)]
    pub fn is_subnormal(&self) -> (r: bool)
        ensures
            r == self.spec_is_subnormal(),
    {
        self.classify() == Category::Subnormal
    }

    #[verifier::when_used_as_spec(spec_is_normal)]
    pub fn is_normal(&self) -> (r: bool)
        ensures
            r == self.spec_is_normal(),
    {
        self.classify() == Category::Normal
    }

    /// The value lies on the real axis: its tangent is a signed zero.
    #[verifier::when_used_as_spec(spec_is_real)]
    pub fn is_real(&self) -> (r: bool)
        ensures
            r == self.spec_is_real(),
    {
        let a: u64 = fabs(self.tan);
        a == 0 && !fnan(self.mag)
    }

    /// The value lies on the imaginary axis: its tangent is infinite.
    #[verifier::when_used_as_spec(spec_is_imaginary)]
    pub fn is_imaginary(&self) -> (r: bool)
        ensures
            r == self.spec_is_imaginary(),
    {
        let a: u64 = fabs(self.tan);
        a == INF_BITS && !fnan(self.mag)
    }
}

} // verus!
