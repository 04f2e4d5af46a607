//! Calibration methods and the features that each evaluates.

use vstd::prelude::*;

verus! {

/// Calibration method used by a model.
#[derive(Clone, Copy, Debug, PartialEq, Eq, Structural)]
pub enum CalibrationMethod {
    /// Features `log(p)` and `-log(1-p)`: the full three-parameter model.
    ABM,
    /// Features `log(2p)` and `log(2(1-p))`: two parameters, with `m = 0.5`.
    AB,
    /// Feature `log(p/(1-p))`: two parameters, with `a = b`.
    AM,
    /// Feature `log(p/(1-p))`: one parameter, with `a = b` and `m = 0.5`.
    A,
    /// Feature `-log((1-p)/p)`: one parameter.
    B,
}

/// One feature of the (clamped) input probability `p`.
#[derive(Clone, Copy, Debug, PartialEq, Eq, Structural)]
pub enum FeatureTransform {
    /// `log(p)`
    LogP,
    /// `-log(1 - p)`
    NegLogComplement,
    /// `log(2p)`
    LogTwiceP,
    /// `log(2(1 - p))`
    LogTwiceComplement,
    /// `log(p / (1 - p))`
    LogOdds,
    /// `-log((1 - p) / p)`
    NegLogInverseOdds,
}

impl CalibrationMethod {
    /// The number of weights that a model of this method holds.
    pub open spec fn spec_expected_features(self) -> nat {
        match self {
            CalibrationMethod::ABM | CalibrationMethod::AB => 2,
            CalibrationMethod::AM | CalibrationMethod::A | CalibrationMethod::B => 1,
        }
    }

    /// The features that this method evaluates, in the order of its weights.
    pub open spec fn spec_features(self) -> Seq<FeatureTransform> {
        match self {
            CalibrationMethod::ABM => seq![
                FeatureTransform::LogP,
                FeatureTransform::NegLogComplement,
            ],
            CalibrationMethod::AB => seq![
                FeatureTransform::LogTwiceP,
                FeatureTransform::LogTwiceComplement,
            ],
            CalibrationMethod::AM => seq![FeatureTransform::LogOdds],
            CalibrationMethod::A => seq![FeatureTransform::LogOdds],
            CalibrationMethod::B => seq![FeatureTransform::NegLogInverseOdds],
        }
    }

    /// The number of weights that a model of this method holds: two for
    /// `ABM` and `AB`, one for `AM`, `A` and `B`.
    pub fn expected_features(&self) -> (n: usize)
        ensures
            n == self.spec_expected_features(),
            (*self == CalibrationMethod::ABM || *self == CalibrationMethod::AB) ==> n == 2,
            (*self == CalibrationMethod::AM || *self == CalibrationMethod::A
                || *self == CalibrationMethod::B) ==> n == 1,
    {
        match self {
            CalibrationMethod::ABM | CalibrationMethod::AB => 2,
            CalibrationMethod::AM | CalibrationMethod::A | CalibrationMethod::B => 1,
        }
    }

    /// The features that this method evaluates, in the order of its weights.
    pub fn features(&self) -> (f: Vec<FeatureTransform>)
        ensures
            f@ == self.spec_features(),
            *self == CalibrationMethod::ABM ==> f@ == seq![
                FeatureTransform::LogP,
                FeatureTransform::NegLogComplement,
            ],
            *self == CalibrationMethod::AB ==> f@ == seq![
                FeatureTransform::LogTwiceP,
                FeatureTransform::LogTwiceComplement,
            ],
            *self == CalibrationMethod::AM ==> f@ == seq![FeatureTransform::LogOdds],
            *self == CalibrationMethod::A ==> f@ == seq![FeatureTransform::LogOdds],
            *self == CalibrationMethod::B ==> f@ == seq![FeatureTransform::NegLogInverseOdds],
    {
        match self {
            CalibrationMethod::ABM => vec![
                FeatureTransform::LogP,
                FeatureTransform::NegLogComplement,
            ],
            CalibrationMethod::AB => vec![
                FeatureTransform::LogTwiceP,
                FeatureTransform::LogTwiceComplement,
            ],
            CalibrationMethod::AM => vec![FeatureTransform::LogOdds],
            CalibrationMethod::A => vec![FeatureTransform::LogOdds],
            CalibrationMethod::B => vec![FeatureTransform::NegLogInverseOdds],
        }
    }
}

/// Every method evaluates exactly as many features as it expects weights, so
/// that each feature of a valid model meets one weight.
pub proof fn lemma_features_match_weights(method: CalibrationMethod)
    ensures
        method.spec_features().len() == method.spec_expected_features(),
{
}

/// The method table as documented: `ABM` evaluates `log(p)` then
/// `-log(1-p)`; `AB` evaluates `log(2p)` then `log(2(1-p))`; `AM` and `A`
/// evaluate `log(p/(1-p))`; `B` evaluates `-log((1-p)/p)`. The two-feature
/// methods expect two weights, the others one.
pub proof fn lemma_documented_method_table(method: CalibrationMethod)
    ensures
        method == CalibrationMethod::ABM ==> method.spec_expected_features() == 2
            && method.spec_features().len() == 2
            && method.spec_features()[0] == FeatureTransform::LogP
            && method.spec_features()[1] == FeatureTransform::NegLogComplement,
        method == CalibrationMethod::AB ==> method.spec_expected_features() == 2
            && method.spec_features().len() == 2
            && method.spec_features()[0] == FeatureTransform::LogTwiceP
            && method.spec_features()[1] == FeatureTransform::LogTwiceComplement,
        method == CalibrationMethod::AM ==> method.spec_expected_features() == 1
            && method.spec_features().len() == 1
            && method.spec_features()[0] == FeatureTransform::LogOdds,
        method == CalibrationMethod::A ==> method.spec_expected_features() == 1
            && method.spec_features().len() == 1
            && method.spec_features()[0] == FeatureTransform::LogOdds,
        method == CalibrationMethod::B ==> method.spec_expected_features() == 1
            && method.spec_features().len() == 1
            && method.spec_features()[0] == FeatureTransform::NegLogInverseOdds,
{
}

} // verus!
