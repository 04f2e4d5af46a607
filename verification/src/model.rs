//! The model record, its validation, and the checking of inputs.

use vstd::prelude::*;
use crate::float_bits::{
    clamp_probability, clamped_probability, is_finite, is_probability, is_valid_probability,
    lemma_clamped_within_bounds, spec_is_finite, within_clamp_bounds,
};
use crate::method::{CalibrationMethod, FeatureTransform};

verus! {

/// What makes a model unusable.
#[derive(Clone, Copy, Debug, PartialEq, Eq, Structural)]
pub enum ModelDefect {
    /// The method expects `expected` weights, and the model holds `found`.
    WeightCount { method: CalibrationMethod, expected: usize, found: usize },
    /// A weight is infinite or NaN.
    NonFiniteWeight,
    /// The intercept is infinite or NaN.
    NonFiniteIntercept,
}

/// Errors that can occur during inference.
#[derive(Clone, Copy, Debug, PartialEq, Eq, Structural)]
pub enum InferenceError {
    /// No input was given.
    EmptyInput,
    /// An input (given by its bit pattern) is not a probability in `[0, 1]`.
    InvalidProbability(u64),
    /// The model's parameters do not fit its method.
    InvalidModel(ModelDefect),
}

/// A beta calibration model: the parameters of the logistic regression that
/// was trained on the features of its method. Floating-point parameters are
/// held as their IEEE-754 bit patterns.
#[derive(Debug)]
pub struct BetaCalModel {
    /// Logistic regression weights, one per feature of the method.
    pub weights: Vec<u64>,
    /// Logistic regression intercept.
    pub intercept: u64,
    /// Calibration method.
    pub method: CalibrationMethod,
    /// Model version.
    pub version: String,
    /// Training score, where one was recorded.
    pub training_score: Option<u64>,
}

/// A feature of the input together with the weight that multiplies it.
#[derive(Clone, Copy, Debug, PartialEq, Eq, Structural)]
pub struct LogitTerm {
    pub feature: FeatureTransform,
    pub weight: u64,
}

impl BetaCalModel {
    /// The first defect of the model, checked in this order: the number of
    /// weights, the finiteness of every weight, the finiteness of the
    /// intercept.
    pub open spec fn defect(self) -> Option<ModelDefect> {
        if self.weights@.len() != self.method.spec_expected_features() {
            Some(
                ModelDefect::WeightCount {
                    method: self.method,
                    expected: self.method.spec_expected_features() as usize,
                    found: self.weights@.len() as usize,
                },
            )
        } else if exists|i: int| 0 <= i < self.weights@.len() && !spec_is_finite(#[trigger] self.weights@[i]) {
            Some(ModelDefect::NonFiniteWeight)
        } else if !spec_is_finite(self.intercept) {
            Some(ModelDefect::NonFiniteIntercept)
        } else {
            None
        }
    }

    /// The model holds one finite weight per feature of its method and a
    /// finite intercept.
    pub open spec fn is_valid(self) -> bool {
        self.defect() is None
    }

    /// The features of the method paired with the first weights, in order.
    pub open spec fn spec_logit_terms(self) -> Seq<LogitTerm> {
        Seq::new(
            self.method.spec_expected_features(),
            |i: int| LogitTerm { feature: self.method.spec_features()[i], weight: self.weights@[i] },
        )
    }

    /// Creates a model of version `"1.0.0"` with no training score.
    pub fn new(weights: Vec<u64>, intercept: u64, method: CalibrationMethod) -> (m: Self)
        ensures
            m.weights@ == weights@,
            m.intercept == intercept,
            m.method == method,
            m.version@ == "1.0.0"@,
            m.training_score is None,
    {
        BetaCalModel { weights, intercept, method, version: "1.0.0".to_owned(), training_score: None }
    }

    /// Checks that the model can be used: `Ok` exactly when it is valid, and
    /// otherwise the first defect.
    pub fn validate(&self) -> (r: Result<(), InferenceError>)
        ensures
            r is Ok <==> self.is_valid(),
            match self.defect() {
                Some(d) => r == Err::<(), InferenceError>(InferenceError::InvalidModel(d)),
                None => r == Ok::<(), InferenceError>(()),
            },
            r is Ok <==> {
                &&& self.weights@.len() == self.method.spec_expected_features()
                &&& forall|i: int| 0 <= i < self.weights@.len() ==> spec_is_finite(#[trigger] self.weights@[i])
                &&& spec_is_finite(self.intercept)
            },
            self.weights@.len() != self.method.spec_expected_features() ==> r == Err::<(), InferenceError>(
                InferenceError::InvalidModel(
                    ModelDefect::WeightCount {
                        method: self.method,
                        expected: self.method.spec_expected_features() as usize,
                        found: self.weights@.len() as usize,
                    },
                ),
            ),
            (self.weights@.len() == self.method.spec_expected_features() && exists|i: int|
                0 <= i < self.weights@.len() && !spec_is_finite(#[trigger] self.weights@[i]))
                ==> r == Err::<(), InferenceError>(InferenceError::InvalidModel(ModelDefect::NonFiniteWeight)),
            (self.weights@.len() == self.method.spec_expected_features()
                && (forall|i: int| 0 <= i < self.weights@.len() ==> spec_is_finite(#[trigger] self.weights@[i]))
                && !spec_is_finite(self.intercept))
                ==> r == Err::<(), InferenceError>(InferenceError::InvalidModel(ModelDefect::NonFiniteIntercept)),
    {
        let expected = self.method.expected_features();
        if self.weights.len() != expected {
            return Err(
                InferenceError::InvalidModel(
                    ModelDefect::WeightCount {
                        method: self.method,
                        expected,
                        found: self.weights.len(),
                    },
                ),
            );
        }
        let n = self.weights.len();
        for i in 0..n
            invariant
                n == self.weights@.len(),
                n == self.method.spec_expected_features(),
                forall|j: int| 0 <= j < i ==> spec_is_finite(#[trigger] self.weights@[j]),
        {
            if !is_finite(self.weights[i]) {
                assert(!spec_is_finite(self.weights@[i as int]));
                return Err(InferenceError::InvalidModel(ModelDefect::NonFiniteWeight));
            }
        }
        if !is_finite(self.intercept) {
            return Err(InferenceError::InvalidModel(ModelDefect::NonFiniteIntercept));
        }
        Ok(())
    }

    /// Accepts a model that has just been read in: the model itself when it is
    /// valid, and otherwise its first defect.
    pub fn into_validated(self) -> (r: Result<Self, InferenceError>)
        ensures
            r matches Ok(m) ==> m == self && m.is_valid(),
            r is Ok <==> {
                &&& self.weights@.len() == self.method.spec_expected_features()
                &&& forall|i: int| 0 <= i < self.weights@.len() ==> spec_is_finite(#[trigger] self.weights@[i])
                &&& spec_is_finite(self.intercept)
            },
            match self.defect() {
                Some(d) => r matches Err(e) && e == InferenceError::InvalidModel(d),
                None => r is Ok,
            },
    {
        match self.validate() {
            Ok(()) => Ok(self),
            Err(e) => Err(e),
        }
    }

    /// Each feature of the method with the weight that multiplies it. Only the
    /// first weights, one per feature, take part; further weights are unused.
    pub fn logit_terms(&self) -> (t: Vec<LogitTerm>)
        requires
            self.weights@.len() >= self.method.spec_expected_features(),
        ensures
            t@ == self.spec_logit_terms(),
            t@.len() == self.method.spec_expected_features(),
            forall|i: int| 0 <= i < t@.len() ==> (#[trigger] t@[i]).weight == self.weights@[i]
                && t@[i].feature == self.method.spec_features()[i],
            self.method == CalibrationMethod::ABM ==> t@.len() == 2
                && t@[0].feature == FeatureTransform::LogP
                && t@[1].feature == FeatureTransform::NegLogComplement,
            self.method == CalibrationMethod::AB ==> t@.len() == 2
                && t@[0].feature == FeatureTransform::LogTwiceP
                && t@[1].feature == FeatureTransform::LogTwiceComplement,
            self.method == CalibrationMethod::AM ==> t@.len() == 1
                && t@[0].feature == FeatureTransform::LogOdds,
            self.method == CalibrationMethod::A ==> t@.len() == 1
                && t@[0].feature == FeatureTransform::LogOdds,
            self.method == CalibrationMethod::B ==> t@.len() == 1
                && t@[0].feature == FeatureTransform::NegLogInverseOdds,
    {
        let features = self.method.features();
        let mut terms: Vec<LogitTerm> = Vec::new();
        let n = features.len();
        for i in 0..n
            invariant
                n == features@.len(),
                features@ == self.method.spec_features(),
                n == self.method.spec_expected_features(),
                self.weights@.len() >= n,
                terms@.len() == i,
                forall|j: int| 0 <= j < i ==> #[trigger] terms@[j] == self.spec_logit_terms()[j],
        {
            terms.push(LogitTerm { feature: features[i], weight: self.weights[i] });
        }
        assert(terms@ =~= self.spec_logit_terms());
        proof {
            lemma_logit_terms_follow_documented_features(*self);
        }
        terms
    }
}

/// All inputs are probabilities.
pub open spec fn all_probabilities(ps: Seq<u64>) -> bool {
    forall|i: int| 0 <= i < ps.len() ==> is_probability(#[trigger] ps[i])
}

/// `k` is the position of the first input that is not a probability.
pub open spec fn is_first_invalid(ps: Seq<u64>, k: int) -> bool {
    &&& 0 <= k < ps.len()
    &&& !is_probability(ps[k])
    &&& forall|j: int| 0 <= j < k ==> is_probability(#[trigger] ps[j])
}

/// The outcome of checking a batch of inputs: no inputs is an error; otherwise
/// the first input that is not a probability is reported; otherwise every
/// input is clamped into `[1e-15, 1.0 - 1e-15]`, in order.
pub open spec fn spec_prepare_inputs(ps: Seq<u64>) -> Result<Seq<u64>, InferenceError> {
    if ps.len() == 0 {
        Err(InferenceError::EmptyInput)
    } else if all_probabilities(ps) {
        Ok(ps.map_values(|b: u64| clamped_probability(b)))
    } else {
        Err(InferenceError::InvalidProbability(ps[choose|k: int| is_first_invalid(ps, k)]))
    }
}

/// The outcome of checking a single input.
pub open spec fn spec_prepare_input(p: u64) -> Result<u64, InferenceError> {
    if is_probability(p) {
        Ok(clamped_probability(p))
    } else {
        Err(InferenceError::InvalidProbability(p))
    }
}

/// Checks a batch of input probabilities (as bit patterns) and clamps each
/// into `[1e-15, 1.0 - 1e-15]`, the values at which the features are then
/// evaluated. Fails with `EmptyInput` on an empty batch, and otherwise with
/// `InvalidProbability` of the first input that is NaN, infinite, below `0.0`
/// or above `1.0`.
pub fn prepare_inputs(probabilities: &[u64]) -> (r: Result<Vec<u64>, InferenceError>)
    ensures
        r is Ok <==> probabilities@.len() > 0 && forall|i: int|
            0 <= i < probabilities@.len() ==> is_probability(#[trigger] probabilities@[i]),
        match r {
            Ok(v) => spec_prepare_inputs(probabilities@) == Ok::<Seq<u64>, InferenceError>(v@),
            Err(e) => spec_prepare_inputs(probabilities@) == Err::<Seq<u64>, InferenceError>(e),
        },
        r matches Ok(v) ==> v@.len() == probabilities@.len() && forall|i: int|
            0 <= i < v@.len() ==> v@[i] == clamped_probability(#[trigger] probabilities@[i]),
        r matches Err(InferenceError::InvalidProbability(b)) ==> exists|k: int|
            0 <= k < probabilities@.len() && !is_probability(#[trigger] probabilities@[k])
            && b == probabilities@[k]
            && forall|j: int| 0 <= j < k ==> is_probability(#[trigger] probabilities@[j]),
        r is Err ==> (r == Err::<Vec<u64>, InferenceError>(InferenceError::EmptyInput)
            <==> probabilities@.len() == 0),
{
    let ghost ps = probabilities@;
    if probabilities.len() == 0 {
        return Err(InferenceError::EmptyInput);
    }
    let mut result: Vec<u64> = Vec::with_capacity(probabilities.len());
    let n = probabilities.len();
    for i in 0..n
        invariant
            n == ps.len(),
            ps == probabilities@,
            n > 0,
            result@.len() == i,
            forall|j: int| 0 <= j < i ==> is_probability(#[trigger] ps[j]),
            forall|j: int| 0 <= j < i ==> #[trigger] result@[j] == clamped_probability(ps[j]),
    {
        let p = probabilities[i];
        if !is_valid_probability(p) {
            proof {
                assert(is_first_invalid(ps, i as int));
                let k = choose|k: int| is_first_invalid(ps, k);
                assert(is_first_invalid(ps, k));
                if k < i {
                    assert(is_probability(ps[k]));
                } else if k > i {
                    assert(is_probability(ps[i as int]));
                }
                assert(k == i);
            }
            return Err(InferenceError::InvalidProbability(p));
        }
        let clamped = clamp_probability(p);
        result.push(clamped);
    }
    proof {
        assert(result@ =~= ps.map_values(|b: u64| clamped_probability(b)));
    }
    Ok(result)
}

/// Checks and clamps a single input probability, as a batch of one.
pub fn prepare_input(probability: u64) -> (r: Result<u64, InferenceError>)
    ensures
        r == spec_prepare_input(probability),
        r is Ok <==> is_probability(probability),
        r matches Ok(c) ==> c == clamped_probability(probability),
        r matches Err(e) ==> e == InferenceError::InvalidProbability(probability),
{
    let batch = vec![probability];
    match prepare_inputs(batch.as_slice()) {
        Ok(v) => Ok(v[0]),
        Err(e) => {
            proof {
                if is_probability(probability) {
                    assert(all_probabilities(batch@));
                }
                assert(is_first_invalid(batch@, 0));
            }
            Err(e)
        },
    }
}

/// Checking a batch agrees with checking its inputs one by one: the batch is
/// accepted exactly when it is not empty and every input is accepted alone,
/// each prepared value is the one prepared for that input alone, and a
/// rejected batch reports the error of the first input rejected alone.
pub proof fn lemma_batch_agrees_with_single(ps: Seq<u64>)
    ensures
        spec_prepare_inputs(ps) is Ok <==> (ps.len() > 0 && forall|i: int|
            0 <= i < ps.len() ==> #[trigger] spec_prepare_input(ps[i]) is Ok),
        spec_prepare_inputs(ps) matches Ok(v) ==> v.len() == ps.len() && forall|i: int|
            0 <= i < ps.len() ==> Ok::<u64, InferenceError>(v[i]) == #[trigger] spec_prepare_input(ps[i]),
        spec_prepare_inputs(ps) matches Err(InferenceError::InvalidProbability(b)) ==> exists|k: int|
            0 <= k < ps.len()
            && #[trigger] spec_prepare_input(ps[k]) == Err::<u64, InferenceError>(InferenceError::InvalidProbability(b))
            && forall|j: int| 0 <= j < k ==> #[trigger] spec_prepare_input(ps[j]) is Ok,
{
    if ps.len() > 0 && !all_probabilities(ps) {
        let i = choose|i: int| 0 <= i < ps.len() && !is_probability(#[trigger] ps[i]);
        lemma_first_invalid_exists(ps, i);
        let k = choose|k: int| is_first_invalid(ps, k);
        assert(spec_prepare_input(ps[k]) is Err);
        assert forall|j: int| 0 <= j < k implies #[trigger] spec_prepare_input(ps[j]) is Ok by {
            assert(is_probability(ps[j]));
        }
    }
    if ps.len() > 0 && all_probabilities(ps) {
        assert forall|i: int| 0 <= i < ps.len() implies #[trigger] spec_prepare_input(ps[i]) is Ok by {
            assert(is_probability(ps[i]));
        }
    }
    if ps.len() > 0 && (forall|i: int| 0 <= i < ps.len() ==> #[trigger] spec_prepare_input(ps[i]) is Ok) {
        assert forall|i: int| 0 <= i < ps.len() implies is_probability(#[trigger] ps[i]) by {
            assert(spec_prepare_input(ps[i]) is Ok);
        }
    }
}

/// Where some input is not a probability, there is a first such input.
proof fn lemma_first_invalid_exists(ps: Seq<u64>, i: int)
    requires
        0 <= i < ps.len(),
        !is_probability(ps[i]),
    ensures
        exists|k: int| is_first_invalid(ps, k),
    decreases i,
{
    if forall|j: int| 0 <= j < i ==> is_probability(#[trigger] ps[j]) {
        assert(is_first_invalid(ps, i));
    } else {
        let j = choose|j: int| 0 <= j < i && !is_probability(#[trigger] ps[j]);
        lemma_first_invalid_exists(ps, j);
    }
}

/// Every prepared value is a finite probability strictly between `0.0` and
/// `1.0`, within `[1e-15, 1.0 - 1e-15]`.
pub proof fn lemma_prepared_within_bounds(ps: Seq<u64>)
    ensures
        spec_prepare_inputs(ps) matches Ok(v) ==> forall|i: int|
            0 <= i < v.len() ==> within_clamp_bounds(#[trigger] v[i]),
{
    if spec_prepare_inputs(ps) is Ok {
        assert forall|i: int| 0 <= i < ps.len() implies within_clamp_bounds(
            #[trigger] clamped_probability(ps[i]),
        ) by {
            lemma_clamped_within_bounds(ps[i]);
        }
    }
}

/// The logit terms of a model whose weights cover its method pair the
/// method's documented features, in order, with the leading weights: for
/// `ABM`, `log(p)` with the first weight and `-log(1-p)` with the second; for
/// `AB`, `log(2p)` with the first and `log(2(1-p))` with the second; for `AM`
/// and `A`, `log(p/(1-p))` with the first; for `B`, `-log((1-p)/p)` with the
/// first.
pub proof fn lemma_logit_terms_follow_documented_features(m: BetaCalModel)
    requires
        m.weights@.len() >= m.method.spec_expected_features(),
    ensures
        forall|i: int| 0 <= i < m.spec_logit_terms().len() ==> (#[trigger] m.spec_logit_terms()[i]).weight
            == m.weights@[i],
        m.method == CalibrationMethod::ABM ==> {
            let t = m.spec_logit_terms();
            &&& t.len() == 2
            &&& t[0] == LogitTerm { feature: FeatureTransform::LogP, weight: m.weights@[0] }
            &&& t[1] == LogitTerm { feature: FeatureTransform::NegLogComplement, weight: m.weights@[1] }
        },
        m.method == CalibrationMethod::AB ==> {
            let t = m.spec_logit_terms();
            &&& t.len() == 2
            &&& t[0] == LogitTerm { feature: FeatureTransform::LogTwiceP, weight: m.weights@[0] }
            &&& t[1] == LogitTerm { feature: FeatureTransform::LogTwiceComplement, weight: m.weights@[1] }
        },
        m.method == CalibrationMethod::AM ==> {
            let t = m.spec_logit_terms();
            &&& t.len() == 1
            &&& t[0] == LogitTerm { feature: FeatureTransform::LogOdds, weight: m.weights@[0] }
        },
        m.method == CalibrationMethod::A ==> {
            let t = m.spec_logit_terms();
            &&& t.len() == 1
            &&& t[0] == LogitTerm { feature: FeatureTransform::LogOdds, weight: m.weights@[0] }
        },
        m.method == CalibrationMethod::B ==> {
            let t = m.spec_logit_terms();
            &&& t.len() == 1
            &&& t[0] == LogitTerm { feature: FeatureTransform::NegLogInverseOdds, weight: m.weights@[0] }
        },
{
    crate::method::lemma_documented_method_table(m.method);
}

/// A model is valid exactly when it holds as many weights as its method has
/// features, every weight is finite and the intercept is finite; in
/// particular a single infinite or NaN weight, wherever it stands, makes it
/// invalid, and a finite intercept of any sign or size is accepted.
pub proof fn lemma_validity_is_count_and_finiteness(m: BetaCalModel)
    ensures
        m.is_valid() <==> {
            &&& m.weights@.len() == m.method.spec_expected_features()
            &&& forall|i: int| 0 <= i < m.weights@.len() ==> spec_is_finite(#[trigger] m.weights@[i])
            &&& spec_is_finite(m.intercept)
        },
        m.weights@.len() == m.method.spec_expected_features() ==> forall|i: int|
            0 <= i < m.weights@.len() && !spec_is_finite(#[trigger] m.weights@[i])
            ==> m.defect() == Some(ModelDefect::NonFiniteWeight),
        (m.weights@.len() == m.method.spec_expected_features()
            && (forall|i: int| 0 <= i < m.weights@.len() ==> spec_is_finite(#[trigger] m.weights@[i]))
            && !spec_is_finite(m.intercept)) ==> m.defect() == Some(ModelDefect::NonFiniteIntercept),
{
}

/// A valid model pairs every one of its weights with a feature, in order.
pub proof fn lemma_valid_model_uses_every_weight(m: BetaCalModel)
    requires
        m.is_valid(),
    ensures
        m.spec_logit_terms().len() == m.weights@.len(),
        forall|i: int| 0 <= i < m.weights@.len() ==> (#[trigger] m.spec_logit_terms()[i]).weight == m.weights@[i],
{
}

} // verus!
