use betacal_inference::float_bits::{
    clamp_probability, is_finite, is_valid_probability, LOWER_CLAMP_BITS, NEG_ZERO_BITS, ONE_BITS,
    UPPER_CLAMP_BITS, ZERO_BITS,
};
use betacal_inference::method::{CalibrationMethod, FeatureTransform};
use betacal_inference::model::{
    prepare_input, prepare_inputs, BetaCalModel, InferenceError, LogitTerm, ModelDefect,
};

fn bits(values: &[f64]) -> Vec<u64> {
    values.iter().map(|v| v.to_bits()).collect()
}

fn create_test_model() -> BetaCalModel {
    BetaCalModel::new(bits(&[1.2345, -0.6789]), 0.0f64.to_bits(), CalibrationMethod::ABM)
}

#[test]
fn test_invalid_inputs() {
    let model = create_test_model();
    assert!(model.validate().is_ok());

    // Test invalid probabilities
    assert!(prepare_input((-0.1f64).to_bits()).is_err());
    assert!(prepare_input(1.1f64.to_bits()).is_err());
    assert!(prepare_input(f64::NAN.to_bits()).is_err());
    assert!(prepare_input(f64::INFINITY.to_bits()).is_err());

    // Test empty input
    assert!(prepare_inputs(&[]).is_err());
}

#[test]
fn edge_inputs_are_accepted_and_clamped() {
    let edge_cases: [f64; 7] = [0.0, 1e-15, 1e-10, 0.5, 1.0 - 1e-10, 1.0 - 1e-15, 1.0];
    for &p in &edge_cases {
        let prepared = prepare_input(p.to_bits());
        assert!(prepared.is_ok(), "Failed on input {}", p);
        let value = f64::from_bits(prepared.unwrap());
        assert!(value.is_finite());
        assert!(value >= 1e-15 && value <= 1.0 - 1e-15, "Out of bounds for {}", p);
    }
    assert_eq!(prepare_input(0.0f64.to_bits()), Ok(1e-15f64.to_bits()));
    assert_eq!(prepare_input(1.0f64.to_bits()), Ok((1.0f64 - 1e-15).to_bits()));
    assert_eq!(prepare_input(0.5f64.to_bits()), Ok(0.5f64.to_bits()));
    assert_eq!(prepare_input(1e-10f64.to_bits()), Ok(1e-10f64.to_bits()));
}

#[test]
fn negative_zero_is_a_probability() {
    assert!(is_valid_probability(NEG_ZERO_BITS));
    assert_eq!(prepare_input((-0.0f64).to_bits()), Ok(LOWER_CLAMP_BITS));
}

#[test]
fn invalid_inputs_are_reported_with_their_value() {
    assert_eq!(
        prepare_input(1.1f64.to_bits()),
        Err(InferenceError::InvalidProbability(1.1f64.to_bits()))
    );
    assert_eq!(
        prepare_input(f64::NEG_INFINITY.to_bits()),
        Err(InferenceError::InvalidProbability(f64::NEG_INFINITY.to_bits()))
    );
    assert_eq!(
        prepare_input((-1e-300f64).to_bits()),
        Err(InferenceError::InvalidProbability((-1e-300f64).to_bits()))
    );
}

#[test]
fn empty_batch_is_rejected() {
    assert_eq!(prepare_inputs(&[]), Err(InferenceError::EmptyInput));
}

#[test]
fn first_invalid_input_is_reported() {
    let inputs = bits(&[0.5, -0.1, f64::NAN, 2.0]);
    assert_eq!(
        prepare_inputs(&inputs),
        Err(InferenceError::InvalidProbability((-0.1f64).to_bits()))
    );
    let inputs = bits(&[0.5, 0.25, 3.0]);
    assert_eq!(
        prepare_inputs(&inputs),
        Err(InferenceError::InvalidProbability(3.0f64.to_bits()))
    );
}

#[test]
fn batch_matches_single_inputs() {
    let inputs = bits(&[0.1, 0.3, 0.5, 0.7, 0.9, 0.0, 1.0]);
    let batch = prepare_inputs(&inputs).unwrap();
    assert_eq!(batch.len(), inputs.len());
    for (i, &p) in inputs.iter().enumerate() {
        assert_eq!(Ok(batch[i]), prepare_input(p));
    }
}

#[test]
fn clamp_bounds_are_the_documented_values() {
    assert_eq!(LOWER_CLAMP_BITS, 1e-15f64.to_bits());
    assert_eq!(UPPER_CLAMP_BITS, (1.0f64 - 1e-15).to_bits());
    assert_eq!(ONE_BITS, 1.0f64.to_bits());
    assert_eq!(ZERO_BITS, 0.0f64.to_bits());
    assert_eq!(NEG_ZERO_BITS, (-0.0f64).to_bits());
}

#[test]
fn clamp_matches_float_clamp() {
    let values: &[f64] = &[
        -1.0,
        -0.0,
        0.0,
        1e-300,
        1e-15,
        0.25,
        0.999999,
        1.0,
        2.0,
        f64::INFINITY,
        f64::NEG_INFINITY,
        f64::MAX,
    ];
    for &v in values {
        let expected = v.clamp(1e-15, 1.0 - 1e-15);
        assert_eq!(clamp_probability(v.to_bits()), expected.to_bits(), "clamp of {}", v);
    }
    assert!(f64::from_bits(clamp_probability(f64::NAN.to_bits())).is_nan());
}

#[test]
fn finiteness_matches_float_is_finite() {
    let values: &[f64] = &[
        0.0,
        -0.0,
        1.0,
        -2.5,
        f64::MAX,
        f64::MIN,
        f64::MIN_POSITIVE,
        f64::INFINITY,
        f64::NEG_INFINITY,
        f64::NAN,
    ];
    for &v in values {
        assert_eq!(is_finite(v.to_bits()), v.is_finite(), "is_finite of {}", v);
    }
}

#[test]
fn validity_matches_float_comparisons() {
    let values: &[f64] = &[
        0.0, -0.0, 1e-320, 0.3, 1.0, 1.0000000000000002, -1e-320, -0.5, 7.0,
        f64::INFINITY, f64::NEG_INFINITY, f64::NAN,
    ];
    for &v in values {
        let expected = v.is_finite() && !(v < 0.0) && !(v > 1.0);
        assert_eq!(is_valid_probability(v.to_bits()), expected, "validity of {}", v);
    }
}

#[test]
fn new_sets_version_and_no_training_score() {
    let model = BetaCalModel::new(bits(&[1.2, -0.8]), 0.0f64.to_bits(), CalibrationMethod::AB);
    assert_eq!(model.version, "1.0.0");
    assert_eq!(model.training_score, None);
    assert_eq!(model.weights, bits(&[1.2, -0.8]));
    assert_eq!(model.intercept, 0.0f64.to_bits());
    assert_eq!(model.method, CalibrationMethod::AB);
}

#[test]
fn expected_features_per_method() {
    assert_eq!(CalibrationMethod::ABM.expected_features(), 2);
    assert_eq!(CalibrationMethod::AB.expected_features(), 2);
    assert_eq!(CalibrationMethod::AM.expected_features(), 1);
    assert_eq!(CalibrationMethod::A.expected_features(), 1);
    assert_eq!(CalibrationMethod::B.expected_features(), 1);
}

#[test]
fn features_per_method() {
    assert_eq!(
        CalibrationMethod::ABM.features(),
        vec![FeatureTransform::LogP, FeatureTransform::NegLogComplement]
    );
    assert_eq!(
        CalibrationMethod::AB.features(),
        vec![FeatureTransform::LogTwiceP, FeatureTransform::LogTwiceComplement]
    );
    assert_eq!(CalibrationMethod::AM.features(), vec![FeatureTransform::LogOdds]);
    assert_eq!(CalibrationMethod::A.features(), vec![FeatureTransform::LogOdds]);
    assert_eq!(CalibrationMethod::B.features(), vec![FeatureTransform::NegLogInverseOdds]);
}

#[test]
fn models_of_each_method_validate() {
    let cases = [
        (CalibrationMethod::ABM, vec![1.0, -0.5]),
        (CalibrationMethod::AB, vec![1.0, -0.5]),
        (CalibrationMethod::AM, vec![1.0]),
        (CalibrationMethod::A, vec![1.0]),
        (CalibrationMethod::B, vec![-1.0]),
    ];
    for (method, weights) in cases {
        let model = BetaCalModel::new(bits(&weights), 0.0f64.to_bits(), method);
        assert_eq!(model.validate(), Ok(()));
    }
}

#[test]
fn wrong_weight_count_is_reported() {
    let model = BetaCalModel::new(bits(&[1.0]), 0.0f64.to_bits(), CalibrationMethod::ABM);
    assert_eq!(
        model.validate(),
        Err(InferenceError::InvalidModel(ModelDefect::WeightCount {
            method: CalibrationMethod::ABM,
            expected: 2,
            found: 1,
        }))
    );
    // The count is checked before finiteness.
    let model = BetaCalModel::new(bits(&[f64::NAN, 1.0]), f64::NAN.to_bits(), CalibrationMethod::B);
    assert_eq!(
        model.validate(),
        Err(InferenceError::InvalidModel(ModelDefect::WeightCount {
            method: CalibrationMethod::B,
            expected: 1,
            found: 2,
        }))
    );
}

#[test]
fn non_finite_parameters_are_reported() {
    let model = BetaCalModel::new(bits(&[1.0, f64::INFINITY]), f64::NAN.to_bits(), CalibrationMethod::AB);
    assert_eq!(
        model.validate(),
        Err(InferenceError::InvalidModel(ModelDefect::NonFiniteWeight))
    );
    let model = BetaCalModel::new(bits(&[1.0]), f64::NEG_INFINITY.to_bits(), CalibrationMethod::A);
    assert_eq!(
        model.validate(),
        Err(InferenceError::InvalidModel(ModelDefect::NonFiniteIntercept))
    );
}

#[test]
fn logit_terms_pair_features_with_weights() {
    let model = create_test_model();
    assert_eq!(
        model.logit_terms(),
        vec![
            LogitTerm { feature: FeatureTransform::LogP, weight: 1.2345f64.to_bits() },
            LogitTerm { feature: FeatureTransform::NegLogComplement, weight: (-0.6789f64).to_bits() },
        ]
    );
    // Only as many weights as the method has features take part.
    let model = BetaCalModel::new(bits(&[-1.0, 5.0]), 0.0f64.to_bits(), CalibrationMethod::B);
    assert_eq!(
        model.logit_terms(),
        vec![LogitTerm { feature: FeatureTransform::NegLogInverseOdds, weight: (-1.0f64).to_bits() }]
    );
}

#[test]
fn into_validated_keeps_valid_models() {
    let model = create_test_model().into_validated().unwrap();
    assert_eq!(model.weights, bits(&[1.2345, -0.6789]));
    assert_eq!(model.method, CalibrationMethod::ABM);
    let model = BetaCalModel::new(bits(&[1.0]), f64::INFINITY.to_bits(), CalibrationMethod::AM);
    assert_eq!(
        model.into_validated().unwrap_err(),
        InferenceError::InvalidModel(ModelDefect::NonFiniteIntercept)
    );
}
