use tangram_wasm::predict::{
    plan_predict, resolve_predict_options, BatchShape, PredictInputSingleOrMultiple,
    PredictOptions, PredictOutputSingleOrMultiple, ResolvedPredictOptions,
};

fn model_defaults() -> ResolvedPredictOptions {
    ResolvedPredictOptions {
        threshold_bits: 0.5f32.to_bits(),
        compute_feature_contributions: false,
    }
}

#[test]
fn missing_options_use_the_defaults() {
    let resolved = resolve_predict_options(None, model_defaults());
    assert_eq!(resolved, model_defaults());
}

#[test]
fn empty_options_use_the_defaults() {
    let options = PredictOptions {
        threshold_bits: None,
        compute_feature_contributions: None,
    };
    let resolved = resolve_predict_options(Some(options), model_defaults());
    assert_eq!(resolved, model_defaults());
}

#[test]
fn threshold_overrides_only_the_threshold() {
    let options = PredictOptions {
        threshold_bits: Some(0.25f32.to_bits()),
        compute_feature_contributions: None,
    };
    let resolved = resolve_predict_options(Some(options), model_defaults());
    assert_eq!(f32::from_bits(resolved.threshold_bits), 0.25f32);
    assert!(!resolved.compute_feature_contributions);
}

#[test]
fn feature_contributions_override_only_that_flag() {
    let options = PredictOptions {
        threshold_bits: None,
        compute_feature_contributions: Some(true),
    };
    let resolved = resolve_predict_options(Some(options), model_defaults());
    assert_eq!(f32::from_bits(resolved.threshold_bits), 0.5f32);
    assert!(resolved.compute_feature_contributions);
}

#[test]
fn both_options_override_both_defaults() {
    let options = PredictOptions {
        threshold_bits: Some(0.9f32.to_bits()),
        compute_feature_contributions: Some(true),
    };
    let resolved = resolve_predict_options(Some(options), model_defaults());
    assert_eq!(
        resolved,
        ResolvedPredictOptions {
            threshold_bits: 0.9f32.to_bits(),
            compute_feature_contributions: true,
        }
    );
}

#[test]
fn resolving_twice_is_resolving_once() {
    let options = Some(PredictOptions {
        threshold_bits: Some(0.1f32.to_bits()),
        compute_feature_contributions: None,
    });
    let once = resolve_predict_options(options, model_defaults());
    let twice = resolve_predict_options(options, once);
    assert_eq!(once, twice);
}

#[test]
fn single_input_is_a_batch_of_one() {
    let (shape, batch) = PredictInputSingleOrMultiple::Single("a").into_batch();
    assert_eq!(shape, BatchShape::Single);
    assert_eq!(batch, vec!["a"]);
}

#[test]
fn multiple_inputs_keep_their_order() {
    let input = PredictInputSingleOrMultiple::Multiple(vec![3, 1, 2]);
    let (shape, batch) = input.into_batch();
    assert_eq!(shape, BatchShape::Multiple);
    assert_eq!(batch, vec![3, 1, 2]);
}

#[test]
fn empty_list_of_inputs_is_an_empty_batch() {
    let input: PredictInputSingleOrMultiple<u8> = PredictInputSingleOrMultiple::Multiple(vec![]);
    let (shape, batch) = input.into_batch();
    assert_eq!(shape, BatchShape::Multiple);
    assert!(batch.is_empty());
}

#[test]
fn single_reply_is_the_first_output() {
    let reply = PredictOutputSingleOrMultiple::from_batch(BatchShape::Single, vec![7, 8]);
    match reply {
        PredictOutputSingleOrMultiple::Single(output) => assert_eq!(output, 7),
        PredictOutputSingleOrMultiple::Multiple(_) => panic!("expected a single reply"),
    }
}

#[test]
fn multiple_reply_keeps_every_output() {
    let reply = PredictOutputSingleOrMultiple::from_batch(BatchShape::Multiple, vec![7, 8, 9]);
    match reply {
        PredictOutputSingleOrMultiple::Multiple(outputs) => assert_eq!(outputs, vec![7, 8, 9]),
        PredictOutputSingleOrMultiple::Single(_) => panic!("expected a list reply"),
    }
}

#[test]
fn reply_mirrors_request_through_a_model() {
    let request = plan_predict(
        PredictInputSingleOrMultiple::Multiple(vec![1u32, 2, 3]),
        None,
        model_defaults(),
    );
    assert_eq!(request.shape, BatchShape::Multiple);
    assert_eq!(request.options, model_defaults());
    let outputs: Vec<u32> = request.inputs.iter().map(|x| x * 10).collect();
    match PredictOutputSingleOrMultiple::from_batch(request.shape, outputs) {
        PredictOutputSingleOrMultiple::Multiple(outputs) => assert_eq!(outputs, vec![10, 20, 30]),
        PredictOutputSingleOrMultiple::Single(_) => panic!("expected a list reply"),
    }
}

#[test]
fn single_request_round_trip() {
    let options = PredictOptions {
        threshold_bits: Some(0.75f32.to_bits()),
        compute_feature_contributions: Some(true),
    };
    let request = plan_predict(
        PredictInputSingleOrMultiple::Single(String::from("input")),
        Some(options),
        model_defaults(),
    );
    assert_eq!(request.shape, BatchShape::Single);
    assert_eq!(request.inputs, vec![String::from("input")]);
    assert_eq!(f32::from_bits(request.options.threshold_bits), 0.75f32);
    assert!(request.options.compute_feature_contributions);
    let outputs: Vec<usize> = request.inputs.iter().map(|s| s.len()).collect();
    match PredictOutputSingleOrMultiple::from_batch(request.shape, outputs) {
        PredictOutputSingleOrMultiple::Single(output) => assert_eq!(output, 5),
        PredictOutputSingleOrMultiple::Multiple(_) => panic!("expected a single reply"),
    }
}
