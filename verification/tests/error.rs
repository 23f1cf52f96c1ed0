use inference::InferenceError;

#[test]
fn constructors_make_their_variants() {
    assert!(matches!(InferenceError::model_load("a"), InferenceError::ModelLoad(m) if m == "a"));
    assert!(matches!(InferenceError::prediction("b"), InferenceError::Prediction(m) if m == "b"));
    assert!(matches!(
        InferenceError::unsupported_format("c"),
        InferenceError::UnsupportedFormat(m) if m == "c"
    ));
    assert!(matches!(
        InferenceError::invalid_tensor_data("d"),
        InferenceError::InvalidTensorData(m) if m == "d"
    ));
    assert!(matches!(
        InferenceError::invalid_shape_msg("e"),
        InferenceError::InvalidTensorData(m) if m == "e"
    ));
    assert!(matches!(
        InferenceError::configuration("f"),
        InferenceError::Configuration(m) if m == "f"
    ));
    assert!(matches!(
        InferenceError::resource_not_found("g"),
        InferenceError::ResourceNotFound(m) if m == "g"
    ));
    assert!(matches!(
        InferenceError::memory_allocation("h"),
        InferenceError::MemoryAllocation(m) if m == "h"
    ));
    assert!(matches!(InferenceError::gpu("i"), InferenceError::Gpu(m) if m == "i"));
    assert!(matches!(
        InferenceError::format_detection("j"),
        InferenceError::FormatDetection(m) if m == "j"
    ));
    match InferenceError::invalid_shape(vec![1, 2], vec![3]) {
        InferenceError::InvalidShape { expected, actual } => {
            assert_eq!(expected, vec![1, 2]);
            assert_eq!(actual, vec![3]);
        }
        other => panic!("unexpected {:?}", other),
    }
}

#[test]
fn messages_introduce_the_kind() {
    let cases = vec![
        (InferenceError::ModelLoad("x".into()), "Model loading failed: x"),
        (InferenceError::Prediction("x".into()), "Prediction failed: x"),
        (InferenceError::UnsupportedFormat("x".into()), "Unsupported format: x"),
        (InferenceError::InvalidTensorData("x".into()), "Invalid tensor data: x"),
        (InferenceError::Engine("x".into()), "Engine error: x"),
        (InferenceError::Io("x".into()), "IO error: x"),
        (InferenceError::Serialization("x".into()), "Serialization error: x"),
        (InferenceError::Configuration("x".into()), "Configuration error: x"),
        (InferenceError::ResourceNotFound("x".into()), "Resource not found: x"),
        (InferenceError::MemoryAllocation("x".into()), "Memory allocation failed: x"),
        (InferenceError::ThreadPool("x".into()), "Thread pool error: x"),
        (InferenceError::Gpu("x".into()), "GPU error: x"),
        (InferenceError::FormatDetection("x".into()), "Model format detection failed: x"),
    ];
    for (error, text) in cases {
        assert_eq!(error.message(), text);
    }
}

#[test]
fn shape_errors_print_both_shapes() {
    let error = InferenceError::invalid_shape(vec![1, 224, 224], vec![]);
    assert_eq!(error.message(), "Invalid input shape: expected [1, 224, 224], got []");
    let error = InferenceError::invalid_shape(vec![0], vec![usize::MAX, 10]);
    assert_eq!(
        error.message(),
        format!("Invalid input shape: expected {:?}, got {:?}", vec![0usize], vec![
            usize::MAX,
            10
        ])
    );
}

#[test]
fn errors_can_be_cloned() {
    let error = InferenceError::model_load("gone");
    assert_eq!(error.clone().message(), error.message());
}
