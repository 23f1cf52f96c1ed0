use inference::engines::{EngineType, InferenceEngine, ModelFormat, OrtEngine, OrtSessionBuilder};
use inference::InferenceError;

#[test]
fn test_ort_engine_creation() {
    let engine = OrtEngine::cpu();
    assert!(engine.is_ok());

    let engine = engine.unwrap();
    assert_eq!(engine.engine_name(), "OnnxRuntime");
    assert_eq!(engine.engine_type(), EngineType::Ort);
    assert!(engine.is_cpu_only());
}

#[test]
fn ort_engine_test_format_support() {
    let engine = OrtEngine::cpu().unwrap();
    assert!(engine.supports_format(&ModelFormat::Onnx));
    assert!(!engine.supports_format(&ModelFormat::SafeTensors));
    assert!(!engine.supports_format(&ModelFormat::PyTorch));
    assert!(!engine.supports_format(&ModelFormat::Linfa));
}

#[test]
fn ort_engine_test_session_builder() {
    let builder = OrtSessionBuilder::new().with_cpu_only();

    let engine = builder.build().unwrap();
    assert!(engine.is_cpu_only());
}

#[test]
fn test_real_ort_engine_no_placeholders() {
    let engine = OrtEngine::cpu().unwrap();
    assert_eq!(engine.engine_name(), "OnnxRuntime");
    assert_eq!(engine.engine_type(), EngineType::Ort);

    // Verify CPU-only mode works
    assert!(engine.is_cpu_only());

    // Test format support
    assert!(engine.supports_format(&ModelFormat::Onnx));
    assert!(!engine.supports_format(&ModelFormat::SafeTensors));
}

#[test]
fn test_unsupported_format_error() {
    let engine = OrtEngine::cpu().unwrap();
    let result = engine.load_model("test.unknown", None);
    assert!(result.is_err());

    if let Err(InferenceError::UnsupportedFormat(_)) = result {
        // Expected error type
    } else {
        panic!("Expected UnsupportedFormat error");
    }
}

#[test]
fn the_runtime_is_not_part_of_the_library() {
    assert!(matches!(OrtEngine::new(), Err(InferenceError::Configuration(_))));
    assert!(matches!(OrtSessionBuilder::new().build(), Err(InferenceError::Configuration(_))));
    assert!(matches!(OrtSessionBuilder::default().build(), Err(InferenceError::Configuration(_))));
    assert!(OrtEngine::default().is_cpu_only());
    let engine = OrtEngine::cpu().unwrap();
    assert!(matches!(
        engine.load_model("graph.ONNX", Some(&[8, 1])),
        Err(InferenceError::Configuration(_))
    ));
    assert!(matches!(engine.load_model("graph", None), Err(InferenceError::UnsupportedFormat(_))));
    assert!(matches!(engine.load_from_bytes(&[8]), Err(InferenceError::Configuration(_))));
    assert!(matches!(
        engine.load_from_bytes(&[1, 2, 3, 4, 5]),
        Err(InferenceError::Configuration(_))
    ));
    assert!(matches!(
        engine.load_from_bytes(&[1, 2, 3, 4]),
        Err(InferenceError::UnsupportedFormat(_))
    ));
    assert!(matches!(engine.load_from_bytes(&[]), Err(InferenceError::UnsupportedFormat(_))));
}
