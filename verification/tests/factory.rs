use inference::engines::{EngineConfig, EngineFactory, EngineType, InferenceEngine, ModelFormat};
use inference::InferenceError;

#[test]
fn test_format_detection_from_extension() {
    assert_eq!(
        EngineFactory::detect_format_from_path("model.safetensors", None).unwrap(),
        ModelFormat::SafeTensors
    );
    assert_eq!(
        EngineFactory::detect_format_from_path("model.pt", None).unwrap(),
        ModelFormat::PyTorch
    );
    assert_eq!(
        EngineFactory::detect_format_from_path("model.pth", None).unwrap(),
        ModelFormat::PyTorch
    );
    assert_eq!(
        EngineFactory::detect_format_from_path("model.linfa", None).unwrap(),
        ModelFormat::Linfa
    );
}

#[test]
fn test_format_detection_from_bytes() {
    // SafeTensors format (starts with JSON)
    let safetensors_bytes = b"{\"__metadata__\": {\"format\": \"pt\"}}";
    assert_eq!(
        EngineFactory::detect_format_from_bytes(safetensors_bytes).unwrap(),
        ModelFormat::SafeTensors
    );

    // PyTorch format (pickle, starts with 0x80)
    let pytorch_bytes = b"\x80\x02}q\x00";
    assert_eq!(
        EngineFactory::detect_format_from_bytes(pytorch_bytes).unwrap(),
        ModelFormat::PyTorch
    );

    // Unknown format defaults to SafeTensors
    let unknown_bytes = b"unknown format";
    assert_eq!(
        EngineFactory::detect_format_from_bytes(unknown_bytes).unwrap(),
        ModelFormat::SafeTensors
    );
}

#[test]
fn test_available_engines() {
    let engines = EngineFactory::available_engines();
    assert!(!engines.is_empty(), "At least one engine should be available");

    // Check that available engines can be created
    for engine_type in engines {
        assert!(EngineFactory::is_engine_available(engine_type));
    }
}

#[test]
fn test_preferred_engine_for_format() {
    assert_eq!(
        EngineFactory::preferred_engine_for_format(ModelFormat::SafeTensors),
        EngineType::Candle
    );
    assert_eq!(
        EngineFactory::preferred_engine_for_format(ModelFormat::PyTorch),
        EngineType::Candle
    );
    assert_eq!(
        EngineFactory::preferred_engine_for_format(ModelFormat::Linfa),
        EngineType::Linfa
    );
}

#[test]
fn test_engine_config() {
    let config = EngineConfig::new()
        .with_preferred_engine(EngineType::Candle)
        .with_fallback(false)
        .with_gpu_acceleration(true);

    assert_eq!(config.preferred_engine, Some(EngineType::Candle));
    assert!(!config.allow_fallback);
    assert!(config.gpu_acceleration);
}

#[test]
fn test_create_engine_for_available_formats() {
    let available_engines = EngineFactory::available_engines();

    for engine_type in available_engines {
        let result = EngineFactory::create_engine_by_type(engine_type);
        assert!(result.is_ok(), "Should be able to create available engine {:?}", engine_type);

        let engine = result.unwrap();
        assert_eq!(engine.engine_type(), engine_type);
    }
}

#[test]
fn available_engines_are_in_declaration_order() {
    assert_eq!(EngineFactory::available_engines(), vec![EngineType::Candle, EngineType::Linfa]);
    assert!(!EngineFactory::is_engine_available(EngineType::Ort));
}

#[test]
fn onnx_prefers_the_backend_that_is_missing() {
    assert_eq!(EngineFactory::preferred_engine_for_format(ModelFormat::Onnx), EngineType::Ort);
    assert!(matches!(
        EngineFactory::create_engine(ModelFormat::Onnx),
        Err(InferenceError::Configuration(_))
    ));
    assert!(matches!(
        EngineFactory::create_engine_by_type(EngineType::Ort),
        Err(InferenceError::Configuration(_))
    ));
    let best = EngineFactory::create_best_engine_for_format(ModelFormat::Onnx).unwrap();
    assert_eq!(best.engine_type(), EngineType::Candle);
}

#[test]
fn strict_creation_gives_the_preferred_backend() {
    let engine = EngineFactory::create_engine(ModelFormat::SafeTensors).unwrap();
    assert_eq!(engine.engine_type(), EngineType::Candle);
    assert_eq!(engine.engine_name(), "candle");
    let engine = EngineFactory::create_engine(ModelFormat::Linfa).unwrap();
    assert_eq!(engine.engine_type(), EngineType::Linfa);
    assert_eq!(engine.engine_name(), "Linfa");
}

#[test]
fn config_without_fallback_fails_on_a_missing_backend() {
    let config = EngineConfig::new().with_preferred_engine(EngineType::Ort).with_fallback(false);
    assert!(matches!(
        config.create_engine(ModelFormat::SafeTensors),
        Err(InferenceError::Configuration(_))
    ));
    let config = EngineConfig::new().with_fallback(false);
    assert!(matches!(
        config.create_engine(ModelFormat::Onnx),
        Err(InferenceError::Configuration(_))
    ));
}

#[test]
fn config_with_fallback_takes_the_best_backend_for_the_format() {
    let config = EngineConfig::new().with_preferred_engine(EngineType::Ort);
    let engine = config.create_engine(ModelFormat::Linfa).unwrap();
    assert_eq!(engine.engine_type(), EngineType::Linfa);
    let engine = config.create_engine(ModelFormat::Onnx).unwrap();
    assert_eq!(engine.engine_type(), EngineType::Candle);
}

#[test]
fn config_without_preference_follows_the_format() {
    let config = EngineConfig::new().with_fallback(false);
    let engine = config.create_engine(ModelFormat::Linfa).unwrap();
    assert_eq!(engine.engine_type(), EngineType::Linfa);
    let config = EngineConfig::default();
    assert_eq!(config.preferred_engine, None);
    assert!(config.allow_fallback);
    assert!(config.gpu_acceleration);
}

#[test]
fn config_prefers_the_callers_backend_over_the_formats() {
    let config = EngineConfig::new().with_preferred_engine(EngineType::Linfa);
    let engine = config.create_engine(ModelFormat::SafeTensors).unwrap();
    assert_eq!(engine.engine_type(), EngineType::Linfa);
}

#[test]
fn empty_content_has_no_format() {
    assert!(matches!(
        EngineFactory::detect_format_from_bytes(&[]),
        Err(InferenceError::UnsupportedFormat(_))
    ));
    assert!(matches!(EngineFactory::from_bytes(&[]), Err(InferenceError::UnsupportedFormat(_))));
}

#[test]
fn content_with_a_framed_header_is_a_flat_weight_file() {
    let bytes = [0x01, 0, 0, 0, 0, 0, 0, 0, b'{', 0x80, 0x02];
    assert_eq!(EngineFactory::detect_format_from_bytes(&bytes).unwrap(), ModelFormat::SafeTensors);
    let engine = EngineFactory::from_bytes(&bytes).unwrap();
    assert_eq!(engine.engine_type(), EngineType::Candle);
}

#[test]
fn content_with_a_pickle_marker_is_an_archive() {
    assert_eq!(
        EngineFactory::detect_format_from_bytes(&[0x80, 0x02]).unwrap(),
        ModelFormat::PyTorch
    );
    assert_eq!(
        EngineFactory::detect_format_from_bytes(b"PK\x03\x04rest").unwrap(),
        ModelFormat::PyTorch
    );
}

#[test]
fn serialized_values_are_no_native_blob() {
    // A value written by the serializer itself is not read back as a JSON
    // value, so it falls through to the default.
    let blob = bincode::serialize(&(7u64, 9u64)).unwrap();
    assert_eq!(EngineFactory::detect_format_from_bytes(&blob).unwrap(), ModelFormat::SafeTensors);
}

#[test]
fn paths_without_extension_are_refused() {
    assert!(matches!(
        EngineFactory::detect_format_from_path("model", Some(b"PK")),
        Err(InferenceError::UnsupportedFormat(_))
    ));
    assert!(matches!(
        EngineFactory::from_file("dir.d/model", None),
        Err(InferenceError::UnsupportedFormat(_))
    ));
}

#[test]
fn unknown_extensions_fall_back_to_the_content() {
    assert!(matches!(
        EngineFactory::detect_format_from_path("model.bin", None),
        Err(InferenceError::ModelLoad(_))
    ));
    assert!(matches!(
        EngineFactory::detect_format_from_path("model.bin", Some(&[])),
        Err(InferenceError::UnsupportedFormat(_))
    ));
    assert_eq!(
        EngineFactory::detect_format_from_path("model.bin", Some(&[0x80, 0x04, 0, 0])).unwrap(),
        ModelFormat::PyTorch
    );
    assert_eq!(
        EngineFactory::detect_format_from_path("MODEL.LFA", None).unwrap(),
        ModelFormat::Linfa
    );
    let engine = EngineFactory::from_file("weights.PT", None).unwrap();
    assert_eq!(engine.engine_type(), EngineType::Candle);
}
