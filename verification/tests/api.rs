use inference::api::{
    detect_engine_from_bytes, detect_engine_from_path, get_available_engines, is_engine_available,
    load_model, load_model_from_bytes, load_model_from_file, load_model_with_candle,
    load_model_with_config, parse_data_type, parse_engine_type, SessionConfig,
};
use inference::engines::{EngineType, LinfaAlgorithm, LinfaEngine};
use inference::session::SessionStore;
use inference::{DataType, InferenceError, Tensor};

fn flat_file(header: &str, data: &[u8]) -> Vec<u8> {
    let mut bytes = (header.len() as u64).to_le_bytes().to_vec();
    bytes.extend_from_slice(header.as_bytes());
    bytes.extend_from_slice(data);
    bytes
}

fn model_file() -> Vec<u8> {
    flat_file("{\"w\":{\"dtype\":\"F32\",\"shape\":[1,1],\"data_offsets\":[0,4]}}", &[0, 0, 0, 64])
}

fn with_engine(name: &str) -> SessionConfig {
    let mut config = SessionConfig::default();
    config.engine_type = Some(name.to_string());
    config
}

#[test]
fn engine_names_are_read_in_any_case() {
    assert_eq!(parse_engine_type("candle").unwrap(), EngineType::Candle);
    assert_eq!(parse_engine_type("Candle").unwrap(), EngineType::Candle);
    assert_eq!(parse_engine_type("LINFA").unwrap(), EngineType::Linfa);
    for name in ["", "ort", "onnx", "candle ", "cand le", "linfa2"] {
        assert!(matches!(parse_engine_type(name), Err(InferenceError::UnsupportedFormat(_))));
    }
}

#[test]
fn data_type_names_are_read_in_any_case() {
    let cases = [
        ("f32", DataType::F32),
        ("float32", DataType::F32),
        ("F64", DataType::F64),
        ("Float64", DataType::F64),
        ("i32", DataType::I32),
        ("INT32", DataType::I32),
        ("i64", DataType::I64),
        ("int64", DataType::I64),
        ("u8", DataType::U8),
        ("uint8", DataType::U8),
        ("u32", DataType::U32),
        ("UInt32", DataType::U32),
    ];
    for (name, data_type) in cases {
        assert_eq!(parse_data_type(name).unwrap(), data_type);
    }
    for name in ["", "bool", "f16", "float", "int", " f32"] {
        assert!(matches!(parse_data_type(name), Err(InferenceError::UnsupportedFormat(_))));
    }
}

#[test]
fn backends_are_listed_by_name() {
    assert_eq!(get_available_engines(), vec!["candle".to_string(), "linfa".to_string()]);
    assert!(is_engine_available("candle"));
    assert!(is_engine_available("Linfa"));
    assert!(!is_engine_available("ort"));
    assert!(!is_engine_available("tensorflow"));
}

#[test]
fn backends_are_detected_by_name() {
    assert_eq!(detect_engine_from_path("model.safetensors", None), "candle");
    assert_eq!(detect_engine_from_path("model.unknown", None), "candle");
    assert_eq!(detect_engine_from_path("model.unknown", Some(b"PK\x03\x04")), "candle");
    assert_eq!(detect_engine_from_bytes(&model_file()).unwrap(), "candle");
    assert_eq!(detect_engine_from_bytes(&[0x80, 0x03]).unwrap(), "candle");
    assert_eq!(detect_engine_from_bytes(b"plain").unwrap(), "candle");
    assert!(matches!(detect_engine_from_bytes(&[]), Err(InferenceError::UnsupportedFormat(_))));
}

#[test]
fn a_file_is_loaded_into_a_session() {
    let file = model_file();
    let mut store = SessionStore::new();
    let info = load_model(&mut store, "m.safetensors", Some(&file)).unwrap();
    assert_eq!(info.handle, 1);
    assert_eq!(info.engine_type, "candle");
    let info = load_model_from_file(&mut store, "dir/M.SafeTensors", Some(&file));
    // The backend itself wants the extension in lower case.
    assert!(matches!(info, Err(InferenceError::UnsupportedFormat(_))));
    let info = load_model_with_candle(&mut store, "m.safetensors", Some(&file)).unwrap();
    assert_eq!(info.handle, 2);
    let info =
        load_model_with_config(&mut store, "m.safetensors", Some(&file), &with_engine("CANDLE"))
            .unwrap();
    assert_eq!(info.handle, 3);
    assert_eq!(info.engine_type, "candle");
    assert_eq!(store.len(), 3);
    let input = Tensor::from_f32_bits(vec![1.5f32.to_bits()], vec![1, 1]).unwrap();
    let output = store.predict(3, &input).unwrap();
    assert_eq!(output.to_f32_bits().unwrap(), vec![3.0f32.to_bits()]);
}

#[test]
fn failed_loads_leave_the_store_alone() {
    let file = model_file();
    let mut store = SessionStore::new();
    // An unknown backend is refused before anything else is looked at.
    assert!(matches!(
        load_model_with_config(&mut store, "m.unknown", None, &with_engine("tensorflow")),
        Err(InferenceError::UnsupportedFormat(_))
    ));
    // Content that shows no format is taken for a flat file of weights, and
    // the backend for those refuses the extension.
    assert!(matches!(
        load_model(&mut store, "m.bin", Some(b"plain")),
        Err(InferenceError::UnsupportedFormat(_))
    ));
    assert!(matches!(
        load_model(&mut store, "m.bin", Some(b"")),
        Err(InferenceError::UnsupportedFormat(_))
    ));
    // The extension is not a known one, and the file could not be read.
    assert!(matches!(load_model(&mut store, "m.bin", None), Err(InferenceError::FormatDetection(_))));
    // The format is known and the file is missing.
    assert!(matches!(
        load_model(&mut store, "m.safetensors", None),
        Err(InferenceError::ModelLoad(_))
    ));
    // Pickled weights are known and cannot be loaded.
    assert!(matches!(
        load_model(&mut store, "m.pt", Some(&file)),
        Err(InferenceError::UnsupportedFormat(_))
    ));
    // The trained-model backend loads nothing.
    assert!(matches!(
        load_model_with_config(&mut store, "m.safetensors", Some(&file), &with_engine("linfa")),
        Err(InferenceError::UnsupportedFormat(_))
    ));
    assert!(matches!(
        load_model_from_bytes(&mut store, &file, &with_engine("linfa")),
        Err(InferenceError::UnsupportedFormat(_))
    ));
    assert!(matches!(
        load_model_from_bytes(&mut store, &file, &with_engine("nothing")),
        Err(InferenceError::UnsupportedFormat(_))
    ));
    assert!(matches!(
        load_model_from_bytes(&mut store, b"plain", &SessionConfig::default()),
        Err(InferenceError::UnsupportedFormat(_))
    ));
    assert!(matches!(
        load_model_from_bytes(&mut store, b"", &SessionConfig::default()),
        Err(InferenceError::UnsupportedFormat(_))
    ));
    // A pickle marker is detected, and the backend refuses the bytes.
    assert!(matches!(
        load_model_from_bytes(&mut store, &[0x80, 0x02, 0, 0], &SessionConfig::default()),
        Err(InferenceError::UnsupportedFormat(_))
    ));
    // A framed header that the reader refuses.
    assert!(matches!(
        load_model_from_bytes(&mut store, &flat_file("{}", &[1, 2]), &SessionConfig::default()),
        Err(InferenceError::ModelLoad(_))
    ));
    assert_eq!(store.len(), 0);
    assert_eq!(store.next_handle(), 1);
    let info = load_model_from_bytes(&mut store, &file, &with_engine("candle")).unwrap();
    assert_eq!(info.handle, 1);
}

#[test]
fn the_default_configuration_prefers_nothing() {
    let config = SessionConfig::default();
    assert_eq!(config.engine_type, None);
    assert!(config.gpu_acceleration);
    assert_eq!(config.num_threads, None);
    assert_eq!(config.optimization_level, None);
}

#[test]
fn algorithms_are_chosen_by_name() {
    let pairs =
        |items: &[(&str, &str)]| -> Vec<(String, String)> {
            items.iter().map(|(k, v)| (k.to_string(), v.to_string())).collect()
        };
    let one = 1.0f64.to_bits();
    let engine = LinfaEngine::for_algorithm("kmeans", &pairs(&[("k", "5")]), one).unwrap();
    assert_eq!(*engine.algorithm(), LinfaAlgorithm::KMeans { k: 5 });
    let engine = LinfaEngine::for_algorithm("kmeans", &pairs(&[]), one).unwrap();
    assert_eq!(*engine.algorithm(), LinfaAlgorithm::KMeans { k: 2 });
    let engine =
        LinfaEngine::for_algorithm("kmeans", &pairs(&[("k", "many"), ("K", "9")]), one).unwrap();
    assert_eq!(*engine.algorithm(), LinfaAlgorithm::KMeans { k: 2 });
    let engine =
        LinfaEngine::for_algorithm("kmeans", &pairs(&[("k", "3"), ("k", "+4")]), one).unwrap();
    assert_eq!(*engine.algorithm(), LinfaAlgorithm::KMeans { k: 4 });
    let engine = LinfaEngine::for_algorithm("linear_regression", &pairs(&[("k", "5")]), one).unwrap();
    assert_eq!(*engine.algorithm(), LinfaAlgorithm::LinearRegression);
    let engine = LinfaEngine::for_algorithm("svm", &pairs(&[]), 2.5f64.to_bits()).unwrap();
    assert_eq!(*engine.algorithm(), LinfaAlgorithm::SVM { c_bits: 2.5f64.to_bits() });
    let engine =
        LinfaEngine::for_algorithm("decision_tree", &pairs(&[("max_depth", "12")]), one).unwrap();
    assert_eq!(*engine.algorithm(), LinfaAlgorithm::DecisionTree { max_depth: Some(12) });
    let engine =
        LinfaEngine::for_algorithm("decision_tree", &pairs(&[("max_depth", "-1")]), one).unwrap();
    assert_eq!(*engine.algorithm(), LinfaAlgorithm::DecisionTree { max_depth: None });
    for name in ["", "KMeans", "k-means", "forest"] {
        assert!(matches!(
            LinfaEngine::for_algorithm(name, &pairs(&[]), one),
            Err(InferenceError::UnsupportedFormat(_))
        ));
    }
}

#[test]
fn session_information_lists_what_the_model_lists() {
    let file = flat_file(
        "{\"encoder.input\":{\"dtype\":\"F64\",\"shape\":[3,2],\"data_offsets\":[0,48]}}",
        &[0; 48],
    );
    let mut store = SessionStore::new();
    let info = load_model_from_bytes(&mut store, &file, &SessionConfig::default()).unwrap();
    assert_eq!(info.handle, 1);
    assert_eq!(info.engine_type, "candle");
    assert_eq!(info.input_specs.len(), 1);
    assert_eq!(info.input_specs[0].name, "encoder.input");
    assert_eq!(info.input_specs[0].shape, vec![Some(3), Some(2)]);
    assert_eq!(info.input_specs[0].data_type, DataType::F64);
    assert_eq!(info.input_specs[0].description, None);
    assert_eq!(info.output_specs.len(), 1);
    assert_eq!(info.output_specs[0].name, "output");
    assert_eq!(info.output_specs[0].shape, vec![None, None]);
    assert_eq!(info.output_specs[0].data_type, DataType::F32);
    let session = store.get(info.handle).unwrap();
    assert_eq!(session.input_specs(), &info.input_specs[..]);
    assert_eq!(session.output_specs(), &info.output_specs[..]);
}

#[test]
fn bytes_that_the_backend_loads_are_loaded() {
    // The header opens with a blank, so the bytes show no format; they are
    // taken for a flat file of weights all the same.
    let file = flat_file(
        " {\"w\":{\"dtype\":\"F32\",\"shape\":[1,1],\"data_offsets\":[0,4]}}",
        &[0, 0, 0, 64],
    );
    let mut store = SessionStore::new();
    let info = load_model_from_bytes(&mut store, &file, &SessionConfig::default()).unwrap();
    assert_eq!(info.engine_type, "candle");
    assert!(store.get(info.handle).is_some());
    // Bytes that the backend does not load are not.
    let short = flat_file(
        "{\"w\":{\"dtype\":\"F32\",\"shape\":[1,1],\"data_offsets\":[0,4]}}",
        &[0, 0],
    );
    assert!(matches!(
        load_model_from_bytes(&mut store, &short, &SessionConfig::default()),
        Err(InferenceError::ModelLoad(_))
    ));
    assert!(store.get(2).is_none());
}
