use inference::engines::candle::{input_kind, tensor_role, weight_kind, TensorRole, WeightTensor};
use inference::engines::kernel::{RawDtype, RawTensor, WeightType};
use inference::engines::{
    CandleEngine, EngineType, GenericSafeTensorsModel, InferenceEngine, Model, ModelFormat,
};
use inference::{DataType, InferenceError, Tensor};

fn flat_file(header: &str, data: &[u8]) -> Vec<u8> {
    let mut bytes = (header.len() as u64).to_le_bytes().to_vec();
    bytes.extend_from_slice(header.as_bytes());
    bytes.extend_from_slice(data);
    bytes
}

fn float_bytes(values: &[f32]) -> Vec<u8> {
    values.iter().flat_map(|v| v.to_le_bytes()).collect()
}

fn floats(tensor: &Tensor) -> Vec<f32> {
    tensor.to_f32_bits().unwrap().into_iter().map(f32::from_bits).collect()
}

fn tensor_of(values: &[f32], shape: Vec<usize>) -> Tensor {
    Tensor::from_f32_bits(values.iter().map(|v| v.to_bits()).collect(), shape).unwrap()
}

/// A model with one 2x3 matrix of weights.
fn linear_file() -> Vec<u8> {
    flat_file(
        "{\"weight\":{\"dtype\":\"F32\",\"shape\":[2,3],\"data_offsets\":[0,24]}}",
        &float_bytes(&[1.0, 2.0, 3.0, 4.0, 5.0, 6.0]),
    )
}

fn entry(name: &str, dtype: RawDtype, shape: Vec<usize>, data: Vec<u8>) -> RawTensor {
    RawTensor { name: name.to_string(), dtype, shape, data }
}

#[test]
fn test_candle_engine_creation() {
    let engine = CandleEngine::new();
    assert!(engine.is_ok());

    let engine = engine.unwrap();
    assert_eq!(engine.engine_name(), "candle");
    assert_eq!(engine.engine_type(), EngineType::Candle);
}

#[test]
fn candle_engine_test_safetensors_format_detection() {
    let engine = CandleEngine::new().unwrap();

    // Test with invalid data
    let invalid_data = vec![0u8; 10];
    assert!(!engine.is_safetensors_format(&invalid_data));

    // Test with too short data
    let short_data = vec![0u8; 5];
    assert!(!engine.is_safetensors_format(&short_data));
}

#[test]
fn the_header_must_be_json() {
    let engine = CandleEngine::cpu().unwrap();
    assert!(engine.is_safetensors_format(&flat_file("{}", &[])));
    assert!(engine.is_safetensors_format(&flat_file("{\"a\": [1, 2]}", &[9, 9])));
    assert!(engine.is_safetensors_format(&flat_file("17", &[])));
    assert!(!engine.is_safetensors_format(&flat_file("{", &[])));
    assert!(!engine.is_safetensors_format(&flat_file("{]", &[b'}'])));
    // The length reaches beyond the buffer.
    let mut long = flat_file("{}", &[]);
    long[0] = 3;
    assert!(!engine.is_safetensors_format(&long));
    let mut huge = flat_file("{}", &[]);
    huge[7] = 0xFF;
    assert!(!engine.is_safetensors_format(&huge));
    assert!(engine.is_safetensors_format(&linear_file()));
}

#[test]
fn the_backend_describes_itself() {
    let engine = CandleEngine::default();
    assert!(!engine.gpu_available());
    assert!(engine.supports_format(&ModelFormat::SafeTensors));
    assert!(engine.supports_format(&ModelFormat::PyTorch));
    assert!(!engine.supports_format(&ModelFormat::Onnx));
    assert!(!engine.supports_format(&ModelFormat::Linfa));
    assert!(matches!(CandleEngine::cuda(0), Err(InferenceError::Configuration(_))));
}

#[test]
fn a_flat_file_is_loaded_with_default_specs() {
    let engine = CandleEngine::new().unwrap();
    let model = engine.load_from_bytes(&linear_file()).unwrap();
    assert_eq!(model.engine_type(), EngineType::Candle);
    assert!(model.metadata().is_none());
    let inputs = model.input_specs();
    assert_eq!(inputs.len(), 1);
    assert_eq!(inputs[0].name, "input");
    assert_eq!(inputs[0].shape, vec![None, None, None, None]);
    assert_eq!(inputs[0].data_type, DataType::F32);
    let outputs = model.output_specs();
    assert_eq!(outputs.len(), 1);
    assert_eq!(outputs[0].name, "output");
    assert_eq!(outputs[0].shape, vec![None, None]);
    assert_eq!(outputs[0].data_type, DataType::F32);
}

#[test]
fn prediction_multiplies_with_the_fitting_weights() {
    let engine = CandleEngine::new().unwrap();
    let model = engine.load_bytes(&linear_file()).unwrap();
    assert_eq!(model.tensor_names(), vec!["weight".to_string()]);
    assert_eq!(model.find_weight(2), Some(0));
    assert_eq!(model.find_weight(3), None);
    let input = tensor_of(&[1.0, 1.0, 2.0, 0.5], vec![2, 2]);
    let output = model.predict(&input).unwrap();
    assert_eq!(output.shape(), &[2, 3]);
    assert_eq!(output.data_type(), &DataType::F32);
    assert_eq!(floats(&output), vec![5.0, 7.0, 9.0, 4.0, 6.5, 9.0]);
    let batch = model.predict_batch(&[input.clone(), input]).unwrap();
    assert_eq!(batch.len(), 2);
    assert_eq!(floats(&batch[1]), vec![5.0, 7.0, 9.0, 4.0, 6.5, 9.0]);
    assert!(model.predict_batch(&[]).unwrap().is_empty());
}

#[test]
fn prediction_fails_on_what_the_backend_cannot_multiply() {
    let model = CandleEngine::new().unwrap().load_bytes(&linear_file()).unwrap();
    let bytes = Tensor::new(vec![0u8; 4], vec![2, 2], DataType::U8).unwrap();
    assert!(matches!(model.predict(&bytes), Err(InferenceError::Prediction(_))));
    let scalar = tensor_of(&[1.0], vec![]);
    assert!(matches!(model.predict(&scalar), Err(InferenceError::Prediction(_))));
    let unfit = tensor_of(&[1.0, 2.0, 3.0], vec![1, 3]);
    assert!(matches!(model.predict(&unfit), Err(InferenceError::Prediction(_))));
    let vector = tensor_of(&[1.0, 2.0], vec![2]);
    assert!(matches!(model.predict(&vector), Err(InferenceError::Prediction(_))));
    let ints = Tensor::from_i32(vec![1, 2], vec![1, 2]).unwrap();
    assert!(matches!(model.predict(&ints), Err(InferenceError::Prediction(_))));
    let longs = Tensor::from_i64(vec![1, 2], vec![1, 2]).unwrap();
    assert!(matches!(model.predict(&longs), Err(InferenceError::Prediction(_))));
    let good = tensor_of(&[1.0, 2.0], vec![1, 2]);
    assert!(matches!(
        model.predict_batch(&[good, unfit]),
        Err(InferenceError::Prediction(_))
    ));
}

#[test]
fn names_decide_inputs_and_outputs() {
    let entries = vec![
        entry("Model.INPUT_ids", RawDtype::I64, vec![1, 2], vec![0; 16]),
        entry("encoder.weight", RawDtype::F32, vec![2, 2], vec![0; 16]),
        entry("classifier.bias", RawDtype::F64, vec![2], vec![0; 16]),
        entry("output_input", RawDtype::F32, vec![], vec![0; 4]),
        entry("final_Output", RawDtype::F32, vec![1], vec![0; 4]),
    ];
    let model = GenericSafeTensorsModel::from_entries(entries).unwrap();
    let inputs = model.input_specs();
    assert_eq!(inputs.len(), 2);
    assert_eq!(inputs[0].name, "Model.INPUT_ids");
    assert_eq!(inputs[0].shape, vec![Some(1), Some(2)]);
    assert_eq!(inputs[0].data_type, DataType::I64);
    assert_eq!(inputs[1].name, "output_input");
    assert_eq!(inputs[1].shape, vec![]);
    let outputs = model.output_specs();
    assert_eq!(outputs.len(), 2);
    assert_eq!(outputs[0].name, "classifier.bias");
    assert_eq!(outputs[0].data_type, DataType::F64);
    assert_eq!(outputs[0].shape, vec![Some(2)]);
    assert_eq!(outputs[1].name, "final_Output");
    assert_eq!(model.tensor_names().len(), 5);
    let kept: &WeightTensor = model.get_tensor("encoder.weight").unwrap();
    assert_eq!(kept.name(), "encoder.weight");
    assert_eq!(kept.shape(), &[2, 2]);
    assert_eq!(kept.kind(), WeightType::F32);
    assert_eq!(kept.data().len(), 16);
    assert!(model.get_tensor("encoder").is_none());
    assert_eq!(tensor_role("my_input"), TensorRole::Input);
    assert_eq!(tensor_role("CLASSIFIER"), TensorRole::Output);
    assert_eq!(tensor_role("inputs and outputs"), TensorRole::Input);
    assert_eq!(tensor_role("weight"), TensorRole::Weight);
    assert_eq!(tensor_role(""), TensorRole::Weight);
}

#[test]
fn the_first_entry_that_cannot_be_loaded_decides_the_error() {
    let good = || entry("w", RawDtype::F32, vec![2], vec![0; 8]);
    let unknown = || entry("h", RawDtype::Other, vec![2], vec![0; 4]);
    let missized = || entry("s", RawDtype::F32, vec![2], vec![0; 7]);
    // Integers of 32 bits are computed with as 64-bit ones, which their bytes
    // do not hold.
    let narrow = || entry("i", RawDtype::I32, vec![2], vec![0; 8]);
    assert!(matches!(
        GenericSafeTensorsModel::from_entries(vec![good(), unknown(), missized()]),
        Err(InferenceError::UnsupportedFormat(_))
    ));
    assert!(matches!(
        GenericSafeTensorsModel::from_entries(vec![good(), missized(), unknown()]),
        Err(InferenceError::ModelLoad(_))
    ));
    assert!(matches!(
        GenericSafeTensorsModel::from_entries(vec![narrow()]),
        Err(InferenceError::ModelLoad(_))
    ));
    assert!(GenericSafeTensorsModel::from_entries(vec![]).is_ok());
    assert!(GenericSafeTensorsModel::from_entries(vec![
        entry("i", RawDtype::I32, vec![0], vec![]),
        entry("l", RawDtype::I64, vec![1], vec![0; 8]),
    ])
    .is_ok());
    assert!(matches!(
        WeightTensor::from_entry(entry("x", RawDtype::F64, vec![usize::MAX, 2], vec![])),
        Err(InferenceError::ModelLoad(_))
    ));
    assert_eq!(weight_kind(RawDtype::I32), Some(WeightType::I64));
    assert_eq!(weight_kind(RawDtype::Other), None);
    assert_eq!(input_kind(DataType::I32), Some(WeightType::I64));
    assert_eq!(input_kind(DataType::F64), Some(WeightType::F64));
    assert_eq!(input_kind(DataType::U8), None);
    assert_eq!(input_kind(DataType::U32), None);
    assert_eq!(input_kind(DataType::Bool), None);
}

#[test]
fn files_are_read_by_the_outside_reader() {
    let engine = CandleEngine::new().unwrap();
    let half = flat_file(
        "{\"h\":{\"dtype\":\"F16\",\"shape\":[2],\"data_offsets\":[0,4]}}",
        &[0, 0, 0, 0],
    );
    assert!(matches!(
        engine.load_safetensors_from_bytes(&half),
        Err(InferenceError::UnsupportedFormat(_))
    ));
    let ints = flat_file(
        "{\"i\":{\"dtype\":\"I32\",\"shape\":[2],\"data_offsets\":[0,8]}}",
        &[0; 8],
    );
    assert!(matches!(
        engine.load_safetensors_from_bytes(&ints),
        Err(InferenceError::ModelLoad(_))
    ));
    // The data is shorter than the index says.
    let short = flat_file(
        "{\"w\":{\"dtype\":\"F32\",\"shape\":[2],\"data_offsets\":[0,8]}}",
        &[0; 4],
    );
    assert!(matches!(
        engine.load_safetensors_from_bytes(&short),
        Err(InferenceError::ModelLoad(_))
    ));
    assert!(matches!(
        engine.load_safetensors_from_bytes(b"not a model"),
        Err(InferenceError::ModelLoad(_))
    ));
    let two = flat_file(
        "{\"a_input\":{\"dtype\":\"F64\",\"shape\":[1,1],\"data_offsets\":[0,8]},\"b\":{\"dtype\":\"I64\",\"shape\":[2],\"data_offsets\":[8,24]},\"__metadata__\":{\"k\":\"v\"}}",
        &[7; 24],
    );
    let model = engine.load_safetensors_from_bytes(&two).unwrap();
    let mut names = model.tensor_names();
    names.sort();
    assert_eq!(names, vec!["a_input".to_string(), "b".to_string()]);
    assert_eq!(model.get_tensor("b").unwrap().data(), &[7u8; 16]);
    assert_eq!(model.get_tensor("b").unwrap().kind(), WeightType::I64);
    assert_eq!(model.input_specs()[0].name, "a_input");
    assert_eq!(model.input_specs()[0].data_type, DataType::F64);
}

#[test]
fn paths_are_judged_by_their_extension() {
    let engine = CandleEngine::new().unwrap();
    let file = linear_file();
    assert!(engine.load_model("model.safetensors", Some(&file)).is_ok());
    assert!(matches!(
        engine.load_model("model.safetensors", None),
        Err(InferenceError::ModelLoad(_))
    ));
    for path in ["model.pt", "model.pth", "model.onnx", "model", "model.SAFETENSORS"] {
        assert!(matches!(
            engine.load_model(path, Some(&file)),
            Err(InferenceError::UnsupportedFormat(_))
        ));
    }
    assert!(matches!(
        engine.load_model("model.safetensors", Some(b"junk")),
        Err(InferenceError::ModelLoad(_))
    ));
    assert!(matches!(engine.load_from_bytes(b"junk"), Err(InferenceError::UnsupportedFormat(_))));
    assert!(matches!(
        engine.load_from_bytes(&flat_file("{}", &[1])),
        Err(InferenceError::ModelLoad(_))
    ));
}

#[test]
fn headers_with_long_numbers_are_refused() {
    let engine = CandleEngine::new().unwrap();
    // Eight tensors whose sizes add up to just below two to the sixty-fourth.
    let size: u64 = 2305843009213693951;
    let mut header = String::from("{");
    for i in 0..8u64 {
        if i > 0 {
            header.push(',');
        }
        header.push_str(&format!(
            "\"t{}\":{{\"dtype\":\"U8\",\"shape\":[{}],\"data_offsets\":[{},{}]}}",
            i,
            size,
            i * size,
            (i + 1) * size
        ));
    }
    header.push('}');
    let file = flat_file(&header, &[]);
    assert!(!CandleEngine::has_bounded_header(&file));
    assert!(matches!(
        engine.load_safetensors_from_bytes(&file),
        Err(InferenceError::ModelLoad(_))
    ));
    assert!(matches!(engine.load_bytes(&file), Err(InferenceError::ModelLoad(_))));
    assert!(matches!(
        engine.load_file("model.safetensors", Some(&file)),
        Err(InferenceError::ModelLoad(_))
    ));

    // A run of digits in a name counts as well.
    let named = flat_file(
        "{\"w1234567890123456789\":{\"dtype\":\"F32\",\"shape\":[1],\"data_offsets\":[0,4]}}",
        &[0; 4],
    );
    assert!(!CandleEngine::has_bounded_header(&named));
    assert!(matches!(
        engine.load_safetensors_from_bytes(&named),
        Err(InferenceError::ModelLoad(_))
    ));
    let shorter = flat_file(
        "{\"w123456789012345678\":{\"dtype\":\"F32\",\"shape\":[1],\"data_offsets\":[0,4]}}",
        &[0; 4],
    );
    assert!(CandleEngine::has_bounded_header(&shorter));
    let model = engine.load_safetensors_from_bytes(&shorter).unwrap();
    assert_eq!(model.tensor_names(), vec!["w123456789012345678".to_string()]);

    // Digits after the header are not looked at, nor is a buffer without a
    // header that fits.
    let data = flat_file(
        "{\"w\":{\"dtype\":\"F32\",\"shape\":[6],\"data_offsets\":[0,24]}}",
        b"123456789012345678901234",
    );
    assert!(CandleEngine::has_bounded_header(&data));
    assert!(engine.load_safetensors_from_bytes(&data).is_ok());
    assert!(CandleEngine::has_bounded_header(b"1234567890123456789012345"));
    assert!(CandleEngine::has_bounded_header(b"1234"));
}

#[test]
fn runs_of_digits_are_measured() {
    assert!(CandleEngine::digits_are_within(b"a123456789012345678b", 18));
    assert!(!CandleEngine::digits_are_within(b"a1234567890123456789b", 18));
    assert!(CandleEngine::digits_are_within(b"12a34/56:78", 2));
    assert!(!CandleEngine::digits_are_within(b"12a345", 2));
    assert!(CandleEngine::digits_are_within(b"", 0));
    assert!(CandleEngine::digits_are_within(b"abc", 0));
    assert!(!CandleEngine::digits_are_within(b"7", 0));
}
