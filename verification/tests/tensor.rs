use inference::tensor::TensorInfo;
use inference::{DataType, InferenceError, Tensor, TensorSpec};

#[test]
fn new_accepts_a_buffer_of_the_right_size() {
    let tensor = Tensor::new(vec![0u8; 24], vec![2, 3], DataType::F32).unwrap();
    assert_eq!(tensor.data().len(), 24);
    assert_eq!(tensor.shape(), &[2, 3]);
    assert_eq!(tensor.data_type(), &DataType::F32);
    assert_eq!(tensor.len(), 6);
    assert_eq!(tensor.ndim(), 2);
    assert!(!tensor.is_empty());
    assert_eq!(tensor.data().len(), tensor.len() * tensor.data_type().size_bytes());
}

#[test]
fn new_refuses_a_buffer_of_another_size() {
    for len in [0usize, 23, 25, 48] {
        let result = Tensor::new(vec![0u8; len], vec![2, 3], DataType::F32);
        assert!(matches!(result, Err(InferenceError::InvalidTensorData(_))), "length {}", len);
    }
    assert!(matches!(
        Tensor::new(vec![0u8; 6], vec![2, 3], DataType::F64),
        Err(InferenceError::InvalidTensorData(_))
    ));
    assert!(Tensor::new(vec![0u8; 6], vec![2, 3], DataType::U8).is_ok());
    assert!(Tensor::new(vec![1u8; 6], vec![2, 3], DataType::Bool).is_ok());
    assert!(Tensor::new(vec![0u8; 48], vec![2, 3], DataType::I64).is_ok());
    assert!(Tensor::new(vec![0u8; 24], vec![2, 3], DataType::U32).is_ok());
}

#[test]
fn the_empty_shape_has_one_element() {
    let scalar = Tensor::new(vec![1, 2, 3, 4], vec![], DataType::I32).unwrap();
    assert_eq!(scalar.len(), 1);
    assert_eq!(scalar.ndim(), 0);
    assert_eq!(scalar.to_i32_vec().unwrap(), vec![0x04030201]);
    assert!(matches!(
        Tensor::new(vec![], vec![], DataType::I32),
        Err(InferenceError::InvalidTensorData(_))
    ));
}

#[test]
fn a_zero_dimension_means_no_element() {
    let tensor = Tensor::new(vec![], vec![3, 0, 5], DataType::F64).unwrap();
    assert!(tensor.is_empty());
    assert_eq!(tensor.len(), 0);
    // A dimension that alone overflows the machine word is harmless beside a zero.
    let tensor = Tensor::new(vec![], vec![usize::MAX, usize::MAX, 0], DataType::F64).unwrap();
    assert_eq!(tensor.len(), 0);
    let tensor = Tensor::new(vec![], vec![0, usize::MAX, usize::MAX], DataType::U8).unwrap();
    assert_eq!(tensor.len(), 0);
}

#[test]
fn a_shape_beyond_the_machine_word_is_refused() {
    assert!(matches!(
        Tensor::new(vec![0u8; 8], vec![usize::MAX, 2], DataType::U8),
        Err(InferenceError::InvalidTensorData(_))
    ));
    assert!(matches!(
        Tensor::new(vec![0u8; 8], vec![usize::MAX / 2 + 1, 1], DataType::F32),
        Err(InferenceError::InvalidTensorData(_))
    ));
}

#[test]
fn integers_are_stored_in_little_endian_order() {
    let tensor = Tensor::from_i32(vec![1, -1, i32::MIN, i32::MAX, 0x01020304], vec![5]).unwrap();
    assert_eq!(tensor.data_type(), &DataType::I32);
    assert_eq!(
        tensor.data(),
        &[
            1, 0, 0, 0, 0xFF, 0xFF, 0xFF, 0xFF, 0, 0, 0, 0x80, 0xFF, 0xFF, 0xFF, 0x7F, 4, 3, 2, 1
        ]
    );
    let mut expected = Vec::new();
    for v in [1i32, -1, i32::MIN, i32::MAX, 0x01020304] {
        expected.extend_from_slice(&v.to_le_bytes());
    }
    assert_eq!(tensor.data(), expected.as_slice());
    assert_eq!(tensor.to_i32_vec().unwrap(), vec![1, -1, i32::MIN, i32::MAX, 0x01020304]);

    let values = vec![0i64, -1, i64::MIN, i64::MAX, 0x0102030405060708, -2];
    let tensor = Tensor::from_i64(values.clone(), vec![2, 3]).unwrap();
    assert_eq!(tensor.data_type(), &DataType::I64);
    let mut expected = Vec::new();
    for v in &values {
        expected.extend_from_slice(&v.to_le_bytes());
    }
    assert_eq!(tensor.data(), expected.as_slice());
    assert_eq!(tensor.to_i64_vec().unwrap(), values);
}

#[test]
fn integer_constructors_check_the_element_count() {
    assert!(matches!(
        Tensor::from_i32(vec![1, 2, 3], vec![2, 2]),
        Err(InferenceError::InvalidTensorData(_))
    ));
    assert!(matches!(
        Tensor::from_i64(vec![1, 2, 3], vec![2]),
        Err(InferenceError::InvalidTensorData(_))
    ));
    assert!(Tensor::from_i32(vec![], vec![0]).is_ok());
}

#[test]
fn typed_reads_need_the_matching_type() {
    let ints = Tensor::from_i32(vec![1, 2], vec![2]).unwrap();
    assert!(matches!(ints.to_i64_vec(), Err(InferenceError::InvalidTensorData(_))));
    assert!(matches!(ints.to_f32_bits(), Err(InferenceError::InvalidTensorData(_))));
    assert!(matches!(ints.to_f64_bits(), Err(InferenceError::InvalidTensorData(_))));
    let longs = Tensor::from_i64(vec![1, 2], vec![2]).unwrap();
    assert!(matches!(longs.to_i32_vec(), Err(InferenceError::InvalidTensorData(_))));
    let unsigned = Tensor::new(vec![0u8; 8], vec![2], DataType::U32).unwrap();
    assert!(matches!(unsigned.to_i32_vec(), Err(InferenceError::InvalidTensorData(_))));
    assert!(matches!(unsigned.to_f32_bits(), Err(InferenceError::InvalidTensorData(_))));
}

#[test]
fn floats_travel_as_their_bits() {
    let values = [1.0f32, -2.5, 0.0, f32::MAX, f32::MIN_POSITIVE, 3.1415927];
    let bits: Vec<u32> = values.iter().map(|v| v.to_bits()).collect();
    let tensor = Tensor::from_f32_bits(bits.clone(), vec![2, 3]).unwrap();
    assert_eq!(tensor.data_type(), &DataType::F32);
    let mut expected = Vec::new();
    for v in values {
        expected.extend_from_slice(&v.to_le_bytes());
    }
    assert_eq!(tensor.data(), expected.as_slice());
    assert_eq!(tensor.to_f32_bits().unwrap(), bits);
    let back: Vec<f32> = tensor.to_f32_bits().unwrap().into_iter().map(f32::from_bits).collect();
    assert_eq!(back, values.to_vec());

    let doubles = [1.0f64, -2.5, 1e300, f64::EPSILON];
    let bits: Vec<u64> = doubles.iter().map(|v| v.to_bits()).collect();
    let tensor = Tensor::from_f64_bits(bits.clone(), vec![4]).unwrap();
    assert_eq!(tensor.data_type(), &DataType::F64);
    let mut expected = Vec::new();
    for v in doubles {
        expected.extend_from_slice(&v.to_le_bytes());
    }
    assert_eq!(tensor.data(), expected.as_slice());
    assert_eq!(tensor.to_f64_bits().unwrap(), bits);
    assert!(matches!(
        Tensor::from_f64_bits(vec![0; 3], vec![4]),
        Err(InferenceError::InvalidTensorData(_))
    ));
    assert!(matches!(
        Tensor::from_f32_bits(vec![0; 3], vec![4]),
        Err(InferenceError::InvalidTensorData(_))
    ));
}

#[test]
fn reshape_keeps_bytes_and_element_count() {
    let tensor = Tensor::from_i32(vec![1, 2, 3, 4, 5, 6], vec![2, 3]).unwrap();
    let reshaped = tensor.reshape(vec![3, 2]).unwrap();
    assert_eq!(reshaped.shape(), &[3, 2]);
    assert_eq!(reshaped.len(), tensor.len());
    assert_eq!(reshaped.data(), tensor.data());
    assert_eq!(reshaped.data_type(), tensor.data_type());
    let flat = tensor.reshape(vec![6]).unwrap();
    assert_eq!(flat.to_i32_vec().unwrap(), vec![1, 2, 3, 4, 5, 6]);
    let padded = tensor.reshape(vec![1, 6, 1]).unwrap();
    assert_eq!(padded.ndim(), 3);
    // The reshaped tensor leaves the first one as it was.
    assert_eq!(tensor.shape(), &[2, 3]);
}

#[test]
fn reshape_fails_when_the_element_counts_differ() {
    let tensor = Tensor::from_i32(vec![1, 2, 3, 4, 5, 6], vec![2, 3]).unwrap();
    match tensor.reshape(vec![4, 2]) {
        Err(InferenceError::InvalidShape { expected, actual }) => {
            assert_eq!(expected, vec![6]);
            assert_eq!(actual, vec![8]);
        }
        other => panic!("unexpected {:?}", other),
    }
    match tensor.reshape(vec![]) {
        Err(InferenceError::InvalidShape { expected, actual }) => {
            assert_eq!(expected, vec![6]);
            assert_eq!(actual, vec![1]);
        }
        other => panic!("unexpected {:?}", other),
    }
    match tensor.reshape(vec![usize::MAX, 3]) {
        Err(InferenceError::InvalidShape { expected, actual }) => {
            assert_eq!(expected, vec![6]);
            assert_eq!(actual, vec![usize::MAX]);
        }
        other => panic!("unexpected {:?}", other),
    }
    let empty = Tensor::new(vec![], vec![0], DataType::U8).unwrap();
    assert!(empty.reshape(vec![5, 0]).is_ok());
    assert!(empty.reshape(vec![1]).is_err());
}

#[test]
fn clones_are_equal_tensors() {
    let tensor = Tensor::from_i64(vec![7, 8], vec![2]).unwrap();
    let copy = tensor.clone();
    assert_eq!(copy.data(), tensor.data());
    assert_eq!(copy.shape(), tensor.shape());
    assert_eq!(copy.data_type(), tensor.data_type());
}

#[test]
fn element_types_have_their_widths_and_names() {
    let all = [
        (DataType::F32, 4, "float32"),
        (DataType::F64, 8, "float64"),
        (DataType::I32, 4, "int32"),
        (DataType::I64, 8, "int64"),
        (DataType::U8, 1, "uint8"),
        (DataType::U32, 4, "uint32"),
        (DataType::Bool, 1, "bool"),
    ];
    for (data_type, size, name) in all {
        assert_eq!(data_type.size_bytes(), size);
        assert_eq!(data_type.name(), name);
    }
}

#[test]
fn spec_matches_dynamic_and_fixed_dimensions() {
    let spec = TensorSpec::new("input".to_string(), vec![None, Some(4)], DataType::F32);
    let one_by_four = Tensor::new(vec![0u8; 16], vec![1, 4], DataType::F32).unwrap();
    let two_by_four = Tensor::new(vec![0u8; 32], vec![2, 4], DataType::F32).unwrap();
    assert!(spec.matches(&one_by_four));
    assert!(spec.matches(&two_by_four));

    let fixed = TensorSpec::new("input".to_string(), vec![Some(1), Some(4)], DataType::F32);
    assert!(fixed.matches(&one_by_four));
    assert!(!fixed.matches(&two_by_four));
}

#[test]
fn spec_checks_type_and_rank() {
    let spec = TensorSpec::new("x".to_string(), vec![None, Some(4)], DataType::F32);
    let ints = Tensor::from_i32(vec![0; 4], vec![1, 4]).unwrap();
    assert!(!spec.matches(&ints));
    let flat = Tensor::new(vec![0u8; 16], vec![4], DataType::F32).unwrap();
    assert!(!spec.matches(&flat));
    let cube = Tensor::new(vec![0u8; 16], vec![1, 4, 1], DataType::F32).unwrap();
    assert!(!spec.matches(&cube));
    let wrong_last = Tensor::new(vec![0u8; 12], vec![1, 3], DataType::F32).unwrap();
    assert!(!spec.matches(&wrong_last));
    let rankless = TensorSpec::new("s".to_string(), vec![], DataType::I32);
    let scalar = Tensor::from_i32(vec![5], vec![]).unwrap();
    assert!(rankless.matches(&scalar));
}

#[test]
fn fixed_size_needs_every_dimension() {
    let fixed = TensorSpec::new("x".to_string(), vec![Some(2), Some(3)], DataType::U8);
    assert_eq!(fixed.fixed_size(), Some(vec![2, 3]));
    let dynamic = TensorSpec::new("x".to_string(), vec![Some(2), None], DataType::U8);
    assert_eq!(dynamic.fixed_size(), None);
    let leading = TensorSpec::new("x".to_string(), vec![None, Some(2)], DataType::U8);
    assert_eq!(leading.fixed_size(), None);
    let empty = TensorSpec::new("x".to_string(), vec![], DataType::U8);
    assert_eq!(empty.fixed_size(), Some(vec![]));
}

#[test]
fn specs_carry_a_description() {
    let spec: TensorInfo = TensorSpec::new("x".to_string(), vec![Some(1)], DataType::Bool);
    assert_eq!(spec.description, None);
    let described = spec.clone().with_description("a flag".to_string());
    assert_eq!(described.description, Some("a flag".to_string()));
    assert_eq!(described.name, "x");
    assert_eq!(described.shape, vec![Some(1)]);
    assert_eq!(described.data_type, DataType::Bool);
    assert_ne!(described, spec);
}

#[test]
fn test_ort_prediction_infrastructure() {
    // Create input tensor for testing
    let input_data = vec![1.0f32, 2.0, 3.0, 4.0];
    let input_tensor =
        Tensor::from_f32_bits(input_data.iter().map(|v| v.to_bits()).collect(), vec![2, 2])
            .unwrap();

    // Verify input tensor properties
    assert_eq!(input_tensor.shape(), &[2, 2]);
    assert_eq!(input_tensor.data_type(), &DataType::F32);

    // Test that our tensor conversion methods work
    let f32_data: Vec<f32> =
        input_tensor.to_f32_bits().unwrap().into_iter().map(f32::from_bits).collect();
    assert_eq!(f32_data, input_data);

    let expected_output: Vec<f32> = input_data.iter().map(|&x| x * 2.0 + 1.0).collect();
    let expected_output_tensor =
        Tensor::from_f32_bits(expected_output.iter().map(|v| v.to_bits()).collect(), vec![2, 2])
            .unwrap();

    // Verify the expected output tensor
    assert_eq!(expected_output_tensor.shape(), &[2, 2]);
    let output_data: Vec<f32> =
        expected_output_tensor.to_f32_bits().unwrap().into_iter().map(f32::from_bits).collect();
    assert_eq!(output_data, vec![3.0f32, 5.0, 7.0, 9.0]);

    // Test tensor specs creation
    let input_spec = TensorSpec::new("input".to_string(), vec![Some(2), Some(2)], DataType::F32);
    let output_spec = TensorSpec::new("output".to_string(), vec![Some(2), Some(2)], DataType::F32);

    assert_eq!(input_spec.name, "input");
    assert_eq!(input_spec.data_type, DataType::F32);
    assert_eq!(output_spec.name, "output");
}

#[test]
fn a_copy_of_a_specification_says_the_same() {
    let spec = TensorSpec::new("pixels".to_string(), vec![None, Some(3), Some(224)], DataType::U8)
        .with_description("an image".to_string());
    let copy = spec.clone();
    assert_eq!(copy, spec);
    assert_eq!(copy.name, "pixels");
    assert_eq!(copy.shape, vec![None, Some(3), Some(224)]);
    assert_eq!(copy.data_type, DataType::U8);
    assert_eq!(copy.description, Some("an image".to_string()));
    let bare = TensorSpec::new("x".to_string(), vec![], DataType::F32);
    assert_eq!(bare.clone(), bare);
    assert_eq!(bare.clone().description, None);
}
