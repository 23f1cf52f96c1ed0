use inference::converters::TensorConverter;
use inference::ieee::{single_from_byte_fraction, single_from_u32};
use inference::{DataType, InferenceError, Tensor};

fn from_f32(data: Vec<f32>, shape: Vec<usize>) -> Result<Tensor, InferenceError> {
    Tensor::from_f32_bits(data.iter().map(|v| v.to_bits()).collect(), shape)
}

fn to_f32_vec(tensor: &Tensor) -> Result<Vec<f32>, InferenceError> {
    Ok(tensor.to_f32_bits()?.into_iter().map(f32::from_bits).collect())
}

#[test]
fn test_hwc_to_chw() {
    // 2x2x3 tensor (HWC format)
    let tensor = from_f32(
        vec![1.0, 2.0, 3.0, 4.0, 5.0, 6.0, 7.0, 8.0, 9.0, 10.0, 11.0, 12.0],
        vec![2, 2, 3],
    )
    .unwrap();

    let chw_tensor = TensorConverter::hwc_to_chw(&tensor).unwrap();
    assert_eq!(chw_tensor.shape(), &[3, 2, 2]);

    // Convert back to verify
    let hwc_tensor = TensorConverter::chw_to_hwc(&chw_tensor).unwrap();
    assert_eq!(to_f32_vec(&hwc_tensor).unwrap(), to_f32_vec(&tensor).unwrap());
}

#[test]
fn channels_are_gathered_into_planes() {
    let tensor = from_f32(
        vec![1.0, 2.0, 3.0, 4.0, 5.0, 6.0, 7.0, 8.0, 9.0, 10.0, 11.0, 12.0],
        vec![2, 2, 3],
    )
    .unwrap();
    let chw = TensorConverter::hwc_to_chw(&tensor).unwrap();
    assert_eq!(
        to_f32_vec(&chw).unwrap(),
        vec![1.0, 4.0, 7.0, 10.0, 2.0, 5.0, 8.0, 11.0, 3.0, 6.0, 9.0, 12.0]
    );
    assert_eq!(chw.data_type(), &DataType::F32);
    let hwc = TensorConverter::chw_to_hwc(&chw).unwrap();
    assert_eq!(hwc.shape(), &[2, 2, 3]);
    assert_eq!(hwc.data(), tensor.data());
}

#[test]
fn reordering_agrees_with_the_index_formulas() {
    let (height, width, channels) = (3usize, 4usize, 2usize);
    let values: Vec<f32> = (0..height * width * channels).map(|i| i as f32 * 0.5).collect();
    let tensor = from_f32(values.clone(), vec![height, width, channels]).unwrap();
    let chw = to_f32_vec(&TensorConverter::hwc_to_chw(&tensor).unwrap()).unwrap();
    for h in 0..height {
        for w in 0..width {
            for c in 0..channels {
                let hwc_idx = h * width * channels + w * channels + c;
                let chw_idx = c * height * width + h * width + w;
                assert_eq!(chw[chw_idx], values[hwc_idx]);
            }
        }
    }
    let planes = from_f32(values.clone(), vec![channels, height, width]).unwrap();
    let hwc = to_f32_vec(&TensorConverter::chw_to_hwc(&planes).unwrap()).unwrap();
    for h in 0..height {
        for w in 0..width {
            for c in 0..channels {
                let hwc_idx = h * width * channels + w * channels + c;
                let chw_idx = c * height * width + h * width + w;
                assert_eq!(hwc[hwc_idx], values[chw_idx]);
            }
        }
    }
}

#[test]
fn reordering_needs_three_dimensions_of_floats() {
    let flat = from_f32(vec![1.0; 6], vec![6]).unwrap();
    assert!(matches!(
        TensorConverter::hwc_to_chw(&flat),
        Err(InferenceError::InvalidTensorData(_))
    ));
    assert!(matches!(
        TensorConverter::chw_to_hwc(&flat),
        Err(InferenceError::InvalidTensorData(_))
    ));
    let ints = Tensor::from_i32(vec![1; 6], vec![1, 2, 3]).unwrap();
    assert!(matches!(
        TensorConverter::hwc_to_chw(&ints),
        Err(InferenceError::InvalidTensorData(_))
    ));
    assert!(matches!(
        TensorConverter::chw_to_hwc(&ints),
        Err(InferenceError::InvalidTensorData(_))
    ));
    let empty = from_f32(vec![], vec![2, 0, 3]).unwrap();
    let moved = TensorConverter::hwc_to_chw(&empty).unwrap();
    assert_eq!(moved.shape(), &[3, 2, 0]);
    assert!(moved.is_empty());
    let empty = from_f32(vec![], vec![0, 5, 5]).unwrap();
    assert_eq!(TensorConverter::chw_to_hwc(&empty).unwrap().shape(), &[5, 5, 0]);
}

#[test]
fn image_bytes_become_unit_floats() {
    let data: Vec<u8> = (0..=255u8).collect();
    let tensor = TensorConverter::from_image_hwc(data.clone(), 8, 8, 4).unwrap();
    assert_eq!(tensor.shape(), &[8, 8, 4]);
    assert_eq!(tensor.data_type(), &DataType::F32);
    let values = to_f32_vec(&tensor).unwrap();
    for (byte, value) in data.iter().zip(values.iter()) {
        assert_eq!(*value, *byte as f32 / 255.0);
    }
    let planes = TensorConverter::from_image_chw(data.clone(), 4, 8, 8).unwrap();
    assert_eq!(planes.shape(), &[4, 8, 8]);
    assert_eq!(planes.data(), tensor.data());
    assert_eq!(values[0], 0.0);
    assert_eq!(values[255], 1.0);
    assert_eq!(values[51], 0.2);
}

#[test]
fn image_sizes_must_match_the_bytes() {
    assert!(matches!(
        TensorConverter::from_image_hwc(vec![0; 11], 2, 2, 3),
        Err(InferenceError::InvalidTensorData(_))
    ));
    assert!(matches!(
        TensorConverter::from_image_chw(vec![0; 13], 3, 2, 2),
        Err(InferenceError::InvalidTensorData(_))
    ));
    assert!(matches!(
        TensorConverter::from_image_hwc(vec![0; 4], usize::MAX, 2, 2),
        Err(InferenceError::InvalidTensorData(_))
    ));
    assert!(TensorConverter::from_image_hwc(vec![], 0, 7, 3).unwrap().is_empty());
    assert!(TensorConverter::from_image_hwc(vec![9; 12], 2, 2, 3).is_ok());
}

#[test]
fn byte_fractions_are_the_nearest_floats() {
    for b in 0..=255u8 {
        assert_eq!(single_from_byte_fraction(b), (b as f32 / 255.0).to_bits(), "byte {}", b);
    }
    assert_eq!(single_from_byte_fraction(255), 0x3F80_0000);
    assert_eq!(single_from_byte_fraction(0), 0);
}

#[test]
fn integers_become_the_nearest_floats() {
    let mut samples: Vec<u32> = vec![
        0,
        1,
        2,
        3,
        999,
        1000,
        (1 << 23) - 1,
        1 << 23,
        (1 << 24) - 1,
        1 << 24,
        (1 << 24) + 1,
        (1 << 24) + 2,
        (1 << 24) + 3,
        (1 << 25) + 2,
        (1 << 25) + 6,
        0x7FFF_FFFF,
        0x8000_0000,
        0xFFFF_FF7F,
        0xFFFF_FF80,
        0xFFFF_FF81,
        u32::MAX,
    ];
    let mut x: u32 = 12345;
    for _ in 0..20000 {
        x = x.wrapping_mul(1664525).wrapping_add(1013904223);
        samples.push(x);
        samples.push(x >> (x % 32));
    }
    for shift in 0..32 {
        for delta in [-2i64, -1, 0, 1, 2] {
            let v = (1i64 << shift) + delta;
            if (0..=u32::MAX as i64).contains(&v) {
                samples.push(v as u32);
                samples.push((v as u32).wrapping_mul(3));
            }
        }
    }
    for v in samples {
        assert_eq!(single_from_u32(v), (v as f32).to_bits(), "value {}", v);
    }
    assert_eq!(single_from_u32(1), 0x3F80_0000);
    assert_eq!(f32::from_bits(single_from_u32(16_777_217)), 16_777_216.0);
}
