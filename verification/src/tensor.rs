//! The tensor data model: a byte buffer with a shape and an element type,
//! whose length always equals the number of elements times the width of one
//! element; and the declarative specification of a model's inputs and outputs.
use vstd::prelude::*;
use vstd::arithmetic::div_mod::lemma_div_denominator;
use crate::error::InferenceError;

verus! {

/// The element types a tensor can hold.
#[derive(Debug, Clone, Copy, PartialEq, Eq, Structural)]
pub enum DataType {
    F32,
    F64,
    I32,
    I64,
    U8,
    U32,
    Bool,
}

impl DataType {
    /// The number of bytes that one element occupies.
    pub open spec fn width(self) -> nat {
        match self {
            DataType::F32 => 4,
            DataType::F64 => 8,
            DataType::I32 => 4,
            DataType::I64 => 8,
            DataType::U8 => 1,
            DataType::U32 => 4,
            DataType::Bool => 1,
        }
    }

    /// The name of the element type.
    pub open spec fn name_text(self) -> Seq<char> {
        match self {
            DataType::F32 => "float32"@,
            DataType::F64 => "float64"@,
            DataType::I32 => "int32"@,
            DataType::I64 => "int64"@,
            DataType::U8 => "uint8"@,
            DataType::U32 => "uint32"@,
            DataType::Bool => "bool"@,
        }
    }

    /// The number of bytes that one element occupies.
    pub fn size_bytes(&self) -> (r: usize)
        ensures
            r == self.width(),
    {
        match self {
            DataType::F32 => 4,
            DataType::F64 => 8,
            DataType::I32 => 4,
            DataType::I64 => 8,
            DataType::U8 => 1,
            DataType::U32 => 4,
            DataType::Bool => 1,
        }
    }

    /// The name of the element type.
    pub fn name(&self) -> (r: &'static str)
        ensures
            r@ == self.name_text(),
    {
        match self {
            DataType::F32 => "float32",
            DataType::F64 => "float64",
            DataType::I32 => "int32",
            DataType::I64 => "int64",
            DataType::U8 => "uint8",
            DataType::U32 => "uint32",
            DataType::Bool => "bool",
        }
    }
}

/// The number of elements of a shape: the product of its dimensions, which is
/// one for the empty shape.
pub open spec fn shape_product(shape: Seq<usize>) -> nat
    decreases shape.len(),
{
    if shape.len() == 0 {
        1
    } else {
        shape_product(shape.drop_last()) * (shape.last() as nat)
    }
}

/// The product of the first `i + 1` dimensions is the product of the first `i`
/// times the next one.
pub proof fn lemma_product_step(shape: Seq<usize>, i: int)
    requires
        0 <= i < shape.len(),
    ensures
        shape_product(shape.take(i + 1)) == shape_product(shape.take(i)) * (shape[i] as nat),
{
    assert(shape.take(i + 1).drop_last() =~= shape.take(i));
}

/// A shape with a zero dimension has no elements.
pub proof fn lemma_product_zero(shape: Seq<usize>, i: int)
    requires
        0 <= i < shape.len(),
        shape[i] == 0,
    ensures
        shape_product(shape) == 0,
    decreases shape.len(),
{
    if i == shape.len() - 1 {
        assert(shape_product(shape.drop_last()) * 0 == 0) by (nonlinear_arith);
    } else {
        lemma_product_zero(shape.drop_last(), i);
        assert(0 * (shape.last() as nat) == 0) by (nonlinear_arith);
    }
}

/// Where no dimension is zero, the product of a prefix of a shape is at least
/// one and at most the product of the whole shape.
pub proof fn lemma_product_prefix(shape: Seq<usize>, i: int)
    requires
        0 <= i <= shape.len(),
        forall|j: int| 0 <= j < shape.len() ==> shape[j] != 0,
    ensures
        1 <= shape_product(shape.take(i)) <= shape_product(shape),
    decreases shape.len() - i,
{
    if i == shape.len() {
        assert(shape.take(i) =~= shape);
        lemma_product_at_least_one(shape);
    } else {
        lemma_product_prefix(shape, i + 1);
        lemma_product_step(shape, i);
        let p = shape_product(shape.take(i));
        let d = shape[i] as nat;
        assert(p * d >= 1 && d >= 1 ==> p >= 1 && p <= p * d) by (nonlinear_arith);
    }
}

/// Where no dimension is zero, a shape has at least one element.
pub proof fn lemma_product_at_least_one(shape: Seq<usize>)
    requires
        forall|j: int| 0 <= j < shape.len() ==> shape[j] != 0,
    ensures
        1 <= shape_product(shape),
    decreases shape.len(),
{
    if shape.len() > 0 {
        lemma_product_at_least_one(shape.drop_last());
        let p = shape_product(shape.drop_last());
        let d = shape.last() as nat;
        assert(p >= 1 && d >= 1 ==> p * d >= 1) by (nonlinear_arith);
    }
}

/// A shape of one dimension has as many elements as the dimension says.
pub proof fn lemma_product_single(a: usize)
    ensures
        shape_product(seq![a]) == a,
{
    let shape = seq![a];
    assert(shape.drop_last() =~= Seq::<usize>::empty());
    assert(shape_product(shape.drop_last()) == 1);
    assert(shape_product(shape) == shape_product(shape.drop_last()) * (shape.last() as nat));
}

/// A shape of two dimensions has as many elements as their product.
pub proof fn lemma_product_pair(a: usize, b: usize)
    ensures
        shape_product(seq![a, b]) == a * b,
{
    let shape = seq![a, b];
    assert(shape.drop_last() =~= seq![a]);
    lemma_product_single(a);
    assert(shape_product(shape) == shape_product(shape.drop_last()) * (shape.last() as nat));
}

/// A shape of three dimensions has as many elements as their product.
pub proof fn lemma_product_triple(a: usize, b: usize, c: usize)
    ensures
        shape_product(seq![a, b, c]) == a * b * c,
{
    let shape = seq![a, b, c];
    let pair = seq![a, b];
    assert(shape.drop_last() =~= pair);
    assert(pair.drop_last() =~= seq![a]);
    lemma_product_single(a);
    assert(shape_product(pair) == shape_product(pair.drop_last()) * (pair.last() as nat));
    assert(shape_product(shape) == shape_product(shape.drop_last()) * (shape.last() as nat));
    assert(shape_product(shape) == a * b * c) by (nonlinear_arith)
        requires
            shape_product(shape) == (a * b) * c,
    ;
}

/// The number of elements of a shape, if it fits the machine word.
#[verifier::rlimit(50)]
pub fn checked_shape_product(shape: &[usize]) -> (r: Option<usize>)
    ensures
        r == (if shape_product(shape@) <= usize::MAX {
            Some(shape_product(shape@) as usize)
        } else {
            None
        }),
{
    let mut i: usize = 0;
    while i < shape.len()
        invariant
            i <= shape.len(),
            forall|j: int| 0 <= j < i ==> shape@[j] != 0,
        decreases shape.len() - i,
    {
        if shape[i] == 0 {
            proof {
                lemma_product_zero(shape@, i as int);
            }
            return Some(0);
        }
        i += 1;
    }
    let mut acc: usize = 1;
    let mut k: usize = 0;
    assert(shape@.take(0) =~= Seq::<usize>::empty());
    while k < shape.len()
        invariant
            k <= shape.len(),
            forall|j: int| 0 <= j < shape.len() ==> shape@[j] != 0,
            acc == shape_product(shape@.take(k as int)),
        decreases shape.len() - k,
    {
        proof {
            lemma_product_step(shape@, k as int);
            lemma_product_prefix(shape@, k + 1);
        }
        match acc.checked_mul(shape[k]) {
            None => {
                return None;
            },
            Some(p) => {
                acc = p;
            },
        }
        k += 1;
    }
    assert(shape@.take(shape.len() as int) =~= shape@);
    Some(acc)
}

/// What a tensor is: its bytes, its shape and its element type.
pub struct TensorView {
    pub data: Seq<u8>,
    pub shape: Seq<usize>,
    pub data_type: DataType,
}

impl TensorView {
    /// The number of elements.
    pub open spec fn element_count(self) -> nat {
        shape_product(self.shape)
    }

    /// The size invariant: the buffer holds exactly the elements of the shape.
    pub open spec fn well_sized(self) -> bool {
        self.data.len() == shape_product(self.shape) * self.data_type.width()
    }
}

/// The two's complement of a 32-bit integer, as a natural number.
pub open spec fn i32_bits(x: i32) -> nat {
    if x >= 0 {
        x as nat
    } else {
        (x + 0x1_0000_0000) as nat
    }
}

/// The two's complement of a 64-bit integer, as a natural number.
pub open spec fn i64_bits(x: i64) -> nat {
    if x >= 0 {
        x as nat
    } else {
        (x + 0x1_0000_0000_0000_0000) as nat
    }
}

/// The weight of byte `k` in a little-endian word.
pub open spec fn byte_weight(k: int) -> nat {
    if k <= 0 {
        0x1
    } else if k == 1 {
        0x100
    } else if k == 2 {
        0x1_0000
    } else if k == 3 {
        0x100_0000
    } else if k == 4 {
        0x1_0000_0000
    } else if k == 5 {
        0x100_0000_0000
    } else if k == 6 {
        0x1_0000_0000_0000
    } else {
        0x100_0000_0000_0000
    }
}

/// Byte `k` of a word in little-endian order.
pub open spec fn word_byte(bits: nat, k: int) -> u8 {
    ((bits / byte_weight(k)) % 256) as u8
}

/// The little-endian bytes of a sequence of 32-bit integers.
pub open spec fn i32s_to_bytes(values: Seq<i32>) -> Seq<u8> {
    Seq::new(4 * values.len(), |k: int| word_byte(i32_bits(values[k / 4]), k % 4))
}

/// The little-endian bytes of a sequence of 64-bit integers.
pub open spec fn i64s_to_bytes(values: Seq<i64>) -> Seq<u8> {
    Seq::new(8 * values.len(), |k: int| word_byte(i64_bits(values[k / 8]), k % 8))
}

/// The little-endian bytes of a sequence of 32-bit words.
pub open spec fn words32_to_bytes(words: Seq<u32>) -> Seq<u8> {
    Seq::new(4 * words.len(), |k: int| word_byte(words[k / 4] as nat, k % 4))
}

/// The little-endian bytes of a sequence of 64-bit words.
pub open spec fn words64_to_bytes(words: Seq<u64>) -> Seq<u8> {
    Seq::new(8 * words.len(), |k: int| word_byte(words[k / 8] as nat, k % 8))
}

/// The 32-bit words that a buffer of little-endian bytes holds.
pub open spec fn bytes_to_words32(data: Seq<u8>) -> Seq<u32> {
    Seq::new(data.len() / 4, |i: int| u32_at(data, 4 * i) as u32)
}

/// The 64-bit words that a buffer of little-endian bytes holds.
pub open spec fn bytes_to_words64(data: Seq<u8>) -> Seq<u64> {
    Seq::new(
        data.len() / 8,
        |i: int| (u32_at(data, 8 * i) + 0x1_0000_0000 * u32_at(data, 8 * i + 4)) as u64,
    )
}

/// The 32-bit integer that four little-endian bytes hold.
pub open spec fn i32_from_bytes(b0: u8, b1: u8, b2: u8, b3: u8) -> i32 {
    let v = b0 + 0x100 * b1 + 0x1_0000 * b2 + 0x100_0000 * b3;
    if v >= 0x8000_0000 {
        (v - 0x1_0000_0000) as i32
    } else {
        v as i32
    }
}

/// The 64-bit integer that eight little-endian bytes hold, given as its two
/// halves.
pub open spec fn i64_from_halves(low: int, high: int) -> i64 {
    let v = low + 0x1_0000_0000 * high;
    if v >= 0x8000_0000_0000_0000 {
        (v - 0x1_0000_0000_0000_0000) as i64
    } else {
        v as i64
    }
}

/// The unsigned value of four little-endian bytes of a buffer, from `at`.
pub open spec fn u32_at(data: Seq<u8>, at: int) -> int {
    data[at] + 0x100 * data[at + 1] + 0x1_0000 * data[at + 2] + 0x100_0000 * data[at + 3]
}

/// The 32-bit integers that a buffer of little-endian bytes holds.
pub open spec fn bytes_to_i32s(data: Seq<u8>) -> Seq<i32> {
    Seq::new(
        data.len() / 4,
        |i: int| i32_from_bytes(data[4 * i], data[4 * i + 1], data[4 * i + 2], data[4 * i + 3]),
    )
}

/// The 64-bit integers that a buffer of little-endian bytes holds.
pub open spec fn bytes_to_i64s(data: Seq<u8>) -> Seq<i64> {
    Seq::new(data.len() / 8, |i: int| i64_from_halves(u32_at(data, 8 * i), u32_at(data, 8 * i + 4)))
}

/// A multidimensional array: a contiguous byte buffer, a shape and an element
/// type. Every tensor satisfies the size invariant, and none can be changed
/// once it is made.
#[derive(Debug)]
pub struct Tensor {
    data: Vec<u8>,
    shape: Vec<usize>,
    data_type: DataType,
}

impl View for Tensor {
    type V = TensorView;

    closed spec fn view(&self) -> TensorView {
        TensorView { data: self.data@, shape: self.shape@, data_type: self.data_type }
    }
}

impl Clone for Tensor {
    fn clone(&self) -> (r: Self)
        ensures
            r@ == self@,
    {
        proof {
            use_type_invariant(self);
        }
        let data = self.data.clone();
        let shape = self.shape.clone();
        assert(data@ =~= self.data@);
        assert(shape@ =~= self.shape@);
        Tensor { data, shape, data_type: self.data_type }
    }
}

impl Tensor {
    #[verifier::type_invariant]
    spec fn sized(&self) -> bool {
        self.data@.len() == shape_product(self.shape@) * self.data_type.width()
    }

    /// Makes a tensor of a buffer, a shape and an element type. Fails with
    /// `InvalidTensorData` exactly when the length of the buffer is not the
    /// number of elements of the shape times the width of the element type.
    pub fn new(data: Vec<u8>, shape: Vec<usize>, data_type: DataType) -> (r: Result<
        Tensor,
        InferenceError,
    >)
        ensures
            r is Ok <==> data@.len() == shape_product(shape@) * data_type.width(),
            r matches Ok(t) ==> t@ == (TensorView { data: data@, shape: shape@, data_type })
                && t@.well_sized(),
            r matches Err(e) ==> e is InvalidTensorData,
    {
        let width = data_type.size_bytes();
        let size = data.len();
        let fits = match checked_shape_product(shape.as_slice()) {
            Some(count) => count.checked_mul(width) == Some(size),
            None => {
                proof {
                    let p = shape_product(shape@);
                    let w = data_type.width();
                    assert(p > usize::MAX && w >= 1 ==> p * w > usize::MAX) by (nonlinear_arith);
                }
                false
            },
        };
        if fits {
            Ok(Tensor { data, shape, data_type })
        } else {
            Err(
                InferenceError::invalid_tensor_data(
                    "Data size doesn't match the size expected for the shape and type",
                ),
            )
        }
    }

    /// Makes a tensor of 32-bit integers, stored in little-endian order.
    /// Fails with `InvalidTensorData` exactly when the number of values is
    /// not the number of elements of the shape.
    #[verifier::rlimit(50)]
    pub fn from_i32(data: Vec<i32>, shape: Vec<usize>) -> (r: Result<Tensor, InferenceError>)
        ensures
            r is Ok <==> data@.len() == shape_product(shape@),
            r matches Ok(t) ==> t@ == (TensorView {
                data: i32s_to_bytes(data@),
                shape: shape@,
                data_type: DataType::I32,
            }) && t@.well_sized(),
            r matches Err(e) ==> e is InvalidTensorData,
    {
        let mut bytes: Vec<u8> = Vec::new();
        let mut i: usize = 0;
        while i < data.len()
            invariant
                i <= data.len(),
                bytes@.len() == 4 * i,
                forall|k: int|
                    0 <= k < 4 * i ==> bytes@[k] == word_byte(i32_bits(data@[k / 4]), k % 4),
            decreases data.len() - i,
        {
            let x: i32 = data[i];
            let bits: u64 = if x >= 0 {
                x as u64
            } else {
                (x as i64 + 0x1_0000_0000) as u64
            };
            let ghost before = bytes@;
            bytes.push((bits % 256) as u8);
            bytes.push(((bits / 0x100) % 256) as u8);
            bytes.push(((bits / 0x1_0000) % 256) as u8);
            bytes.push(((bits / 0x100_0000) % 256) as u8);
            proof {
                let word = i32_bits(x);
                assert(bits == word);
                assert(bytes@[4 * i] == word_byte(word, 0));
                assert(bytes@[4 * i + 1] == word_byte(word, 1));
                assert(bytes@[4 * i + 2] == word_byte(word, 2));
                assert(bytes@[4 * i + 3] == word_byte(word, 3));
                assert forall|k: int| 0 <= k < 4 * (i + 1) implies bytes@[k] == word_byte(
                    i32_bits(data@[k / 4]),
                    k % 4,
                ) by {
                    if k < 4 * i {
                        assert(bytes@[k] == before[k]);
                    } else {
                        assert(k / 4 == i);
                        assert(k % 4 == k - 4 * i);
                    }
                }
            }
            i += 1;
        }
        assert(bytes@ =~= i32s_to_bytes(data@));
        Tensor::new(bytes, shape, DataType::I32)
    }

    /// Makes a tensor of 64-bit integers, stored in little-endian order.
    /// Fails with `InvalidTensorData` exactly when the number of values is
    /// not the number of elements of the shape.
    #[verifier::rlimit(50)]
    pub fn from_i64(data: Vec<i64>, shape: Vec<usize>) -> (r: Result<Tensor, InferenceError>)
        ensures
            r is Ok <==> data@.len() == shape_product(shape@),
            r matches Ok(t) ==> t@ == (TensorView {
                data: i64s_to_bytes(data@),
                shape: shape@,
                data_type: DataType::I64,
            }) && t@.well_sized(),
            r matches Err(e) ==> e is InvalidTensorData,
    {
        let mut bytes: Vec<u8> = Vec::new();
        let mut i: usize = 0;
        while i < data.len()
            invariant
                i <= data.len(),
                bytes@.len() == 8 * i,
                forall|k: int|
                    0 <= k < 8 * i ==> bytes@[k] == word_byte(i64_bits(data@[k / 8]), k % 8),
            decreases data.len() - i,
        {
            let x: i64 = data[i];
            let bits: u128 = if x >= 0 {
                x as u128
            } else {
                (x as i128 + 0x1_0000_0000_0000_0000) as u128
            };
            let ghost before = bytes@;
            bytes.push((bits % 256) as u8);
            bytes.push(((bits / 0x100) % 256) as u8);
            bytes.push(((bits / 0x1_0000) % 256) as u8);
            bytes.push(((bits / 0x100_0000) % 256) as u8);
            bytes.push(((bits / 0x1_0000_0000) % 256) as u8);
            bytes.push(((bits / 0x100_0000_0000) % 256) as u8);
            bytes.push(((bits / 0x1_0000_0000_0000) % 256) as u8);
            bytes.push(((bits / 0x100_0000_0000_0000) % 256) as u8);
            proof {
                let word = i64_bits(x);
                assert(bits == word);
                assert(bytes@[8 * i] == word_byte(word, 0));
                assert(bytes@[8 * i + 1] == word_byte(word, 1));
                assert(bytes@[8 * i + 2] == word_byte(word, 2));
                assert(bytes@[8 * i + 3] == word_byte(word, 3));
                assert(bytes@[8 * i + 4] == word_byte(word, 4));
                assert(bytes@[8 * i + 5] == word_byte(word, 5));
                assert(bytes@[8 * i + 6] == word_byte(word, 6));
                assert(bytes@[8 * i + 7] == word_byte(word, 7));
                assert forall|k: int| 0 <= k < 8 * (i + 1) implies bytes@[k] == word_byte(
                    i64_bits(data@[k / 8]),
                    k % 8,
                ) by {
                    if k < 8 * i {
                        assert(bytes@[k] == before[k]);
                    } else {
                        assert(k / 8 == i);
                        assert(k % 8 == k - 8 * i);
                    }
                }
            }
            i += 1;
        }
        assert(bytes@ =~= i64s_to_bytes(data@));
        Tensor::new(bytes, shape, DataType::I64)
    }

    /// Makes a tensor of 32-bit floats, each given by its bits, stored in
    /// little-endian order. Fails with `InvalidTensorData` exactly when the
    /// number of values is not the number of elements of the shape.
    pub fn from_f32_bits(bits: Vec<u32>, shape: Vec<usize>) -> (r: Result<Tensor, InferenceError>)
        ensures
            r is Ok <==> bits@.len() == shape_product(shape@),
            r matches Ok(t) ==> t@ == (TensorView {
                data: words32_to_bytes(bits@),
                shape: shape@,
                data_type: DataType::F32,
            }) && t@.well_sized(),
            r matches Err(e) ==> e is InvalidTensorData,
    {
        Tensor::new(encode_words32(&bits), shape, DataType::F32)
    }

    /// Makes a tensor of 64-bit floats, each given by its bits, stored in
    /// little-endian order. Fails with `InvalidTensorData` exactly when the
    /// number of values is not the number of elements of the shape.
    pub fn from_f64_bits(bits: Vec<u64>, shape: Vec<usize>) -> (r: Result<Tensor, InferenceError>)
        ensures
            r is Ok <==> bits@.len() == shape_product(shape@),
            r matches Ok(t) ==> t@ == (TensorView {
                data: words64_to_bytes(bits@),
                shape: shape@,
                data_type: DataType::F64,
            }) && t@.well_sized(),
            r matches Err(e) ==> e is InvalidTensorData,
    {
        Tensor::new(encode_words64(&bits), shape, DataType::F64)
    }

    /// The bits of the 32-bit floats of a tensor of that type, read in
    /// little-endian order. Fails with `InvalidTensorData` exactly when the
    /// element type is another one.
    pub fn to_f32_bits(&self) -> (r: Result<Vec<u32>, InferenceError>)
        ensures
            r is Ok <==> self@.data_type == DataType::F32,
            r matches Ok(v) ==> v@ == bytes_to_words32(self@.data) && v@.len()
                == self@.element_count(),
            r matches Err(e) ==> e is InvalidTensorData,
    {
        proof {
            use_type_invariant(self);
        }
        if self.data_type != DataType::F32 {
            return Err(InferenceError::invalid_tensor_data("Cannot convert to f32 vector"));
        }
        Ok(decode_words32(&self.data))
    }

    /// The bits of the 64-bit floats of a tensor of that type, read in
    /// little-endian order. Fails with `InvalidTensorData` exactly when the
    /// element type is another one.
    pub fn to_f64_bits(&self) -> (r: Result<Vec<u64>, InferenceError>)
        ensures
            r is Ok <==> self@.data_type == DataType::F64,
            r matches Ok(v) ==> v@ == bytes_to_words64(self@.data) && v@.len()
                == self@.element_count(),
            r matches Err(e) ==> e is InvalidTensorData,
    {
        proof {
            use_type_invariant(self);
        }
        if self.data_type != DataType::F64 {
            return Err(InferenceError::invalid_tensor_data("Cannot convert to f64 vector"));
        }
        Ok(decode_words64(&self.data))
    }

    /// The raw bytes.
    pub fn data(&self) -> (r: &[u8])
        ensures
            r@ == self@.data,
            self@.well_sized(),
    {
        proof {
            use_type_invariant(self);
        }
        self.data.as_slice()
    }

    /// The shape.
    pub fn shape(&self) -> (r: &[usize])
        ensures
            r@ == self@.shape,
            self@.well_sized(),
    {
        proof {
            use_type_invariant(self);
        }
        self.shape.as_slice()
    }

    /// The element type.
    pub fn data_type(&self) -> (r: &DataType)
        ensures
            *r == self@.data_type,
            self@.well_sized(),
    {
        proof {
            use_type_invariant(self);
        }
        &self.data_type
    }

    /// The number of elements.
    pub fn len(&self) -> (r: usize)
        ensures
            r == self@.element_count(),
            self@.well_sized(),
    {
        let size = self.data.len();
        proof {
            use_type_invariant(self);
            let p = shape_product(self.shape@);
            let w = self.data_type.width();
            assert(w >= 1 ==> p <= p * w) by (nonlinear_arith);
        }
        match checked_shape_product(self.shape.as_slice()) {
            Some(count) => count,
            None => 0,
        }
    }

    /// Whether the tensor has no element.
    pub fn is_empty(&self) -> (r: bool)
        ensures
            r == (self@.element_count() == 0),
    {
        self.len() == 0
    }

    /// The number of dimensions.
    pub fn ndim(&self) -> (r: usize)
        ensures
            r == self@.shape.len(),
    {
        self.shape.len()
    }

    /// A tensor of the same bytes and element type with another shape. Fails
    /// with `InvalidShape` exactly when the new shape has another number of
    /// elements; the error holds the tensor's number of elements and that of
    /// the new shape, the latter capped at the largest machine word.
    pub fn reshape(&self, new_shape: Vec<usize>) -> (r: Result<Tensor, InferenceError>)
        ensures
            r is Ok <==> shape_product(new_shape@) == self@.element_count(),
            r matches Ok(t) ==> t@ == (TensorView {
                data: self@.data,
                shape: new_shape@,
                data_type: self@.data_type,
            }) && t@.well_sized() && t@.element_count() == self@.element_count(),
            r matches Err(e) ==> e matches InferenceError::InvalidShape { expected, actual }
                && expected@ == seq![self@.element_count() as usize] && actual@ == seq![
                if shape_product(new_shape@) <= usize::MAX {
                    shape_product(new_shape@) as usize
                } else {
                    usize::MAX
                },
            ],
    {
        let count = self.len();
        let new_count = match checked_shape_product(new_shape.as_slice()) {
            Some(c) => c,
            None => usize::MAX,
        };
        proof {
            use_type_invariant(self);
        }
        if checked_shape_product(new_shape.as_slice()) == Some(count) {
            let data = self.data.clone();
            assert(data@ =~= self.data@);
            Ok(Tensor { data, shape: new_shape, data_type: self.data_type })
        } else {
            let mut expected: Vec<usize> = Vec::new();
            expected.push(count);
            let mut actual: Vec<usize> = Vec::new();
            actual.push(new_count);
            assert(expected@ =~= seq![count]);
            assert(actual@ =~= seq![new_count]);
            Err(InferenceError::invalid_shape(expected, actual))
        }
    }

    /// The 32-bit integers of a tensor of that type, read in little-endian
    /// order. Fails with `InvalidTensorData` exactly when the element type is
    /// another one.
    #[verifier::rlimit(50)]
    pub fn to_i32_vec(&self) -> (r: Result<Vec<i32>, InferenceError>)
        ensures
            r is Ok <==> self@.data_type == DataType::I32,
            r matches Ok(v) ==> v@ == bytes_to_i32s(self@.data) && v@.len()
                == self@.element_count(),
            r matches Err(e) ==> e is InvalidTensorData,
    {
        proof {
            use_type_invariant(self);
        }
        if self.data_type != DataType::I32 {
            return Err(InferenceError::invalid_tensor_data("Cannot convert to i32 vector"));
        }
        let count: usize = self.data.len() / 4;
        let mut values: Vec<i32> = Vec::new();
        let mut i: usize = 0;
        while i < count
            invariant
                i <= count,
                count == self.data@.len() / 4,
                self.data@.len() <= usize::MAX,
                values@.len() == i,
                forall|j: int| 0 <= j < i ==> values@[j] == bytes_to_i32s(self.data@)[j],
            decreases count - i,
        {
            let v: i64 = read_u32(&self.data, 4 * i);
            let x: i32 = if v >= 0x8000_0000 {
                (v - 0x1_0000_0000) as i32
            } else {
                v as i32
            };
            values.push(x);
            i += 1;
        }
        assert(values@ =~= bytes_to_i32s(self.data@));
        Ok(values)
    }

    /// The 64-bit integers of a tensor of that type, read in little-endian
    /// order. Fails with `InvalidTensorData` exactly when the element type is
    /// another one.
    #[verifier::rlimit(50)]
    pub fn to_i64_vec(&self) -> (r: Result<Vec<i64>, InferenceError>)
        ensures
            r is Ok <==> self@.data_type == DataType::I64,
            r matches Ok(v) ==> v@ == bytes_to_i64s(self@.data) && v@.len()
                == self@.element_count(),
            r matches Err(e) ==> e is InvalidTensorData,
    {
        proof {
            use_type_invariant(self);
        }
        if self.data_type != DataType::I64 {
            return Err(InferenceError::invalid_tensor_data("Cannot convert to i64 vector"));
        }
        let count: usize = self.data.len() / 8;
        let mut values: Vec<i64> = Vec::new();
        let mut i: usize = 0;
        while i < count
            invariant
                i <= count,
                count == self.data@.len() / 8,
                self.data@.len() <= usize::MAX,
                values@.len() == i,
                forall|j: int| 0 <= j < i ==> values@[j] == bytes_to_i64s(self.data@)[j],
            decreases count - i,
        {
            let low: i64 = read_u32(&self.data, 8 * i);
            let high: i64 = read_u32(&self.data, 8 * i + 4);
            let v: i128 = low as i128 + 0x1_0000_0000 * (high as i128);
            let x: i64 = if v >= 0x8000_0000_0000_0000 {
                (v - 0x1_0000_0000_0000_0000) as i64
            } else {
                v as i64
            };
            values.push(x);
            i += 1;
        }
        assert(values@ =~= bytes_to_i64s(self.data@));
        Ok(values)
    }
}

/// The little-endian bytes of a list of 32-bit words.
#[verifier::rlimit(50)]
pub fn encode_words32(words: &Vec<u32>) -> (bytes: Vec<u8>)
    ensures
        bytes@ == words32_to_bytes(words@),
{
    let mut bytes: Vec<u8> = Vec::new();
    let mut i: usize = 0;
    while i < words.len()
        invariant
            i <= words.len(),
            bytes@.len() == 4 * i,
            forall|k: int| 0 <= k < 4 * i ==> bytes@[k] == word_byte(words@[k / 4] as nat, k % 4),
        decreases words.len() - i,
    {
        let bits: u32 = words[i];
        let ghost before = bytes@;
        bytes.push((bits % 256) as u8);
        bytes.push(((bits / 0x100) % 256) as u8);
        bytes.push(((bits / 0x1_0000) % 256) as u8);
        bytes.push(((bits / 0x100_0000) % 256) as u8);
        proof {
            let word = bits as nat;
            assert(bytes@[4 * i] == word_byte(word, 0));
            assert(bytes@[4 * i + 1] == word_byte(word, 1));
            assert(bytes@[4 * i + 2] == word_byte(word, 2));
            assert(bytes@[4 * i + 3] == word_byte(word, 3));
            assert forall|k: int| 0 <= k < 4 * (i + 1) implies bytes@[k] == word_byte(
                words@[k / 4] as nat,
                k % 4,
            ) by {
                if k < 4 * i {
                    assert(bytes@[k] == before[k]);
                } else {
                    assert(k / 4 == i);
                    assert(k % 4 == k - 4 * i);
                }
            }
        }
        i += 1;
    }
    assert(bytes@ =~= words32_to_bytes(words@));
    bytes
}

/// The little-endian bytes of a list of 64-bit words.
#[verifier::rlimit(50)]
pub fn encode_words64(words: &Vec<u64>) -> (bytes: Vec<u8>)
    ensures
        bytes@ == words64_to_bytes(words@),
{
    let mut bytes: Vec<u8> = Vec::new();
    let mut i: usize = 0;
    while i < words.len()
        invariant
            i <= words.len(),
            bytes@.len() == 8 * i,
            forall|k: int| 0 <= k < 8 * i ==> bytes@[k] == word_byte(words@[k / 8] as nat, k % 8),
        decreases words.len() - i,
    {
        let bits: u64 = words[i];
        let ghost before = bytes@;
        bytes.push((bits % 256) as u8);
        bytes.push(((bits / 0x100) % 256) as u8);
        bytes.push(((bits / 0x1_0000) % 256) as u8);
        bytes.push(((bits / 0x100_0000) % 256) as u8);
        bytes.push(((bits / 0x1_0000_0000) % 256) as u8);
        bytes.push(((bits / 0x100_0000_0000) % 256) as u8);
        bytes.push(((bits / 0x1_0000_0000_0000) % 256) as u8);
        bytes.push(((bits / 0x100_0000_0000_0000) % 256) as u8);
        proof {
            let word = bits as nat;
            assert(bytes@[8 * i] == word_byte(word, 0));
            assert(bytes@[8 * i + 1] == word_byte(word, 1));
            assert(bytes@[8 * i + 2] == word_byte(word, 2));
            assert(bytes@[8 * i + 3] == word_byte(word, 3));
            assert(bytes@[8 * i + 4] == word_byte(word, 4));
            assert(bytes@[8 * i + 5] == word_byte(word, 5));
            assert(bytes@[8 * i + 6] == word_byte(word, 6));
            assert(bytes@[8 * i + 7] == word_byte(word, 7));
            assert forall|k: int| 0 <= k < 8 * (i + 1) implies bytes@[k] == word_byte(
                words@[k / 8] as nat,
                k % 8,
            ) by {
                if k < 8 * i {
                    assert(bytes@[k] == before[k]);
                } else {
                    assert(k / 8 == i);
                    assert(k % 8 == k - 8 * i);
                }
            }
        }
        i += 1;
    }
    assert(bytes@ =~= words64_to_bytes(words@));
    bytes
}

/// The 32-bit words that a buffer of little-endian bytes holds.
#[verifier::rlimit(50)]
pub fn decode_words32(data: &Vec<u8>) -> (words: Vec<u32>)
    ensures
        words@ == bytes_to_words32(data@),
{
    let count: usize = data.len() / 4;
    let mut words: Vec<u32> = Vec::new();
    let mut i: usize = 0;
    while i < count
        invariant
            i <= count,
            count == data@.len() / 4,
            data@.len() <= usize::MAX,
            words@.len() == i,
            forall|j: int| 0 <= j < i ==> words@[j] == bytes_to_words32(data@)[j],
        decreases count - i,
    {
        let v: i64 = read_u32(data, 4 * i);
        words.push(v as u32);
        i += 1;
    }
    assert(words@ =~= bytes_to_words32(data@));
    words
}

/// The 64-bit words that a buffer of little-endian bytes holds.
#[verifier::rlimit(50)]
pub fn decode_words64(data: &Vec<u8>) -> (words: Vec<u64>)
    ensures
        words@ == bytes_to_words64(data@),
{
    let count: usize = data.len() / 8;
    let mut words: Vec<u64> = Vec::new();
    let mut i: usize = 0;
    while i < count
        invariant
            i <= count,
            count == data@.len() / 8,
            data@.len() <= usize::MAX,
            words@.len() == i,
            forall|j: int| 0 <= j < i ==> words@[j] == bytes_to_words64(data@)[j],
        decreases count - i,
    {
        let low: i64 = read_u32(data, 8 * i);
        let high: i64 = read_u32(data, 8 * i + 4);
        let v: u64 = low as u64 + 0x1_0000_0000 * (high as u64);
        words.push(v);
        i += 1;
    }
    assert(words@ =~= bytes_to_words64(data@));
    words
}

/// Reads four little-endian bytes of a buffer as an unsigned number.
fn read_u32(data: &Vec<u8>, at: usize) -> (v: i64)
    requires
        at + 4 <= data@.len(),
    ensures
        v == u32_at(data@, at as int),
        0 <= v < 0x1_0000_0000,
{
    let size = data.len();
    let b0: i64 = data[at] as i64;
    let b1: i64 = data[at + 1] as i64;
    let b2: i64 = data[at + 2] as i64;
    let b3: i64 = data[at + 3] as i64;
    b0 + 0x100 * b1 + 0x1_0000 * b2 + 0x100_0000 * b3
}

/// Reading back the integers that a tensor was made of gives the same
/// integers.
#[verifier::rlimit(50)]
pub proof fn lemma_i32_round_trip(values: Seq<i32>)
    ensures
        bytes_to_i32s(i32s_to_bytes(values)) == values,
{
    let bytes = i32s_to_bytes(values);
    assert forall|i: int| 0 <= i < values.len() implies bytes_to_i32s(bytes)[i] == values[i] by {
        let bits = i32_bits(values[i]);
        assert((4 * i) / 4 == i && (4 * i + 1) / 4 == i && (4 * i + 2) / 4 == i && (4 * i + 3) / 4
            == i);
        assert((4 * i) % 4 == 0 && (4 * i + 1) % 4 == 1 && (4 * i + 2) % 4 == 2 && (4 * i + 3) % 4
            == 3);
        assert(bits < 0x1_0000_0000);
        lemma_four_bytes(bits);
    }
    assert(bytes_to_i32s(bytes) =~= values);
}

/// The declared contract of one input or output of a model: a name, a shape
/// whose dimensions are fixed (`Some`) or dynamic (`None`), an element type
/// and an optional description.
#[derive(Debug, PartialEq)]
pub struct TensorSpec {
    pub name: String,
    pub shape: Vec<Option<usize>>,
    pub data_type: DataType,
    pub description: Option<String>,
}

impl Clone for TensorSpec {
    fn clone(&self) -> (r: Self)
        ensures
            r@ == self@,
    {
        let mut shape: Vec<Option<usize>> = Vec::new();
        let mut i: usize = 0;
        while i < self.shape.len()
            invariant
                i <= self.shape@.len(),
                shape@ == self.shape@.take(i as int),
            decreases self.shape@.len() - i,
        {
            shape.push(self.shape[i]);
            assert(self.shape@.take(i + 1) =~= self.shape@.take(i as int).push(
                self.shape@[i as int],
            ));
            i += 1;
        }
        assert(self.shape@.take(i as int) =~= self.shape@);
        let description = match &self.description {
            Some(text) => Some(text.clone()),
            None => None,
        };
        TensorSpec { name: self.name.clone(), shape, data_type: self.data_type, description }
    }
}

/// A number below two to the thirty-second is the sum of its four bytes,
/// each with its weight.
#[verifier::rlimit(50)]
pub proof fn lemma_four_bytes(x: nat)
    requires
        x < 0x1_0000_0000,
    ensures
        x % 256 + 0x100 * ((x / 0x100) % 256) + 0x1_0000 * ((x / 0x1_0000) % 256) + 0x100_0000 * ((x
            / 0x100_0000) % 256) == x,
{
    let v = x as int;
    let q1 = v / 0x100;
    let q2 = q1 / 0x100;
    let q3 = q2 / 0x100;
    lemma_div_denominator(v, 0x100, 0x100);
    lemma_div_denominator(v, 0x1_0000, 0x100);
    assert(v / 0x1_0000 == q2);
    assert(v / 0x100_0000 == q3);
    assert(v == 0x100 * q1 + v % 0x100);
    assert(q1 == 0x100 * q2 + q1 % 0x100);
    assert(q2 == 0x100 * q3 + q2 % 0x100);
    assert(0 <= q3 < 0x100);
    assert(q3 % 0x100 == q3);
}

/// The bytes of a 64-bit word are the bytes of its two halves.
proof fn lemma_eight_bytes(bits: nat)
    requires
        bits < 0x1_0000_0000_0000_0000,
    ensures
        word_byte(bits, 0) == word_byte(bits % 0x1_0000_0000, 0),
        word_byte(bits, 1) == word_byte(bits % 0x1_0000_0000, 1),
        word_byte(bits, 2) == word_byte(bits % 0x1_0000_0000, 2),
        word_byte(bits, 3) == word_byte(bits % 0x1_0000_0000, 3),
        word_byte(bits, 4) == word_byte(bits / 0x1_0000_0000, 0),
        word_byte(bits, 5) == word_byte(bits / 0x1_0000_0000, 1),
        word_byte(bits, 6) == word_byte(bits / 0x1_0000_0000, 2),
        word_byte(bits, 7) == word_byte(bits / 0x1_0000_0000, 3),
        bits % 0x1_0000_0000 + 0x1_0000_0000 * (bits / 0x1_0000_0000) == bits,
{
    let x = bits as u64;
    assert((x / 1) % 256 == ((x % 0x1_0000_0000) / 1) % 256) by (bit_vector);
    assert((x / 0x100) % 256 == ((x % 0x1_0000_0000) / 0x100) % 256) by (bit_vector);
    assert((x / 0x1_0000) % 256 == ((x % 0x1_0000_0000) / 0x1_0000) % 256) by (bit_vector);
    assert((x / 0x100_0000) % 256 == ((x % 0x1_0000_0000) / 0x100_0000) % 256) by (bit_vector);
    assert((x / 0x1_0000_0000) % 256 == ((x / 0x1_0000_0000) / 1) % 256) by (bit_vector);
    assert((x / 0x100_0000_0000) % 256 == ((x / 0x1_0000_0000) / 0x100) % 256) by (bit_vector);
    assert((x / 0x1_0000_0000_0000) % 256 == ((x / 0x1_0000_0000) / 0x1_0000) % 256)
        by (bit_vector);
    assert((x / 0x100_0000_0000_0000) % 256 == ((x / 0x1_0000_0000) / 0x100_0000) % 256)
        by (bit_vector);
}

/// Reading back the 64-bit integers that a tensor was made of gives the same
/// integers.
#[verifier::rlimit(50)]
pub proof fn lemma_i64_round_trip(values: Seq<i64>)
    ensures
        bytes_to_i64s(i64s_to_bytes(values)) == values,
{
    let bytes = i64s_to_bytes(values);
    assert forall|i: int| 0 <= i < values.len() implies bytes_to_i64s(bytes)[i] == values[i] by {
        let bits = i64_bits(values[i]);
        let low = bits % 0x1_0000_0000;
        let high = bits / 0x1_0000_0000;
        lemma_eight_bytes(bits);
        lemma_four_bytes(low);
        lemma_four_bytes(high);
        assert(u32_at(bytes, 8 * i) == low) by {
            assert((8 * i) / 8 == i && (8 * i + 1) / 8 == i && (8 * i + 2) / 8 == i && (8 * i + 3)
                / 8 == i);
            assert((8 * i) % 8 == 0 && (8 * i + 1) % 8 == 1 && (8 * i + 2) % 8 == 2 && (8 * i + 3)
                % 8 == 3);
        }
        assert(u32_at(bytes, 8 * i + 4) == high) by {
            assert((8 * i + 4) / 8 == i && (8 * i + 5) / 8 == i && (8 * i + 6) / 8 == i && (8 * i
                + 7) / 8 == i);
            assert((8 * i + 4) % 8 == 4 && (8 * i + 5) % 8 == 5 && (8 * i + 6) % 8 == 6 && (8 * i
                + 7) % 8 == 7);
        }
    }
    assert(bytes_to_i64s(bytes) =~= values);
}

/// Reading back the bits of the floats that a tensor was made of gives the
/// same bits.
#[verifier::rlimit(50)]
pub proof fn lemma_f32_bits_round_trip(bits: Seq<u32>)
    ensures
        bytes_to_words32(words32_to_bytes(bits)) == bits,
{
    let bytes = words32_to_bytes(bits);
    assert forall|i: int| 0 <= i < bits.len() implies bytes_to_words32(bytes)[i] == bits[i] by {
        let word = bits[i] as nat;
        assert((4 * i) / 4 == i && (4 * i + 1) / 4 == i && (4 * i + 2) / 4 == i && (4 * i + 3) / 4
            == i);
        assert((4 * i) % 4 == 0 && (4 * i + 1) % 4 == 1 && (4 * i + 2) % 4 == 2 && (4 * i + 3) % 4
            == 3);
        lemma_four_bytes(word);
    }
    assert(bytes_to_words32(bytes) =~= bits);
}

/// What a tensor specification says.
pub struct TensorSpecView {
    pub name: Seq<char>,
    pub shape: Seq<Option<usize>>,
    pub data_type: DataType,
    pub description: Option<Seq<char>>,
}

impl View for TensorSpec {
    type V = TensorSpecView;

    open spec fn view(&self) -> TensorSpecView {
        TensorSpecView {
            name: self.name@,
            shape: self.shape@,
            data_type: self.data_type,
            description: match self.description {
                Some(d) => Some(d@),
                None => None,
            },
        }
    }
}

/// What a list of tensor specifications says.
pub open spec fn specs_view(specs: Seq<TensorSpec>) -> Seq<TensorSpecView> {
    Seq::new(specs.len(), |i: int| specs[i]@)
}

/// Another name for a tensor specification.
pub type TensorInfo = TensorSpec;

impl TensorSpec {
    /// Whether a tensor meets this specification: the element types are
    /// equal, the ranks are equal, and every fixed dimension equals the
    /// tensor's dimension at that position.
    pub open spec fn admits(&self, t: TensorView) -> bool {
        &&& t.data_type == self.data_type
        &&& t.shape.len() == self.shape@.len()
        &&& forall|i: int|
            0 <= i < self.shape@.len() ==> (#[trigger] self.shape@[i] matches Some(d) ==> t.shape[i]
                == d)
    }

    /// Whether every dimension is fixed.
    pub open spec fn fully_fixed(&self) -> bool {
        forall|i: int| 0 <= i < self.shape@.len() ==> #[trigger] self.shape@[i] is Some
    }

    /// A specification without a description.
    pub fn new(name: String, shape: Vec<Option<usize>>, data_type: DataType) -> (s: Self)
        ensures
            s == (TensorSpec { name, shape, data_type, description: None }),
    {
        TensorSpec { name, shape, data_type, description: None }
    }

    /// The same specification with a description.
    pub fn with_description(self, description: String) -> (s: Self)
        ensures
            s == (TensorSpec { description: Some(description), ..self }),
    {
        let mut s = self;
        s.description = Some(description);
        s
    }

    /// Tests whether a tensor meets this specification.
    pub fn matches(&self, tensor: &Tensor) -> (r: bool)
        ensures
            r == self.admits(tensor@),
    {
        if *tensor.data_type() != self.data_type {
            return false;
        }
        let actual = tensor.shape();
        if actual.len() != self.shape.len() {
            return false;
        }
        let mut i: usize = 0;
        while i < self.shape.len()
            invariant
                i <= self.shape@.len(),
                actual@ == tensor@.shape,
                actual@.len() == self.shape@.len(),
                forall|j: int|
                    0 <= j < i ==> (#[trigger] self.shape@[j] matches Some(d) ==> actual@[j] == d),
            decreases self.shape@.len() - i,
        {
            match self.shape[i] {
                Some(d) => {
                    if actual[i] != d {
                        return false;
                    }
                },
                None => {},
            }
            i += 1;
        }
        true
    }

    /// The shape as plain sizes, if every dimension is fixed.
    pub fn fixed_size(&self) -> (r: Option<Vec<usize>>)
        ensures
            r is Some <==> self.fully_fixed(),
            r matches Some(v) ==> v@.len() == self.shape@.len() && forall|i: int|
                0 <= i < v@.len() ==> self.shape@[i] == Some(#[trigger] v@[i]),
    {
        let mut result: Vec<usize> = Vec::new();
        let mut i: usize = 0;
        while i < self.shape.len()
            invariant
                i <= self.shape@.len(),
                result@.len() == i,
                forall|j: int| 0 <= j < i ==> self.shape@[j] == Some(#[trigger] result@[j]),
            decreases self.shape@.len() - i,
        {
            match self.shape[i] {
                Some(d) => {
                    result.push(d);
                },
                None => {
                    return None;
                },
            }
            i += 1;
        }
        assert forall|j: int| 0 <= j < self.shape@.len() implies #[trigger] self.shape@[j] is Some by {
            assert(self.shape@[j] == Some(result@[j]));
        }
        Some(result)
    }
}

} // verus!
