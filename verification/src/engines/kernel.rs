//! The calls into the outside crates that the backend for flat files of
//! weights rests on: the reader of such files, the JSON parser, and the
//! kernel library that keeps tensors and multiplies matrices. What is said
//! of these calls is believed, not proved.
use vstd::prelude::*;
use vstd::multiset::Multiset;
use crate::detector::header_length;
use crate::tensor::shape_product;

verus! {

/// The element types of a file of weights that the backend tells apart.
#[derive(Debug, Clone, Copy, PartialEq, Eq, Structural)]
pub enum RawDtype {
    F32,
    F64,
    I32,
    I64,
    Other,
}

/// The element types with which the backend computes.
#[derive(Debug, Clone, Copy, PartialEq, Eq, Structural)]
pub enum WeightType {
    F32,
    F64,
    I64,
}

impl WeightType {
    /// The number of bytes that one element occupies.
    pub open spec fn width(self) -> nat {
        match self {
            WeightType::F32 => 4,
            WeightType::F64 => 8,
            WeightType::I64 => 8,
        }
    }
}

/// One tensor of a file of weights, as the file's index describes it.
#[derive(Debug, Clone)]
pub struct RawTensor {
    pub name: String,
    pub dtype: RawDtype,
    pub shape: Vec<usize>,
    pub data: Vec<u8>,
}

/// What the index of a file of weights says of one tensor, as plain values.
pub struct RawView {
    pub name: Seq<char>,
    pub dtype: RawDtype,
    pub shape: Seq<usize>,
    pub data: Seq<u8>,
}

impl View for RawTensor {
    type V = RawView;

    open spec fn view(&self) -> RawView {
        RawView { name: self.name@, dtype: self.dtype, shape: self.shape@, data: self.data@ }
    }
}

/// The tensors of a list, without their order.
pub open spec fn tensors_of(entries: Seq<RawTensor>) -> Multiset<RawView> {
    entries.map_values(|entry: RawTensor| entry@).to_multiset()
}

/// A tensor of the kernel library, `candle_core::Tensor`: a shape, and a
/// buffer of elements of one type. Nothing is seen of it but through the
/// functions below.
#[verifier::external_body]
pub struct KernelTensor {
    inner: candle_core::Tensor,
}

/// The shape of a tensor of the kernel library.
pub uninterp spec fn kernel_shape(tensor: KernelTensor) -> Seq<usize>;

/// The number of elements that the buffer of a tensor of the kernel library
/// holds.
pub uninterp spec fn kernel_count(tensor: KernelTensor) -> nat;

/// Whether the buffer of a tensor of the kernel library holds exactly the
/// elements that its shape calls for.
pub open spec fn kernel_sound(tensor: KernelTensor) -> bool {
    kernel_count(tensor) == shape_product(kernel_shape(tensor))
}

/// Whether a buffer is a JSON text, as `serde_json` judges it.
pub uninterp spec fn is_json(bytes: Seq<u8>) -> bool;

/// Calls `serde_json::from_slice` for a `serde_json::Value` and says whether
/// it succeeded. The outcome depends on the bytes alone.
#[verifier::external_body]
pub(crate) fn json_parses(bytes: &[u8]) -> (r: bool)
    ensures
        r == is_json(bytes@),
{
    serde_json::from_slice::<serde_json::Value>(bytes).is_ok()
}

/// Whether a byte is an ASCII digit.
pub open spec fn is_digit(byte: u8) -> bool {
    0x30 <= byte <= 0x39
}

/// The length of the run of digits that ends just before place `end` of a
/// buffer.
pub open spec fn digit_run(bytes: Seq<u8>, end: int) -> nat
    decreases end,
{
    if 0 < end <= bytes.len() && is_digit(bytes[end - 1]) {
        1 + digit_run(bytes, end - 1)
    } else {
        0
    }
}

/// Whether no run of digits in a buffer is longer than `limit`.
pub open spec fn digits_within(bytes: Seq<u8>, limit: nat) -> bool {
    forall|end: int| 0 <= end <= bytes.len() ==> #[trigger] digit_run(bytes, end) <= limit
}

/// The longest run of digits that the header of a file may hold: a number
/// of so many digits, the greatest length of a header and the length of the
/// length field add up to a number that the machine can hold.
pub open spec fn digit_limit() -> nat {
    if usize::MAX > 0xffff_ffff {
        18
    } else {
        9
    }
}

/// Whether the reader of flat files of weights can take a buffer: where its
/// first eight bytes hold the length of a header that fits into the buffer,
/// the header holds no run of digits that is too long. The reader adds
/// numbers of the header without a check; this keeps them small.
pub open spec fn header_is_bounded(bytes: Seq<u8>) -> bool {
    bytes.len() >= 8 && 8 + header_length(bytes) <= bytes.len() ==> digits_within(
        bytes.subrange(8, 8 + header_length(bytes) as int),
        digit_limit(),
    )
}

/// The tensors that `safetensors::SafeTensors::deserialize` finds in a
/// buffer: of each its name, its element type as far as the backend tells
/// the types apart, its shape and its bytes. `None` where the reader refuses
/// the buffer. The tensors have no order: the reader walks its index in an
/// order of its own.
pub uninterp spec fn safetensors_index(bytes: Seq<u8>) -> Option<Multiset<RawView>>;

/// Calls `safetensors::SafeTensors::deserialize` and copies what its
/// `tensors` lists: of each tensor the name, the element type, the shape and
/// the bytes. Whether the reader accepts a buffer, and which tensors it then
/// finds, depends on the bytes alone; the order in which it lists them does
/// not, so the contract speaks of the tensors without their order. An error
/// is given as its text, of which nothing is said. The reader adds the end of
/// the last tensor, which is a number of the header, to the length of the
/// header without a check: the numbers of the header must be small.
#[verifier::external_body]
pub(crate) fn read_safetensors(bytes: &[u8]) -> (r: Result<Vec<RawTensor>, String>)
    requires
        header_is_bounded(bytes@),
    ensures
        match r {
            Ok(entries) => safetensors_index(bytes@) == Some(tensors_of(entries@)),
            Err(_) => safetensors_index(bytes@) is None,
        },
{
    let file = safetensors::SafeTensors::deserialize(bytes).map_err(|e| e.to_string())?;
    Ok(file.tensors().into_iter().map(|(name, view)| RawTensor {
        name,
        dtype: match view.dtype() {
            safetensors::Dtype::F32 => RawDtype::F32,
            safetensors::Dtype::F64 => RawDtype::F64,
            safetensors::Dtype::I32 => RawDtype::I32,
            safetensors::Dtype::I64 => RawDtype::I64,
            _ => RawDtype::Other,
        },
        shape: view.shape().to_vec(),
        data: view.data().to_vec(),
    }).collect())
}

/// Calls `candle_core::Tensor::from_raw_buffer` on the CPU device, with the
/// element type of the kernel library that stands for `kind`. An error is
/// given as its text. The kernel library takes the shape as it is given and
/// as many whole elements as the bytes hold; it does not hold the one against
/// the other, and it multiplies the dimensions without a check. So the shape
/// must be that of a matrix and the bytes exactly its elements: the product
/// of the dimensions then fits.
#[verifier::external_body]
pub(crate) fn kernel_tensor(data: &[u8], kind: WeightType, shape: &[usize]) -> (r: Result<
    KernelTensor,
    String,
>)
    requires
        shape@.len() == 2,
        data@.len() == shape_product(shape@) * kind.width(),
    ensures
        r matches Ok(tensor) ==> kernel_shape(tensor) == shape@ && kernel_count(tensor)
            == data@.len() / kind.width(),
{
    let dtype = match kind {
        WeightType::F32 => candle_core::DType::F32,
        WeightType::F64 => candle_core::DType::F64,
        WeightType::I64 => candle_core::DType::I64,
    };
    match candle_core::Tensor::from_raw_buffer(data, dtype, shape, &candle_core::Device::Cpu) {
        Ok(inner) => Ok(KernelTensor { inner }),
        Err(e) => Err(e.to_string()),
    }
}

/// Calls `candle_core::Tensor::matmul`. An error is given as its text. The
/// operands must be matrices whose buffers hold exactly the elements of their
/// shapes, since the kernel library reads them without a check, and the
/// product must fit a buffer of eight-byte elements. A product that comes
/// back has the rows of the first operand and the columns of the second, and
/// holds exactly the elements of that shape.
#[verifier::external_body]
pub(crate) fn kernel_matmul(input: &KernelTensor, weight: &KernelTensor) -> (r: Result<
    KernelTensor,
    String,
>)
    requires
        kernel_shape(*input).len() == 2,
        kernel_shape(*weight).len() == 2,
        kernel_sound(*input),
        kernel_sound(*weight),
        kernel_shape(*input)[0] * kernel_shape(*weight)[1] * 8 <= isize::MAX,
    ensures
        r matches Ok(product) ==> kernel_sound(product) && kernel_shape(product) == seq![
            kernel_shape(*input)[0],
            kernel_shape(*weight)[1],
        ],
{
    match input.inner.matmul(&weight.inner) {
        Ok(inner) => Ok(KernelTensor { inner }),
        Err(e) => Err(e.to_string()),
    }
}

/// Copies what `candle_core::Tensor::dims` returns: the shape of a tensor.
#[verifier::external_body]
pub(crate) fn kernel_dims(tensor: &KernelTensor) -> (r: Vec<usize>)
    ensures
        r@ == kernel_shape(*tensor),
{
    tensor.inner.dims().to_vec()
}

/// Calls `candle_core::Tensor::write_bytes` on a new buffer and returns the
/// buffer: the elements of the tensor in little-endian order. An error is
/// given as its text. The buffer of the tensor must hold exactly the elements
/// of its shape. Nothing is promised of the outcome.
#[verifier::external_body]
pub(crate) fn kernel_bytes(tensor: &KernelTensor) -> Result<Vec<u8>, String>
    requires
        kernel_sound(*tensor),
{
    let mut buffer: Vec<u8> = Vec::new();
    match tensor.inner.write_bytes(&mut buffer) {
        Ok(()) => Ok(buffer),
        Err(e) => Err(e.to_string()),
    }
}

} // verus!
