//! The backend for flat files of weights. It reads the index of such a file,
//! keeps every tensor of it, and answers a prediction with the product of
//! the input and the first matrix of weights that fits it.
use vstd::prelude::*;
use vstd::multiset::Multiset;
use vstd::slice::slice_subrange;
use crate::detector::header_length;
use crate::engines::kernel::{
    RawDtype, RawTensor, RawView, WeightType, digit_limit, digit_run, digits_within,
    header_is_bounded, is_digit, is_json, json_parses, kernel_bytes, kernel_dims, kernel_matmul,
    kernel_shape, kernel_tensor, read_safetensors, safetensors_index, tensors_of,
};
use crate::engines::{
    EngineType, InferenceEngine, Model, ModelFormat, ModelMetadata, answers_each, predict_each,
};
use crate::error::InferenceError;
use crate::tensor::{
    DataType, Tensor, TensorSpec, TensorSpecView, checked_shape_product, shape_product, specs_view,
};
use crate::text::{
    ascii_lowercase, chars_of, contains, contains_text, extension, extension_of, is_text,
    lowercase_ascii,
};

verus! {

/// The element type with which the backend computes on weights of a given
/// type: 32-bit integers are computed with as 64-bit ones, and there is none
/// for the types that the backend does not know.
pub open spec fn weight_type_of(dtype: RawDtype) -> Option<WeightType> {
    match dtype {
        RawDtype::F32 => Some(WeightType::F32),
        RawDtype::F64 => Some(WeightType::F64),
        RawDtype::I32 => Some(WeightType::I64),
        RawDtype::I64 => Some(WeightType::I64),
        RawDtype::Other => None,
    }
}

/// The element type with which the backend computes on a tensor of a given
/// type, if it computes on such tensors.
pub open spec fn input_weight_type(data_type: DataType) -> Option<WeightType> {
    match data_type {
        DataType::F32 => Some(WeightType::F32),
        DataType::F64 => Some(WeightType::F64),
        DataType::I32 => Some(WeightType::I64),
        DataType::I64 => Some(WeightType::I64),
        _ => None,
    }
}

/// The tensor element type that stands for one of the backend.
pub open spec fn data_type_of(kind: WeightType) -> DataType {
    match kind {
        WeightType::F32 => DataType::F32,
        WeightType::F64 => DataType::F64,
        WeightType::I64 => DataType::I64,
    }
}

/// What the name of a tensor says of its part in a model.
#[derive(Debug, Clone, Copy, PartialEq, Eq, Structural)]
pub enum TensorRole {
    Input,
    Output,
    Weight,
}

/// The part of a tensor in a model, by its name: an input where the name
/// holds `input`; else an output where it holds `output` or `classifier`;
/// else a weight. The case of ASCII letters does not count.
pub open spec fn role_of(name: Seq<char>) -> TensorRole {
    let lowered = ascii_lowercase(name);
    if contains_text(lowered, "input"@) {
        TensorRole::Input
    } else if contains_text(lowered, "output"@) || contains_text(lowered, "classifier"@) {
        TensorRole::Output
    } else {
        TensorRole::Weight
    }
}

/// What is kept of one tensor: its name, its shape, the type the backend
/// computes with, and its bytes.
pub struct WeightView {
    pub name: Seq<char>,
    pub shape: Seq<usize>,
    pub kind: WeightType,
    pub data: Seq<u8>,
}

/// A shape with every dimension fixed.
pub open spec fn fixed_dims(shape: Seq<usize>) -> Seq<Option<usize>> {
    Seq::new(shape.len(), |i: int| Some(shape[i]))
}

/// The specification that describes a tensor of the file: its name, its
/// shape with every dimension fixed, and its element type.
pub open spec fn spec_of_weight(w: WeightView) -> TensorSpecView {
    TensorSpecView {
        name: w.name,
        shape: fixed_dims(w.shape),
        data_type: data_type_of(w.kind),
        description: None,
    }
}

/// The specifications of the tensors that have a given role, in the order of
/// the tensors.
pub open spec fn specs_with_role(weights: Seq<WeightView>, role: TensorRole) -> Seq<
    TensorSpecView,
>
    decreases weights.len(),
{
    if weights.len() == 0 {
        Seq::empty()
    } else if role_of(weights.last().name) == role {
        specs_with_role(weights.drop_last(), role).push(spec_of_weight(weights.last()))
    } else {
        specs_with_role(weights.drop_last(), role)
    }
}

/// The input specification of a model whose file names no input: a
/// 32-bit float tensor of four dynamic dimensions.
pub open spec fn default_input_spec() -> TensorSpecView {
    TensorSpecView {
        name: "input"@,
        shape: seq![None, None, None, None],
        data_type: DataType::F32,
        description: None,
    }
}

/// The output specification of a model whose file names no output: a
/// 32-bit float tensor of two dynamic dimensions.
pub open spec fn default_output_spec() -> TensorSpecView {
    TensorSpecView {
        name: "output"@,
        shape: seq![None, None],
        data_type: DataType::F32,
        description: None,
    }
}

/// The input specifications of a model with the given tensors.
pub open spec fn derived_inputs(weights: Seq<WeightView>) -> Seq<TensorSpecView> {
    let named = specs_with_role(weights, TensorRole::Input);
    if named.len() == 0 {
        seq![default_input_spec()]
    } else {
        named
    }
}

/// The output specifications of a model with the given tensors.
pub open spec fn derived_outputs(weights: Seq<WeightView>) -> Seq<TensorSpecView> {
    let named = specs_with_role(weights, TensorRole::Output);
    if named.len() == 0 {
        seq![default_output_spec()]
    } else {
        named
    }
}

/// What keeps a tensor of a file from being loaded.
#[derive(Debug, Clone, Copy, PartialEq, Eq, Structural)]
pub enum EntryFault {
    /// The backend does not compute with the element type.
    UnsupportedType,
    /// The bytes are not the elements that the shape calls for, in the type
    /// the backend computes with.
    WrongSize,
}

/// What keeps a tensor from being loaded, if anything does, by what the
/// index of its file says of it.
pub open spec fn fault_in(entry: RawView) -> Option<EntryFault> {
    match weight_type_of(entry.dtype) {
        None => Some(EntryFault::UnsupportedType),
        Some(kind) => if entry.data.len() == shape_product(entry.shape) * kind.width() {
            None
        } else {
            Some(EntryFault::WrongSize)
        },
    }
}

/// What keeps a tensor of a file from being loaded, if anything does.
pub open spec fn fault_of(entry: RawTensor) -> Option<EntryFault> {
    fault_in(entry@)
}

/// Whether `e` is the error for what keeps a tensor from being loaded.
pub open spec fn reports_fault(fault: Option<EntryFault>, e: InferenceError) -> bool {
    match fault {
        Some(EntryFault::UnsupportedType) => e is UnsupportedFormat,
        Some(EntryFault::WrongSize) => e is ModelLoad,
        None => false,
    }
}

/// Whether entry `i` is the first that cannot be loaded, and `e` is the error
/// for what keeps it from being loaded.
pub open spec fn reports_first_fault(entries: Seq<RawTensor>, i: int, e: InferenceError) -> bool {
    &&& 0 <= i < entries.len()
    &&& forall|j: int| 0 <= j < i ==> fault_of(#[trigger] entries[j]) is None
    &&& reports_fault(fault_of(entries[i]), e)
}

/// The tensor that is kept of one that can be loaded, by what the index of
/// its file says of it.
pub open spec fn kept_of(entry: RawView) -> WeightView {
    WeightView {
        name: entry.name,
        shape: entry.shape,
        kind: weight_type_of(entry.dtype).unwrap(),
        data: entry.data,
    }
}

/// The tensor that is kept of an entry that can be loaded.
pub open spec fn weight_of(entry: RawTensor) -> WeightView {
    kept_of(entry@)
}

/// The tensors that are kept of the entries of a file.
pub open spec fn weights_of(entries: Seq<RawTensor>) -> Seq<WeightView> {
    Seq::new(entries.len(), |i: int| weight_of(entries[i]))
}

/// Whether a tensor of weights can be multiplied with an input whose last
/// dimension is `last`: it is a matrix with `last` rows.
pub open spec fn fits_input(w: WeightView, last: usize) -> bool {
    w.shape.len() == 2 && w.shape[0] == last
}

/// Whether `place` is the place of the first tensor of weights that fits an
/// input whose last dimension is `last`.
pub open spec fn is_first_fitting(weights: Seq<WeightView>, last: usize, place: int) -> bool {
    &&& 0 <= place < weights.len()
    &&& fits_input(weights[place], last)
    &&& forall|j: int| 0 <= j < place ==> !fits_input(#[trigger] weights[j], last)
}

/// Whether no tensor of weights fits an input whose last dimension is `last`.
pub open spec fn none_fitting(weights: Seq<WeightView>, last: usize) -> bool {
    forall|j: int| 0 <= j < weights.len() ==> !fits_input(#[trigger] weights[j], last)
}

/// A tensor of a loaded model. Its bytes are exactly the elements that its
/// shape calls for.
pub struct WeightTensor {
    name: String,
    shape: Vec<usize>,
    kind: WeightType,
    data: Vec<u8>,
}

impl View for WeightTensor {
    type V = WeightView;

    closed spec fn view(&self) -> WeightView {
        WeightView { name: self.name@, shape: self.shape@, kind: self.kind, data: self.data@ }
    }
}

impl WeightTensor {
    #[verifier::type_invariant]
    spec fn sized(&self) -> bool {
        self.data@.len() == shape_product(self.shape@) * self.kind.width()
    }

    /// Makes a tensor of weights of an entry of a file. Fails with
    /// `UnsupportedFormat` where the backend does not compute with the
    /// element type, and with `ModelLoad` where the bytes are not the
    /// elements that the shape calls for.
    pub fn from_entry(entry: RawTensor) -> (r: Result<WeightTensor, InferenceError>)
        ensures
            match r {
                Ok(w) => fault_of(entry) is None && w@ == weight_of(entry),
                Err(e) => reports_fault(fault_of(entry), e),
            },
    {
        let kind = match weight_kind(entry.dtype) {
            Some(kind) => kind,
            None => {
                return Err(InferenceError::unsupported_format("Unsupported SafeTensors dtype"));
            },
        };
        if !holds_elements(entry.data.len(), entry.shape.as_slice(), kind) {
            return Err(InferenceError::model_load("Failed to create tensor"));
        }
        Ok(WeightTensor { name: entry.name, shape: entry.shape, kind, data: entry.data })
    }

    /// The name of the tensor.
    pub fn name(&self) -> (r: &str)
        ensures
            r@ == self@.name,
    {
        self.name.as_str()
    }

    /// The shape of the tensor.
    pub fn shape(&self) -> (r: &[usize])
        ensures
            r@ == self@.shape,
    {
        self.shape.as_slice()
    }

    /// The bytes of the tensor.
    pub fn data(&self) -> (r: &[u8])
        ensures
            r@ == self@.data,
            self@.data.len() == shape_product(self@.shape) * self@.kind.width(),
    {
        proof {
            use_type_invariant(self);
        }
        self.data.as_slice()
    }

    /// The element type with which the backend computes on the tensor.
    pub fn kind(&self) -> (r: WeightType)
        ensures
            r == self@.kind,
    {
        self.kind
    }
}

/// The number of bytes of one element.
pub fn width_of(kind: WeightType) -> (r: usize)
    ensures
        r == kind.width(),
{
    match kind {
        WeightType::F32 => 4,
        WeightType::F64 => 8,
        WeightType::I64 => 8,
    }
}

/// Tests whether a buffer of `len` bytes holds exactly the elements of a
/// shape.
pub fn holds_elements(len: usize, shape: &[usize], kind: WeightType) -> (r: bool)
    ensures
        r == (len == shape_product(shape@) * kind.width()),
{
    match checked_shape_product(shape) {
        Some(count) => count.checked_mul(width_of(kind)) == Some(len),
        None => {
            proof {
                let p = shape_product(shape@);
                let w = kind.width();
                assert(p > usize::MAX && w >= 1 ==> p * w > usize::MAX) by (nonlinear_arith);
            }
            false
        },
    }
}

/// The element type with which the backend computes on weights of a given
/// type.
pub fn weight_kind(dtype: RawDtype) -> (r: Option<WeightType>)
    ensures
        r == weight_type_of(dtype),
{
    match dtype {
        RawDtype::F32 => Some(WeightType::F32),
        RawDtype::F64 => Some(WeightType::F64),
        RawDtype::I32 => Some(WeightType::I64),
        RawDtype::I64 => Some(WeightType::I64),
        RawDtype::Other => None,
    }
}

/// The element type with which the backend computes on a tensor of a given
/// type.
pub fn input_kind(data_type: DataType) -> (r: Option<WeightType>)
    ensures
        r == input_weight_type(data_type),
{
    match data_type {
        DataType::F32 => Some(WeightType::F32),
        DataType::F64 => Some(WeightType::F64),
        DataType::I32 => Some(WeightType::I64),
        DataType::I64 => Some(WeightType::I64),
        _ => None,
    }
}

/// The tensor element type that stands for one of the backend.
pub fn data_type_for(kind: WeightType) -> (r: DataType)
    ensures
        r == data_type_of(kind),
{
    match kind {
        WeightType::F32 => DataType::F32,
        WeightType::F64 => DataType::F64,
        WeightType::I64 => DataType::I64,
    }
}

/// The part of a tensor in a model, by its name.
pub fn tensor_role(name: &str) -> (r: TensorRole)
    ensures
        r == role_of(name@),
{
    let chars = chars_of(name);
    let lowered = lowercase_ascii(chars.as_slice());
    let input = chars_of("input");
    let output = chars_of("output");
    let classifier = chars_of("classifier");
    if contains(lowered.as_slice(), input.as_slice()) {
        TensorRole::Input
    } else if contains(lowered.as_slice(), output.as_slice()) || contains(
        lowered.as_slice(),
        classifier.as_slice(),
    ) {
        TensorRole::Output
    } else {
        TensorRole::Weight
    }
}

/// A shape with every dimension fixed.
pub fn fixed_shape(shape: &[usize]) -> (r: Vec<Option<usize>>)
    ensures
        r@ == fixed_dims(shape@),
{
    let mut dims: Vec<Option<usize>> = Vec::new();
    let mut i: usize = 0;
    while i < shape.len()
        invariant
            i <= shape@.len(),
            dims@.len() == i,
            forall|j: int| 0 <= j < i ==> dims@[j] == Some(shape@[j]),
        decreases shape@.len() - i,
    {
        dims.push(Some(shape[i]));
        i += 1;
    }
    assert(dims@ =~= fixed_dims(shape@));
    dims
}

/// A shape of `rank` dynamic dimensions.
fn dynamic_shape(rank: usize) -> (r: Vec<Option<usize>>)
    ensures
        r@ == Seq::new(rank as nat, |i: int| None::<usize>),
{
    let mut dims: Vec<Option<usize>> = Vec::new();
    let mut i: usize = 0;
    while i < rank
        invariant
            i <= rank,
            dims@.len() == i,
            forall|j: int| 0 <= j < i ==> dims@[j] == None::<usize>,
        decreases rank - i,
    {
        dims.push(None);
        i += 1;
    }
    assert(dims@ =~= Seq::new(rank as nat, |i: int| None::<usize>));
    dims
}

/// The specifications of one more tensor extend those of the tensors before
/// it.
proof fn lemma_specs_step(weights: Seq<WeightView>, role: TensorRole, i: int)
    requires
        0 <= i < weights.len(),
    ensures
        specs_with_role(weights.take(i + 1), role) == if role_of(weights[i].name) == role {
            specs_with_role(weights.take(i), role).push(spec_of_weight(weights[i]))
        } else {
            specs_with_role(weights.take(i), role)
        },
{
    assert(weights.take(i + 1).drop_last() =~= weights.take(i));
}

/// A model that holds the tensors of a flat file of weights.
pub struct GenericSafeTensorsModel {
    tensors: Vec<WeightTensor>,
    input_specs: Vec<TensorSpec>,
    output_specs: Vec<TensorSpec>,
}

impl GenericSafeTensorsModel {
    /// The tensors of the model, in their order.
    pub closed spec fn weights(&self) -> Seq<WeightView> {
        Seq::new(self.tensors@.len(), |i: int| self.tensors@[i]@)
    }

    /// The input specifications of the model.
    pub closed spec fn inputs(&self) -> Seq<TensorSpec> {
        self.input_specs@
    }

    /// The output specifications of the model.
    pub closed spec fn outputs(&self) -> Seq<TensorSpec> {
        self.output_specs@
    }

    /// Makes a model of tensors and specifications.
    pub fn new(
        tensors: Vec<WeightTensor>,
        input_specs: Vec<TensorSpec>,
        output_specs: Vec<TensorSpec>,
    ) -> (r: Result<Self, InferenceError>)
        ensures
            r matches Ok(m) && m.weights() == Seq::new(tensors@.len(), |i: int| tensors@[i]@)
                && m.inputs() == input_specs@ && m.outputs() == output_specs@,
    {
        Ok(GenericSafeTensorsModel { tensors, input_specs, output_specs })
    }

    /// Makes a model of the entries of a file, taken in their order. It
    /// succeeds exactly when every entry can be loaded. The first entry that
    /// cannot decides the error: `UnsupportedFormat` for an element type the
    /// backend does not compute with, `ModelLoad` for bytes that are not the
    /// elements of the shape. The specifications of the model are those of
    /// the tensors whose names mark them as inputs and outputs, or the default
    /// ones where no name does.
    #[verifier::rlimit(50)]
    pub fn from_entries(entries: Vec<RawTensor>) -> (r: Result<Self, InferenceError>)
        ensures
            r is Ok <==> forall|i: int|
                0 <= i < entries@.len() ==> fault_of(#[trigger] entries@[i]) is None,
            r matches Ok(m) ==> {
                &&& m.weights() == weights_of(entries@)
                &&& specs_view(m.inputs()) == derived_inputs(weights_of(entries@))
                &&& specs_view(m.outputs()) == derived_outputs(weights_of(entries@))
            },
            r matches Err(e) ==> exists|i: int| reports_first_fault(entries@, i, e),
    {
        let ghost all = entries@;
        let ghost kept = weights_of(all);
        let mut pending = entries;
        let mut tensors: Vec<WeightTensor> = Vec::new();
        let mut input_specs: Vec<TensorSpec> = Vec::new();
        let mut output_specs: Vec<TensorSpec> = Vec::new();
        let count = pending.len();
        let mut rest: Vec<RawTensor> = Vec::new();
        // The entries are taken from the back of a reversed list, so that each
        // can be moved into the tensor that is made of it.
        while pending.len() > 0
            invariant
                rest@.len() + pending@.len() == all.len(),
                forall|j: int| 0 <= j < pending@.len() ==> pending@[j] == all[j],
                forall|j: int|
                    0 <= j < rest@.len() ==> rest@[j] == all[all.len() - 1 - j],
            decreases pending@.len(),
        {
            let last = pending.pop().unwrap();
            rest.push(last);
        }
        let mut i: usize = 0;
        while i < count
            invariant
                i <= count,
                count == all.len(),
                all == entries@,
                kept == weights_of(all),
                rest@.len() == count - i,
                forall|j: int| 0 <= j < rest@.len() ==> rest@[j] == all[all.len() - 1 - j],
                forall|j: int| 0 <= j < i ==> fault_of(#[trigger] all[j]) is None,
                tensors@.len() == i,
                forall|j: int| 0 <= j < i ==> (#[trigger] tensors@[j])@ == kept[j],
                specs_view(input_specs@) == specs_with_role(kept.take(i as int), TensorRole::Input),
                specs_view(output_specs@) == specs_with_role(
                    kept.take(i as int),
                    TensorRole::Output,
                ),
            decreases count - i,
        {
            let entry = rest.pop().unwrap();
            assert(entry == all[i as int]);
            let weight = match WeightTensor::from_entry(entry) {
                Ok(weight) => weight,
                Err(e) => {
                    assert(reports_first_fault(all, i as int, e));
                    return Err(e);
                },
            };
            let role = tensor_role(weight.name());
            proof {
                lemma_specs_step(kept, TensorRole::Input, i as int);
                lemma_specs_step(kept, TensorRole::Output, i as int);
            }
            match role {
                TensorRole::Input => {
                    let spec = TensorSpec::new(
                        weight.name().to_owned(),
                        fixed_shape(weight.shape()),
                        data_type_for(weight.kind()),
                    );
                    let ghost before = input_specs@;
                    input_specs.push(spec);
                    assert(specs_view(input_specs@) =~= specs_view(before).push(spec@));
                },
                TensorRole::Output => {
                    let spec = TensorSpec::new(
                        weight.name().to_owned(),
                        fixed_shape(weight.shape()),
                        data_type_for(weight.kind()),
                    );
                    let ghost before = output_specs@;
                    output_specs.push(spec);
                    assert(specs_view(output_specs@) =~= specs_view(before).push(spec@));
                },
                TensorRole::Weight => {},
            }
            tensors.push(weight);
            i += 1;
        }
        assert(kept.take(count as int) =~= kept);
        if input_specs.len() == 0 {
            let spec = TensorSpec::new("input".to_owned(), dynamic_shape(4), DataType::F32);
            assert(spec@.shape =~= seq![None, None, None, None]);
            input_specs.push(spec);
            assert(specs_view(input_specs@) =~= seq![default_input_spec()]);
        }
        if output_specs.len() == 0 {
            let spec = TensorSpec::new("output".to_owned(), dynamic_shape(2), DataType::F32);
            assert(spec@.shape =~= seq![None, None]);
            output_specs.push(spec);
            assert(specs_view(output_specs@) =~= seq![default_output_spec()]);
        }
        let model = GenericSafeTensorsModel { tensors, input_specs, output_specs };
        assert(model.weights() =~= weights_of(all));
        Ok(model)
    }

    /// The names of the tensors, in their order.
    pub fn tensor_names(&self) -> (r: Vec<String>)
        ensures
            r@.len() == self.weights().len(),
            forall|i: int| 0 <= i < r@.len() ==> (#[trigger] r@[i])@ == self.weights()[i].name,
    {
        let mut names: Vec<String> = Vec::new();
        let mut i: usize = 0;
        while i < self.tensors.len()
            invariant
                i <= self.tensors@.len(),
                names@.len() == i,
                forall|j: int| 0 <= j < i ==> (#[trigger] names@[j])@ == self.tensors@[j].name@,
            decreases self.tensors@.len() - i,
        {
            names.push(self.tensors[i].name.clone());
            i += 1;
        }
        names
    }

    /// The first tensor with the given name, if the model has one.
    pub fn get_tensor(&self, name: &str) -> (r: Option<&WeightTensor>)
        ensures
            match r {
                Some(w) => exists|i: int|
                    0 <= i < self.weights().len() && #[trigger] self.weights()[i] == w@ && w@.name
                        == name@,
                None => forall|i: int|
                    0 <= i < self.weights().len() ==> (#[trigger] self.weights()[i]).name != name@,
            },
    {
        let wanted = chars_of(name);
        let mut i: usize = 0;
        while i < self.tensors.len()
            invariant
                i <= self.tensors@.len(),
                wanted@ == name@,
                forall|j: int| 0 <= j < i ==> (#[trigger] self.weights()[j]).name != name@,
            decreases self.tensors@.len() - i,
        {
            if is_text(wanted.as_slice(), self.tensors[i].name.as_str()) {
                assert(self.weights()[i as int] == self.tensors@[i as int]@);
                return Some(&self.tensors[i]);
            }
            i += 1;
        }
        None
    }

    /// The place of the first tensor of weights that fits an input whose last
    /// dimension is `last`.
    pub fn find_weight(&self, last: usize) -> (r: Option<usize>)
        ensures
            match r {
                Some(place) => is_first_fitting(self.weights(), last, place as int),
                None => none_fitting(self.weights(), last),
            },
    {
        let mut i: usize = 0;
        while i < self.tensors.len()
            invariant
                i <= self.tensors@.len(),
                forall|j: int| 0 <= j < i ==> !fits_input(#[trigger] self.weights()[j], last),
            decreases self.tensors@.len() - i,
        {
            let w = &self.tensors[i];
            if w.shape.len() == 2 && w.shape[0] == last {
                assert(fits_input(self.weights()[i as int], last));
                return Some(i);
            }
            i += 1;
        }
        None
    }

    /// Whether `output` may be what the model makes of `input`. An output
    /// comes only of an input of an element type that the backend computes
    /// with, which is a matrix that holds exactly its elements in that type,
    /// and only where the first tensor of weights that fits the input is of
    /// the same type; the output is then a matrix with the rows of the input
    /// and the columns of those weights, and holds exactly its elements, in
    /// the element type of the input. An error is `Prediction`.
    pub open spec fn may_answer(&self, input: Tensor, output: Result<Tensor, InferenceError>) -> bool {
        match output {
            Ok(t) => {
                &&& input_weight_type(input@.data_type) matches Some(kind)
                &&& input@.shape.len() == 2
                &&& input@.data.len() == shape_product(input@.shape) * kind.width()
                &&& exists|place: int|
                    {
                        &&& is_first_fitting(self.weights(), input@.shape.last(), place)
                        &&& #[trigger] self.weights()[place].kind == kind
                        &&& t@.shape == seq![input@.shape[0], self.weights()[place].shape[1]]
                    }
                &&& t@.well_sized()
                &&& t@.data_type == data_type_of(input_weight_type(input@.data_type).unwrap())
            },
            Err(e) => e is Prediction,
        }
    }

    /// Runs the model on one input: multiplies the input with the first
    /// tensor of weights that fits it. Fails with `Prediction` at least where
    /// the backend does not compute with the element type of the input, where
    /// the input is no matrix that holds exactly its elements in that type,
    /// where no tensor of weights fits the input, and where the first that
    /// fits is of another type; the kernel library can fail it elsewhere. The
    /// result has the element type of the input.
    #[verifier::rlimit(50)]
    pub fn run(&self, input: &Tensor) -> (r: Result<Tensor, InferenceError>)
        ensures
            self.may_answer(*input, r),
    {
        let kind = match input_kind(*input.data_type()) {
            Some(kind) => kind,
            None => {
                return Err(InferenceError::prediction("Unsupported tensor data type"));
            },
        };
        let shape = input.shape();
        if shape.len() == 0 {
            return Err(InferenceError::prediction("The input tensor has no dimension"));
        }
        let last = shape[shape.len() - 1];
        let place = match self.find_weight(last) {
            Some(place) => place,
            None => {
                return Err(
                    InferenceError::prediction(
                        "No suitable weight tensor found for inference. This SafeTensors model may require a specific architecture wrapper.",
                    ),
                );
            },
        };
        assert(fits_input(self.weights()[place as int], last));
        let weight = &self.tensors[place];
        assert(weight@ == self.weights()[place as int]);
        let data = input.data();
        if shape.len() != 2 || !holds_elements(data.len(), shape, kind) {
            return Err(InferenceError::prediction("Failed to create Candle tensor"));
        }
        let rows = shape[0];
        let columns = weight.shape()[1];
        let fits = match rows.checked_mul(columns) {
            Some(cells) => match cells.checked_mul(8) {
                Some(size) => size <= isize::MAX as usize,
                None => false,
            },
            None => false,
        };
        if !fits {
            return Err(InferenceError::prediction("Matrix multiplication failed"));
        }
        if weight.kind() != kind {
            return Err(InferenceError::prediction("Matrix multiplication failed"));
        }
        let weight_shape = weight.shape();
        let weight_data = weight.data();
        proof {
            let elements = shape_product(shape@);
            let width = kind.width();
            assert(width > 0 ==> (elements * width) / width == elements)
                by (nonlinear_arith);
            let weights = shape_product(weight_shape@);
            assert(width > 0 ==> (weights * width) / width == weights)
                by (nonlinear_arith);
        }
        let operand = match kernel_tensor(data, kind, shape) {
            Ok(operand) => operand,
            Err(_) => {
                return Err(InferenceError::prediction("Failed to create Candle tensor"));
            },
        };
        let factor = match kernel_tensor(weight_data, kind, weight_shape) {
            Ok(factor) => factor,
            Err(_) => {
                return Err(InferenceError::prediction("Failed to create Candle tensor"));
            },
        };
        let product = match kernel_matmul(&operand, &factor) {
            Ok(product) => product,
            Err(_) => {
                return Err(InferenceError::prediction("Matrix multiplication failed"));
            },
        };
        let bytes = match kernel_bytes(&product) {
            Ok(bytes) => bytes,
            Err(_) => {
                return Err(InferenceError::prediction("Failed to extract tensor data"));
            },
        };
        match Tensor::new(bytes, kernel_dims(&product), data_type_for(kind)) {
            Ok(t) => Ok(t),
            Err(_) => Err(InferenceError::prediction("Failed to convert Candle tensor")),
        }
    }
}

impl Model for GenericSafeTensorsModel {
    open spec fn answers(&self, input: Tensor, output: Result<Tensor, InferenceError>) -> bool {
        self.may_answer(input, output)
    }

    open spec fn answers_batch(
        &self,
        inputs: Seq<Tensor>,
        output: Result<Vec<Tensor>, InferenceError>,
    ) -> bool {
        answers_each(
            |input: Tensor, answer: Result<Tensor, InferenceError>| self.may_answer(input, answer),
            inputs,
            output,
        )
    }

    open spec fn lists_inputs(&self, specs: Seq<TensorSpec>) -> bool {
        specs == self.inputs()
    }

    open spec fn lists_outputs(&self, specs: Seq<TensorSpec>) -> bool {
        specs == self.outputs()
    }

    fn predict(&self, input: &Tensor) -> (r: Result<Tensor, InferenceError>)
        ensures
            self.may_answer(*input, r),
    {
        self.run(input)
    }

    fn predict_batch(&self, inputs: &[Tensor]) -> (r: Result<Vec<Tensor>, InferenceError>)
        ensures
            answers_each(
                |input: Tensor, answer: Result<Tensor, InferenceError>|
                    self.may_answer(input, answer),
                inputs@,
                r,
            ),
    {
        predict_each(self, inputs)
    }

    fn input_specs(&self) -> (r: &[TensorSpec])
        ensures
            r@ == self.inputs(),
    {
        self.input_specs.as_slice()
    }

    fn output_specs(&self) -> (r: &[TensorSpec])
        ensures
            r@ == self.outputs(),
    {
        self.output_specs.as_slice()
    }

    fn engine_type(&self) -> (r: EngineType)
        ensures
            r == EngineType::Candle,
    {
        EngineType::Candle
    }

    fn metadata(&self) -> (r: Option<&ModelMetadata>)
        ensures
            r is None,
    {
        None
    }
}

/// Whether the backend makes a model of a buffer: its header holds no run of
/// digits that is too long, the reader of flat files of weights accepts it,
/// and every tensor that the reader finds in it can be loaded.
pub open spec fn is_loadable(bytes: Seq<u8>) -> bool {
    header_is_bounded(bytes) && match safetensors_index(bytes) {
        Some(index) => forall|entry: RawView|
            index.contains(entry) ==> #[trigger] fault_in(entry) is None,
        None => false,
    }
}

/// Whether `e` is the error with which the backend refuses a buffer that it
/// makes no model of: `ModelLoad` where the header holds a run of digits that
/// is too long or the reader refuses the buffer, else the error for a tensor
/// that cannot be loaded.
pub open spec fn reports_unloadable(bytes: Seq<u8>, e: InferenceError) -> bool {
    if !header_is_bounded(bytes) {
        e is ModelLoad
    } else {
        match safetensors_index(bytes) {
            Some(index) => reports_fault_in(index, e),
            None => e is ModelLoad,
        }
    }
}

/// Whether a model is what the backend makes of a buffer: it keeps the
/// tensors that the reader finds, each once, in some order, and has the
/// specifications that the names of its tensors give, taken in that order.
pub open spec fn is_loaded_from(model: GenericSafeTensorsModel, bytes: Seq<u8>) -> bool {
    &&& safetensors_index(bytes) matches Some(index) && keeps(model.weights(), index)
    &&& specs_view(model.inputs()) == derived_inputs(model.weights())
    &&& specs_view(model.outputs()) == derived_outputs(model.weights())
}

/// Whether `weights` are what is kept of the tensors of an index, each
/// tensor once, in some order.
pub open spec fn keeps(weights: Seq<WeightView>, index: Multiset<RawView>) -> bool {
    exists|entries: Seq<RawView>|
        #[trigger] entries.to_multiset() == index && weights == entries.map_values(
            |entry: RawView| kept_of(entry),
        )
}

/// Whether `e` is the error for a tensor of an index that cannot be loaded.
pub open spec fn reports_fault_in(index: Multiset<RawView>, e: InferenceError) -> bool {
    exists|entry: RawView| #[trigger] index.contains(entry) && reports_fault(fault_in(entry), e)
}

/// What holds of the entries of a list holds of its tensors without their
/// order: every entry can be loaded exactly when every tensor can; what is
/// kept of the entries is what is kept of the tensors, in some order; and the
/// error for the first entry that cannot be loaded is the error for a tensor
/// that cannot.
proof fn lemma_tensors_without_order(entries: Seq<RawTensor>)
    ensures
        (forall|i: int| 0 <= i < entries.len() ==> fault_of(#[trigger] entries[i]) is None) <==> (
        forall|entry: RawView|
            tensors_of(entries).contains(entry) ==> #[trigger] fault_in(entry) is None),
        keeps(weights_of(entries), tensors_of(entries)),
        forall|i: int, e: InferenceError| #[trigger]
            reports_first_fault(entries, i, e) ==> reports_fault_in(tensors_of(entries), e),
{
    let listed = entries.map_values(|entry: RawTensor| entry@);
    listed.to_multiset_ensures();
    assert(listed.to_multiset() == tensors_of(entries));
    assert forall|i: int| 0 <= i < entries.len() implies tensors_of(entries).contains(
        #[trigger] entries[i]@,
    ) by {
        assert(listed[i] == entries[i]@);
        assert(listed.contains(entries[i]@));
    }
    assert forall|entry: RawView| tensors_of(entries).contains(entry) implies exists|i: int|
        0 <= i < entries.len() && (#[trigger] entries[i])@ == entry by {
        assert(listed.contains(entry));
        let i = choose|i: int| 0 <= i < listed.len() && listed[i] == entry;
        assert(entries[i]@ == entry);
    }
    assert(weights_of(entries) =~= listed.map_values(|entry: RawView| kept_of(entry)));
    assert forall|i: int, e: InferenceError| #[trigger]
        reports_first_fault(entries, i, e) implies reports_fault_in(tensors_of(entries), e) by {
        assert(tensors_of(entries).contains(entries[i]@));
    }
}

/// Whether a buffer frames a JSON header: its first eight bytes hold the
/// length of a header that fits into the buffer, and the header is a JSON
/// text.
pub open spec fn frames_json_header(bytes: Seq<u8>) -> bool {
    &&& bytes.len() >= 8
    &&& 8 + header_length(bytes) <= bytes.len()
    &&& is_json(bytes.subrange(8, 8 + header_length(bytes) as int))
}

/// How the backend loads the file at a path, by the extension of the path.
#[derive(Debug, Clone, Copy, PartialEq, Eq, Structural)]
pub enum PathKind {
    /// A flat file of weights, which the backend loads.
    SafeTensors,
    /// A pickled file of weights, which the backend knows and cannot load.
    PyTorch,
    /// Anything else.
    Unknown,
}

/// How the backend loads the file at a path: by its extension, which must be
/// written in lower case.
pub open spec fn path_kind(path: Seq<char>) -> PathKind {
    match extension(path) {
        Some(ext) => if ext == "safetensors"@ {
            PathKind::SafeTensors
        } else if ext == "pt"@ || ext == "pth"@ {
            PathKind::PyTorch
        } else {
            PathKind::Unknown
        },
        None => PathKind::Unknown,
    }
}

/// The backend for flat files of weights. It computes on the CPU.
#[derive(Debug, Clone)]
pub struct CandleEngine {
    gpu_available: bool,
}

impl CandleEngine {
    /// Whether the backend computes on a GPU.
    pub closed spec fn uses_gpu(&self) -> bool {
        self.gpu_available
    }

    /// A backend on the best device there is, which is the CPU.
    pub fn new() -> (r: Result<Self, InferenceError>)
        ensures
            r matches Ok(e) && !e.uses_gpu(),
    {
        Ok(CandleEngine { gpu_available: false })
    }

    /// A backend on the CPU.
    pub fn cpu() -> (r: Result<Self, InferenceError>)
        ensures
            r matches Ok(e) && !e.uses_gpu(),
    {
        Ok(CandleEngine { gpu_available: false })
    }

    /// A backend on a CUDA device. This library computes on the CPU only, so
    /// this always fails with `Configuration`.
    pub fn cuda(device_id: usize) -> (r: Result<Self, InferenceError>)
        ensures
            r matches Err(e) && e is Configuration,
    {
        Err(
            InferenceError::configuration(
                "CUDA support not available - compile with 'candle-cuda' feature",
            ),
        )
    }

    /// Tests whether the backend computes on a GPU.
    pub fn gpu_available(&self) -> (r: bool)
        ensures
            r == self.uses_gpu(),
    {
        self.gpu_available
    }

    /// Tests whether a buffer frames a JSON header.
    pub fn is_safetensors_format(&self, bytes: &[u8]) -> (r: bool)
        ensures
            r == frames_json_header(bytes@),
    {
        if bytes.len() < 8 {
            return false;
        }
        let length: u128 = bytes[0] as u128 + 0x100 * (bytes[1] as u128) + 0x1_0000 * (
        bytes[2] as u128) + 0x100_0000 * (bytes[3] as u128) + 0x1_0000_0000 * (bytes[4] as u128)
            + 0x100_0000_0000 * (bytes[5] as u128) + 0x1_0000_0000_0000 * (bytes[6] as u128)
            + 0x100_0000_0000_0000 * (bytes[7] as u128);
        if 8 + length > bytes.len() as u128 {
            return false;
        }
        let end: usize = 8 + (length as usize);
        json_parses(slice_subrange(bytes, 8, end))
    }

    /// How the backend loads the file at a path.
    pub fn kind_of_path(path: &str) -> (r: PathKind)
        ensures
            r == path_kind(path@),
    {
        match extension_of(path) {
            Some(ext) => {
                if is_text(ext.as_slice(), "safetensors") {
                    PathKind::SafeTensors
                } else if is_text(ext.as_slice(), "pt") || is_text(ext.as_slice(), "pth") {
                    PathKind::PyTorch
                } else {
                    PathKind::Unknown
                }
            },
            None => PathKind::Unknown,
        }
    }

    /// Tests whether no run of digits in a buffer is longer than `limit`.
    pub fn digits_are_within(bytes: &[u8], limit: usize) -> (r: bool)
        ensures
            r == digits_within(bytes@, limit as nat),
    {
        let mut run: usize = 0;
        let mut i: usize = 0;
        while i < bytes.len()
            invariant
                i <= bytes@.len(),
                run == digit_run(bytes@, i as int),
                forall|end: int| 0 <= end <= i ==> #[trigger] digit_run(bytes@, end) <= limit,
            decreases bytes@.len() - i,
        {
            if 0x30 <= bytes[i] && bytes[i] <= 0x39 {
                assert(digit_run(bytes@, i + 1) == run + 1);
                if run >= limit {
                    return false;
                }
                run += 1;
            } else {
                assert(digit_run(bytes@, i + 1) == 0);
                run = 0;
            }
            i += 1;
        }
        true
    }

    /// Tests whether the reader of flat files of weights can take a buffer.
    pub fn has_bounded_header(bytes: &[u8]) -> (r: bool)
        ensures
            r == header_is_bounded(bytes@),
    {
        if bytes.len() < 8 {
            return true;
        }
        let length: u128 = bytes[0] as u128 + 0x100 * (bytes[1] as u128) + 0x1_0000 * (
        bytes[2] as u128) + 0x100_0000 * (bytes[3] as u128) + 0x1_0000_0000 * (bytes[4] as u128)
            + 0x100_0000_0000 * (bytes[5] as u128) + 0x1_0000_0000_0000 * (bytes[6] as u128)
            + 0x100_0000_0000_0000 * (bytes[7] as u128);
        if 8 + length > bytes.len() as u128 {
            return true;
        }
        let end: usize = 8 + (length as usize);
        let limit: usize = if usize::MAX > 0xffff_ffff {
            18
        } else {
            9
        };
        Self::digits_are_within(slice_subrange(bytes, 8, end), limit)
    }

    /// Loads a model from the bytes of a flat file of weights. It succeeds
    /// exactly when the header holds no run of digits that is too long, the
    /// reader accepts the bytes, and every tensor that it finds can be
    /// loaded. The model then keeps those tensors, each once, in the order in
    /// which the reader lists them, which is the reader's own, and has the
    /// specifications that the names of its tensors give, taken in that
    /// order. Where the header is refused or the reader refuses the bytes the
    /// error is `ModelLoad`; else it is the error for a tensor that cannot be
    /// loaded: `UnsupportedFormat` for an element type the backend does not
    /// compute with, `ModelLoad` for bytes that are not the elements of the
    /// shape.
    pub fn load_safetensors_from_bytes(&self, bytes: &[u8]) -> (r: Result<
        GenericSafeTensorsModel,
        InferenceError,
    >)
        ensures
            match r {
                Ok(model) => is_loadable(bytes@) && is_loaded_from(model, bytes@),
                Err(e) => !is_loadable(bytes@) && reports_unloadable(bytes@, e),
            },
    {
        if !Self::has_bounded_header(bytes) {
            return Err(InferenceError::model_load("Failed to parse SafeTensors"));
        }
        match read_safetensors(bytes) {
            Ok(entries) => {
                proof {
                    lemma_tensors_without_order(entries@);
                }
                GenericSafeTensorsModel::from_entries(entries)
            },
            Err(_) => Err(InferenceError::model_load("Failed to parse SafeTensors")),
        }
    }

    /// Loads the model in the file at `path`, whose bytes are `contents`, or
    /// `None` if the file could not be read. It succeeds exactly when the
    /// extension of the path is `safetensors`, the file could be read, and
    /// [`CandleEngine::load_safetensors_from_bytes`] makes a model of its
    /// bytes, which is then the result. It fails with `UnsupportedFormat`
    /// unless the extension of the path is `safetensors`, then with
    /// `ModelLoad` if the file could not be read, and then as
    /// [`CandleEngine::load_safetensors_from_bytes`] does.
    pub fn load_file(&self, path: &str, contents: Option<&[u8]>) -> (r: Result<
        GenericSafeTensorsModel,
        InferenceError,
    >)
        ensures
            match r {
                Ok(model) => {
                    &&& path_kind(path@) == PathKind::SafeTensors
                    &&& contents matches Some(bytes) && is_loadable(bytes@) && is_loaded_from(
                        model,
                        bytes@,
                    )
                },
                Err(e) => if path_kind(path@) != PathKind::SafeTensors {
                    e is UnsupportedFormat
                } else {
                    match contents {
                        Some(bytes) => !is_loadable(bytes@) && reports_unloadable(bytes@, e),
                        None => e is ModelLoad,
                    }
                },
            },
    {
        match Self::kind_of_path(path) {
            PathKind::SafeTensors => match contents {
                Some(bytes) => self.load_safetensors_from_bytes(bytes),
                None => Err(InferenceError::model_load("Failed to read SafeTensors file")),
            },
            PathKind::PyTorch => Err(
                InferenceError::unsupported_format(
                    "PyTorch model loading not yet implemented - use SafeTensors format instead",
                ),
            ),
            PathKind::Unknown => Err(
                InferenceError::unsupported_format("Unsupported file extension for path"),
            ),
        }
    }

    /// Loads a model from its bytes. It succeeds exactly when the bytes frame
    /// a JSON header and [`CandleEngine::load_safetensors_from_bytes`] makes
    /// a model of them, which is then the result. It fails with
    /// `UnsupportedFormat` unless the bytes frame a JSON header, and then as
    /// [`CandleEngine::load_safetensors_from_bytes`] does.
    pub fn load_bytes(&self, bytes: &[u8]) -> (r: Result<GenericSafeTensorsModel, InferenceError>)
        ensures
            match r {
                Ok(model) => frames_json_header(bytes@) && is_loadable(bytes@) && is_loaded_from(
                    model,
                    bytes@,
                ),
                Err(e) => if !frames_json_header(bytes@) {
                    e is UnsupportedFormat
                } else {
                    !is_loadable(bytes@) && reports_unloadable(bytes@, e)
                },
            },
    {
        if self.is_safetensors_format(bytes) {
            self.load_safetensors_from_bytes(bytes)
        } else {
            Err(
                InferenceError::unsupported_format(
                    "Unsupported model format in bytes - only SafeTensors supported",
                ),
            )
        }
    }
}

impl Default for CandleEngine {
    fn default() -> (r: Self)
        ensures
            !r.uses_gpu(),
    {
        CandleEngine { gpu_available: false }
    }
}

impl InferenceEngine for CandleEngine {
    open spec fn kind(&self) -> EngineType {
        EngineType::Candle
    }

    fn load_model(&self, path: &str, contents: Option<&[u8]>) -> (r: Result<
        Box<dyn Model>,
        InferenceError,
    >) {
        match self.load_file(path, contents) {
            Ok(model) => Ok(Box::new(model)),
            Err(e) => Err(e),
        }
    }

    fn load_from_bytes(&self, bytes: &[u8]) -> (r: Result<Box<dyn Model>, InferenceError>) {
        match self.load_bytes(bytes) {
            Ok(model) => Ok(Box::new(model)),
            Err(e) => Err(e),
        }
    }

    fn supports_format(&self, format: &ModelFormat) -> (r: bool) {
        match format {
            ModelFormat::SafeTensors => true,
            ModelFormat::PyTorch => true,
            _ => false,
        }
    }

    fn engine_name(&self) -> (r: &'static str) {
        "candle"
    }

    fn engine_type(&self) -> (r: EngineType) {
        EngineType::Candle
    }
}

} // verus!
