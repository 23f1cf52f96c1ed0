//! The backends and what they have in common: the kinds of backend, the model
//! formats, and the two capability sets that every backend and every loaded
//! model offers.
use vstd::prelude::*;
use crate::detector::bytes_view;
use crate::engines::candle::{frames_json_header, is_loadable, path_kind, PathKind};
use crate::engines::ort::{is_onnx_path, may_be_onnx};
use crate::error::InferenceError;
use crate::tensor::{Tensor, TensorSpec};

pub mod candle;
pub mod factory;
pub mod kernel;
pub mod linfa;
pub mod ort;

pub use candle::{CandleEngine, GenericSafeTensorsModel};
pub use factory::{EngineConfig, EngineFactory};
pub use linfa::{LinfaAlgorithm, LinfaEngine, LinfaSessionBuilder};
pub use ort::{OrtEngine, OrtSessionBuilder};





verus! {

/// The kinds of backend, in their order of declaration.
#[derive(Debug, Clone, Copy, PartialEq, Eq, Structural)]
pub enum EngineType {
    Candle,
    Ort,
    Linfa,
}

/// The formats of a model.
#[derive(Debug, Clone, Copy, PartialEq, Eq, Structural)]
pub enum ModelFormat {
    /// A flat file of weights behind a JSON header.
    SafeTensors,
    /// A pickled or zipped file of weights.
    PyTorch,
    /// An ONNX graph.
    Onnx,
    /// A binary-serialized model of the native backend.
    Linfa,
}

/// The one kind of backend that a format prefers.
pub open spec fn preferred_engine(format: ModelFormat) -> EngineType {
    match format {
        ModelFormat::SafeTensors => EngineType::Candle,
        ModelFormat::PyTorch => EngineType::Candle,
        ModelFormat::Onnx => EngineType::Ort,
        ModelFormat::Linfa => EngineType::Linfa,
    }
}

/// Whether a kind of backend claims to support a format.
pub open spec fn supports(kind: EngineType, format: ModelFormat) -> bool {
    preferred_engine(format) == kind
}

/// The name under which a kind of backend presents itself.
pub open spec fn engine_name_text(kind: EngineType) -> Seq<char> {
    match kind {
        EngineType::Candle => "candle"@,
        EngineType::Ort => "OnnxRuntime"@,
        EngineType::Linfa => "Linfa"@,
    }
}

/// The name of a kind of backend in lower case, as it is written in session
/// information and read from a configuration.
pub open spec fn engine_tag_text(kind: EngineType) -> Seq<char> {
    match kind {
        EngineType::Candle => "candle"@,
        EngineType::Ort => "ort"@,
        EngineType::Linfa => "linfa"@,
    }
}

impl EngineType {
    /// The name of the kind in lower case.
    pub fn tag(&self) -> (r: &'static str)
        ensures
            r@ == engine_tag_text(*self),
    {
        match self {
            EngineType::Candle => "candle",
            EngineType::Ort => "ort",
            EngineType::Linfa => "linfa",
        }
    }
}

/// What is known about a model beyond its interface.
#[derive(Debug, Clone)]
pub struct ModelMetadata {
    pub name: Option<String>,
    pub version: Option<String>,
    pub description: Option<String>,
    pub author: Option<String>,
    pub license: Option<String>,
}

/// What every loaded model offers. The numerical work behind `predict` is
/// the implementor's own. A model says what it admits of its results in four
/// relations; one that does not say admits every result.
pub trait Model: Send + Sync {
    /// Whether `output` is an answer that the model may give to `input`.
    open spec fn answers(&self, input: Tensor, output: Result<Tensor, InferenceError>) -> bool {
        true
    }

    /// Whether `output` is an answer that the model may give to the inputs
    /// of a batch.
    open spec fn answers_batch(
        &self,
        inputs: Seq<Tensor>,
        output: Result<Vec<Tensor>, InferenceError>,
    ) -> bool {
        true
    }

    /// Whether `specs` may be the specifications of the model's inputs.
    open spec fn lists_inputs(&self, specs: Seq<TensorSpec>) -> bool {
        true
    }

    /// Whether `specs` may be the specifications of the model's outputs.
    open spec fn lists_outputs(&self, specs: Seq<TensorSpec>) -> bool {
        true
    }

    /// Runs the model on one input.
    fn predict(&self, input: &Tensor) -> (r: Result<Tensor, InferenceError>)
        ensures
            self.answers(*input, r),
    ;

    /// Runs the model on several inputs.
    fn predict_batch(&self, inputs: &[Tensor]) -> (r: Result<Vec<Tensor>, InferenceError>)
        ensures
            self.answers_batch(inputs@, r),
    ;

    /// The specifications of the inputs.
    fn input_specs(&self) -> (r: &[TensorSpec])
        ensures
            self.lists_inputs(r@),
    ;

    /// The specifications of the outputs.
    fn output_specs(&self) -> (r: &[TensorSpec])
        ensures
            self.lists_outputs(r@),
    ;

    /// The kind of backend that loaded this model.
    fn engine_type(&self) -> EngineType;

    /// What is known about the model beyond its interface, if anything.
    fn metadata(&self) -> Option<&ModelMetadata>;
}

/// Whether `output` may come of answering each input of a batch in turn,
/// where `answers` says which answers an input may get: either one output
/// for each input, each an answer to its input, or an error, after outputs
/// for the inputs before one input, as the answer to that input.
pub open spec fn answers_each(
    answers: spec_fn(Tensor, Result<Tensor, InferenceError>) -> bool,
    inputs: Seq<Tensor>,
    output: Result<Vec<Tensor>, InferenceError>,
) -> bool {
    match output {
        Ok(outputs) => {
            &&& outputs@.len() == inputs.len()
            &&& forall|i: int|
                0 <= i < inputs.len() ==> answers(inputs[i], Ok(#[trigger] outputs@[i]))
        },
        Err(e) => exists|earlier: Seq<Tensor>|
            {
                &&& #[trigger] earlier.len() < inputs.len()
                &&& forall|i: int|
                    0 <= i < earlier.len() ==> answers(inputs[i], Ok(#[trigger] earlier[i]))
                &&& answers(inputs[earlier.len() as int], Err(e))
            },
    }
}

/// Runs a model on each input in turn and collects the outputs; stops at the
/// first input on which the model fails, with that error. This is what
/// `predict_batch` does unless a model has a better way.
pub fn predict_each(model: &dyn Model, inputs: &[Tensor]) -> (r: Result<Vec<Tensor>, InferenceError>)
    ensures
        answers_each(
            |input: Tensor, output: Result<Tensor, InferenceError>| model.answers(input, output),
            inputs@,
            r,
        ),
{
    let mut outputs: Vec<Tensor> = Vec::new();
    let mut i: usize = 0;
    while i < inputs.len()
        invariant
            i <= inputs@.len(),
            outputs@.len() == i,
            forall|j: int| 0 <= j < i ==> model.answers(inputs@[j], Ok(#[trigger] outputs@[j])),
        decreases inputs@.len() - i,
    {
        match model.predict(&inputs[i]) {
            Ok(output) => {
                outputs.push(output);
            },
            Err(e) => {
                assert(outputs@.len() < inputs@.len());
                return Err(e);
            },
        }
        i += 1;
    }
    Ok(outputs)
}

/// The errors with which a backend refuses to load a model before it has
/// looked into it.
#[derive(Debug, Clone, Copy, PartialEq, Eq, Structural)]
pub enum Refusal {
    /// The backend does not load what it is given.
    UnsupportedFormat,
    /// The file could not be read.
    ModelLoad,
    /// The backend is not part of this library.
    Configuration,
}

/// Whether an error is the one of a refusal.
pub open spec fn is_refusal(e: InferenceError, refusal: Refusal) -> bool {
    match refusal {
        Refusal::UnsupportedFormat => e is UnsupportedFormat,
        Refusal::ModelLoad => e is ModelLoad,
        Refusal::Configuration => e is Configuration,
    }
}

/// The refusal of a backend of a kind to load the file at a path, if it
/// refuses. The backend for flat files of weights refuses every path but one
/// with the extension `safetensors`, and a file that could not be read; the
/// backend for ONNX graphs and the one for trained models refuse every file.
pub open spec fn file_refusal(kind: EngineType, path: Seq<char>, contents: Option<Seq<u8>>)
    -> Option<Refusal> {
    match kind {
        EngineType::Candle => match path_kind(path) {
            PathKind::SafeTensors => if contents is None {
                Some(Refusal::ModelLoad)
            } else {
                None
            },
            _ => Some(Refusal::UnsupportedFormat),
        },
        EngineType::Ort => if is_onnx_path(path) {
            Some(Refusal::Configuration)
        } else {
            Some(Refusal::UnsupportedFormat)
        },
        EngineType::Linfa => Some(Refusal::UnsupportedFormat),
    }
}

/// The refusal of a backend of a kind to load a model from its bytes, if it
/// refuses. The backend for flat files of weights refuses bytes that frame no
/// JSON header; the backend for ONNX graphs and the one for trained models
/// refuse all bytes.
pub open spec fn bytes_refusal(kind: EngineType, bytes: Seq<u8>) -> Option<Refusal> {
    match kind {
        EngineType::Candle => if frames_json_header(bytes) {
            None
        } else {
            Some(Refusal::UnsupportedFormat)
        },
        EngineType::Ort => if may_be_onnx(bytes) {
            Some(Refusal::Configuration)
        } else {
            Some(Refusal::UnsupportedFormat)
        },
        EngineType::Linfa => Some(Refusal::UnsupportedFormat),
    }
}

/// Whether a backend of a kind makes a model of the file at a path. Only
/// the backend for flat files of weights makes models: of a file with the
/// extension `safetensors` that could be read and whose bytes it loads.
pub open spec fn loads_file(kind: EngineType, path: Seq<char>, contents: Option<Seq<u8>>) -> bool {
    &&& kind == EngineType::Candle
    &&& path_kind(path) == PathKind::SafeTensors
    &&& contents matches Some(bytes) && is_loadable(bytes)
}

/// Whether a backend of a kind makes a model of the given bytes. Only the
/// backend for flat files of weights makes models: of bytes that frame a
/// JSON header and that it loads.
pub open spec fn loads_bytes(kind: EngineType, bytes: Seq<u8>) -> bool {
    kind == EngineType::Candle && frames_json_header(bytes) && is_loadable(bytes)
}

/// Whether an error is one with which a load can fail that was not refused:
/// the model could not be read, or it holds what the backend does not
/// compute with.
pub open spec fn is_load_failure(e: InferenceError) -> bool {
    e is ModelLoad || e is UnsupportedFormat
}

/// What every backend offers. A backend behaves as its kind says: it refuses
/// what backends of its kind refuse, and makes a model of what they make a
/// model of.
pub trait InferenceEngine: Send + Sync {
    /// The kind of this backend.
    spec fn kind(&self) -> EngineType;

    /// Loads the model in the file at `path`. `contents` holds the bytes of
    /// that file, or `None` if the file could not be read; the backend looks
    /// at them only once the path has told it how to load the file.
    fn load_model(&self, path: &str, contents: Option<&[u8]>) -> (r: Result<
        Box<dyn Model>,
        InferenceError,
    >)
        ensures
            match file_refusal(self.kind(), path@, bytes_view(contents)) {
                Some(refusal) => r matches Err(e) && is_refusal(e, refusal),
                None => r matches Err(e) ==> is_load_failure(e),
            },
            r is Ok <==> loads_file(self.kind(), path@, bytes_view(contents)),
    ;

    /// Loads a model from its bytes.
    fn load_from_bytes(&self, bytes: &[u8]) -> (r: Result<Box<dyn Model>, InferenceError>)
        ensures
            match bytes_refusal(self.kind(), bytes@) {
                Some(refusal) => r matches Err(e) && is_refusal(e, refusal),
                None => r matches Err(e) ==> is_load_failure(e),
            },
            r is Ok <==> loads_bytes(self.kind(), bytes@),
    ;

    /// Whether this backend claims to support a format.
    fn supports_format(&self, format: &ModelFormat) -> (r: bool)
        ensures
            r == supports(self.kind(), *format),
    ;

    /// The name of this backend.
    fn engine_name(&self) -> (r: &'static str)
        ensures
            r@ == engine_name_text(self.kind()),
    ;

    /// The kind of this backend.
    fn engine_type(&self) -> (r: EngineType)
        ensures
            r == self.kind(),
    ;
}

} // verus!
