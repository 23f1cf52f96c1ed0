//! The operations that a host application calls: loading a model into a
//! session, predicting with a session, looking at sessions and disposing of
//! them, and asking which backends there are. The sessions live in a store
//! that the caller owns and passes in.
use vstd::prelude::*;
use crate::detector::{
    bytes_view, content_format, detected_engine, detected_format, DetectionFailure, ModelDetector,
};
use crate::engines::candle::{frames_json_header, is_loadable};
use crate::engines::factory::{chosen_engine, compiled_in};
use crate::engines::{
    bytes_refusal, engine_tag_text, file_refusal, is_load_failure, is_refusal, loads_bytes,
    loads_file, preferred_engine, EngineConfig, EngineFactory, EngineType, Model, ModelFormat,
    Refusal,
};
use crate::error::InferenceError;
use crate::models::text_view;
use crate::session::{Owned, Session, SessionStore, StoreView};
use crate::tensor::{specs_view, DataType, Tensor, TensorSpec};
use crate::text::{ascii_lowercase, chars_of, is_text, lowercase_ascii};

verus! {

/// The handle of a session.
pub type SessionHandle = u64;

/// What a caller learns of a session: its handle, the name of the kind of
/// backend behind it, and the specifications of its inputs and outputs.
#[derive(Debug, Clone)]
pub struct SessionInfo {
    pub handle: SessionHandle,
    pub engine_type: String,
    pub input_specs: Vec<TensorSpec>,
    pub output_specs: Vec<TensorSpec>,
}

/// How to load a model: the name of the kind of backend to use, if the
/// caller prefers one; whether to use a GPU; and two settings that are
/// handed on to backends that know them.
#[derive(Debug, Clone)]
pub struct SessionConfig {
    pub engine_type: Option<String>,
    pub gpu_acceleration: bool,
    pub num_threads: Option<usize>,
    pub optimization_level: Option<String>,
}

impl Default for SessionConfig {
    fn default() -> (r: Self)
        ensures
            r.engine_type is None,
            r.gpu_acceleration,
            r.num_threads is None,
            r.optimization_level is None,
    {
        SessionConfig {
            engine_type: None,
            gpu_acceleration: true,
            num_threads: None,
            optimization_level: None,
        }
    }
}

/// The kind of backend that a name stands for, if it is `candle` or `linfa`
/// in any case of its letters.
pub open spec fn named_engine(name: Seq<char>) -> Option<EngineType> {
    let lowered = ascii_lowercase(name);
    if lowered == "candle"@ {
        Some(EngineType::Candle)
    } else if lowered == "linfa"@ {
        Some(EngineType::Linfa)
    } else {
        None
    }
}

/// The element type that a name stands for, in any case of its letters.
pub open spec fn named_data_type(name: Seq<char>) -> Option<DataType> {
    let lowered = ascii_lowercase(name);
    if lowered == "f32"@ || lowered == "float32"@ {
        Some(DataType::F32)
    } else if lowered == "f64"@ || lowered == "float64"@ {
        Some(DataType::F64)
    } else if lowered == "i32"@ || lowered == "int32"@ {
        Some(DataType::I32)
    } else if lowered == "i64"@ || lowered == "int64"@ {
        Some(DataType::I64)
    } else if lowered == "u8"@ || lowered == "uint8"@ {
        Some(DataType::U8)
    } else if lowered == "u32"@ || lowered == "uint32"@ {
        Some(DataType::U32)
    } else {
        None
    }
}

/// The kind of backend that a name stands for. Fails with
/// `UnsupportedFormat` exactly when the name is none of a kind.
pub fn parse_engine_type(engine_str: &str) -> (r: Result<EngineType, InferenceError>)
    ensures
        match r {
            Ok(kind) => named_engine(engine_str@) == Some(kind),
            Err(e) => named_engine(engine_str@) is None && e is UnsupportedFormat,
        },
{
    let chars = chars_of(engine_str);
    let lowered = lowercase_ascii(chars.as_slice());
    if is_text(lowered.as_slice(), "candle") {
        Ok(EngineType::Candle)
    } else if is_text(lowered.as_slice(), "linfa") {
        Ok(EngineType::Linfa)
    } else {
        Err(InferenceError::unsupported_format("Unknown engine type"))
    }
}

/// The element type that a name stands for. Fails with `UnsupportedFormat`
/// exactly when the name is none of an element type.
pub fn parse_data_type(data_type_str: &str) -> (r: Result<DataType, InferenceError>)
    ensures
        match r {
            Ok(data_type) => named_data_type(data_type_str@) == Some(data_type),
            Err(e) => named_data_type(data_type_str@) is None && e is UnsupportedFormat,
        },
{
    let chars = chars_of(data_type_str);
    let lowered = lowercase_ascii(chars.as_slice());
    let name = lowered.as_slice();
    if is_text(name, "f32") || is_text(name, "float32") {
        Ok(DataType::F32)
    } else if is_text(name, "f64") || is_text(name, "float64") {
        Ok(DataType::F64)
    } else if is_text(name, "i32") || is_text(name, "int32") {
        Ok(DataType::I32)
    } else if is_text(name, "i64") || is_text(name, "int64") {
        Ok(DataType::I64)
    } else if is_text(name, "u8") || is_text(name, "uint8") {
        Ok(DataType::U8)
    } else if is_text(name, "u32") || is_text(name, "uint32") {
        Ok(DataType::U32)
    } else {
        Err(InferenceError::unsupported_format("Unknown data type"))
    }
}

/// Copies a list of specifications.
fn copy_specs(specs: &[TensorSpec]) -> (r: Vec<TensorSpec>)
    ensures
        specs_view(r@) == specs_view(specs@),
{
    let mut copies: Vec<TensorSpec> = Vec::new();
    let mut i: usize = 0;
    while i < specs.len()
        invariant
            i <= specs@.len(),
            copies@.len() == i,
            forall|j: int| 0 <= j < i ==> (#[trigger] copies@[j])@ == specs@[j]@,
        decreases specs@.len() - i,
    {
        copies.push(specs[i].clone());
        i += 1;
    }
    assert(specs_view(copies@) =~= specs_view(specs@));
    copies
}

/// Whether information is that on a session kept under a handle: it names
/// the handle and the kind of the session, and says of the inputs and the
/// outputs what the session's model lists.
pub open spec fn informs_of(info: SessionInfo, handle: SessionHandle, session: Session) -> bool {
    &&& info.handle == handle
    &&& info.engine_type@ == engine_tag_text(session.kind())
    &&& session.lists_inputs(specs_view(info.input_specs@))
    &&& session.lists_outputs(specs_view(info.output_specs@))
}

/// What a caller learns of a session that is kept under `handle`.
pub fn create_session_info(handle: SessionHandle, session: &Session) -> (r: SessionInfo)
    ensures
        informs_of(r, handle, *session),
{
    SessionInfo {
        handle,
        engine_type: session.engine_type().tag().to_owned(),
        input_specs: copy_specs(session.input_specs()),
        output_specs: copy_specs(session.output_specs()),
    }
}

/// Why a model is not loaded before a backend has been asked to load it.
#[derive(Debug, Clone, Copy, PartialEq, Eq, Structural)]
pub enum LoadRefusal {
    /// The configuration names a kind of backend that there is none of.
    UnknownEngine,
    /// The format of the model cannot be told, since its file could not be
    /// read.
    UnknownFormat,
    /// The model has no content.
    NoContent,
    /// No backend can be chosen.
    NoEngine,
    /// The store has no handle left.
    StoreFull,
}

/// Whether an error is the one for a refusal.
pub open spec fn reports_refusal(e: InferenceError, refusal: LoadRefusal) -> bool {
    match refusal {
        LoadRefusal::UnknownEngine => e is UnsupportedFormat,
        LoadRefusal::UnknownFormat => e is FormatDetection,
        LoadRefusal::NoContent => e is UnsupportedFormat,
        LoadRefusal::NoEngine => e is Configuration,
        LoadRefusal::StoreFull => e is MemoryAllocation,
    }
}

/// What loading comes to before a backend is asked: the kind that the session
/// will be of and the kind of the backend that is asked to load the model.
pub struct LoadPlan {
    pub session_kind: EngineType,
    pub backend: EngineType,
}

/// The plan for a model of a given format, for a session of a given kind:
/// the backend is the one of that kind if it is part of this library, else
/// the best one for the format.
pub open spec fn plan_for(session_kind: EngineType, format: ModelFormat) -> Result<
    LoadPlan,
    LoadRefusal,
> {
    match chosen_engine(Some(session_kind), true, format) {
        Some(backend) => Ok(LoadPlan { session_kind, backend }),
        None => Err(LoadRefusal::NoEngine),
    }
}

/// The plan for loading the file at a path. The session is of the kind that
/// the configuration names, or else of the kind that is detected from the
/// path and the content; the format is detected from the path and the
/// content.
pub open spec fn file_load_plan(
    path: Seq<char>,
    contents: Option<Seq<u8>>,
    engine_name: Option<Seq<char>>,
    store: StoreView,
) -> Result<LoadPlan, LoadRefusal> {
    if engine_name is Some && named_engine(engine_name.unwrap()) is None {
        Err(LoadRefusal::UnknownEngine)
    } else {
        let session_kind = match engine_name {
            Some(name) => named_engine(name).unwrap(),
            None => detected_engine(path, contents),
        };
        match detected_format(path, contents) {
            Err(DetectionFailure::Unreadable) => Err(LoadRefusal::UnknownFormat),
            Err(DetectionFailure::Empty) => Err(LoadRefusal::NoContent),
            Ok(format) => if !store.has_capacity() {
                Err(LoadRefusal::StoreFull)
            } else {
                plan_for(session_kind, format)
            },
        }
    }
}

/// The format that stands for a kind of backend where the caller names the
/// kind and gives no path.
pub open spec fn format_of_engine(kind: EngineType) -> ModelFormat {
    match kind {
        EngineType::Candle => ModelFormat::SafeTensors,
        EngineType::Ort => ModelFormat::Onnx,
        EngineType::Linfa => ModelFormat::Linfa,
    }
}

/// The plan for loading a model from its bytes. Where the configuration
/// names a kind of backend, the session is of that kind and the format is the
/// one that stands for it; else both are detected from the bytes.
pub open spec fn bytes_load_plan(bytes: Seq<u8>, engine_name: Option<Seq<char>>, store: StoreView)
    -> Result<LoadPlan, LoadRefusal> {
    match engine_name {
        Some(name) => match named_engine(name) {
            None => Err(LoadRefusal::UnknownEngine),
            Some(kind) => if !store.has_capacity() {
                Err(LoadRefusal::StoreFull)
            } else {
                plan_for(kind, format_of_engine(kind))
            },
        },
        None => if bytes.len() == 0 {
            Err(LoadRefusal::NoContent)
        } else if !store.has_capacity() {
            Err(LoadRefusal::StoreFull)
        } else {
            plan_for(preferred_engine(content_format(bytes)), content_format(bytes))
        },
    }
}

/// Whether a store and an answer are what loading leaves behind, given the
/// plan, the refusal of the planned backend, if it refuses, and whether that
/// backend makes a model of what it is given: where there is no plan, the
/// error that says why, and the store as it was; where the backend refuses,
/// the error of its refusal, and the store as it was; where it does not
/// refuse and makes no model, an error that says that the model could not be
/// read or holds what the backend does not compute with, and the store as it
/// was; else the store with one more session of the planned kind, kept under
/// the handle that was the next one, and the information on that session.
pub open spec fn load_result(
    plan: Result<LoadPlan, LoadRefusal>,
    refusal: Option<Refusal>,
    loads: bool,
    before: StoreView,
    after: StoreView,
    r: Result<SessionInfo, InferenceError>,
) -> bool {
    match plan {
        Err(refused) => after == before && (r matches Err(e) && reports_refusal(e, refused)),
        Ok(plan) => match r {
            Err(e) => !loads && after == before && match refusal {
                Some(refusal) => is_refusal(e, refusal),
                None => is_load_failure(e),
            },
            Ok(info) => {
                &&& loads
                &&& refusal is None
                &&& info.handle == before.next_handle
                &&& info.engine_type@ == engine_tag_text(plan.session_kind)
                &&& after.next_handle == before.next_handle + 1
                &&& after.sessions.contains_key(info.handle)
                &&& after.sessions[info.handle].kind() == plan.session_kind
                &&& after.sessions.remove(info.handle) == before.sessions
                &&& informs_of(info, info.handle, after.sessions[info.handle])
            },
        },
    }
}

/// Whether a store and an answer are what loading a file leaves behind.
pub open spec fn file_load_result(
    path: Seq<char>,
    contents: Option<Seq<u8>>,
    engine_name: Option<Seq<char>>,
    before: StoreView,
    after: StoreView,
    r: Result<SessionInfo, InferenceError>,
) -> bool {
    let plan = file_load_plan(path, contents, engine_name, before);
    load_result(
        plan,
        match plan {
            Ok(plan) => file_refusal(plan.backend, path, contents),
            Err(_) => None,
        },
        match plan {
            Ok(plan) => loads_file(plan.backend, path, contents),
            Err(_) => false,
        },
        before,
        after,
        r,
    )
}

/// Whether a store and an answer are what loading a model from its bytes
/// leaves behind.
pub open spec fn bytes_load_result(
    bytes: Seq<u8>,
    engine_name: Option<Seq<char>>,
    before: StoreView,
    after: StoreView,
    r: Result<SessionInfo, InferenceError>,
) -> bool {
    let plan = bytes_load_plan(bytes, engine_name, before);
    load_result(
        plan,
        match plan {
            Ok(plan) => bytes_refusal(plan.backend, bytes),
            Err(_) => None,
        },
        match plan {
            Ok(plan) => loads_bytes(plan.backend, bytes),
            Err(_) => false,
        },
        before,
        after,
        r,
    )
}

/// Bytes that frame a JSON header and that the backend for flat files of
/// weights loads are loaded wherever the caller names no backend and the
/// store has a handle left: into a session of that backend, kept under the
/// handle that the information names. Once that session is disposed of, the
/// store keeps none under that handle.
pub proof fn lemma_loadable_bytes_are_loaded(
    bytes: Seq<u8>,
    before: StoreView,
    after: StoreView,
    r: Result<SessionInfo, InferenceError>,
)
    requires
        before.has_capacity(),
        frames_json_header(bytes),
        is_loadable(bytes),
        bytes_load_result(bytes, None, before, after, r),
    ensures
        r matches Ok(info) && {
            &&& info.handle == before.next_handle
            &&& info.engine_type@ == engine_tag_text(EngineType::Candle)
            &&& after.sessions.contains_key(info.handle)
            &&& after.sessions[info.handle].kind() == EngineType::Candle
            &&& !after.remove(info.handle).sessions.contains_key(info.handle)
        },
{
}

/// Keeps a session in the store and says what a caller learns of it.
fn keep_session(store: &mut SessionStore, session: Session) -> (r: SessionInfo)
    requires
        old(store)@.has_capacity(),
    ensures
        informs_of(r, old(store)@.next_handle, session),
        final(store)@ == old(store)@.insert(session),
{
    let info = create_session_info(store.next_handle(), &session);
    let handle = store.insert(session);
    info
}

/// Loads the model in the file at `model_path` with the default
/// configuration; see [`load_model_with_config`].
pub fn load_model(store: &mut SessionStore, model_path: &str, contents: Option<&[u8]>) -> (r:
    Result<SessionInfo, InferenceError>)
    ensures
        file_load_result(
            model_path@,
            bytes_view(contents),
            None,
            old(store)@,
            final(store)@,
            r,
        ),
{
    let config = SessionConfig::default();
    load_model_with_config(store, model_path, contents, &config)
}

/// Loads the model in a local file; see [`load_model`].
pub fn load_model_from_file(store: &mut SessionStore, file_path: &str, contents: Option<&[u8]>)
    -> (r: Result<SessionInfo, InferenceError>)
    ensures
        file_load_result(
            file_path@,
            bytes_view(contents),
            None,
            old(store)@,
            final(store)@,
            r,
        ),
{
    load_model(store, file_path, contents)
}

/// Loads the model in the file at `model_path` into a new session of the
/// store. `contents` holds the bytes of the file, or `None` if it could not
/// be read. Fails with `UnsupportedFormat` where the configuration names a
/// kind of backend that there is none of; else, where the extension of the
/// path is not a known one, with `FormatDetection` if the file could not be
/// read and with `UnsupportedFormat` if it is empty; else with
/// `MemoryAllocation` where the store has no handle left; else as the chosen
/// backend does. The store changes only where the model is loaded.
#[verifier::rlimit(50)]
pub fn load_model_with_config(
    store: &mut SessionStore,
    model_path: &str,
    contents: Option<&[u8]>,
    config: &SessionConfig,
) -> (r: Result<SessionInfo, InferenceError>)
    ensures
        file_load_result(
            model_path@,
            bytes_view(contents),
            text_view(config.engine_type),
            old(store)@,
            final(store)@,
            r,
        ),
{
    let engine_type = match &config.engine_type {
        Some(name) => match parse_engine_type(name.as_str()) {
            Ok(kind) => kind,
            Err(e) => {
                return Err(e);
            },
        },
        None => ModelDetector::detect_engine_from_path(model_path, contents),
    };
    let engine_config = EngineConfig::new().with_preferred_engine(engine_type).with_gpu_acceleration(
        config.gpu_acceleration,
    );
    let format = match ModelDetector::detect_format_from_path(model_path, contents) {
        Ok(format) => format,
        Err(e) => {
            return Err(e);
        },
    };
    if !store.has_capacity() {
        return Err(InferenceError::memory_allocation("No session handle is left"));
    }
    let engine = match engine_config.create_engine(format) {
        Ok(engine) => engine,
        Err(e) => {
            return Err(e);
        },
    };
    let loaded = wrapped(engine.load_model(model_path, contents));
    complete_load(store, engine_type, loaded)
}

/// Loads the model in the file at `model_path` with the backend for flat
/// files of weights; see [`load_model_with_config`].
pub fn load_model_with_candle(
    store: &mut SessionStore,
    model_path: &str,
    contents: Option<&[u8]>,
) -> (r: Result<SessionInfo, InferenceError>)
    ensures
        file_load_result(
            model_path@,
            bytes_view(contents),
            Some("candle"@),
            old(store)@,
            final(store)@,
            r,
        ),
{
    let mut config = SessionConfig::default();
    config.engine_type = Some("candle".to_owned());
    load_model_with_config(store, model_path, contents, &config)
}

/// Loads a model from its bytes into a new session of the store. Fails with
/// `UnsupportedFormat` where the configuration names a kind of backend that
/// there is none of, and where it names none and there are no bytes; else
/// with `MemoryAllocation` where the store has no handle left; else as the
/// chosen backend does. Bytes that show no format are taken for a flat file
/// of weights. The store changes only where the model is loaded.
#[verifier::rlimit(50)]
pub fn load_model_from_bytes(store: &mut SessionStore, model_bytes: &[u8], config: &SessionConfig)
    -> (r: Result<SessionInfo, InferenceError>)
    ensures
        bytes_load_result(
            model_bytes@,
            text_view(config.engine_type),
            old(store)@,
            final(store)@,
            r,
        ),
{
    let (engine_type, format) = match &config.engine_type {
        Some(name) => match parse_engine_type(name.as_str()) {
            Ok(kind) => {
                let format = match kind {
                    EngineType::Candle => ModelFormat::SafeTensors,
                    EngineType::Ort => ModelFormat::Onnx,
                    EngineType::Linfa => ModelFormat::Linfa,
                };
                (kind, format)
            },
            Err(e) => {
                return Err(e);
            },
        },
        None => match ModelDetector::detect_format_from_bytes(model_bytes) {
            Ok(format) => (EngineFactory::preferred_engine_for_format(format), format),
            Err(e) => {
                return Err(e);
            },
        },
    };
    let engine_config = EngineConfig::new().with_preferred_engine(engine_type).with_gpu_acceleration(
        config.gpu_acceleration,
    );
    if !store.has_capacity() {
        return Err(InferenceError::memory_allocation("No session handle is left"));
    }
    let engine = match engine_config.create_engine(format) {
        Ok(engine) => engine,
        Err(e) => {
            return Err(e);
        },
    };
    let loaded = wrapped(engine.load_from_bytes(model_bytes));
    complete_load(store, engine_type, loaded)
}

/// Ends a load with what the backend gave back: its error, with the store
/// as it was; or, for a model, a new session of the given kind that owns the
/// model, kept under the next handle, and the information on it. Where the
/// store has no handle left, a model is dropped and the load fails with
/// `MemoryAllocation`.
#[verifier::rlimit(50)]
pub fn complete_load(
    store: &mut SessionStore,
    engine_type: EngineType,
    loaded: Result<Owned<Box<dyn Model>>, InferenceError>,
) -> (r: Result<SessionInfo, InferenceError>)
    ensures
        match loaded {
            Err(e) => final(store)@ == old(store)@ && r == Err::<SessionInfo, InferenceError>(e),
            Ok(owned) => if old(store)@.has_capacity() {
                &&& r matches Ok(info)
                &&& info.handle == old(store)@.next_handle
                &&& info.engine_type@ == engine_tag_text(engine_type)
                &&& final(store)@.next_handle == old(store)@.next_handle + 1
                &&& final(store)@.sessions.dom() == old(store)@.sessions.dom().insert(info.handle)
                &&& final(store)@.sessions.remove(info.handle) == old(store)@.sessions
                &&& final(store)@.sessions[info.handle].kind() == engine_type
                &&& final(store)@.sessions[info.handle].described_by() is None
                &&& final(store)@.sessions[info.handle].owned() == owned
                &&& informs_of(info, info.handle, final(store)@.sessions[info.handle])
            } else {
                final(store)@ == old(store)@ && (r matches Err(e) && e is MemoryAllocation)
            },
        },
{
    match loaded {
        Err(e) => Err(e),
        Ok(owned) => {
            if !store.has_capacity() {
                return Err(InferenceError::memory_allocation("No session handle is left"));
            }
            let session = Session::holding(owned, engine_type);
            let info = keep_session(store, session);
            proof {
                let before = old(store)@;
                assert(store@.sessions.remove(info.handle) =~= before.sessions);
                assert(store@.sessions.dom() =~= before.sessions.dom().insert(info.handle));
            }
            Ok(info)
        },
    }
}

/// What a backend gave back, with a model in its wrapper.
fn wrapped(loaded: Result<Box<dyn Model>, InferenceError>) -> (r: Result<
    Owned<Box<dyn Model>>,
    InferenceError,
>)
    ensures
        loaded is Ok <==> r is Ok,
        loaded matches Err(e) ==> r == Err::<Owned<Box<dyn Model>>, InferenceError>(e),
{
    match loaded {
        Ok(model) => Ok(Owned { value: model }),
        Err(e) => Err(e),
    }
}

/// Keeps a model that was made outside a backend's loading, such as a
/// trained one, in a new session of the given kind. Fails with
/// `MemoryAllocation` exactly when the store has no handle left; the store
/// changes only where the model is kept.
pub fn adopt_model(store: &mut SessionStore, model: Box<dyn Model>, engine_type: EngineType) -> (r:
    Result<SessionInfo, InferenceError>)
    ensures
        load_result(
            if old(store)@.has_capacity() {
                Ok(LoadPlan { session_kind: engine_type, backend: engine_type })
            } else {
                Err(LoadRefusal::StoreFull)
            },
            None,
            true,
            old(store)@,
            final(store)@,
            r,
        ),
        r is Ok <==> old(store)@.has_capacity(),
{
    let given = Ok(Owned { value: model });
    complete_load(store, engine_type, given)
}

/// Runs the model of a session on one input. Fails with `ModelLoad` where
/// the store keeps no session with the given handle; else the answer is one
/// of that session's model to the input.
pub fn predict(store: &SessionStore, session_handle: SessionHandle, input: &Tensor) -> (r: Result<
    Tensor,
    InferenceError,
>)
    ensures
        !store@.sessions.contains_key(session_handle) ==> (r matches Err(e) && e is ModelLoad),
        store@.sessions.contains_key(session_handle) ==> store@.sessions[
            session_handle
        ].owned().value.answers(*input, r),
{
    store.predict(session_handle, input)
}

/// Runs the model of a session on several inputs. Fails with `ModelLoad`
/// where the store keeps no session with the given handle; else the answer
/// is one of that session's model to the batch.
pub fn predict_batch(store: &SessionStore, session_handle: SessionHandle, inputs: &[Tensor]) -> (r:
    Result<Vec<Tensor>, InferenceError>)
    ensures
        !store@.sessions.contains_key(session_handle) ==> (r matches Err(e) && e is ModelLoad),
        store@.sessions.contains_key(session_handle) ==> store@.sessions[
            session_handle
        ].owned().value.answers_batch(inputs@, r),
{
    store.predict_batch(session_handle, inputs)
}

/// What a caller learns of the session with the given handle. Fails with
/// `ModelLoad` exactly when the store keeps no such session.
pub fn get_session_info(store: &SessionStore, session_handle: SessionHandle) -> (r: Result<
    SessionInfo,
    InferenceError,
>)
    ensures
        match r {
            Ok(info) => store@.sessions.contains_key(session_handle) && informs_of(
                info,
                session_handle,
                store@.sessions[session_handle],
            ),
            Err(e) => !store@.sessions.contains_key(session_handle) && e is ModelLoad,
        },
{
    match store.get(session_handle) {
        Some(session) => Ok(create_session_info(session_handle, session)),
        None => Err(InferenceError::model_load("Invalid session handle")),
    }
}

/// Disposes of the session with the given handle. This never fails: where
/// the store keeps no such session, nothing changes.
pub fn dispose_session(store: &mut SessionStore, session_handle: SessionHandle) -> (r: Result<
    (),
    InferenceError,
>)
    ensures
        r is Ok,
        final(store)@ == old(store)@.remove(session_handle),
{
    store.remove(session_handle);
    Ok(())
}

/// The names of the kinds of backend that are part of this library, in
/// their order of declaration.
pub fn get_available_engines() -> (r: Vec<String>)
    ensures
        r@.len() == 2,
        r@[0]@ == engine_tag_text(EngineType::Candle),
        r@[1]@ == engine_tag_text(EngineType::Linfa),
{
    let kinds = EngineFactory::available_engines();
    let mut names: Vec<String> = Vec::new();
    let mut i: usize = 0;
    while i < kinds.len()
        invariant
            i <= kinds@.len(),
            names@.len() == i,
            forall|j: int| 0 <= j < i ==> (#[trigger] names@[j])@ == engine_tag_text(kinds@[j]),
        decreases kinds@.len() - i,
    {
        names.push(kinds[i].tag().to_owned());
        i += 1;
    }
    names
}

/// Tests whether a name stands for a kind of backend that is part of this
/// library.
pub fn is_engine_available(engine_type: &str) -> (r: bool)
    ensures
        r == (named_engine(engine_type@) matches Some(kind) && compiled_in(kind)),
{
    match parse_engine_type(engine_type) {
        Ok(kind) => EngineFactory::is_engine_available(kind),
        Err(_) => false,
    }
}

/// The name of the kind of backend for the model at `model_path`; see
/// [`ModelDetector::detect_engine_from_path`].
pub fn detect_engine_from_path(model_path: &str, contents: Option<&[u8]>) -> (r: String)
    ensures
        r@ == engine_tag_text(detected_engine(model_path@, bytes_view(contents))),
{
    ModelDetector::detect_engine_from_path(model_path, contents).tag().to_owned()
}

/// The name of the kind of backend for a model given by its bytes. Fails
/// with `UnsupportedFormat` exactly when there are no bytes.
pub fn detect_engine_from_bytes(model_bytes: &[u8]) -> (r: Result<String, InferenceError>)
    ensures
        match r {
            Ok(name) => model_bytes@.len() > 0 && name@ == engine_tag_text(
                preferred_engine(content_format(model_bytes@)),
            ),
            Err(e) => model_bytes@.len() == 0 && e is UnsupportedFormat,
        },
{
    match ModelDetector::detect_engine_from_bytes(model_bytes) {
        Ok(kind) => Ok(kind.tag().to_owned()),
        Err(e) => Err(e),
    }
}

} // verus!
