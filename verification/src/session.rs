//! Sessions and the store that keeps them: a session is a loaded model with
//! the kind of backend that loaded it; the store hands out a handle for every
//! session it takes in, counting up from one, and never hands out a handle
//! twice.
use vstd::prelude::*;
use std::collections::HashMap;
use crate::detector::bytes_view;
use crate::engines::{
    bytes_refusal, file_refusal, is_load_failure, is_refusal, loads_bytes, loads_file, EngineType,
    InferenceEngine, Model,
};
use crate::error::InferenceError;
use crate::tensor::{specs_view, Tensor, TensorSpec, TensorSpecView};
use crate::text::{lookup_pair, pairs_map};

verus! {

/// `std::time::SystemTime`: a point in time of the system clock. Nothing is
/// known of its value.
#[verifier::external_type_specification]
#[verifier::external_body]
pub struct ExSystemTime(std::time::SystemTime);

/// `std::time::SystemTime::now`: the time of the system clock at the call.
/// Nothing is promised of it.
pub assume_specification[ std::time::SystemTime::now ]() -> std::time::SystemTime;

/// `Clone::clone` of `std::time::SystemTime`, a type that is copied bit by
/// bit: the clone is the same point in time.
pub assume_specification[ <std::time::SystemTime as Clone>::clone ](
    time: &std::time::SystemTime,
) -> (r: std::time::SystemTime)
    ensures
        r == *time,
;

/// What is known about a session: where its model came from, its name and
/// version, when the session was made, and annotations by key.
#[derive(Debug, Clone)]
pub struct SessionMetadata {
    pub model_path: Option<String>,
    pub model_name: Option<String>,
    pub model_version: Option<String>,
    pub created_at: std::time::SystemTime,
    pub custom_metadata: Vec<(String, String)>,
}

impl SessionMetadata {
    /// The annotations, by key.
    pub open spec fn annotations(&self) -> Map<Seq<char>, Seq<char>> {
        pairs_map(self.custom_metadata@)
    }

    /// Metadata that says nothing but the time at which it was made.
    pub fn new() -> (r: Self)
        ensures
            r.model_path is None,
            r.model_name is None,
            r.model_version is None,
            r.annotations() == Map::<Seq<char>, Seq<char>>::empty(),
    {
        SessionMetadata {
            model_path: None,
            model_name: None,
            model_version: None,
            created_at: std::time::SystemTime::now(),
            custom_metadata: Vec::new(),
        }
    }

    /// The same metadata with the path of the model.
    pub fn with_model_path(self, path: &str) -> (r: Self)
        ensures
            r.model_path matches Some(p) && p@ == path@,
            r.model_name == self.model_name,
            r.model_version == self.model_version,
            r.created_at == self.created_at,
            r.custom_metadata == self.custom_metadata,
    {
        let mut metadata = self;
        metadata.model_path = Some(path.to_owned());
        metadata
    }

    /// The same metadata with the name of the model.
    pub fn with_model_name(self, name: &str) -> (r: Self)
        ensures
            r.model_name matches Some(n) && n@ == name@,
            r.model_path == self.model_path,
            r.model_version == self.model_version,
            r.created_at == self.created_at,
            r.custom_metadata == self.custom_metadata,
    {
        let mut metadata = self;
        metadata.model_name = Some(name.to_owned());
        metadata
    }

    /// The same metadata with the version of the model.
    pub fn with_model_version(self, version: &str) -> (r: Self)
        ensures
            r.model_version matches Some(v) && v@ == version@,
            r.model_path == self.model_path,
            r.model_name == self.model_name,
            r.created_at == self.created_at,
            r.custom_metadata == self.custom_metadata,
    {
        let mut metadata = self;
        metadata.model_version = Some(version.to_owned());
        metadata
    }

    /// The same metadata with one more annotation, which takes the place of
    /// an earlier one with the same key.
    pub fn with_custom(self, key: &str, value: &str) -> (r: Self)
        ensures
            r.annotations() == self.annotations().insert(key@, value@),
            r.model_path == self.model_path,
            r.model_name == self.model_name,
            r.model_version == self.model_version,
            r.created_at == self.created_at,
    {
        let mut metadata = self;
        let ghost before = metadata.custom_metadata@;
        metadata.custom_metadata.push((key.to_owned(), value.to_owned()));
        assert(metadata.custom_metadata@.drop_last() =~= before);
        metadata
    }

    /// The annotation with the given key, if there is one.
    pub fn custom(&self, key: &str) -> (r: Option<&str>)
        ensures
            match r {
                Some(value) => self.annotations().contains_key(key@) && self.annotations()[key@]
                    == value@,
                None => !self.annotations().contains_key(key@),
            },
    {
        lookup_pair(self.custom_metadata.as_slice(), key)
    }
}

impl Default for SessionMetadata {
    fn default() -> (r: Self)
        ensures
            r.model_path is None,
            r.model_name is None,
            r.model_version is None,
            r.annotations() == Map::<Seq<char>, Seq<char>>::empty(),
    {
        SessionMetadata::new()
    }
}

/// A value in a wrapper. A boxed model travels in it from the backend that
/// loaded it into a session, so that what is said of the one holds of the
/// other.
pub struct Owned<T> {
    pub value: T,
}

/// A loaded model with the kind of backend that loaded it and, possibly,
/// metadata. The session owns its model.
pub struct Session {
    model: Owned<Box<dyn Model>>,
    engine_type: EngineType,
    metadata: Option<SessionMetadata>,
}

impl Session {
    /// The kind of backend that loaded the model.
    pub closed spec fn kind(&self) -> EngineType {
        self.engine_type
    }

    /// The metadata of the session, if it has any.
    pub closed spec fn described_by(&self) -> Option<SessionMetadata> {
        self.metadata
    }

    /// The model that the session owns.
    pub closed spec fn owned(&self) -> Owned<Box<dyn Model>> {
        self.model
    }

    /// Whether `specs` says what the session's model lists as its inputs.
    pub open spec fn lists_inputs(&self, specs: Seq<TensorSpecView>) -> bool {
        exists|listed: Seq<TensorSpec>| #[trigger]
            self.owned().value.lists_inputs(listed) && specs_view(listed) == specs
    }

    /// Whether `specs` says what the session's model lists as its outputs.
    pub open spec fn lists_outputs(&self, specs: Seq<TensorSpecView>) -> bool {
        exists|listed: Seq<TensorSpec>| #[trigger]
            self.owned().value.lists_outputs(listed) && specs_view(listed) == specs
    }

    /// A session that owns `model`, without metadata.
    pub fn new(model: Box<dyn Model>, engine_type: EngineType) -> (r: Self)
        ensures
            r.kind() == engine_type,
            r.described_by() is None,
            r.owned().value == model,
    {
        let owned = Owned { value: model };
        Session::holding(owned, engine_type)
    }

    /// A session that owns the model in `owned`, without metadata.
    pub fn holding(owned: Owned<Box<dyn Model>>, engine_type: EngineType) -> (r: Self)
        ensures
            r.kind() == engine_type,
            r.described_by() is None,
            r.owned() == owned,
    {
        Session { model: owned, engine_type, metadata: None }
    }

    /// The same session with metadata.
    pub fn with_metadata(self, metadata: SessionMetadata) -> (r: Self)
        ensures
            r.kind() == self.kind(),
            r.described_by() == Some(metadata),
            r.owned() == self.owned(),
    {
        let mut session = self;
        session.metadata = Some(metadata);
        session
    }

    /// Runs the model on one input. What comes back is an answer of the
    /// session's model to that input.
    pub fn predict(&self, input: &Tensor) -> (r: Result<Tensor, InferenceError>)
        ensures
            self.owned().value.answers(*input, r),
    {
        self.model.value.predict(input)
    }

    /// Runs the model on several inputs. What comes back is an answer of the
    /// session's model to that batch.
    pub fn predict_batch(&self, inputs: &[Tensor]) -> (r: Result<Vec<Tensor>, InferenceError>)
        ensures
            self.owned().value.answers_batch(inputs@, r),
    {
        self.model.value.predict_batch(inputs)
    }

    /// The specifications of the inputs, as the session's model lists them.
    pub fn input_specs(&self) -> (r: &[TensorSpec])
        ensures
            self.owned().value.lists_inputs(r@),
    {
        self.model.value.input_specs()
    }

    /// The specifications of the outputs, as the session's model lists them.
    pub fn output_specs(&self) -> (r: &[TensorSpec])
        ensures
            self.owned().value.lists_outputs(r@),
    {
        self.model.value.output_specs()
    }

    /// The kind of backend that loaded the model.
    pub fn engine_type(&self) -> (r: EngineType)
        ensures
            r == self.kind(),
    {
        self.engine_type
    }

    /// The metadata of the session, if it has any.
    pub fn metadata(&self) -> (r: Option<&SessionMetadata>)
        ensures
            match r {
                Some(m) => self.described_by() == Some(*m),
                None => self.described_by() is None,
            },
    {
        self.metadata.as_ref()
    }

    /// The model of the session.
    pub fn model(&self) -> (r: &Box<dyn Model>)
        ensures
            *r == self.owned().value,
    {
        &self.model.value
    }
}

/// Builds a session: with a backend, then from a path or from bytes.
pub struct SessionBuilder {
    engine: Option<Box<dyn InferenceEngine>>,
    metadata: SessionMetadata,
}

impl SessionBuilder {
    /// Whether the builder has a backend.
    pub closed spec fn has_engine(&self) -> bool {
        self.engine is Some
    }

    /// The kind of the builder's backend.
    pub closed spec fn engine_kind(&self) -> EngineType
        recommends
            self.has_engine(),
    {
        match self.engine {
            Some(engine) => engine.kind(),
            None => EngineType::Candle,
        }
    }

    /// The metadata that the session will get.
    pub closed spec fn described_by(&self) -> SessionMetadata {
        self.metadata
    }

    /// A builder without a backend.
    pub fn new() -> (r: Self)
        ensures
            !r.has_engine(),
    {
        SessionBuilder { engine: None, metadata: SessionMetadata::new() }
    }

    /// The same builder with a backend.
    pub fn with_engine(self, engine: Box<dyn InferenceEngine>) -> (r: Self)
        ensures
            r.has_engine(),
            r.engine_kind() == engine.kind(),
            r.described_by() == self.described_by(),
    {
        let held = Some(engine);
        SessionBuilder { engine: held, metadata: self.metadata }
    }

    /// The same builder with metadata for the session.
    pub fn with_metadata(self, metadata: SessionMetadata) -> (r: Self)
        ensures
            r.has_engine() == self.has_engine(),
            r.has_engine() ==> r.engine_kind() == self.engine_kind(),
            r.described_by() == metadata,
    {
        let mut builder = self;
        builder.metadata = metadata;
        builder
    }

    /// Loads the model in the file at `path` and makes a session of it;
    /// `contents` holds the bytes of the file, or `None` if it could not be
    /// read. Fails with `Configuration` where the builder has no backend, and
    /// else as backends of the kind of the builder's do; it succeeds exactly
    /// where such a backend makes a model of the file. The session is of the
    /// kind of the backend, and its metadata holds the path.
    pub fn load_from_path(self, path: &str, contents: Option<&[u8]>) -> (r: Result<
        Session,
        InferenceError,
    >)
        ensures
            !self.has_engine() ==> (r matches Err(e) && e is Configuration),
            self.has_engine() ==> match file_refusal(
                self.engine_kind(),
                path@,
                bytes_view(contents),
            ) {
                Some(refusal) => r matches Err(e) && is_refusal(e, refusal),
                None => r matches Err(e) ==> is_load_failure(e),
            },
            r is Ok <==> self.has_engine() && loads_file(
                self.engine_kind(),
                path@,
                bytes_view(contents),
            ),
            r matches Ok(session) ==> self.has_engine() && session.kind() == self.engine_kind() && (
            session.described_by() matches Some(m) && (m.model_path matches Some(p) && p@
                == path@)),
    {
        let engine = match self.engine {
            Some(engine) => engine,
            None => {
                return Err(
                    InferenceError::configuration("No engine specified for session builder"),
                );
            },
        };
        let model = match engine.load_model(path, contents) {
            Ok(model) => model,
            Err(e) => {
                return Err(e);
            },
        };
        let engine_type = engine.engine_type();
        let metadata = self.metadata.with_model_path(path);
        Ok(Session::new(model, engine_type).with_metadata(metadata))
    }

    /// Loads a model from its bytes and makes a session of it. Fails with
    /// `Configuration` where the builder has no backend, and else as backends
    /// of the kind of the builder's do; it succeeds exactly where such a
    /// backend makes a model of the bytes. The session is of the kind of the
    /// backend, and gets the metadata of the builder.
    pub fn load_from_bytes(self, bytes: &[u8]) -> (r: Result<Session, InferenceError>)
        ensures
            !self.has_engine() ==> (r matches Err(e) && e is Configuration),
            self.has_engine() ==> match bytes_refusal(self.engine_kind(), bytes@) {
                Some(refusal) => r matches Err(e) && is_refusal(e, refusal),
                None => r matches Err(e) ==> is_load_failure(e),
            },
            r is Ok <==> self.has_engine() && loads_bytes(self.engine_kind(), bytes@),
            r matches Ok(session) ==> self.has_engine() && session.kind() == self.engine_kind()
                && session.described_by() == Some(self.described_by()),
    {
        let engine = match self.engine {
            Some(engine) => engine,
            None => {
                return Err(
                    InferenceError::configuration("No engine specified for session builder"),
                );
            },
        };
        let model = match engine.load_from_bytes(bytes) {
            Ok(model) => model,
            Err(e) => {
                return Err(e);
            },
        };
        let engine_type = engine.engine_type();
        Ok(Session::new(model, engine_type).with_metadata(self.metadata))
    }
}

impl Default for SessionBuilder {
    fn default() -> (r: Self)
        ensures
            !r.has_engine(),
    {
        SessionBuilder::new()
    }
}

/// The handle that no session ever gets.
pub const INVALID_HANDLE: u64 = 0;

/// What a store is: the sessions it keeps, by handle, and the handle that
/// the next session will get.
pub struct StoreView {
    pub sessions: Map<u64, Session>,
    pub next_handle: u64,
}

impl StoreView {
    /// The store that keeps nothing and has handed out no handle.
    pub open spec fn empty() -> StoreView {
        StoreView { sessions: Map::empty(), next_handle: 1 }
    }

    /// Whether every session of the store is kept under a handle that was
    /// handed out: one that is above the invalid handle and below the next
    /// one.
    pub open spec fn wf(self) -> bool {
        &&& self.next_handle >= 1
        &&& forall|h: u64| #[trigger]
            self.sessions.contains_key(h) ==> INVALID_HANDLE < h < self.next_handle
    }

    /// Whether the store can take in one more session.
    pub open spec fn has_capacity(self) -> bool {
        self.next_handle < u64::MAX
    }

    /// The store after it took in a session.
    pub open spec fn insert(self, session: Session) -> StoreView {
        StoreView {
            sessions: self.sessions.insert(self.next_handle, session),
            next_handle: (self.next_handle + 1) as u64,
        }
    }

    /// The store after the session with the given handle was disposed of.
    pub open spec fn remove(self, handle: u64) -> StoreView {
        StoreView { sessions: self.sessions.remove(handle), next_handle: self.next_handle }
    }
}

/// The store of the live sessions.
pub struct SessionStore {
    next_handle: u64,
    sessions: HashMap<u64, Session>,
}

impl View for SessionStore {
    type V = StoreView;

    closed spec fn view(&self) -> StoreView {
        StoreView { sessions: self.sessions@, next_handle: self.next_handle }
    }
}

impl SessionStore {
    #[verifier::type_invariant]
    spec fn inv(&self) -> bool {
        &&& self.next_handle >= 1
        &&& forall|h: u64| #[trigger]
            self.sessions@.contains_key(h) ==> INVALID_HANDLE < h < self.next_handle
    }

    /// A store that keeps nothing.
    pub fn new() -> (r: Self)
        ensures
            r@ == StoreView::empty(),
    {
        SessionStore { next_handle: 1, sessions: HashMap::new() }
    }

    /// Tests whether the store can take in one more session: whether a
    /// handle is left.
    pub fn has_capacity(&self) -> (r: bool)
        ensures
            r == self@.has_capacity(),
            self@.wf(),
    {
        proof {
            use_type_invariant(self);
        }
        self.next_handle < u64::MAX
    }

    /// The handle that the next session will get.
    pub fn next_handle(&self) -> (r: u64)
        ensures
            r == self@.next_handle,
            self@.wf(),
    {
        proof {
            use_type_invariant(self);
        }
        self.next_handle
    }

    /// The number of sessions that the store keeps.
    pub fn len(&self) -> (r: usize)
        ensures
            r == self@.sessions.len(),
    {
        self.sessions.len()
    }

    /// Takes in a session and hands out its handle: the next one, which is
    /// above the invalid handle and above every handle handed out before.
    pub fn insert(&mut self, session: Session) -> (handle: u64)
        requires
            old(self)@.has_capacity(),
        ensures
            handle == old(self)@.next_handle,
            handle > INVALID_HANDLE,
            !old(self)@.sessions.contains_key(handle),
            final(self)@ == old(self)@.insert(session),
            final(self)@.wf(),
    {
        proof {
            use_type_invariant(&*self);
        }
        let handle = self.next_handle;
        let mut sessions: HashMap<u64, Session> = HashMap::new();
        std::mem::swap(&mut self.sessions, &mut sessions);
        self.next_handle = handle + 1;
        sessions.insert(handle, session);
        std::mem::swap(&mut self.sessions, &mut sessions);
        handle
    }

    /// The session with the given handle, if the store keeps one.
    pub fn get(&self, handle: u64) -> (r: Option<&Session>)
        ensures
            match r {
                Some(session) => self@.sessions.contains_key(handle) && self@.sessions[handle]
                    == *session,
                None => !self@.sessions.contains_key(handle),
            },
    {
        self.sessions.get(&handle)
    }

    /// Tests whether the store keeps a session with the given handle.
    pub fn contains(&self, handle: u64) -> (r: bool)
        ensures
            r == self@.sessions.contains_key(handle),
    {
        self.sessions.contains_key(&handle)
    }

    /// Disposes of the session with the given handle. Where the store keeps
    /// no such session, nothing changes: to dispose twice is no error.
    pub fn remove(&mut self, handle: u64)
        ensures
            final(self)@ == old(self)@.remove(handle),
            final(self)@.wf(),
    {
        proof {
            use_type_invariant(&*self);
        }
        let mut sessions: HashMap<u64, Session> = HashMap::new();
        std::mem::swap(&mut self.sessions, &mut sessions);
        sessions.remove(&handle);
        std::mem::swap(&mut self.sessions, &mut sessions);
    }

    /// Runs the model of the session with the given handle on one input.
    /// Fails with `ModelLoad` where the store keeps no such session; else the
    /// answer is one of that session's model to the input.
    pub fn predict(&self, handle: u64, input: &Tensor) -> (r: Result<Tensor, InferenceError>)
        ensures
            !self@.sessions.contains_key(handle) ==> (r matches Err(e) && e is ModelLoad),
            self@.sessions.contains_key(handle) ==> self@.sessions[handle].owned().value.answers(
                *input,
                r,
            ),
    {
        match self.sessions.get(&handle) {
            Some(session) => session.predict(input),
            None => Err(InferenceError::model_load("Invalid session handle")),
        }
    }

    /// Runs the model of the session with the given handle on several
    /// inputs. Fails with `ModelLoad` where the store keeps no such session;
    /// else the answer is one of that session's model to the batch.
    pub fn predict_batch(&self, handle: u64, inputs: &[Tensor]) -> (r: Result<
        Vec<Tensor>,
        InferenceError,
    >)
        ensures
            !self@.sessions.contains_key(handle) ==> (r matches Err(e) && e is ModelLoad),
            self@.sessions.contains_key(handle) ==> self@.sessions[
                handle
            ].owned().value.answers_batch(inputs@, r),
    {
        match self.sessions.get(&handle) {
            Some(session) => session.predict_batch(inputs),
            None => Err(InferenceError::model_load("Invalid session handle")),
        }
    }
}

impl Default for SessionStore {
    fn default() -> (r: Self)
        ensures
            r@ == StoreView::empty(),
    {
        SessionStore::new()
    }
}

/// Two sessions that a store takes in one after the other get handles that
/// are above the invalid handle, and the second handle is above the first;
/// this holds also where the first session is disposed of in between.
pub proof fn lemma_handles_increase(store: StoreView, first: Session, second: Session)
    requires
        store.wf(),
        store.has_capacity(),
        store.insert(first).has_capacity(),
    ensures
        INVALID_HANDLE < store.next_handle < store.insert(first).next_handle,
        store.insert(first).remove(store.next_handle).next_handle == store.insert(
            first,
        ).next_handle,
        store.insert(first).wf(),
        store.insert(first).insert(second).wf(),
        store.insert(first).remove(store.next_handle).insert(second).wf(),
{
}

/// To dispose of a session that the store does not keep, because it was
/// disposed of before or because its handle was never handed out, changes
/// nothing; and once a session is disposed of, the store does not keep it.
pub proof fn lemma_dispose_is_idempotent(store: StoreView, handle: u64)
    requires
        store.wf(),
    ensures
        store.remove(handle).wf(),
        !store.remove(handle).sessions.contains_key(handle),
        store.remove(handle).remove(handle) == store.remove(handle),
        !store.sessions.contains_key(handle) ==> store.remove(handle) == store,
{
    assert(store.remove(handle).remove(handle).sessions =~= store.remove(handle).sessions);
    if !store.sessions.contains_key(handle) {
        assert(store.remove(handle).sessions =~= store.sessions);
    }
}

} // verus!
