//! The backend for ONNX graphs. The ONNX runtime is not part of this
//! library: the backend can be described and configured, and every attempt
//! to load a model with it ends in an error.
use vstd::prelude::*;
use crate::engines::{EngineType, InferenceEngine, Model, ModelFormat};
use crate::error::InferenceError;
use crate::text::{ascii_lowercase, extension, extension_of, is_text, lowercase_ascii};

verus! {

/// Whether the extension of a path is `onnx`, in any case of its letters.
pub open spec fn is_onnx_path(path: Seq<char>) -> bool {
    extension(path) matches Some(ext) && ascii_lowercase(ext) == "onnx"@
}

/// Whether a buffer may hold an ONNX graph: it begins with the byte 8, or it
/// has more than four bytes.
pub open spec fn may_be_onnx(bytes: Seq<u8>) -> bool {
    (bytes.len() >= 1 && bytes[0] == 8) || bytes.len() > 4
}

/// The backend for ONNX graphs.
#[derive(Debug, Clone)]
pub struct OrtEngine {
    cpu_only: bool,
}

impl OrtEngine {
    /// Whether the backend is restricted to the CPU.
    pub closed spec fn restricted_to_cpu(&self) -> bool {
        self.cpu_only
    }

    /// A backend with the default settings. The ONNX runtime is not part of
    /// this library, so this always fails with `Configuration`.
    pub fn new() -> (r: Result<Self, InferenceError>)
        ensures
            r matches Err(e) && e is Configuration,
    {
        Err(InferenceError::configuration("ORT engine not available - compile with 'ort' feature"))
    }

    /// A backend that is restricted to the CPU.
    pub fn cpu() -> (r: Result<Self, InferenceError>)
        ensures
            r matches Ok(e) && e.restricted_to_cpu(),
    {
        Ok(OrtEngine { cpu_only: true })
    }

    /// Tests whether the backend is restricted to the CPU.
    pub fn is_cpu_only(&self) -> (r: bool)
        ensures
            r == self.restricted_to_cpu(),
    {
        self.cpu_only
    }

    /// Refuses to load the file at `path`: with `UnsupportedFormat` unless
    /// the extension of the path is `onnx`, else with `Configuration`.
    pub fn refuse_file(&self, path: &str) -> (e: InferenceError)
        ensures
            if is_onnx_path(path@) {
                e is Configuration
            } else {
                e is UnsupportedFormat
            },
    {
        match extension_of(path) {
            Some(ext) => {
                let lowered = lowercase_ascii(ext.as_slice());
                if is_text(lowered.as_slice(), "onnx") {
                    InferenceError::configuration(
                        "ORT engine not available - compile with 'ort' feature",
                    )
                } else {
                    InferenceError::unsupported_format("Unsupported file extension")
                }
            },
            None => InferenceError::unsupported_format("No file extension found"),
        }
    }

    /// Refuses to load a model from its bytes: with `UnsupportedFormat`
    /// unless the bytes may hold an ONNX graph, else with `Configuration`.
    pub fn refuse_bytes(&self, bytes: &[u8]) -> (e: InferenceError)
        ensures
            if may_be_onnx(bytes@) {
                e is Configuration
            } else {
                e is UnsupportedFormat
            },
    {
        if (bytes.len() >= 1 && bytes[0] == 8) || bytes.len() > 4 {
            InferenceError::configuration("ORT engine not available - compile with 'ort' feature")
        } else {
            InferenceError::unsupported_format("Cannot detect ONNX format from bytes")
        }
    }
}

impl Default for OrtEngine {
    fn default() -> (r: Self)
        ensures
            r.restricted_to_cpu(),
    {
        OrtEngine { cpu_only: true }
    }
}

impl InferenceEngine for OrtEngine {
    open spec fn kind(&self) -> EngineType {
        EngineType::Ort
    }

    fn load_model(&self, path: &str, contents: Option<&[u8]>) -> (r: Result<
        Box<dyn Model>,
        InferenceError,
    >) {
        Err(self.refuse_file(path))
    }

    fn load_from_bytes(&self, bytes: &[u8]) -> (r: Result<Box<dyn Model>, InferenceError>) {
        Err(self.refuse_bytes(bytes))
    }

    fn supports_format(&self, format: &ModelFormat) -> (r: bool) {
        match format {
            ModelFormat::Onnx => true,
            _ => false,
        }
    }

    fn engine_name(&self) -> (r: &'static str) {
        "OnnxRuntime"
    }

    fn engine_type(&self) -> (r: EngineType) {
        EngineType::Ort
    }
}

/// Builds a backend for ONNX graphs.
#[derive(Debug, Clone)]
pub struct OrtSessionBuilder {
    cpu_only: bool,
}

impl OrtSessionBuilder {
    /// Whether the backend to build is restricted to the CPU.
    pub closed spec fn restricted_to_cpu(&self) -> bool {
        self.cpu_only
    }

    /// A builder of a backend with the default settings.
    pub fn new() -> (r: Self)
        ensures
            !r.restricted_to_cpu(),
    {
        OrtSessionBuilder { cpu_only: false }
    }

    /// The same builder, of a backend that is restricted to the CPU.
    pub fn with_cpu_only(self) -> (r: Self)
        ensures
            r.restricted_to_cpu(),
    {
        OrtSessionBuilder { cpu_only: true }
    }

    /// Builds the backend: one restricted to the CPU where that was asked
    /// for; else it fails with `Configuration`, as [`OrtEngine::new`] does.
    pub fn build(self) -> (r: Result<OrtEngine, InferenceError>)
        ensures
            match r {
                Ok(e) => self.restricted_to_cpu() && e.restricted_to_cpu(),
                Err(e) => !self.restricted_to_cpu() && e is Configuration,
            },
    {
        if self.cpu_only {
            OrtEngine::cpu()
        } else {
            OrtEngine::new()
        }
    }
}

impl Default for OrtSessionBuilder {
    fn default() -> (r: Self)
        ensures
            !r.restricted_to_cpu(),
    {
        OrtSessionBuilder { cpu_only: false }
    }
}

} // verus!
