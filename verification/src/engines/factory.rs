//! The choice of a backend: for a format, for a kind, or for a configuration
//! that names a preferred kind and says whether another may take its place.
use vstd::prelude::*;
use crate::detector::{bytes_view, content_format, ModelDetector};
use crate::engines::candle::CandleEngine;
use crate::engines::linfa::LinfaEngine;
use crate::engines::{preferred_engine, EngineType, InferenceEngine, ModelFormat};
use crate::error::InferenceError;
use crate::text::{ascii_lowercase, extension, extension_of, is_text, lowercase_ascii};

verus! {

/// Whether a kind of backend is part of this library. The backend for ONNX
/// graphs is not.
pub open spec fn compiled_in(kind: EngineType) -> bool {
    kind != EngineType::Ort
}

/// The kinds of backend that are part of this library, in their order of
/// declaration.
pub open spec fn available_kinds() -> Seq<EngineType> {
    seq![EngineType::Candle, EngineType::Linfa]
}

/// The backend that takes the place of one that is not part of this library:
/// the first that is.
pub open spec fn fallback_engine() -> EngineType {
    available_kinds()[0]
}

/// The best backend for a format: the one that the format prefers if it is
/// part of this library, else the first that is.
pub open spec fn best_engine(format: ModelFormat) -> EngineType {
    if compiled_in(preferred_engine(format)) {
        preferred_engine(format)
    } else {
        fallback_engine()
    }
}

/// The format that an extension stands for, if it is one of `safetensors`,
/// `pt`, `pth`, `linfa` and `lfa`, in any case of its letters.
pub open spec fn extension_format(ext: Seq<char>) -> Option<ModelFormat> {
    let lowered = ascii_lowercase(ext);
    if lowered == "safetensors"@ {
        Some(ModelFormat::SafeTensors)
    } else if lowered == "pt"@ || lowered == "pth"@ {
        Some(ModelFormat::PyTorch)
    } else if lowered == "linfa"@ || lowered == "lfa"@ {
        Some(ModelFormat::Linfa)
    } else {
        None
    }
}

/// Why the format of the file at a path cannot be told.
#[derive(Debug, Clone, Copy, PartialEq, Eq, Structural)]
pub enum FormatFailure {
    /// The path has no extension.
    NoExtension,
    /// The extension is not a known one, and the file could not be read.
    Unreadable,
    /// The extension is not a known one, and the file is empty.
    Empty,
}

/// The format of the file at a path: the one that its extension stands for;
/// else the one of its content.
pub open spec fn file_format(path: Seq<char>, contents: Option<Seq<u8>>) -> Result<
    ModelFormat,
    FormatFailure,
> {
    match extension(path) {
        None => Err(FormatFailure::NoExtension),
        Some(ext) => match extension_format(ext) {
            Some(format) => Ok(format),
            None => match contents {
                None => Err(FormatFailure::Unreadable),
                Some(bytes) => if bytes.len() == 0 {
                    Err(FormatFailure::Empty)
                } else {
                    Ok(content_format(bytes))
                },
            },
        },
    }
}

/// Whether an error is the one for a failure to tell a format.
pub open spec fn reports_format_failure(e: InferenceError, failure: FormatFailure) -> bool {
    match failure {
        FormatFailure::NoExtension => e is UnsupportedFormat,
        FormatFailure::Unreadable => e is ModelLoad,
        FormatFailure::Empty => e is UnsupportedFormat,
    }
}

/// The choice of a backend.
pub struct EngineFactory;

impl EngineFactory {
    /// The backend for the file at `path`; `contents` holds the bytes of the
    /// file, or `None` if it could not be read. Fails as
    /// [`EngineFactory::detect_format_from_path`] does, and with
    /// `Configuration` where the backend that the format prefers is not part
    /// of this library.
    pub fn from_file(path: &str, contents: Option<&[u8]>) -> (r: Result<
        Box<dyn InferenceEngine>,
        InferenceError,
    >)
        ensures
            match r {
                Ok(engine) => file_format(path@, bytes_view(contents)) matches Ok(format)
                    && compiled_in(preferred_engine(format)) && engine.kind() == preferred_engine(
                    format,
                ),
                Err(e) => match file_format(path@, bytes_view(contents)) {
                    Ok(format) => !compiled_in(preferred_engine(format)) && e is Configuration,
                    Err(failure) => reports_format_failure(e, failure),
                },
            },
    {
        match Self::detect_format_from_path(path, contents) {
            Ok(format) => Self::create_engine(format),
            Err(e) => Err(e),
        }
    }

    /// The backend for a model given by its bytes. Fails with
    /// `UnsupportedFormat` where there are no bytes, and with `Configuration`
    /// where the backend that the format prefers is not part of this library.
    pub fn from_bytes(bytes: &[u8]) -> (r: Result<Box<dyn InferenceEngine>, InferenceError>)
        ensures
            match r {
                Ok(engine) => bytes@.len() > 0 && compiled_in(
                    preferred_engine(content_format(bytes@)),
                ) && engine.kind() == preferred_engine(content_format(bytes@)),
                Err(e) => if bytes@.len() == 0 {
                    e is UnsupportedFormat
                } else {
                    !compiled_in(preferred_engine(content_format(bytes@))) && e is Configuration
                },
            },
    {
        match Self::detect_format_from_bytes(bytes) {
            Ok(format) => Self::create_engine(format),
            Err(e) => Err(e),
        }
    }

    /// The backend that a format prefers. Fails with `Configuration` exactly
    /// when that backend is not part of this library.
    pub fn create_engine(format: ModelFormat) -> (r: Result<
        Box<dyn InferenceEngine>,
        InferenceError,
    >)
        ensures
            match r {
                Ok(engine) => compiled_in(preferred_engine(format)) && engine.kind()
                    == preferred_engine(format),
                Err(e) => !compiled_in(preferred_engine(format)) && e is Configuration,
            },
    {
        Self::create_engine_by_type(Self::preferred_engine_for_format(format))
    }

    /// The backend of a kind. Fails with `Configuration` exactly when that
    /// backend is not part of this library.
    pub fn create_engine_by_type(engine_type: EngineType) -> (r: Result<
        Box<dyn InferenceEngine>,
        InferenceError,
    >)
        ensures
            match r {
                Ok(engine) => compiled_in(engine_type) && engine.kind() == engine_type,
                Err(e) => !compiled_in(engine_type) && e is Configuration,
            },
    {
        match engine_type {
            EngineType::Candle => {
                let engine = CandleEngine::default();
                Ok(Box::new(engine))
            },
            EngineType::Ort => Err(
                InferenceError::configuration(
                    "ORT engine not available - compile with 'ort' feature",
                ),
            ),
            EngineType::Linfa => {
                let engine = LinfaEngine::default();
                Ok(Box::new(engine))
            },
        }
    }

    /// The format of the file at `path`; `contents` holds the bytes of the
    /// file, or `None` if it could not be read, and is looked at only where
    /// the extension of the path is not a known one. Fails with
    /// `UnsupportedFormat` where the path has no extension, with `ModelLoad`
    /// where the file is needed and could not be read, and with
    /// `UnsupportedFormat` where the file is needed and empty.
    pub fn detect_format_from_path(path: &str, contents: Option<&[u8]>) -> (r: Result<
        ModelFormat,
        InferenceError,
    >)
        ensures
            match r {
                Ok(format) => file_format(path@, bytes_view(contents)) == Ok::<
                    ModelFormat,
                    FormatFailure,
                >(format),
                Err(e) => file_format(path@, bytes_view(contents)) matches Err(failure)
                    && reports_format_failure(e, failure),
            },
    {
        let ext = match extension_of(path) {
            Some(ext) => ext,
            None => {
                return Err(InferenceError::unsupported_format("No file extension found"));
            },
        };
        let lowered = lowercase_ascii(ext.as_slice());
        if is_text(lowered.as_slice(), "safetensors") {
            Ok(ModelFormat::SafeTensors)
        } else if is_text(lowered.as_slice(), "pt") || is_text(lowered.as_slice(), "pth") {
            Ok(ModelFormat::PyTorch)
        } else if is_text(lowered.as_slice(), "linfa") || is_text(lowered.as_slice(), "lfa") {
            Ok(ModelFormat::Linfa)
        } else {
            match contents {
                Some(bytes) => Self::detect_format_from_bytes(bytes),
                None => Err(InferenceError::model_load("Failed to read file")),
            }
        }
    }

    /// The format of a model given by its bytes. Fails with
    /// `UnsupportedFormat` exactly when there are no bytes; content that
    /// shows no format is taken for a flat file of weights.
    pub fn detect_format_from_bytes(bytes: &[u8]) -> (r: Result<ModelFormat, InferenceError>)
        ensures
            match r {
                Ok(format) => bytes@.len() > 0 && format == content_format(bytes@),
                Err(e) => bytes@.len() == 0 && e is UnsupportedFormat,
            },
    {
        ModelDetector::detect_format_from_bytes(bytes)
    }

    /// The kinds of backend that are part of this library, in their order of
    /// declaration.
    pub fn available_engines() -> (r: Vec<EngineType>)
        ensures
            r@ == available_kinds(),
            forall|kind: EngineType| r@.contains(kind) <==> compiled_in(kind),
    {
        let mut engines: Vec<EngineType> = Vec::new();
        engines.push(EngineType::Candle);
        engines.push(EngineType::Linfa);
        assert(engines@ =~= available_kinds());
        assert forall|kind: EngineType| engines@.contains(kind) <==> compiled_in(kind) by {
            if compiled_in(kind) {
                if kind == EngineType::Candle {
                    assert(engines@[0] == kind);
                } else {
                    assert(engines@[1] == kind);
                }
            }
        }
        engines
    }

    /// Tests whether a kind of backend is part of this library.
    pub fn is_engine_available(engine_type: EngineType) -> (r: bool)
        ensures
            r == compiled_in(engine_type),
    {
        match engine_type {
            EngineType::Candle => true,
            EngineType::Ort => false,
            EngineType::Linfa => true,
        }
    }

    /// The one kind of backend that a format prefers.
    pub fn preferred_engine_for_format(format: ModelFormat) -> (r: EngineType)
        ensures
            r == preferred_engine(format),
    {
        match format {
            ModelFormat::SafeTensors => EngineType::Candle,
            ModelFormat::PyTorch => EngineType::Candle,
            ModelFormat::Onnx => EngineType::Ort,
            ModelFormat::Linfa => EngineType::Linfa,
        }
    }

    /// The best backend for a format: the one that the format prefers if it
    /// is part of this library, else the first that is. It never fails, since
    /// some backend always is.
    pub fn create_best_engine_for_format(format: ModelFormat) -> (r: Result<
        Box<dyn InferenceEngine>,
        InferenceError,
    >)
        ensures
            r matches Ok(engine) && engine.kind() == best_engine(format),
    {
        let preferred = Self::preferred_engine_for_format(format);
        if Self::is_engine_available(preferred) {
            return Self::create_engine_by_type(preferred);
        }
        let available = Self::available_engines();
        if available.len() == 0 {
            return Err(InferenceError::configuration("No inference engines available"));
        }
        Self::create_engine_by_type(available[0])
    }
}

/// How to choose a backend: the kind that the caller prefers, if any;
/// whether another backend may take the place of one that is not part of this
/// library; and whether a GPU is to be used where there is one.
#[derive(Debug, Clone)]
pub struct EngineConfig {
    pub preferred_engine: Option<EngineType>,
    pub allow_fallback: bool,
    pub gpu_acceleration: bool,
}

/// The backend that a configuration chooses for a format, if it chooses one.
/// The kind that comes first is the one the caller prefers, or else the one
/// the format prefers. Where it is part of this library, it is chosen. Where
/// it is not, nothing is chosen unless another may take its place, and then
/// the best backend for the format is.
pub open spec fn chosen_engine(
    preferred: Option<EngineType>,
    allow_fallback: bool,
    format: ModelFormat,
) -> Option<EngineType> {
    let first = match preferred {
        Some(kind) => kind,
        None => preferred_engine(format),
    };
    if compiled_in(first) {
        Some(first)
    } else if allow_fallback {
        Some(best_engine(format))
    } else {
        None
    }
}

impl EngineConfig {
    /// The default configuration: no preferred kind, another backend may take
    /// the place of a missing one, and a GPU is used where there is one.
    pub fn new() -> (r: Self)
        ensures
            r == (EngineConfig {
                preferred_engine: None,
                allow_fallback: true,
                gpu_acceleration: true,
            }),
    {
        EngineConfig { preferred_engine: None, allow_fallback: true, gpu_acceleration: true }
    }

    /// The same configuration with a preferred kind.
    pub fn with_preferred_engine(self, engine_type: EngineType) -> (r: Self)
        ensures
            r == (EngineConfig { preferred_engine: Some(engine_type), ..self }),
    {
        let mut config = self;
        config.preferred_engine = Some(engine_type);
        config
    }

    /// The same configuration, saying whether another backend may take the
    /// place of a missing one.
    pub fn with_fallback(self, allow_fallback: bool) -> (r: Self)
        ensures
            r == (EngineConfig { allow_fallback, ..self }),
    {
        let mut config = self;
        config.allow_fallback = allow_fallback;
        config
    }

    /// The same configuration, saying whether a GPU is to be used.
    pub fn with_gpu_acceleration(self, gpu_acceleration: bool) -> (r: Self)
        ensures
            r == (EngineConfig { gpu_acceleration, ..self }),
    {
        let mut config = self;
        config.gpu_acceleration = gpu_acceleration;
        config
    }

    /// The backend that this configuration chooses for a format. Fails with
    /// `Configuration` exactly when it chooses none. The backends of this
    /// library compute on the CPU, whatever the configuration says of a GPU.
    pub fn create_engine(&self, format: ModelFormat) -> (r: Result<
        Box<dyn InferenceEngine>,
        InferenceError,
    >)
        ensures
            match r {
                Ok(engine) => chosen_engine(self.preferred_engine, self.allow_fallback, format)
                    == Some(engine.kind()),
                Err(e) => chosen_engine(self.preferred_engine, self.allow_fallback, format)
                    is None && e is Configuration,
            },
    {
        let first = match self.preferred_engine {
            Some(kind) => kind,
            None => EngineFactory::preferred_engine_for_format(format),
        };
        if EngineFactory::is_engine_available(first) {
            EngineFactory::create_engine_by_type(first)
        } else if self.allow_fallback {
            EngineFactory::create_best_engine_for_format(format)
        } else {
            Err(
                InferenceError::configuration(
                    "Preferred engine not available and fallback disabled",
                ),
            )
        }
    }
}

impl Default for EngineConfig {
    fn default() -> (r: Self)
        ensures
            r == (EngineConfig {
                preferred_engine: None,
                allow_fallback: true,
                gpu_acceleration: true,
            }),
    {
        EngineConfig { preferred_engine: None, allow_fallback: true, gpu_acceleration: true }
    }
}

} // verus!
