//! Detection of a model's format, and of the backend for it, from the
//! extension of its path or from the first bytes of its content.
use vstd::prelude::*;
use crate::engines::{preferred_engine, EngineType, ModelFormat};
use crate::error::InferenceError;
use crate::text::{ascii_lowercase, extension, extension_of, is_text, lowercase_ascii};

verus! {

/// The number that the first eight bytes of a buffer hold in little-endian
/// order.
pub open spec fn header_length(bytes: Seq<u8>) -> nat {
    (bytes[0] + 0x100 * bytes[1] + 0x1_0000 * bytes[2] + 0x100_0000 * bytes[3] + 0x1_0000_0000
        * bytes[4] + 0x100_0000_0000 * bytes[5] + 0x1_0000_0000_0000 * bytes[6]
        + 0x100_0000_0000_0000 * bytes[7]) as nat
}

/// Whether a buffer begins as a flat file of weights: its first eight bytes
/// hold the length of a header that fits into the buffer, and the byte after
/// them opens a JSON object.
pub open spec fn has_safetensors_header(bytes: Seq<u8>) -> bool {
    &&& bytes.len() > 8
    &&& 8 + header_length(bytes) <= bytes.len()
    &&& bytes[8] == 0x7B
}

/// Whether a buffer begins as a pickled or zipped file of weights: with the
/// pickle marker and a protocol version from 2 to 4, or with the letters PK.
pub open spec fn has_pytorch_marker(bytes: Seq<u8>) -> bool {
    &&& bytes.len() >= 2
    &&& {
        ||| bytes[0] == 0x80 && 2 <= bytes[1] <= 4
        ||| bytes[0] == 0x50 && bytes[1] == 0x4B
    }
}

/// Calls `bincode::deserialize` for a `serde_json::Value` and says whether
/// it succeeded. A `serde_json::Value` asks its reader what comes next, and
/// `bincode` answers that question with an error whatever the bytes: the
/// call succeeds on no buffer.
#[verifier::external_body]
pub(crate) fn native_blob_decodes(bytes: &[u8]) -> (r: bool)
    ensures
        !r,
{
    bincode::deserialize::<serde_json::Value>(bytes).is_ok()
}

/// The format of a model given by its content, which is not empty: the one
/// that its first bytes show, else a flat file of weights. No content is
/// taken for a model of the native backend, since the reader of such models
/// accepts none.
pub open spec fn content_format(bytes: Seq<u8>) -> ModelFormat {
    if has_safetensors_header(bytes) {
        ModelFormat::SafeTensors
    } else if has_pytorch_marker(bytes) {
        ModelFormat::PyTorch
    } else {
        ModelFormat::SafeTensors
    }
}

/// The format that an extension stands for, if it is one of `safetensors`,
/// `pt` and `pth`, in any case of its letters.
pub open spec fn weight_extension_format(ext: Seq<char>) -> Option<ModelFormat> {
    let lowered = ascii_lowercase(ext);
    if lowered == "safetensors"@ {
        Some(ModelFormat::SafeTensors)
    } else if lowered == "pt"@ || lowered == "pth"@ {
        Some(ModelFormat::PyTorch)
    } else {
        None
    }
}

/// The format that the extension of a path stands for, if the path has an
/// extension and it is a known one.
pub open spec fn path_format(path: Seq<char>) -> Option<ModelFormat> {
    match extension(path) {
        Some(ext) => weight_extension_format(ext),
        None => None,
    }
}

/// Why the format of the model at a path cannot be told.
#[derive(Debug, Clone, Copy, PartialEq, Eq, Structural)]
pub enum DetectionFailure {
    /// The extension is not a known one, and the file could not be read.
    Unreadable,
    /// The extension is not a known one, and the file is empty.
    Empty,
}

/// Whether an error is the one for a failure to tell a format.
pub open spec fn reports_detection_failure(e: InferenceError, failure: DetectionFailure) -> bool {
    match failure {
        DetectionFailure::Unreadable => e is FormatDetection,
        DetectionFailure::Empty => e is UnsupportedFormat,
    }
}

/// The format of the model at a path: the one that the extension stands for;
/// else the one of the content, if there is content and it is not empty.
pub open spec fn detected_format(path: Seq<char>, contents: Option<Seq<u8>>) -> Result<
    ModelFormat,
    DetectionFailure,
> {
    match path_format(path) {
        Some(format) => Ok(format),
        None => match contents {
            Some(bytes) => if bytes.len() == 0 {
                Err(DetectionFailure::Empty)
            } else {
                Ok(content_format(bytes))
            },
            None => Err(DetectionFailure::Unreadable),
        },
    }
}

/// The backend for the model at a path: the one that the detected format
/// prefers, and the first backend where no format is detected.
pub open spec fn detected_engine(path: Seq<char>, contents: Option<Seq<u8>>) -> EngineType {
    match detected_format(path, contents) {
        Ok(format) => preferred_engine(format),
        Err(_) => EngineType::Candle,
    }
}

/// The bytes of an optional buffer.
pub open spec fn bytes_view(contents: Option<&[u8]>) -> Option<Seq<u8>> {
    match contents {
        Some(bytes) => Some(bytes@),
        None => None,
    }
}

/// Every format that detection from a path or from content can find is one
/// that prefers the first backend.
pub proof fn lemma_detected_engine_is_candle(path: Seq<char>, contents: Option<Seq<u8>>)
    ensures
        detected_engine(path, contents) == EngineType::Candle,
{
}

/// Detection of formats and backends.
pub struct ModelDetector;

impl ModelDetector {
    /// The backend for the model at `path`. `contents` holds the bytes of the
    /// file, or `None` if it could not be read; they are looked at only where
    /// the extension of the path is not a known one.
    pub fn detect_engine_from_path(path: &str, contents: Option<&[u8]>) -> (r: EngineType)
        ensures
            r == detected_engine(path@, bytes_view(contents)),
    {
        match Self::format_from_extension(path) {
            Some(format) => Self::engine_for(format),
            None => match contents {
                Some(bytes) => match Self::detect_engine_from_bytes(bytes) {
                    Ok(engine) => engine,
                    Err(_) => EngineType::Candle,
                },
                None => EngineType::Candle,
            },
        }
    }

    /// The backend for a model given by its bytes: the one that the format
    /// of the content prefers. Fails with `UnsupportedFormat` exactly when
    /// there are no bytes.
    pub fn detect_engine_from_bytes(bytes: &[u8]) -> (r: Result<EngineType, InferenceError>)
        ensures
            match r {
                Ok(engine) => bytes@.len() > 0 && engine == preferred_engine(
                    content_format(bytes@),
                ),
                Err(e) => bytes@.len() == 0 && e is UnsupportedFormat,
            },
    {
        match Self::detect_format_from_bytes(bytes) {
            Ok(format) => Ok(Self::engine_for(format)),
            Err(e) => Err(e),
        }
    }

    /// The format of the model at `path`. `contents` holds the bytes of the
    /// file, or `None` if it could not be read; they are looked at only where
    /// the extension of the path is not a known one. Fails with
    /// `FormatDetection` where the file is needed and could not be read, and
    /// with `UnsupportedFormat` where it is needed and empty.
    pub fn detect_format_from_path(path: &str, contents: Option<&[u8]>) -> (r: Result<
        ModelFormat,
        InferenceError,
    >)
        ensures
            match r {
                Ok(format) => detected_format(path@, bytes_view(contents)) == Ok::<
                    ModelFormat,
                    DetectionFailure,
                >(format),
                Err(e) => detected_format(path@, bytes_view(contents)) matches Err(failure)
                    && reports_detection_failure(e, failure),
            },
    {
        match Self::format_from_extension(path) {
            Some(format) => Ok(format),
            None => match contents {
                Some(bytes) => Self::detect_format_from_bytes(bytes),
                None => Err(InferenceError::format_detection("Failed to read file")),
            },
        }
    }

    /// The format of a model given by its bytes. Fails with
    /// `UnsupportedFormat` exactly when there are no bytes; content that
    /// shows no format is taken for a flat file of weights.
    pub fn detect_format_from_bytes(bytes: &[u8]) -> (r: Result<ModelFormat, InferenceError>)
        ensures
            match r {
                Ok(format) => bytes@.len() > 0 && format == content_format(bytes@),
                Err(e) => bytes@.len() == 0 && e is UnsupportedFormat,
            },
    {
        if bytes.len() == 0 {
            return Err(InferenceError::unsupported_format("Empty file content"));
        }
        if Self::is_safetensors_format(bytes) {
            return Ok(ModelFormat::SafeTensors);
        }
        if Self::is_pytorch_format(bytes) {
            return Ok(ModelFormat::PyTorch);
        }
        if native_blob_decodes(bytes) {
            return Ok(ModelFormat::Linfa);
        }
        Ok(ModelFormat::SafeTensors)
    }

    /// Tests whether a buffer begins as a flat file of weights.
    pub fn is_safetensors_format(bytes: &[u8]) -> (r: bool)
        ensures
            r == has_safetensors_header(bytes@),
    {
        if bytes.len() <= 8 {
            return false;
        }
        let length: u128 = bytes[0] as u128 + 0x100 * (bytes[1] as u128) + 0x1_0000 * (
        bytes[2] as u128) + 0x100_0000 * (bytes[3] as u128) + 0x1_0000_0000 * (bytes[4] as u128)
            + 0x100_0000_0000 * (bytes[5] as u128) + 0x1_0000_0000_0000 * (bytes[6] as u128)
            + 0x100_0000_0000_0000 * (bytes[7] as u128);
        if 8 + length > bytes.len() as u128 {
            return false;
        }
        bytes[8] == 0x7B
    }

    /// Tests whether a buffer begins as a pickled or zipped file of weights.
    pub fn is_pytorch_format(bytes: &[u8]) -> (r: bool)
        ensures
            r == has_pytorch_marker(bytes@),
    {
        if bytes.len() < 2 {
            return false;
        }
        (bytes[0] == 0x80 && 2 <= bytes[1] && bytes[1] <= 4) || (bytes[0] == 0x50 && bytes[1]
            == 0x4B)
    }

    /// The format that the extension of a path stands for.
    pub fn format_from_extension(path: &str) -> (r: Option<ModelFormat>)
        ensures
            r == path_format(path@),
    {
        match extension_of(path) {
            Some(ext) => {
                let lowered = lowercase_ascii(ext.as_slice());
                if is_text(lowered.as_slice(), "safetensors") {
                    Some(ModelFormat::SafeTensors)
                } else if is_text(lowered.as_slice(), "pt") || is_text(lowered.as_slice(), "pth") {
                    Some(ModelFormat::PyTorch)
                } else {
                    None
                }
            },
            None => None,
        }
    }

    /// The backend that a format prefers.
    fn engine_for(format: ModelFormat) -> (r: EngineType)
        ensures
            r == preferred_engine(format),
    {
        match format {
            ModelFormat::SafeTensors => EngineType::Candle,
            ModelFormat::PyTorch => EngineType::Candle,
            ModelFormat::Onnx => EngineType::Ort,
            ModelFormat::Linfa => EngineType::Linfa,
        }
    }
}

/// The backend for the model at `path`; see
/// [`ModelDetector::detect_engine_from_path`].
pub fn detect_engine(path: &str, contents: Option<&[u8]>) -> (r: EngineType)
    ensures
        r == detected_engine(path@, bytes_view(contents)),
{
    ModelDetector::detect_engine_from_path(path, contents)
}

/// The format of the model at `path`; see
/// [`ModelDetector::detect_format_from_path`].
pub fn detect_format(path: &str, contents: Option<&[u8]>) -> (r: Result<
    ModelFormat,
    InferenceError,
>)
    ensures
        match r {
            Ok(format) => detected_format(path@, bytes_view(contents)) == Ok::<
                ModelFormat,
                DetectionFailure,
            >(format),
            Err(e) => detected_format(path@, bytes_view(contents)) matches Err(failure)
                && reports_detection_failure(e, failure),
        },
{
    ModelDetector::detect_format_from_path(path, contents)
}

} // verus!
