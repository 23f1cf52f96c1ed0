//! A backend-agnostic inference runtime: a tensor data model with byte-level
//! invariants, model-format detection, backend selection, a session store
//! that hands out handles to loaded models, and the bookkeeping of model
//! downloads and their cache.
//!
//! The numerical work of the backends, the transfer of files and everything
//! else that touches the world outside the process is the caller's part: the
//! library takes what was read and says what to do next.
pub mod api;
pub mod cache;
pub mod converters;
pub mod detector;
pub mod download;
pub mod engines;
pub mod error;
pub mod hub;
pub mod ieee;
pub mod models;
pub mod preprocessing;
pub mod session;
pub mod tensor;
pub mod text;

pub use converters::TensorConverter;
pub use detector::{detect_engine, detect_format, ModelDetector};
pub use engines::{EngineFactory, EngineType, InferenceEngine, Model, ModelFormat};
pub use error::InferenceError;
pub use preprocessing::{
    AudioPreprocessConfig, ImageFormat, Preprocessor, TextPreprocessConfig,
};
pub use session::{Session, SessionBuilder, SessionMetadata, SessionStore};
pub use tensor::{DataType, Tensor, TensorInfo, TensorSpec};
