//! The closed error taxonomy shared by every component.
use vstd::prelude::*;
use vstd::string::StringExecFns;
use crate::text::{dims_text, push_dims};

verus! {

/// What went wrong, with a descriptive message; a shape error carries the
/// expected and the actual shape instead.
#[derive(Debug, Clone)]
pub enum InferenceError {
    ModelLoad(String),
    Prediction(String),
    UnsupportedFormat(String),
    InvalidShape { expected: Vec<usize>, actual: Vec<usize> },
    InvalidTensorData(String),
    Engine(String),
    Io(String),
    Serialization(String),
    Configuration(String),
    ResourceNotFound(String),
    MemoryAllocation(String),
    ThreadPool(String),
    Gpu(String),
    FormatDetection(String),
}

impl InferenceError {
    /// The text that introduces the detail of an error of this kind.
    pub open spec fn prefix_text(self) -> Seq<char> {
        match self {
            InferenceError::ModelLoad(_) => "Model loading failed: "@,
            InferenceError::Prediction(_) => "Prediction failed: "@,
            InferenceError::UnsupportedFormat(_) => "Unsupported format: "@,
            InferenceError::InvalidShape { .. } => "Invalid input shape: "@,
            InferenceError::InvalidTensorData(_) => "Invalid tensor data: "@,
            InferenceError::Engine(_) => "Engine error: "@,
            InferenceError::Io(_) => "IO error: "@,
            InferenceError::Serialization(_) => "Serialization error: "@,
            InferenceError::Configuration(_) => "Configuration error: "@,
            InferenceError::ResourceNotFound(_) => "Resource not found: "@,
            InferenceError::MemoryAllocation(_) => "Memory allocation failed: "@,
            InferenceError::ThreadPool(_) => "Thread pool error: "@,
            InferenceError::Gpu(_) => "GPU error: "@,
            InferenceError::FormatDetection(_) => "Model format detection failed: "@,
        }
    }

    /// The detail of an error: its message, or the two shapes of a shape
    /// error.
    pub open spec fn detail_text(self) -> Seq<char> {
        match self {
            InferenceError::ModelLoad(m) => m@,
            InferenceError::Prediction(m) => m@,
            InferenceError::UnsupportedFormat(m) => m@,
            InferenceError::InvalidShape { expected, actual } => "expected "@ + dims_text(
                expected@,
            ) + ", got "@ + dims_text(actual@),
            InferenceError::InvalidTensorData(m) => m@,
            InferenceError::Engine(m) => m@,
            InferenceError::Io(m) => m@,
            InferenceError::Serialization(m) => m@,
            InferenceError::Configuration(m) => m@,
            InferenceError::ResourceNotFound(m) => m@,
            InferenceError::MemoryAllocation(m) => m@,
            InferenceError::ThreadPool(m) => m@,
            InferenceError::Gpu(m) => m@,
            InferenceError::FormatDetection(m) => m@,
        }
    }

    /// The full text of an error: the introduction of its kind, then its
    /// detail.
    pub open spec fn message_text(self) -> Seq<char> {
        self.prefix_text() + self.detail_text()
    }

    /// A model could not be loaded.
    pub fn model_load(msg: &str) -> (e: Self)
        ensures
            e matches InferenceError::ModelLoad(m) && m@ == msg@,
    {
        InferenceError::ModelLoad(msg.to_owned())
    }

    /// A prediction failed.
    pub fn prediction(msg: &str) -> (e: Self)
        ensures
            e matches InferenceError::Prediction(m) && m@ == msg@,
    {
        InferenceError::Prediction(msg.to_owned())
    }

    /// A format is not supported.
    pub fn unsupported_format(format: &str) -> (e: Self)
        ensures
            e matches InferenceError::UnsupportedFormat(m) && m@ == format@,
    {
        InferenceError::UnsupportedFormat(format.to_owned())
    }

    /// A shape differs from the expected one.
    pub fn invalid_shape(expected: Vec<usize>, actual: Vec<usize>) -> (e: Self)
        ensures
            e == (InferenceError::InvalidShape { expected, actual }),
    {
        InferenceError::InvalidShape { expected, actual }
    }

    /// Tensor data is malformed.
    pub fn invalid_tensor_data(msg: &str) -> (e: Self)
        ensures
            e matches InferenceError::InvalidTensorData(m) && m@ == msg@,
    {
        InferenceError::InvalidTensorData(msg.to_owned())
    }

    /// A shape problem that is described by a message only; it is reported
    /// as malformed tensor data.
    pub fn invalid_shape_msg(msg: &str) -> (e: Self)
        ensures
            e matches InferenceError::InvalidTensorData(m) && m@ == msg@,
    {
        InferenceError::InvalidTensorData(msg.to_owned())
    }

    /// The configuration cannot be satisfied.
    pub fn configuration(msg: &str) -> (e: Self)
        ensures
            e matches InferenceError::Configuration(m) && m@ == msg@,
    {
        InferenceError::Configuration(msg.to_owned())
    }

    /// A resource is missing.
    pub fn resource_not_found(resource: &str) -> (e: Self)
        ensures
            e matches InferenceError::ResourceNotFound(m) && m@ == resource@,
    {
        InferenceError::ResourceNotFound(resource.to_owned())
    }

    /// Memory could not be allocated.
    pub fn memory_allocation(msg: &str) -> (e: Self)
        ensures
            e matches InferenceError::MemoryAllocation(m) && m@ == msg@,
    {
        InferenceError::MemoryAllocation(msg.to_owned())
    }

    /// The GPU failed.
    pub fn gpu(msg: &str) -> (e: Self)
        ensures
            e matches InferenceError::Gpu(m) && m@ == msg@,
    {
        InferenceError::Gpu(msg.to_owned())
    }

    /// The format of a model could not be detected.
    pub fn format_detection(msg: &str) -> (e: Self)
        ensures
            e matches InferenceError::FormatDetection(m) && m@ == msg@,
    {
        InferenceError::FormatDetection(msg.to_owned())
    }

    /// The full text of the error, as it is shown to a user.
    pub fn message(&self) -> (s: String)
        ensures
            s@ == self.message_text(),
    {
        let mut s = String::new();
        match self {
            InferenceError::ModelLoad(m) => {
                s.append("Model loading failed: ");
                s.append(m.as_str());
            },
            InferenceError::Prediction(m) => {
                s.append("Prediction failed: ");
                s.append(m.as_str());
            },
            InferenceError::UnsupportedFormat(m) => {
                s.append("Unsupported format: ");
                s.append(m.as_str());
            },
            InferenceError::InvalidShape { expected, actual } => {
                s.append("Invalid input shape: ");
                s.append("expected ");
                push_dims(&mut s, expected.as_slice());
                s.append(", got ");
                push_dims(&mut s, actual.as_slice());
            },
            InferenceError::InvalidTensorData(m) => {
                s.append("Invalid tensor data: ");
                s.append(m.as_str());
            },
            InferenceError::Engine(m) => {
                s.append("Engine error: ");
                s.append(m.as_str());
            },
            InferenceError::Io(m) => {
                s.append("IO error: ");
                s.append(m.as_str());
            },
            InferenceError::Serialization(m) => {
                s.append("Serialization error: ");
                s.append(m.as_str());
            },
            InferenceError::Configuration(m) => {
                s.append("Configuration error: ");
                s.append(m.as_str());
            },
            InferenceError::ResourceNotFound(m) => {
                s.append("Resource not found: ");
                s.append(m.as_str());
            },
            InferenceError::MemoryAllocation(m) => {
                s.append("Memory allocation failed: ");
                s.append(m.as_str());
            },
            InferenceError::ThreadPool(m) => {
                s.append("Thread pool error: ");
                s.append(m.as_str());
            },
            InferenceError::Gpu(m) => {
                s.append("GPU error: ");
                s.append(m.as_str());
            },
            InferenceError::FormatDetection(m) => {
                s.append("Model format detection failed: ");
                s.append(m.as_str());
            },
        }
        assert(s@ =~= self.message_text());
        s
    }
}

} // verus!
