//! The backend for models that are trained on the device. Such models are
//! not loaded from files: the backend says which algorithm to train, checks
//! the data to train on, and describes the interface of the trained model.
//! The training itself is numerical work outside this library.
use vstd::prelude::*;
use crate::engines::candle::{fixed_dims, fixed_shape};
use crate::engines::{EngineType, InferenceEngine, Model, ModelFormat};
use crate::error::InferenceError;
use crate::tensor::{DataType, Tensor, TensorSpec, TensorSpecView, TensorView};
use crate::text::{chars_of, is_text, lookup_pair, pairs_map, parse_count, parsed_count};

verus! {

/// The algorithms of the backend. The regularisation of a support vector
/// machine is a 64-bit float, kept here by its bits.
#[derive(Debug, Clone, Copy, PartialEq, Eq, Structural)]
pub enum LinfaAlgorithm {
    KMeans { k: usize },
    LinearRegression,
    SVM { c_bits: u64 },
    DecisionTree { max_depth: Option<usize> },
}

/// What to train.
#[derive(Debug, Clone, Copy, PartialEq, Eq, Structural)]
pub enum TrainingPlan {
    /// Cluster the features into `k` clusters.
    KMeans { k: usize },
    /// Fit a linear model of the targets.
    LinearRegression,
}

/// What training with an algorithm comes to: a plan, or the error that says
/// why there is none. Linear regression, support vector machines and decision
/// trees need targets, and fail with `ModelLoad` without them; the latter two
/// cannot be trained at all, and fail with `UnsupportedFormat` otherwise.
pub open spec fn training_outcome(algorithm: LinfaAlgorithm, has_targets: bool) -> Result<
    TrainingPlan,
    EngineRefusal,
> {
    match algorithm {
        LinfaAlgorithm::KMeans { k } => Ok(TrainingPlan::KMeans { k }),
        LinfaAlgorithm::LinearRegression => if has_targets {
            Ok(TrainingPlan::LinearRegression)
        } else {
            Err(EngineRefusal::MissingTargets)
        },
        LinfaAlgorithm::SVM { .. } => if has_targets {
            Err(EngineRefusal::NotImplemented)
        } else {
            Err(EngineRefusal::MissingTargets)
        },
        LinfaAlgorithm::DecisionTree { .. } => if has_targets {
            Err(EngineRefusal::NotImplemented)
        } else {
            Err(EngineRefusal::MissingTargets)
        },
    }
}

/// Why an algorithm cannot be trained.
#[derive(Debug, Clone, Copy, PartialEq, Eq, Structural)]
pub enum EngineRefusal {
    /// The algorithm needs targets, and there are none.
    MissingTargets,
    /// The algorithm cannot be trained.
    NotImplemented,
}

/// Whether a tensor can be the features or the input of a model of this
/// backend: a matrix of 64-bit floats.
pub open spec fn is_feature_matrix(t: TensorView) -> bool {
    t.data_type == DataType::F64 && t.shape.len() == 2
}

/// The specification of the features of a model that was trained on data of
/// the given shape.
pub open spec fn features_spec(shape: Seq<usize>) -> TensorSpecView {
    TensorSpecView {
        name: "features"@,
        shape: fixed_dims(shape),
        data_type: DataType::F64,
        description: None,
    }
}

/// The specification of what a trained model gives out: one value for each
/// sample.
pub open spec fn per_sample_spec(name: Seq<char>, samples: usize, data_type: DataType)
    -> TensorSpecView {
    TensorSpecView { name, shape: seq![Some(samples)], data_type, description: None }
}

/// The backend for models that are trained on the device.
#[derive(Debug, Clone)]
pub struct LinfaEngine {
    algorithm: LinfaAlgorithm,
}

impl View for LinfaEngine {
    type V = LinfaAlgorithm;

    closed spec fn view(&self) -> LinfaAlgorithm {
        self.algorithm
    }
}

impl LinfaEngine {
    /// A backend that clusters into `k` clusters.
    pub fn k_means(k: usize) -> (r: Result<Self, InferenceError>)
        ensures
            r matches Ok(e) && e@ == (LinfaAlgorithm::KMeans { k }),
    {
        Ok(LinfaEngine { algorithm: LinfaAlgorithm::KMeans { k } })
    }

    /// A backend that fits linear models.
    pub fn linear_regression() -> (r: Result<Self, InferenceError>)
        ensures
            r matches Ok(e) && e@ == LinfaAlgorithm::LinearRegression,
    {
        Ok(LinfaEngine { algorithm: LinfaAlgorithm::LinearRegression })
    }

    /// A backend for support vector machines with the regularisation whose
    /// bits are `c_bits`.
    pub fn svm(c_bits: u64) -> (r: Result<Self, InferenceError>)
        ensures
            r matches Ok(e) && e@ == (LinfaAlgorithm::SVM { c_bits }),
    {
        Ok(LinfaEngine { algorithm: LinfaAlgorithm::SVM { c_bits } })
    }

    /// A backend for decision trees of at most the given depth.
    pub fn decision_tree(max_depth: Option<usize>) -> (r: Result<Self, InferenceError>)
        ensures
            r matches Ok(e) && e@ == (LinfaAlgorithm::DecisionTree { max_depth }),
    {
        Ok(LinfaEngine { algorithm: LinfaAlgorithm::DecisionTree { max_depth } })
    }

    /// The algorithm of the backend.
    pub fn algorithm(&self) -> (r: &LinfaAlgorithm)
        ensures
            *r == self@,
    {
        &self.algorithm
    }

    /// What training comes to, with or without targets: the plan to carry
    /// out, or the error with which training fails before it begins.
    pub fn plan_training(&self, has_targets: bool) -> (r: Result<TrainingPlan, InferenceError>)
        ensures
            match r {
                Ok(plan) => training_outcome(self@, has_targets) == Ok::<
                    TrainingPlan,
                    EngineRefusal,
                >(plan),
                Err(e) => match training_outcome(self@, has_targets) {
                    Err(EngineRefusal::MissingTargets) => e is ModelLoad,
                    Err(EngineRefusal::NotImplemented) => e is UnsupportedFormat,
                    Ok(_) => false,
                },
            },
    {
        match self.algorithm {
            LinfaAlgorithm::KMeans { k } => Ok(TrainingPlan::KMeans { k }),
            LinfaAlgorithm::LinearRegression => {
                if has_targets {
                    Ok(TrainingPlan::LinearRegression)
                } else {
                    Err(InferenceError::model_load("Linear regression requires targets"))
                }
            },
            LinfaAlgorithm::SVM { c_bits } => {
                if has_targets {
                    Err(
                        InferenceError::unsupported_format(
                            "SVM training not yet implemented - use K-means or LinearRegression",
                        ),
                    )
                } else {
                    Err(InferenceError::model_load("SVM requires targets"))
                }
            },
            LinfaAlgorithm::DecisionTree { max_depth } => {
                if has_targets {
                    Err(
                        InferenceError::unsupported_format(
                            "Decision tree training not yet implemented - use K-means or LinearRegression",
                        ),
                    )
                } else {
                    Err(InferenceError::model_load("Decision tree requires targets"))
                }
            },
        }
    }

    /// The numbers of rows and columns of a tensor of features. Fails with
    /// `InvalidTensorData` exactly when the tensor is no matrix of 64-bit
    /// floats.
    pub fn matrix_dims(tensor: &Tensor) -> (r: Result<(usize, usize), InferenceError>)
        ensures
            match r {
                Ok(dims) => is_feature_matrix(tensor@) && dims.0 == tensor@.shape[0] && dims.1
                    == tensor@.shape[1],
                Err(e) => !is_feature_matrix(tensor@) && e is InvalidTensorData,
            },
    {
        if *tensor.data_type() != DataType::F64 {
            return Err(InferenceError::invalid_shape_msg("Tensor must contain f64 data for Linfa"));
        }
        let shape = tensor.shape();
        if shape.len() != 2 {
            return Err(InferenceError::invalid_shape_msg("Expected 2D tensor for Linfa"));
        }
        Ok((shape[0], shape[1]))
    }

    /// The input and output specifications of a clustering model that was
    /// trained on data of the given shape: the features as they were, and one
    /// 32-bit cluster number for each sample.
    pub fn kmeans_specs(input_shape: &[usize]) -> (r: (Vec<TensorSpec>, Vec<TensorSpec>))
        requires
            input_shape@.len() > 0,
        ensures
            r.0@.len() == 1 && r.0@[0]@ == features_spec(input_shape@),
            r.1@.len() == 1 && r.1@[0]@ == per_sample_spec(
                "cluster_assignments"@,
                input_shape@[0],
                DataType::I32,
            ),
    {
        Self::trained_specs(input_shape, "cluster_assignments", DataType::I32)
    }

    /// The input and output specifications of a linear model that was trained
    /// on data of the given shape: the features as they were, and one 64-bit
    /// prediction for each sample.
    pub fn linear_regression_specs(input_shape: &[usize]) -> (r: (
        Vec<TensorSpec>,
        Vec<TensorSpec>,
    ))
        requires
            input_shape@.len() > 0,
        ensures
            r.0@.len() == 1 && r.0@[0]@ == features_spec(input_shape@),
            r.1@.len() == 1 && r.1@[0]@ == per_sample_spec(
                "predictions"@,
                input_shape@[0],
                DataType::F64,
            ),
    {
        Self::trained_specs(input_shape, "predictions", DataType::F64)
    }

    /// The specifications of a trained model whose output has the given name
    /// and element type.
    fn trained_specs(input_shape: &[usize], output: &str, data_type: DataType) -> (r: (
        Vec<TensorSpec>,
        Vec<TensorSpec>,
    ))
        requires
            input_shape@.len() > 0,
        ensures
            r.0@.len() == 1 && r.0@[0]@ == features_spec(input_shape@),
            r.1@.len() == 1 && r.1@[0]@ == per_sample_spec(output@, input_shape@[0], data_type),
    {
        let features = TensorSpec::new(
            "features".to_owned(),
            fixed_shape(input_shape),
            DataType::F64,
        );
        let mut samples: Vec<Option<usize>> = Vec::new();
        samples.push(Some(input_shape[0]));
        assert(samples@ =~= seq![Some(input_shape@[0])]);
        let results = TensorSpec::new(output.to_owned(), samples, data_type);
        let mut inputs: Vec<TensorSpec> = Vec::new();
        inputs.push(features);
        let mut outputs: Vec<TensorSpec> = Vec::new();
        outputs.push(results);
        (inputs, outputs)
    }
}

impl Default for LinfaEngine {
    fn default() -> (r: Self)
        ensures
            r@ == (LinfaAlgorithm::KMeans { k: 3 }),
    {
        LinfaEngine { algorithm: LinfaAlgorithm::KMeans { k: 3 } }
    }
}

impl InferenceEngine for LinfaEngine {
    open spec fn kind(&self) -> EngineType {
        EngineType::Linfa
    }

    fn load_model(&self, path: &str, contents: Option<&[u8]>) -> (r: Result<
        Box<dyn Model>,
        InferenceError,
    >) {
        Err(
            InferenceError::unsupported_format(
                "Linfa models must be trained using train() method, not loaded from files",
            ),
        )
    }

    fn load_from_bytes(&self, bytes: &[u8]) -> (r: Result<Box<dyn Model>, InferenceError>) {
        Err(
            InferenceError::unsupported_format(
                "Linfa models must be trained using train() method, not loaded from bytes",
            ),
        )
    }

    fn supports_format(&self, format: &ModelFormat) -> (r: bool) {
        match format {
            ModelFormat::Linfa => true,
            _ => false,
        }
    }

    fn engine_name(&self) -> (r: &'static str) {
        "Linfa"
    }

    fn engine_type(&self) -> (r: EngineType) {
        EngineType::Linfa
    }
}

/// Builds a backend for models that are trained on the device.
#[derive(Debug, Clone)]
pub struct LinfaSessionBuilder {
    algorithm: LinfaAlgorithm,
}

impl View for LinfaSessionBuilder {
    type V = LinfaAlgorithm;

    closed spec fn view(&self) -> LinfaAlgorithm {
        self.algorithm
    }
}

impl LinfaSessionBuilder {
    /// A builder of a backend that clusters into `k` clusters.
    pub fn k_means(k: usize) -> (r: Self)
        ensures
            r@ == (LinfaAlgorithm::KMeans { k }),
    {
        LinfaSessionBuilder { algorithm: LinfaAlgorithm::KMeans { k } }
    }

    /// A builder of a backend that fits linear models.
    pub fn linear_regression() -> (r: Self)
        ensures
            r@ == LinfaAlgorithm::LinearRegression,
    {
        LinfaSessionBuilder { algorithm: LinfaAlgorithm::LinearRegression }
    }

    /// A builder of a backend for support vector machines.
    pub fn svm(c_bits: u64) -> (r: Self)
        ensures
            r@ == (LinfaAlgorithm::SVM { c_bits }),
    {
        LinfaSessionBuilder { algorithm: LinfaAlgorithm::SVM { c_bits } }
    }

    /// A builder of a backend for decision trees.
    pub fn decision_tree(max_depth: Option<usize>) -> (r: Self)
        ensures
            r@ == (LinfaAlgorithm::DecisionTree { max_depth }),
    {
        LinfaSessionBuilder { algorithm: LinfaAlgorithm::DecisionTree { max_depth } }
    }

    /// Builds the backend.
    pub fn build(self) -> (r: LinfaEngine)
        ensures
            r@ == self@,
    {
        LinfaEngine { algorithm: self.algorithm }
    }
}

/// The number that a list of settings gives under a key, if it gives a text
/// there that stands for a number.
pub open spec fn count_setting(params: Seq<(String, String)>, key: Seq<char>) -> Option<usize> {
    if pairs_map(params).contains_key(key) {
        parsed_count(pairs_map(params)[key])
    } else {
        None
    }
}

/// The algorithm that a name and a list of settings stand for, if the name
/// is one of an algorithm. Clustering takes its number of clusters from the
/// setting `k`, or two; a decision tree its depth from the setting
/// `max_depth`, if there is one; a support vector machine its regularisation
/// as it is given.
pub open spec fn named_algorithm(name: Seq<char>, params: Seq<(String, String)>, c_bits: u64)
    -> Option<LinfaAlgorithm> {
    if name == "kmeans"@ {
        Some(
            LinfaAlgorithm::KMeans {
                k: match count_setting(params, "k"@) {
                    Some(k) => k,
                    None => 2,
                },
            },
        )
    } else if name == "linear_regression"@ {
        Some(LinfaAlgorithm::LinearRegression)
    } else if name == "svm"@ {
        Some(LinfaAlgorithm::SVM { c_bits })
    } else if name == "decision_tree"@ {
        Some(LinfaAlgorithm::DecisionTree { max_depth: count_setting(params, "max_depth"@) })
    } else {
        None
    }
}

/// The number that a list of settings gives under a key.
fn read_count(params: &[(String, String)], key: &str) -> (r: Option<usize>)
    ensures
        r == count_setting(params@, key@),
{
    match lookup_pair(params, key) {
        Some(text) => parse_count(text),
        None => None,
    }
}

impl LinfaEngine {
    /// The backend for the algorithm that a name and a list of settings
    /// stand for; of two settings with one key the later counts. `svm_c_bits`
    /// holds the bits of the regularisation of a support vector machine, which
    /// the caller reads from the setting `c`. Fails with `UnsupportedFormat`
    /// exactly when the name is none of an algorithm.
    pub fn for_algorithm(algorithm: &str, params: &[(String, String)], svm_c_bits: u64) -> (r:
        Result<LinfaEngine, InferenceError>)
        ensures
            match r {
                Ok(engine) => named_algorithm(algorithm@, params@, svm_c_bits) == Some(engine@),
                Err(e) => named_algorithm(algorithm@, params@, svm_c_bits) is None
                    && e is UnsupportedFormat,
            },
    {
        let name = chars_of(algorithm);
        if is_text(name.as_slice(), "kmeans") {
            let k = match read_count(params, "k") {
                Some(k) => k,
                None => 2,
            };
            LinfaEngine::k_means(k)
        } else if is_text(name.as_slice(), "linear_regression") {
            LinfaEngine::linear_regression()
        } else if is_text(name.as_slice(), "svm") {
            LinfaEngine::svm(svm_c_bits)
        } else if is_text(name.as_slice(), "decision_tree") {
            LinfaEngine::decision_tree(read_count(params, "max_depth"))
        } else {
            Err(InferenceError::unsupported_format("Unsupported Linfa algorithm"))
        }
    }
}

} // verus!
