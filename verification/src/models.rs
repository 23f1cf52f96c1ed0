//! The architectures of pre-trained models that can be fetched from a model
//! hub, and the configuration that says which model to fetch.
use vstd::prelude::*;
use crate::error::InferenceError;

verus! {

/// The variants of the ResNet architecture.
#[derive(Debug, Clone, Copy, PartialEq, Eq, Structural)]
pub enum ResNetVariant {
    ResNet18,
    ResNet34,
    ResNet50,
    ResNet101,
    ResNet152,
}

/// The variants of the MobileNet architecture.
#[derive(Debug, Clone, Copy, PartialEq, Eq, Structural)]
pub enum MobileNetVariant {
    V1,
    V2,
    V3Small,
    V3Large,
}

/// The architectures of pre-trained models.
#[derive(Debug, Clone, Copy, PartialEq, Eq, Structural)]
#[allow(inconsistent_fields)]
pub enum ModelArchitecture {
    Bert,
    ResNet { variant: ResNetVariant },
    MobileNet { variant: MobileNetVariant },
    Mistral,
    Llama,
    Whisper,
    Generic,
}

/// The repository that holds the well-known model of an architecture, if
/// there is such a model.
pub open spec fn well_known_repo(architecture: ModelArchitecture) -> Option<Seq<char>> {
    match architecture {
        ModelArchitecture::Bert => Some("bert-base-uncased"@),
        ModelArchitecture::ResNet { variant } => match variant {
            ResNetVariant::ResNet18 => Some("microsoft/resnet-18"@),
            ResNetVariant::ResNet50 => Some("microsoft/resnet-50"@),
            _ => None,
        },
        ModelArchitecture::MobileNet { variant } => match variant {
            MobileNetVariant::V2 => Some("google/mobilenet_v2_1.0_224"@),
            _ => None,
        },
        _ => None,
    }
}

/// Which pre-trained model to fetch: its architecture, the repository and
/// the file that hold it, the revision of the repository, and whether to
/// authenticate.
#[derive(Debug, Clone)]
pub struct ModelConfig {
    pub architecture: ModelArchitecture,
    pub repo_id: Option<String>,
    pub filename: Option<String>,
    pub revision: Option<String>,
    pub use_auth_token: bool,
}

/// What a model configuration says.
pub struct ModelConfigView {
    pub architecture: ModelArchitecture,
    pub repo_id: Option<Seq<char>>,
    pub filename: Option<Seq<char>>,
    pub revision: Option<Seq<char>>,
    pub use_auth_token: bool,
}

/// What an optional text says.
pub open spec fn text_view(text: Option<String>) -> Option<Seq<char>> {
    match text {
        Some(t) => Some(t@),
        None => None,
    }
}

impl View for ModelConfig {
    type V = ModelConfigView;

    open spec fn view(&self) -> ModelConfigView {
        ModelConfigView {
            architecture: self.architecture,
            repo_id: text_view(self.repo_id),
            filename: text_view(self.filename),
            revision: text_view(self.revision),
            use_auth_token: self.use_auth_token,
        }
    }
}

impl ModelConfig {
    /// The configuration of an architecture: no repository, no file, the
    /// revision `main`, no authentication.
    pub fn new(architecture: ModelArchitecture) -> (r: Self)
        ensures
            r@ == (ModelConfigView {
                architecture,
                repo_id: None,
                filename: None,
                revision: Some("main"@),
                use_auth_token: false,
            }),
    {
        ModelConfig {
            architecture,
            repo_id: None,
            filename: None,
            revision: Some("main".to_owned()),
            use_auth_token: false,
        }
    }

    /// The same configuration with a repository.
    pub fn with_repo_id(self, repo_id: &str) -> (r: Self)
        ensures
            r@ == (ModelConfigView { repo_id: Some(repo_id@), ..self@ }),
    {
        let mut config = self;
        config.repo_id = Some(repo_id.to_owned());
        config
    }

    /// The same configuration with a file.
    pub fn with_filename(self, filename: &str) -> (r: Self)
        ensures
            r@ == (ModelConfigView { filename: Some(filename@), ..self@ }),
    {
        let mut config = self;
        config.filename = Some(filename.to_owned());
        config
    }

    /// The same configuration with a revision.
    pub fn with_revision(self, revision: &str) -> (r: Self)
        ensures
            r@ == (ModelConfigView { revision: Some(revision@), ..self@ }),
    {
        let mut config = self;
        config.revision = Some(revision.to_owned());
        config
    }

    /// The same configuration, with authentication.
    pub fn with_auth_token(self) -> (r: Self)
        ensures
            r@ == (ModelConfigView { use_auth_token: true, ..self@ }),
    {
        let mut config = self;
        config.use_auth_token = true;
        config
    }

    /// The name of the file that holds the model of any architecture, unless
    /// the configuration names another.
    pub fn default_filename(&self) -> (r: &'static str)
        ensures
            r@ == "model.safetensors"@,
    {
        "model.safetensors"
    }

    /// The repository that holds the well-known model of the architecture,
    /// if there is such a model.
    pub fn default_repo_id(&self) -> (r: Option<&'static str>)
        ensures
            match r {
                Some(repo) => well_known_repo(self.architecture) == Some(repo@),
                None => well_known_repo(self.architecture) is None,
            },
    {
        match self.architecture {
            ModelArchitecture::Bert => Some("bert-base-uncased"),
            ModelArchitecture::ResNet { variant } => match variant {
                ResNetVariant::ResNet18 => Some("microsoft/resnet-18"),
                ResNetVariant::ResNet50 => Some("microsoft/resnet-50"),
                _ => None,
            },
            ModelArchitecture::MobileNet { variant } => match variant {
                MobileNetVariant::V2 => Some("google/mobilenet_v2_1.0_224"),
                _ => None,
            },
            _ => None,
        }
    }
}

/// The hub of pre-trained models, as far as this library reaches it.
pub struct HuggingFaceIntegration;

impl HuggingFaceIntegration {
    /// Fetches a file of a repository. This library reaches no network, so
    /// this always fails with `UnsupportedFormat`.
    pub fn download_model(repo_id: &str, filename: &str) -> (r: Result<Vec<u8>, InferenceError>)
        ensures
            r matches Err(e) && e is UnsupportedFormat,
    {
        Err(InferenceError::unsupported_format("HuggingFace Hub integration not yet implemented"))
    }
}

} // verus!
