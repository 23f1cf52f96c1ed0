use inference::download::{Download, DownloadPhase};
use inference::engines::CandleEngine;
use inference::hub::{
    bert_specs, detect_architecture, download_id, get_download_progress, hub_cache_key,
    hub_input_name, load_from_huggingface, resnet_specs, resolve_url,
    start_download_with_progress, ProgressTable,
};
use inference::models::{
    HuggingFaceIntegration, MobileNetVariant, ModelArchitecture, ModelConfig, ResNetVariant,
};
use inference::{DataType, InferenceError};

#[test]
fn addresses_and_names_are_put_together() {
    assert_eq!(
        resolve_url("org/model", "main", "model.safetensors"),
        "https://huggingface.co/org/model/resolve/main/model.safetensors"
    );
    assert_eq!(download_id("org/model", "v2"), "org/model_v2");
    assert_eq!(hub_cache_key("org/model", "main", "w.bin"), "hf_org_model_main/w.bin");
    assert_eq!(hub_cache_key("a/b/c", "r", "f"), "hf_a_b_c_r/f");
    assert_eq!(hub_input_name("microsoft/resnet-50", "model.safetensors"), {
        let repo_id = "microsoft/resnet-50";
        let filename = "model.safetensors";
        format!("hf_{}_{}", repo_id.replace('/', "_"), filename)
    });
    assert!(hub_input_name("bert-base-uncased", "model.safetensors").contains("hf_bert-base-uncased"));
}

#[test]
fn repository_names_point_to_architectures() {
    let resnet = ModelArchitecture::ResNet { variant: ResNetVariant::ResNet50 };
    assert_eq!(detect_architecture("bert-base-uncased"), ModelArchitecture::Bert);
    assert_eq!(detect_architecture("org/BERT-large"), ModelArchitecture::Bert);
    assert_eq!(detect_architecture("microsoft/resnet-18"), resnet);
    assert_eq!(detect_architecture("timm/ResNet"), resnet);
    assert_eq!(detect_architecture("resnet-bert"), ModelArchitecture::Bert);
    assert_eq!(detect_architecture("RESNET"), ModelArchitecture::Bert);
    assert_eq!(detect_architecture("Bert"), ModelArchitecture::Bert);
    assert_eq!(detect_architecture("gpt2"), ModelArchitecture::Bert);
    assert_eq!(detect_architecture(""), ModelArchitecture::Bert);
}

#[test]
fn hub_loads_are_planned_with_defaults() {
    let plan = load_from_huggingface("microsoft/resnet-50", None, None);
    assert_eq!(
        plan.config.architecture,
        ModelArchitecture::ResNet { variant: ResNetVariant::ResNet50 }
    );
    assert_eq!(plan.config.repo_id.as_deref(), Some("microsoft/resnet-50"));
    assert_eq!(plan.config.filename.as_deref(), Some("model.safetensors"));
    assert_eq!(plan.config.revision.as_deref(), Some("main"));
    assert!(!plan.config.use_auth_token);
    assert_eq!(
        plan.url,
        "https://huggingface.co/microsoft/resnet-50/resolve/main/model.safetensors"
    );
    assert_eq!(plan.cache_key, "hf_microsoft_resnet-50_main/model.safetensors");
    let plan = load_from_huggingface("bert-x", Some("dev"), Some("w.safetensors"));
    assert_eq!(plan.config.architecture, ModelArchitecture::Bert);
    assert_eq!(plan.url, "https://huggingface.co/bert-x/resolve/dev/w.safetensors");
    assert_eq!(plan.cache_key, "hf_bert-x_dev/w.safetensors");
    assert_eq!(plan.config.revision.as_deref(), Some("dev"));
}

#[test]
fn model_configurations_are_built_step_by_step() {
    let config = ModelConfig::new(ModelArchitecture::Generic);
    assert_eq!(config.architecture, ModelArchitecture::Generic);
    assert_eq!(config.repo_id, None);
    assert_eq!(config.filename, None);
    assert_eq!(config.revision.as_deref(), Some("main"));
    assert!(!config.use_auth_token);
    let config = config
        .with_repo_id("org/m")
        .with_filename("f.safetensors")
        .with_revision("v1")
        .with_auth_token();
    assert_eq!(config.repo_id.as_deref(), Some("org/m"));
    assert_eq!(config.filename.as_deref(), Some("f.safetensors"));
    assert_eq!(config.revision.as_deref(), Some("v1"));
    assert!(config.use_auth_token);
    assert_eq!(config.default_filename(), "model.safetensors");
}

#[test]
fn well_known_models_have_repositories() {
    let repo = |architecture| ModelConfig::new(architecture).default_repo_id();
    assert_eq!(repo(ModelArchitecture::Bert), Some("bert-base-uncased"));
    assert_eq!(
        repo(ModelArchitecture::ResNet { variant: ResNetVariant::ResNet18 }),
        Some("microsoft/resnet-18")
    );
    assert_eq!(
        repo(ModelArchitecture::ResNet { variant: ResNetVariant::ResNet50 }),
        Some("microsoft/resnet-50")
    );
    for variant in [ResNetVariant::ResNet34, ResNetVariant::ResNet101, ResNetVariant::ResNet152] {
        assert_eq!(repo(ModelArchitecture::ResNet { variant }), None);
    }
    assert_eq!(
        repo(ModelArchitecture::MobileNet { variant: MobileNetVariant::V2 }),
        Some("google/mobilenet_v2_1.0_224")
    );
    for variant in [MobileNetVariant::V1, MobileNetVariant::V3Small, MobileNetVariant::V3Large] {
        assert_eq!(repo(ModelArchitecture::MobileNet { variant }), None);
    }
    for architecture in [
        ModelArchitecture::Mistral,
        ModelArchitecture::Llama,
        ModelArchitecture::Whisper,
        ModelArchitecture::Generic,
    ] {
        assert_eq!(repo(architecture), None);
        assert_eq!(ModelConfig::new(architecture).default_filename(), "model.safetensors");
    }
}

#[test]
fn the_backend_says_what_to_fetch() {
    let engine = CandleEngine::new().unwrap();
    let request = engine.plan_huggingface_load(&ModelConfig::new(ModelArchitecture::Bert)).unwrap();
    assert_eq!(request.architecture, ModelArchitecture::Bert);
    assert_eq!(request.repo_id, "bert-base-uncased");
    assert_eq!(request.filename, "model.safetensors");
    let config = ModelConfig::new(ModelArchitecture::ResNet { variant: ResNetVariant::ResNet34 })
        .with_repo_id("me/resnet34")
        .with_filename("r.safetensors");
    let request = engine.plan_huggingface_load(&config).unwrap();
    assert_eq!(request.repo_id, "me/resnet34");
    assert_eq!(request.filename, "r.safetensors");
    // No repository is known: that is said before the architecture is looked at.
    assert!(matches!(
        engine.plan_huggingface_load(&ModelConfig::new(ModelArchitecture::Llama)),
        Err(InferenceError::ModelLoad(_))
    ));
    assert!(matches!(
        engine.plan_huggingface_load(&ModelConfig::new(ModelArchitecture::Llama).with_repo_id("l")),
        Err(InferenceError::UnsupportedFormat(_))
    ));
    assert!(matches!(
        engine.plan_huggingface_load(&ModelConfig::new(ModelArchitecture::MobileNet {
            variant: MobileNetVariant::V2
        })),
        Err(InferenceError::UnsupportedFormat(_))
    ));
    let request = engine.load_bert("org/bert").unwrap();
    assert_eq!(request.repo_id, "org/bert");
    let request = engine.load_resnet(ResNetVariant::ResNet18).unwrap();
    assert_eq!(request.repo_id, "microsoft/resnet-18");
    assert!(matches!(
        engine.load_resnet(ResNetVariant::ResNet152),
        Err(InferenceError::ModelLoad(_))
    ));
    assert!(matches!(
        HuggingFaceIntegration::download_model("bert-base-uncased", "model.safetensors"),
        Err(InferenceError::UnsupportedFormat(_))
    ));
}

#[test]
fn wrapped_models_have_their_specs() {
    let (input, output) = bert_specs("input_ids");
    assert_eq!(input.name, "input_ids");
    assert_eq!(input.shape, vec![None, Some(512)]);
    assert_eq!(input.data_type, DataType::I64);
    assert_eq!(output.name, "embeddings");
    assert_eq!(output.shape, vec![None, Some(768)]);
    assert_eq!(output.data_type, DataType::F32);
    let (input, output) = resnet_specs("image");
    assert_eq!(input.name, "image");
    assert_eq!(input.shape, vec![None, Some(3), Some(224), Some(224)]);
    assert_eq!(input.data_type, DataType::F32);
    assert_eq!(output.name, "logits");
    assert_eq!(output.shape, vec![None, Some(1000)]);
    assert_eq!(output.data_type, DataType::F32);
}

#[test]
fn the_progress_table_keeps_the_latest_record() {
    let mut table = ProgressTable::new();
    assert_eq!(table.len(), 0);
    assert!(get_download_progress(&table, "org/m_main").is_none());
    let request = start_download_with_progress(&mut table, "org/m", None, None).unwrap();
    assert_eq!(request.id, "org/m_main");
    assert_eq!(request.url, "https://huggingface.co/org/m/resolve/main/model.safetensors");
    let record = get_download_progress(&table, &request.id).unwrap();
    assert_eq!(record.phase, DownloadPhase::Connecting);
    assert_eq!(record.message.as_deref(), Some("Starting download..."));
    assert_eq!(record.downloaded_bytes, 0);
    assert_eq!(record.total_bytes, None);
    assert_eq!(record.percentage, 0);

    let other = start_download_with_progress(&mut table, "org/n", Some("v2"), Some("w.bin")).unwrap();
    assert_eq!(other.id, "org/n_v2");
    assert_eq!(other.url, "https://huggingface.co/org/n/resolve/v2/w.bin");
    assert_eq!(table.len(), 2);

    let (mut download, first) = Download::start(&request.url);
    table.publish(&request.id, first);
    assert_eq!(
        table.get(&request.id).unwrap().message.as_deref(),
        Some("Connecting to server...")
    );
    let opened = download.on_response(200, Some(10)).report.unwrap();
    table.publish(&request.id, opened);
    let chunk = download.on_chunk(10).report.unwrap();
    table.publish(&request.id, chunk);
    let latest = table.get(&request.id).unwrap();
    assert_eq!(latest.phase, DownloadPhase::Downloading);
    assert_eq!(latest.downloaded_bytes, 10);
    assert_eq!(latest.percentage, 100);
    // The other download is untouched, and no history is kept.
    assert_eq!(table.get(&other.id).unwrap().phase, DownloadPhase::Connecting);
    assert_eq!(table.len(), 2);
    assert!(table.get("org/m").is_none());
    assert!(ProgressTable::default().get("x").is_none());
}
