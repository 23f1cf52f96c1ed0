//! Models from a hub of pre-trained models: where a model is fetched from,
//! under which names its download and its cached copy are kept, which
//! architecture a repository holds, and the table in which the progress of
//! downloads can be looked up. The transfer itself is the caller's part.
use vstd::prelude::*;
use vstd::string::StringExecFns;
use crate::download::{DownloadPhase, DownloadProgress, ProgressView};
use crate::engines::candle::CandleEngine;
use crate::error::InferenceError;
use crate::models::{
    well_known_repo, ModelArchitecture, ModelConfig, ModelConfigView, ResNetVariant,
};
use crate::tensor::{DataType, TensorSpec, TensorSpecView};
use crate::text::{chars_of, contains_text, is_text, replace_char, replaced, str_contains};

verus! {

/// What an optional text slice says, or a default where there is none.
pub open spec fn text_or(text: Option<&str>, default: Seq<char>) -> Seq<char> {
    match text {
        Some(t) => t@,
        None => default,
    }
}

/// The address of a file of a repository at a revision.
pub open spec fn resolve_url_text(repo: Seq<char>, revision: Seq<char>, filename: Seq<char>)
    -> Seq<char> {
    "https://huggingface.co/"@ + repo + "/resolve/"@ + revision + "/"@ + filename
}

/// The name under which the progress of a download is kept: the repository
/// and the revision, joined by an underscore.
pub open spec fn download_id_text(repo: Seq<char>, revision: Seq<char>) -> Seq<char> {
    repo + "_"@ + revision
}

/// The cache key of a file of a repository at a revision.
pub open spec fn hub_cache_key_text(repo: Seq<char>, revision: Seq<char>, filename: Seq<char>)
    -> Seq<char> {
    "hf_"@ + replaced(repo, '/', '_') + "_"@ + revision + "/"@ + filename
}

/// The name that the first input of a model gets to show where the model
/// came from.
pub open spec fn hub_input_name_text(repo: Seq<char>, filename: Seq<char>) -> Seq<char> {
    "hf_"@ + replaced(repo, '/', '_') + "_"@ + filename
}

/// The architecture that the name of a repository points to: ResNet-50 where
/// the name holds `resnet` or `ResNet` and neither `bert` nor `BERT`, and
/// BERT otherwise.
pub open spec fn architecture_of(repo: Seq<char>) -> ModelArchitecture {
    if contains_text(repo, "bert"@) || contains_text(repo, "BERT"@) {
        ModelArchitecture::Bert
    } else if contains_text(repo, "resnet"@) || contains_text(repo, "ResNet"@) {
        ModelArchitecture::ResNet { variant: ResNetVariant::ResNet50 }
    } else {
        ModelArchitecture::Bert
    }
}

/// The address of a file of a repository at a revision.
pub fn resolve_url(repo: &str, revision: &str, filename: &str) -> (r: String)
    ensures
        r@ == resolve_url_text(repo@, revision@, filename@),
{
    let mut url = String::new();
    url.append("https://huggingface.co/");
    url.append(repo);
    url.append("/resolve/");
    url.append(revision);
    url.append("/");
    url.append(filename);
    assert(url@ =~= resolve_url_text(repo@, revision@, filename@));
    url
}

/// The name under which the progress of a download is kept.
pub fn download_id(repo: &str, revision: &str) -> (r: String)
    ensures
        r@ == download_id_text(repo@, revision@),
{
    let mut id = String::new();
    id.append(repo);
    id.append("_");
    id.append(revision);
    assert(id@ =~= download_id_text(repo@, revision@));
    id
}

/// The cache key of a file of a repository at a revision.
pub fn hub_cache_key(repo: &str, revision: &str, filename: &str) -> (r: String)
    ensures
        r@ == hub_cache_key_text(repo@, revision@, filename@),
{
    let flat = replace_char(repo, '/', '_');
    let mut key = String::new();
    key.append("hf_");
    key.append(flat.as_str());
    key.append("_");
    key.append(revision);
    key.append("/");
    key.append(filename);
    assert(key@ =~= hub_cache_key_text(repo@, revision@, filename@));
    key
}

/// The name that the first input of a model gets to show where the model
/// came from.
pub fn hub_input_name(repo: &str, filename: &str) -> (r: String)
    ensures
        r@ == hub_input_name_text(repo@, filename@),
{
    let flat = replace_char(repo, '/', '_');
    let mut name = String::new();
    name.append("hf_");
    name.append(flat.as_str());
    name.append("_");
    name.append(filename);
    assert(name@ =~= hub_input_name_text(repo@, filename@));
    name
}

/// The architecture that the name of a repository points to.
pub fn detect_architecture(repo: &str) -> (r: ModelArchitecture)
    ensures
        r == architecture_of(repo@),
{
    if str_contains(repo, "bert") || str_contains(repo, "BERT") {
        ModelArchitecture::Bert
    } else if str_contains(repo, "resnet") || str_contains(repo, "ResNet") {
        ModelArchitecture::ResNet { variant: ResNetVariant::ResNet50 }
    } else {
        ModelArchitecture::Bert
    }
}

/// What is needed to fetch a model of a repository: the configuration for
/// the backend, the address to fall back to, and the key of the cached copy.
#[derive(Debug, Clone)]
pub struct HubPlan {
    pub config: ModelConfig,
    pub url: String,
    pub cache_key: String,
}

/// Plans the loading of a model of a repository. The revision is `main` and
/// the file `model.safetensors` unless the caller names others; the
/// architecture is the one that the name of the repository points to.
pub fn load_from_huggingface(repo: &str, revision: Option<&str>, filename: Option<&str>) -> (r:
    HubPlan)
    ensures
        r.config@ == (ModelConfigView {
            architecture: architecture_of(repo@),
            repo_id: Some(repo@),
            filename: Some(text_or(filename, "model.safetensors"@)),
            revision: Some(text_or(revision, "main"@)),
            use_auth_token: false,
        }),
        r.url@ == resolve_url_text(
            repo@,
            text_or(revision, "main"@),
            text_or(filename, "model.safetensors"@),
        ),
        r.cache_key@ == hub_cache_key_text(
            repo@,
            text_or(revision, "main"@),
            text_or(filename, "model.safetensors"@),
        ),
{
    let revision: &str = match revision {
        Some(revision) => revision,
        None => "main",
    };
    let filename: &str = match filename {
        Some(filename) => filename,
        None => "model.safetensors",
    };
    let config = ModelConfig::new(detect_architecture(repo)).with_repo_id(repo).with_filename(
        filename,
    ).with_revision(revision);
    HubPlan {
        config,
        url: resolve_url(repo, revision, filename),
        cache_key: hub_cache_key(repo, revision, filename),
    }
}

/// Which model of the hub a backend is asked for.
#[derive(Debug, Clone)]
pub struct HubRequest {
    pub architecture: ModelArchitecture,
    pub repo_id: String,
    pub filename: String,
}

/// Why a backend does not fetch a model of the hub.
#[derive(Debug, Clone, Copy, PartialEq, Eq, Structural)]
pub enum HubRefusal {
    /// The configuration names no repository, and the architecture has no
    /// well-known one.
    NoRepository,
    /// The backend has no model of the architecture.
    UnsupportedArchitecture,
}

/// The repository that a configuration points to: the one it names, or else
/// the well-known one of its architecture.
pub open spec fn effective_repo(config: ModelConfigView) -> Option<Seq<char>> {
    match config.repo_id {
        Some(repo) => Some(repo),
        None => well_known_repo(config.architecture),
    }
}

/// Whether the backend has a model of an architecture.
pub open spec fn is_hub_architecture(architecture: ModelArchitecture) -> bool {
    architecture is Bert || architecture is ResNet
}

/// What a backend is asked for, or why it is asked for nothing.
pub open spec fn hub_request(config: ModelConfigView) -> Result<
    (ModelArchitecture, Seq<char>, Seq<char>),
    HubRefusal,
> {
    match effective_repo(config) {
        None => Err(HubRefusal::NoRepository),
        Some(repo) => if is_hub_architecture(config.architecture) {
            Ok(
                (
                    config.architecture,
                    repo,
                    match config.filename {
                        Some(name) => name,
                        None => "model.safetensors"@,
                    },
                ),
            )
        } else {
            Err(HubRefusal::UnsupportedArchitecture)
        },
    }
}

impl CandleEngine {
    /// Says which model of the hub to fetch for a configuration. Fails with
    /// `ModelLoad` where no repository is known, and else with
    /// `UnsupportedFormat` where the backend has no model of the
    /// architecture.
    pub fn plan_huggingface_load(&self, config: &ModelConfig) -> (r: Result<
        HubRequest,
        InferenceError,
    >)
        ensures
            match r {
                Ok(request) => hub_request(config@) == Ok::<
                    (ModelArchitecture, Seq<char>, Seq<char>),
                    HubRefusal,
                >((request.architecture, request.repo_id@, request.filename@)),
                Err(e) => match hub_request(config@) {
                    Err(HubRefusal::NoRepository) => e is ModelLoad,
                    Err(HubRefusal::UnsupportedArchitecture) => e is UnsupportedFormat,
                    Ok(_) => false,
                },
            },
    {
        let repo_id: String = match &config.repo_id {
            Some(repo) => repo.clone(),
            None => match config.default_repo_id() {
                Some(repo) => repo.to_owned(),
                None => {
                    return Err(
                        InferenceError::model_load(
                            "Repository ID required for HuggingFace loading",
                        ),
                    );
                },
            },
        };
        let filename: String = match &config.filename {
            Some(name) => name.clone(),
            None => config.default_filename().to_owned(),
        };
        match config.architecture {
            ModelArchitecture::Bert => Ok(
                HubRequest { architecture: config.architecture, repo_id, filename },
            ),
            ModelArchitecture::ResNet { variant } => Ok(
                HubRequest { architecture: config.architecture, repo_id, filename },
            ),
            _ => Err(
                InferenceError::unsupported_format(
                    "Model architecture not yet supported for HuggingFace loading",
                ),
            ),
        }
    }

    /// Plans the loading of the BERT model of a repository; see
    /// [`CandleEngine::plan_huggingface_load`].
    pub fn load_bert(&self, repo_id: &str) -> (r: Result<HubRequest, InferenceError>)
        ensures
            r matches Ok(request) && request.architecture == ModelArchitecture::Bert
                && request.repo_id@ == repo_id@ && request.filename@ == "model.safetensors"@,
    {
        let config = ModelConfig::new(ModelArchitecture::Bert).with_repo_id(repo_id);
        self.plan_huggingface_load(&config)
    }

    /// Plans the loading of the well-known ResNet model of a variant. Fails
    /// with `ModelLoad` exactly when the variant has none.
    pub fn load_resnet(&self, variant: ResNetVariant) -> (r: Result<HubRequest, InferenceError>)
        ensures
            match r {
                Ok(request) => request.architecture == (ModelArchitecture::ResNet { variant })
                    && well_known_repo(ModelArchitecture::ResNet { variant }) == Some(
                    request.repo_id@,
                ),
                Err(e) => well_known_repo(ModelArchitecture::ResNet { variant }) is None
                    && e is ModelLoad,
            },
    {
        let config = ModelConfig::new(ModelArchitecture::ResNet { variant });
        self.plan_huggingface_load(&config)
    }
}

/// The specification of the input of a BERT model: token numbers in rows of
/// 512.
pub open spec fn bert_input_spec(name: Seq<char>) -> TensorSpecView {
    TensorSpecView {
        name,
        shape: seq![None, Some(512usize)],
        data_type: DataType::I64,
        description: None,
    }
}

/// The specification of the output of a BERT model: embeddings of 768
/// numbers.
pub open spec fn bert_output_spec() -> TensorSpecView {
    TensorSpecView {
        name: "embeddings"@,
        shape: seq![None, Some(768usize)],
        data_type: DataType::F32,
        description: None,
    }
}

/// The specification of the input of a ResNet model: images of three
/// channels and 224 by 224 pixels.
pub open spec fn resnet_input_spec(name: Seq<char>) -> TensorSpecView {
    TensorSpecView {
        name,
        shape: seq![None, Some(3usize), Some(224usize), Some(224usize)],
        data_type: DataType::F32,
        description: None,
    }
}

/// The specification of the output of a ResNet model: a score for each of a
/// thousand classes.
pub open spec fn resnet_output_spec() -> TensorSpecView {
    TensorSpecView {
        name: "logits"@,
        shape: seq![None, Some(1000usize)],
        data_type: DataType::F32,
        description: None,
    }
}

/// The input and the output specification of a BERT model whose input has
/// the given name.
pub fn bert_specs(input_name: &str) -> (r: (TensorSpec, TensorSpec))
    ensures
        r.0@ == bert_input_spec(input_name@),
        r.1@ == bert_output_spec(),
{
    let mut input_shape: Vec<Option<usize>> = Vec::new();
    input_shape.push(None);
    input_shape.push(Some(512));
    assert(input_shape@ =~= seq![None, Some(512usize)]);
    let mut output_shape: Vec<Option<usize>> = Vec::new();
    output_shape.push(None);
    output_shape.push(Some(768));
    assert(output_shape@ =~= seq![None, Some(768usize)]);
    (
        TensorSpec::new(input_name.to_owned(), input_shape, DataType::I64),
        TensorSpec::new("embeddings".to_owned(), output_shape, DataType::F32),
    )
}

/// The input and the output specification of a ResNet model whose input has
/// the given name.
pub fn resnet_specs(input_name: &str) -> (r: (TensorSpec, TensorSpec))
    ensures
        r.0@ == resnet_input_spec(input_name@),
        r.1@ == resnet_output_spec(),
{
    let mut input_shape: Vec<Option<usize>> = Vec::new();
    input_shape.push(None);
    input_shape.push(Some(3));
    input_shape.push(Some(224));
    input_shape.push(Some(224));
    assert(input_shape@ =~= seq![None, Some(3usize), Some(224usize), Some(224usize)]);
    let mut output_shape: Vec<Option<usize>> = Vec::new();
    output_shape.push(None);
    output_shape.push(Some(1000));
    assert(output_shape@ =~= seq![None, Some(1000usize)]);
    (
        TensorSpec::new(input_name.to_owned(), input_shape, DataType::F32),
        TensorSpec::new("logits".to_owned(), output_shape, DataType::F32),
    )
}

/// The map that a list of named progress records stands for: a later record
/// takes the place of an earlier one with the same name.
pub open spec fn records_map(records: Seq<(String, DownloadProgress)>) -> Map<
    Seq<char>,
    ProgressView,
>
    decreases records.len(),
{
    if records.len() == 0 {
        Map::empty()
    } else {
        records_map(records.drop_last()).insert(records.last().0@, records.last().1@)
    }
}

/// Whether no two records of a list have the same name.
pub open spec fn distinct_names(records: Seq<(String, DownloadProgress)>) -> bool {
    forall|i: int, j: int|
        0 <= i < j < records.len() ==> (#[trigger] records[i]).0@ != (#[trigger] records[j]).0@
}

/// A name that none of the records has is no key of their map.
proof fn lemma_absent(records: Seq<(String, DownloadProgress)>, name: Seq<char>)
    requires
        forall|i: int| 0 <= i < records.len() ==> (#[trigger] records[i]).0@ != name,
    ensures
        !records_map(records).contains_key(name),
    decreases records.len(),
{
    if records.len() > 0 {
        lemma_absent(records.drop_last(), name);
    }
}

/// Among records with distinct names, the map holds each record under its
/// name.
proof fn lemma_present(records: Seq<(String, DownloadProgress)>, i: int)
    requires
        distinct_names(records),
        0 <= i < records.len(),
    ensures
        records_map(records).contains_key(records[i].0@),
        records_map(records)[records[i].0@] == records[i].1@,
    decreases records.len(),
{
    if i < records.len() - 1 {
        let shorter = records.drop_last();
        assert(distinct_names(shorter)) by {
            assert forall|a: int, b: int| 0 <= a < b < shorter.len() implies (
            #[trigger] shorter[a]).0@ != (#[trigger] shorter[b]).0@ by {
                assert(shorter[a] == records[a] && shorter[b] == records[b]);
            }
        }
        lemma_present(shorter, i);
        assert(shorter[i] == records[i]);
        assert(records[i].0@ != records[records.len() - 1].0@);
    }
}

/// Among records with distinct names, to put another record in the place of
/// one is to insert it into the map under the same name.
#[verifier::rlimit(50)]
proof fn lemma_replaced(
    records: Seq<(String, DownloadProgress)>,
    i: int,
    entry: (String, DownloadProgress),
)
    requires
        distinct_names(records),
        0 <= i < records.len(),
        entry.0@ == records[i].0@,
    ensures
        records_map(records.update(i, entry)) == records_map(records).insert(entry.0@, entry.1@),
        distinct_names(records.update(i, entry)),
    decreases records.len(),
{
    let updated = records.update(i, entry);
    assert(distinct_names(updated)) by {
        assert forall|a: int, b: int| 0 <= a < b < updated.len() implies (
        #[trigger] updated[a]).0@ != (#[trigger] updated[b]).0@ by {
            assert(records[a].0@ != records[b].0@);
        }
    }
    if i == records.len() - 1 {
        assert(updated.drop_last() =~= records.drop_last());
        assert(records_map(updated) =~= records_map(records).insert(entry.0@, entry.1@));
    } else {
        let shorter = records.drop_last();
        assert(distinct_names(shorter)) by {
            assert forall|a: int, b: int| 0 <= a < b < shorter.len() implies (
            #[trigger] shorter[a]).0@ != (#[trigger] shorter[b]).0@ by {
                assert(shorter[a] == records[a] && shorter[b] == records[b]);
            }
        }
        assert(shorter[i] == records[i]);
        lemma_replaced(shorter, i, entry);
        assert(updated.drop_last() =~= shorter.update(i, entry));
        assert(updated.last() == records.last());
        assert(records[i].0@ != records[records.len() - 1].0@);
        assert(records_map(updated) =~= records_map(records).insert(entry.0@, entry.1@));
    }
}

/// Records with distinct names stand for a map with as many keys as there
/// are records.
proof fn lemma_record_count(records: Seq<(String, DownloadProgress)>)
    requires
        distinct_names(records),
    ensures
        records_map(records).dom().finite(),
        records_map(records).dom().len() == records.len(),
    decreases records.len(),
{
    if records.len() > 0 {
        let shorter = records.drop_last();
        assert(distinct_names(shorter)) by {
            assert forall|a: int, b: int| 0 <= a < b < shorter.len() implies (
            #[trigger] shorter[a]).0@ != (#[trigger] shorter[b]).0@ by {
                assert(shorter[a] == records[a] && shorter[b] == records[b]);
            }
        }
        lemma_record_count(shorter);
        assert forall|i: int| 0 <= i < shorter.len() implies (#[trigger] shorter[i]).0@
            != records.last().0@ by {
            assert(shorter[i] == records[i]);
        }
        lemma_absent(shorter, records.last().0@);
        assert(records_map(records).dom() =~= records_map(shorter).dom().insert(
            records.last().0@,
        ));
    } else {
        assert(records_map(records).dom() =~= Set::<Seq<char>>::empty());
    }
}

/// The table in which the progress of downloads can be looked up by name.
/// It keeps the latest record of each download and no history.
pub struct ProgressTable {
    records: Vec<(String, DownloadProgress)>,
}

impl View for ProgressTable {
    type V = Map<Seq<char>, ProgressView>;

    closed spec fn view(&self) -> Map<Seq<char>, ProgressView> {
        records_map(self.records@)
    }
}

impl ProgressTable {
    #[verifier::type_invariant]
    spec fn inv(&self) -> bool {
        distinct_names(self.records@)
    }

    /// A table without records.
    pub fn new() -> (r: Self)
        ensures
            r@ == Map::<Seq<char>, ProgressView>::empty(),
    {
        ProgressTable { records: Vec::new() }
    }

    /// The number of downloads of which the table keeps a record.
    pub fn len(&self) -> (r: usize)
        ensures
            self@.dom().finite(),
            r == self@.dom().len(),
    {
        proof {
            use_type_invariant(self);
            lemma_record_count(self.records@);
        }
        self.records.len()
    }

    /// The place of the record with the given name, if there is one.
    fn find(&self, id: &str) -> (r: Option<usize>)
        ensures
            match r {
                Some(i) => i < self.records@.len() && self.records@[i as int].0@ == id@,
                None => forall|i: int|
                    0 <= i < self.records@.len() ==> (#[trigger] self.records@[i]).0@ != id@,
            },
    {
        let wanted = chars_of(id);
        let mut i: usize = 0;
        while i < self.records.len()
            invariant
                i <= self.records@.len(),
                wanted@ == id@,
                forall|j: int| 0 <= j < i ==> (#[trigger] self.records@[j]).0@ != id@,
            decreases self.records@.len() - i,
        {
            if is_text(wanted.as_slice(), self.records[i].0.as_str()) {
                return Some(i);
            }
            i += 1;
        }
        None
    }

    /// Keeps `record` as the latest record of the download with the given
    /// name, in the place of the record that was kept before, if there was
    /// one.
    #[verifier::rlimit(50)]
    pub fn publish(&mut self, id: &str, record: DownloadProgress)
        ensures
            final(self)@ == old(self)@.insert(id@, record@),
    {
        proof {
            use_type_invariant(&*self);
        }
        let place = self.find(id);
        let mut records: Vec<(String, DownloadProgress)> = Vec::new();
        std::mem::swap(&mut self.records, &mut records);
        let ghost before = records@;
        match place {
            Some(i) => {
                let entry = (id.to_owned(), record);
                proof {
                    lemma_replaced(before, i as int, entry);
                }
                records.set(i, entry);
            },
            None => {
                let entry = (id.to_owned(), record);
                records.push(entry);
                proof {
                    assert(records@.drop_last() =~= before);
                    assert forall|a: int, b: int| 0 <= a < b < records@.len() implies (
                    #[trigger] records@[a]).0@ != (#[trigger] records@[b]).0@ by {
                        if b < before.len() {
                            assert(before[a].0@ != before[b].0@);
                        } else {
                            assert(before[a].0@ != id@);
                        }
                    }
                }
            },
        }
        std::mem::swap(&mut self.records, &mut records);
    }

    /// The latest record of the download with the given name, if the table
    /// keeps one.
    pub fn get(&self, id: &str) -> (r: Option<&DownloadProgress>)
        ensures
            match r {
                Some(record) => self@.contains_key(id@) && self@[id@] == record@,
                None => !self@.contains_key(id@),
            },
    {
        proof {
            use_type_invariant(self);
        }
        match self.find(id) {
            Some(i) => {
                proof {
                    lemma_present(self.records@, i as int);
                }
                Some(&self.records[i].1)
            },
            None => {
                proof {
                    lemma_absent(self.records@, id@);
                }
                None
            },
        }
    }
}

impl Default for ProgressTable {
    fn default() -> (r: Self)
        ensures
            r@ == Map::<Seq<char>, ProgressView>::empty(),
    {
        ProgressTable::new()
    }
}

/// A download that was announced in a table: the name under which its
/// progress is kept, and where it loads from.
#[derive(Debug, Clone)]
pub struct DownloadRequest {
    pub id: String,
    pub url: String,
}

/// The record that announces a download.
pub open spec fn announced_record() -> ProgressView {
    ProgressView {
        total_bytes: None,
        downloaded_bytes: 0,
        percentage: 0,
        phase: DownloadPhase::Connecting,
        message: Some("Starting download..."@),
    }
}

/// Announces the download of a file of a repository: puts a first record
/// into the table and says under which name the progress is kept and where
/// the file is fetched from. The revision is `main` and the file
/// `model.safetensors` unless the caller names others. The download itself
/// is the caller's to run.
pub fn start_download_with_progress(
    table: &mut ProgressTable,
    repo: &str,
    revision: Option<&str>,
    filename: Option<&str>,
) -> (r: Result<DownloadRequest, InferenceError>)
    ensures
        r matches Ok(request) && request.id@ == download_id_text(repo@, text_or(revision, "main"@))
            && request.url@ == resolve_url_text(
            repo@,
            text_or(revision, "main"@),
            text_or(filename, "model.safetensors"@),
        ) && final(table)@ == old(table)@.insert(request.id@, announced_record()),
{
    let revision: &str = match revision {
        Some(revision) => revision,
        None => "main",
    };
    let filename: &str = match filename {
        Some(filename) => filename,
        None => "model.safetensors",
    };
    let id = download_id(repo, revision);
    let record = DownloadProgress {
        total_bytes: None,
        downloaded_bytes: 0,
        percentage: 0,
        phase: DownloadPhase::Connecting,
        message: Some("Starting download...".to_owned()),
    };
    table.publish(id.as_str(), record);
    Ok(DownloadRequest { id, url: resolve_url(repo, revision, filename) })
}

/// The latest record of the download with the given name, if the table
/// keeps one.
pub fn get_download_progress<'a>(table: &'a ProgressTable, repo: &str) -> (r: Option<
    &'a DownloadProgress,
>)
    ensures
        match r {
            Some(record) => table@.contains_key(repo@) && table@[repo@] == record@,
            None => !table@.contains_key(repo@),
        },
{
    table.get(repo)
}

} // verus!
