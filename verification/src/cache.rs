//! The local cache of downloaded models: the key under which a model is
//! kept, the place of the cache and of its files, the order in which the
//! cache and the network are asked for a model, and the size of the cache.
//! Reading and writing the files is the caller's part.
use vstd::prelude::*;
use vstd::std_specs::hash::DefaultHasherAdditionalSpecFns;
use vstd::string::StringExecFns;
use vstd::utf8::encode_utf8;
use std::collections::hash_map::DefaultHasher;
use std::hash::Hasher;
use crate::error::InferenceError;
use crate::text::{hex_text, push_hex};

verus! {

/// The hash of a source: that of the standard hasher after it was fed the
/// bytes of the source in UTF-8 and the byte that ends a text.
pub open spec fn source_hash(source: Seq<char>) -> u64 {
    DefaultHasher::spec_finish(seq![encode_utf8(source), seq![0xFFu8]])
}

/// The cache key of a source for which the caller gives none: `url_` and the
/// hash of the source in hexadecimal.
pub open spec fn cache_key_text(source: Seq<char>) -> Seq<char> {
    "url_"@ + hex_text(source_hash(source) as nat)
}

/// The cache key of a source for which the caller gives none. It depends on
/// the source alone.
pub fn url_to_cache_key(url: &str) -> (r: String)
    ensures
        r@ == cache_key_text(url@),
{
    let mut hasher = DefaultHasher::new();
    hasher.write(url.as_bytes());
    let mut end: Vec<u8> = Vec::new();
    end.push(0xFF);
    hasher.write(end.as_slice());
    assert(hasher@ =~= seq![encode_utf8(url@), seq![0xFFu8]]);
    let hash = hasher.finish();
    let mut key = String::new();
    key.append("url_");
    push_hex(&mut key, hash);
    assert(key@ =~= cache_key_text(url@));
    key
}

/// A path with one more component: the component alone where the path is
/// empty, and else the path, a separator unless the path ends with one, and
/// the component.
pub open spec fn joined(base: Seq<char>, name: Seq<char>) -> Seq<char> {
    if base.len() == 0 {
        name
    } else if base.last() == '/' {
        base + name
    } else {
        base + seq!['/'] + name
    }
}

/// Appends a component to a path.
pub fn join_path(base: &str, name: &str) -> (r: String)
    ensures
        r@ == joined(base@, name@),
{
    let chars = crate::text::chars_of(base);
    let mut path = String::new();
    path.append(base);
    if chars.len() > 0 && chars[chars.len() - 1] != '/' {
        proof {
            reveal_strlit("/");
        }
        path.append("/");
    }
    path.append(name);
    assert(path@ =~= joined(base@, name@));
    path
}

/// The directory of the cache, given what the environment says: below the
/// cache home if there is one; else below the home directory; else below the
/// directory for application data; else there is none.
pub open spec fn cache_dir_text(
    cache_home: Option<Seq<char>>,
    home: Option<Seq<char>>,
    app_data: Option<Seq<char>>,
) -> Option<Seq<char>> {
    match cache_home {
        Some(dir) => Some(joined(dir, "inference"@)),
        None => match home {
            Some(dir) => Some(joined(joined(dir, ".cache"@), "inference"@)),
            None => match app_data {
                Some(dir) => Some(joined(joined(dir, "inference"@), "cache"@)),
                None => None,
            },
        },
    }
}

/// What an optional text slice says.
pub open spec fn str_view(text: Option<&str>) -> Option<Seq<char>> {
    match text {
        Some(t) => Some(t@),
        None => None,
    }
}

/// The directory of the cache. The arguments are the values of the
/// environment variables for the cache home, the home directory and the
/// directory for application data, as far as they are set. Fails with
/// `ModelLoad` exactly when none is set.
pub fn get_cache_dir(cache_home: Option<&str>, home: Option<&str>, app_data: Option<&str>) -> (r:
    Result<String, InferenceError>)
    ensures
        match r {
            Ok(dir) => cache_dir_text(str_view(cache_home), str_view(home), str_view(app_data))
                == Some(dir@),
            Err(e) => cache_dir_text(str_view(cache_home), str_view(home), str_view(app_data))
                is None && e is ModelLoad,
        },
{
    match cache_home {
        Some(dir) => Ok(join_path(dir, "inference")),
        None => match home {
            Some(dir) => {
                let below = join_path(dir, ".cache");
                Ok(join_path(below.as_str(), "inference"))
            },
            None => match app_data {
                Some(dir) => {
                    let below = join_path(dir, "inference");
                    Ok(join_path(below.as_str(), "cache"))
                },
                None => Err(InferenceError::model_load("Unable to determine cache directory")),
            },
        },
    }
}

/// The file of the cache that holds the model with the given key: the key
/// with the extension `bin`, in the directory of the cache.
pub open spec fn cache_file_text(cache_dir: Seq<char>, cache_key: Seq<char>) -> Seq<char> {
    joined(cache_dir, cache_key + ".bin"@)
}

/// The file of the cache that holds the model with the given key.
pub fn cache_file_path(cache_dir: &str, cache_key: &str) -> (r: String)
    ensures
        r@ == cache_file_text(cache_dir@, cache_key@),
{
    let mut name = String::new();
    name.append(cache_key);
    name.append(".bin");
    assert(name@ =~= cache_key@ + ".bin"@);
    join_path(cache_dir, name.as_str())
}

/// In one directory, models with different keys are kept in different
/// files.
pub proof fn lemma_cache_files_are_distinct(cache_dir: Seq<char>, first: Seq<char>, second: Seq<char>)
    requires
        cache_file_text(cache_dir, first) == cache_file_text(cache_dir, second),
    ensures
        first == second,
{
    let a = first + ".bin"@;
    let b = second + ".bin"@;
    let prefix = if cache_dir.len() == 0 {
        Seq::<char>::empty()
    } else if cache_dir.last() == '/' {
        cache_dir
    } else {
        cache_dir + seq!['/']
    };
    assert(joined(cache_dir, a) =~= prefix + a);
    assert(joined(cache_dir, b) =~= prefix + b);
    assert((prefix + a).len() == (prefix + b).len());
    assert(first.len() == second.len());
    assert forall|i: int| 0 <= i < first.len() implies first[i] == second[i] by {
        assert((prefix + a)[prefix.len() + i] == a[i]);
        assert((prefix + b)[prefix.len() + i] == b[i]);
        assert(a[i] == first[i]);
        assert(b[i] == second[i]);
    }
    assert(first =~= second);
}

/// What to do next to get the bytes of a model.
#[derive(Debug, Clone, PartialEq, Eq)]
pub enum AcquisitionStep {
    /// Look into the cache under the key.
    ReadCache { key: String },
    /// Download the model.
    Download,
    /// Write the downloaded bytes to the cache under the key.
    WriteCache { key: String },
    /// Hand the bytes on to be loaded.
    Load,
}

/// What an acquisition step says.
pub enum StepView {
    ReadCache { key: Seq<char> },
    Download,
    WriteCache { key: Seq<char> },
    Load,
}

impl View for AcquisitionStep {
    type V = StepView;

    open spec fn view(&self) -> StepView {
        match self {
            AcquisitionStep::ReadCache { key } => StepView::ReadCache { key: key@ },
            AcquisitionStep::Download => StepView::Download,
            AcquisitionStep::WriteCache { key } => StepView::WriteCache { key: key@ },
            AcquisitionStep::Load => StepView::Load,
        }
    }
}

/// The key under which the cache keeps the model of a source: the one the
/// caller gives, or else the one that is made of the source.
pub open spec fn effective_key(source: Seq<char>, cache_key: Option<Seq<char>>) -> Seq<char> {
    match cache_key {
        Some(key) => key,
        None => cache_key_text(source),
    }
}

/// How the bytes of a model are got: from the cache or from the network.
/// With a cache, the cache is asked first and the network only where the
/// cache has nothing; what was downloaded is then written to the cache, and
/// loaded whether or not the writing succeeded. Without a cache the model is
/// downloaded and loaded.
#[derive(Debug, Clone)]
pub struct Acquisition {
    key: Option<String>,
}

impl View for Acquisition {
    type V = Option<Seq<char>>;

    closed spec fn view(&self) -> Option<Seq<char>> {
        match self.key {
            Some(key) => Some(key@),
            None => None,
        }
    }
}

impl Acquisition {
    /// Begins the acquisition of the model at `url`. `cache` says whether to
    /// use the cache, `cache_key` the key to use there, if the caller has one.
    /// The first step is to look into the cache, or to download where no
    /// cache is used.
    pub fn begin(url: &str, cache: bool, cache_key: Option<&str>) -> (r: (Acquisition, AcquisitionStep))
        ensures
            r.0@ == if cache {
                Some(effective_key(url@, str_view(cache_key)))
            } else {
                None
            },
            r.1@ == if cache {
                StepView::ReadCache { key: effective_key(url@, str_view(cache_key)) }
            } else {
                StepView::Download
            },
    {
        if !cache {
            return (Acquisition { key: None }, AcquisitionStep::Download);
        }
        let key = match cache_key {
            Some(key) => key.to_owned(),
            None => url_to_cache_key(url),
        };
        let step = AcquisitionStep::ReadCache { key: key.clone() };
        (Acquisition { key: Some(key) }, step)
    }

    /// The step after the cache was asked: to load where it had the model,
    /// to download where it had not.
    pub fn after_cache_read(&self, found: bool) -> (r: AcquisitionStep)
        ensures
            r@ == if found {
                StepView::Load
            } else {
                StepView::Download
            },
    {
        if found {
            AcquisitionStep::Load
        } else {
            AcquisitionStep::Download
        }
    }

    /// The step after the model was downloaded: to write it to the cache
    /// where a cache is used, else to load it.
    pub fn after_download(&self) -> (r: AcquisitionStep)
        ensures
            r@ == match self@ {
                Some(key) => StepView::WriteCache { key },
                None => StepView::Load,
            },
    {
        match &self.key {
            Some(key) => AcquisitionStep::WriteCache { key: key.clone() },
            None => AcquisitionStep::Load,
        }
    }

    /// The step after the cache was written to: to load the model, whether
    /// or not the writing succeeded.
    pub fn after_cache_write(&self, written: bool) -> (r: AcquisitionStep)
        ensures
            r@ == StepView::Load,
    {
        AcquisitionStep::Load
    }
}

/// The sum of a list of sizes, capped at the largest 64-bit number.
pub open spec fn capped_sum(sizes: Seq<u64>) -> u64
    decreases sizes.len(),
{
    if sizes.len() == 0 {
        0
    } else if capped_sum(sizes.drop_last()) + sizes.last() > u64::MAX {
        u64::MAX
    } else {
        (capped_sum(sizes.drop_last()) + sizes.last()) as u64
    }
}

/// The size of the cache: the sum of the sizes of its files, capped at the
/// largest 64-bit number.
pub fn get_cache_size(file_sizes: &[u64]) -> (r: u64)
    ensures
        r == capped_sum(file_sizes@),
{
    let mut total: u64 = 0;
    let mut i: usize = 0;
    assert(file_sizes@.take(0) =~= Seq::<u64>::empty());
    while i < file_sizes.len()
        invariant
            i <= file_sizes@.len(),
            total == capped_sum(file_sizes@.take(i as int)),
        decreases file_sizes@.len() - i,
    {
        assert(file_sizes@.take(i + 1).drop_last() =~= file_sizes@.take(i as int));
        total = total.saturating_add(file_sizes[i]);
        i += 1;
    }
    assert(file_sizes@.take(file_sizes@.len() as int) =~= file_sizes@);
    total
}

} // verus!
