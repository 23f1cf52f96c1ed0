//! The preparation of inputs. Text is turned into token numbers here; the
//! numerical preparation of images and audio is the caller's part, and only
//! its settings are kept here.
use vstd::prelude::*;
use vstd::utf8::encode_utf8;
use crate::error::InferenceError;
use crate::ieee::{single_from_u32, single_of_u32};
use crate::tensor::{lemma_product_single, words32_to_bytes, DataType, Tensor, TensorView};
use crate::text::{chars_of, is_text, string_of};

verus! {

/// A text in lower case, as the standard library makes it.
pub uninterp spec fn lowercase_of(text: Seq<char>) -> Seq<char>;

/// Whether a character is a letter or a digit, as the standard library
/// judges it.
pub uninterp spec fn is_alphanumeric(c: char) -> bool;

/// Whether a character is white space, as the standard library judges it.
pub uninterp spec fn is_whitespace(c: char) -> bool;

/// `str::to_lowercase`: the text in lower case. The result depends on the
/// text alone.
#[verifier::external_body]
fn to_lowercase(text: &str) -> (r: String)
    ensures
        r@ == lowercase_of(text@),
{
    text.to_lowercase()
}

/// `char::is_alphanumeric`. The result depends on the character alone.
#[verifier::external_body]
fn char_is_alphanumeric(c: char) -> (r: bool)
    ensures
        r == is_alphanumeric(c),
{
    c.is_alphanumeric()
}

/// `char::is_whitespace`. The result depends on the character alone.
#[verifier::external_body]
fn char_is_whitespace(c: char) -> (r: bool)
    ensures
        r == is_whitespace(c),
{
    c.is_whitespace()
}

/// The order of the dimensions of an image.
#[derive(Debug, Clone, Copy, PartialEq, Eq, Structural)]
pub enum ImageFormat {
    /// Height, width, channels.
    HWC,
    /// Channels, height, width.
    CHW,
}

/// How to turn a text into token numbers.
#[derive(Debug, Clone)]
pub struct TextPreprocessConfig {
    /// Whether to put the text into lower case first.
    pub lowercase: bool,
    /// Whether to drop every character that is neither a letter, a digit nor
    /// white space.
    pub remove_punctuation: bool,
    /// The number of tokens to cut or fill the result to, if any.
    pub max_length: Option<usize>,
    /// The numbers of the known words, if there is a vocabulary; of two
    /// entries for one word the later counts.
    pub vocabulary: Option<Vec<(String, u32)>>,
    /// The number of a word that the vocabulary does not know.
    pub unknown_token_id: u32,
    /// The number that fills a result that is too short.
    pub padding_token_id: u32,
}

impl Default for TextPreprocessConfig {
    fn default() -> (r: Self)
        ensures
            r.lowercase,
            !r.remove_punctuation,
            r.max_length is None,
            r.vocabulary is None,
            r.unknown_token_id == 0,
            r.padding_token_id == 0,
    {
        TextPreprocessConfig {
            lowercase: true,
            remove_punctuation: false,
            max_length: None,
            vocabulary: None,
            unknown_token_id: 0,
            padding_token_id: 0,
        }
    }
}

/// How to prepare audio samples.
#[derive(Debug, Clone)]
pub struct AudioPreprocessConfig {
    pub normalize: bool,
    pub target_sample_rate: Option<u32>,
    pub window_size: Option<usize>,
    pub hop_size: Option<usize>,
}

impl Default for AudioPreprocessConfig {
    fn default() -> (r: Self)
        ensures
            r.normalize,
            r.target_sample_rate is None,
            r.window_size is None,
            r.hop_size is None,
    {
        AudioPreprocessConfig {
            normalize: true,
            target_sample_rate: None,
            window_size: None,
            hop_size: None,
        }
    }
}

/// A text without the characters that are neither letters, digits nor white
/// space.
pub open spec fn without_punctuation(text: Seq<char>) -> Seq<char>
    decreases text.len(),
{
    if text.len() == 0 {
        Seq::empty()
    } else if is_alphanumeric(text.last()) || is_whitespace(text.last()) {
        without_punctuation(text.drop_last()).push(text.last())
    } else {
        without_punctuation(text.drop_last())
    }
}

/// The words of a text: its longest runs of characters that are no white
/// space, in their order.
pub open spec fn words_of(text: Seq<char>) -> Seq<Seq<char>>
    decreases text.len(),
{
    if text.len() == 0 {
        Seq::empty()
    } else if is_whitespace(text.last()) {
        words_of(text.drop_last())
    } else if text.len() >= 2 && !is_whitespace(text[text.len() - 2]) {
        let earlier = words_of(text.drop_last());
        earlier.drop_last().push(earlier.last().push(text.last()))
    } else {
        words_of(text.drop_last()).push(seq![text.last()])
    }
}

/// The vocabulary that a list of words and numbers stands for: a later entry
/// takes the place of an earlier one for the same word.
pub open spec fn vocabulary_map(entries: Seq<(String, u32)>) -> Map<Seq<char>, u32>
    decreases entries.len(),
{
    if entries.len() == 0 {
        Map::empty()
    } else {
        vocabulary_map(entries.drop_last()).insert(entries.last().0@, entries.last().1)
    }
}

/// The number of a word: with a vocabulary, the number that it gives the
/// word, or the number for unknown words; without one, the number of bytes
/// of the word in UTF-8, modulo one thousand.
pub open spec fn token_id(word: Seq<char>, vocabulary: Option<Vec<(String, u32)>>, unknown: u32)
    -> u32 {
    match vocabulary {
        Some(entries) => if vocabulary_map(entries@).contains_key(word) {
            vocabulary_map(entries@)[word]
        } else {
            unknown
        },
        None => (encode_utf8(word).len() % 1000) as u32,
    }
}

/// A list of token numbers cut or filled to a length, if one is given.
pub open spec fn fitted(ids: Seq<u32>, max_length: Option<usize>, padding: u32) -> Seq<u32> {
    match max_length {
        None => ids,
        Some(n) => if ids.len() > n {
            ids.take(n as int)
        } else {
            ids + Seq::new((n - ids.len()) as nat, |i: int| padding)
        },
    }
}

/// The text that is split into words: the given one, put into lower case
/// and rid of punctuation as the configuration says.
pub open spec fn prepared_text(text: Seq<char>, config: TextPreprocessConfig) -> Seq<char> {
    let cased = if config.lowercase {
        lowercase_of(text)
    } else {
        text
    };
    if config.remove_punctuation {
        without_punctuation(cased)
    } else {
        cased
    }
}

/// The token numbers of a text.
pub open spec fn token_ids(text: Seq<char>, config: TextPreprocessConfig) -> Seq<u32> {
    let words = words_of(prepared_text(text, config));
    fitted(
        Seq::new(
            words.len(),
            |i: int| token_id(words[i], config.vocabulary, config.unknown_token_id),
        ),
        config.max_length,
        config.padding_token_id,
    )
}

/// The patterns of the 32-bit floats nearest to a list of token numbers.
pub open spec fn token_bits(ids: Seq<u32>) -> Seq<u32> {
    Seq::new(ids.len(), |i: int| single_of_u32(ids[i]))
}

/// The preparation of inputs.
pub struct Preprocessor;

impl Preprocessor {
    /// Drops the characters that are neither letters, digits nor white
    /// space.
    pub fn remove_punctuation(text: &[char]) -> (r: Vec<char>)
        ensures
            r@ == without_punctuation(text@),
    {
        let mut kept: Vec<char> = Vec::new();
        let mut i: usize = 0;
        assert(text@.take(0) =~= Seq::<char>::empty());
        while i < text.len()
            invariant
                i <= text@.len(),
                kept@ == without_punctuation(text@.take(i as int)),
            decreases text@.len() - i,
        {
            assert(text@.take(i + 1).drop_last() =~= text@.take(i as int));
            let c = text[i];
            if char_is_alphanumeric(c) || char_is_whitespace(c) {
                kept.push(c);
            }
            i += 1;
        }
        assert(text@.take(text@.len() as int) =~= text@);
        kept
    }

    /// Splits a text into its words.
    #[verifier::rlimit(50)]
    pub fn split_words(text: &[char]) -> (r: Vec<Vec<char>>)
        ensures
            r@.len() == words_of(text@).len(),
            forall|i: int| 0 <= i < r@.len() ==> (#[trigger] r@[i])@ == words_of(text@)[i],
    {
        let mut words: Vec<Vec<char>> = Vec::new();
        let mut current: Vec<char> = Vec::new();
        let mut i: usize = 0;
        assert(text@.take(0) =~= Seq::<char>::empty());
        while i < text.len()
            invariant
                i <= text@.len(),
                i == 0 ==> current@.len() == 0,
                i > 0 && is_whitespace(text@[i - 1]) ==> current@.len() == 0,
                i > 0 && !is_whitespace(text@[i - 1]) ==> current@.len() > 0,
                current@.len() == 0 ==> {
                    &&& words@.len() == words_of(text@.take(i as int)).len()
                    &&& forall|j: int|
                        0 <= j < words@.len() ==> (#[trigger] words@[j])@ == words_of(
                            text@.take(i as int),
                        )[j]
                },
                current@.len() > 0 ==> {
                    &&& i > 0 && !is_whitespace(text@[i - 1])
                    &&& words@.len() + 1 == words_of(text@.take(i as int)).len()
                    &&& forall|j: int|
                        0 <= j < words@.len() ==> (#[trigger] words@[j])@ == words_of(
                            text@.take(i as int),
                        )[j]
                    &&& current@ == words_of(text@.take(i as int)).last()
                },
            decreases text@.len() - i,
        {
            let ghost before = text@.take(i as int);
            let ghost after = text@.take(i + 1);
            assert(after.drop_last() =~= before);
            assert(after.last() == text@[i as int]);
            assert(i > 0 ==> after[after.len() - 2] == text@[i - 1]);
            let c = text[i];
            if char_is_whitespace(c) {
                if current.len() > 0 {
                    let mut finished: Vec<char> = Vec::new();
                    std::mem::swap(&mut current, &mut finished);
                    words.push(finished);
                }
            } else {
                let ghost earlier = words_of(before);
                let ghost open = current@;
                current.push(c);
                proof {
                    if open.len() > 0 {
                        assert(words_of(after) == earlier.drop_last().push(
                            earlier.last().push(c),
                        ));
                        assert(words_of(after).len() == earlier.len());
                        assert forall|j: int| 0 <= j < words@.len() implies (
                        #[trigger] words@[j])@ == words_of(after)[j] by {
                            assert(words_of(after)[j] == earlier[j]);
                        }
                    } else {
                        assert(words_of(after) == earlier.push(seq![c]));
                        assert(current@ =~= seq![c]);
                        assert forall|j: int| 0 <= j < words@.len() implies (
                        #[trigger] words@[j])@ == words_of(after)[j] by {
                            assert(words_of(after)[j] == earlier[j]);
                        }
                    }
                }
            }
            i += 1;
        }
        assert(text@.take(text@.len() as int) =~= text@);
        if current.len() > 0 {
            words.push(current);
        }
        words
    }

    /// The number that a vocabulary gives a word, if it knows the word.
    pub fn lookup(entries: &Vec<(String, u32)>, word: &[char]) -> (r: Option<u32>)
        ensures
            match r {
                Some(id) => vocabulary_map(entries@).contains_key(word@) && vocabulary_map(
                    entries@,
                )[word@] == id,
                None => !vocabulary_map(entries@).contains_key(word@),
            },
    {
        let mut i: usize = entries.len();
        assert(entries@.take(i as int) =~= entries@);
        while i > 0
            invariant
                i <= entries@.len(),
                vocabulary_map(entries@).contains_key(word@) == vocabulary_map(
                    entries@.take(i as int),
                ).contains_key(word@),
                vocabulary_map(entries@).contains_key(word@) ==> vocabulary_map(entries@)[word@]
                    == vocabulary_map(entries@.take(i as int))[word@],
            decreases i,
        {
            let ghost prefix = entries@.take(i as int);
            assert(prefix.drop_last() =~= entries@.take(i - 1));
            assert(prefix.last() == entries@[i - 1]);
            if is_text(word, entries[i - 1].0.as_str()) {
                return Some(entries[i - 1].1);
            }
            i -= 1;
        }
        None
    }

    /// Cuts or fills a list of token numbers to a length, if one is given.
    pub fn fit(ids: Vec<u32>, max_length: Option<usize>, padding: u32) -> (r: Vec<u32>)
        ensures
            r@ == fitted(ids@, max_length, padding),
    {
        let mut ids = ids;
        let ghost given = ids@;
        match max_length {
            None => ids,
            Some(n) => {
                if ids.len() > n {
                    ids.truncate(n);
                    assert(ids@ =~= given.take(n as int));
                    ids
                } else {
                    while ids.len() < n
                        invariant
                            given.len() <= ids@.len() <= n,
                            forall|j: int| 0 <= j < given.len() ==> ids@[j] == given[j],
                            forall|j: int| given.len() <= j < ids@.len() ==> ids@[j] == padding,
                        decreases n - ids@.len(),
                    {
                        ids.push(padding);
                    }
                    assert(ids@ =~= given + Seq::new((n - given.len()) as nat, |i: int| padding));
                    ids
                }
            },
        }
    }

    /// The token numbers of a text: the text is put into lower case and rid
    /// of punctuation as the configuration says, split into words, each word
    /// is given its number, and the list is cut or filled to the length that
    /// the configuration gives, if it gives one.
    #[verifier::rlimit(50)]
    pub fn tokenize_text(text: &str, config: &TextPreprocessConfig) -> (r: Vec<u32>)
        ensures
            r@ == token_ids(text@, *config),
    {
        let cased: Vec<char> = if config.lowercase {
            let lowered = to_lowercase(text);
            chars_of(lowered.as_str())
        } else {
            chars_of(text)
        };
        let prepared: Vec<char> = if config.remove_punctuation {
            Self::remove_punctuation(cased.as_slice())
        } else {
            cased
        };
        assert(prepared@ == prepared_text(text@, *config));
        let words = Self::split_words(prepared.as_slice());
        let mut ids: Vec<u32> = Vec::new();
        let mut i: usize = 0;
        while i < words.len()
            invariant
                i <= words@.len(),
                ids@.len() == i,
                words@.len() == words_of(prepared@).len(),
                forall|j: int|
                    0 <= j < words@.len() ==> (#[trigger] words@[j])@ == words_of(prepared@)[j],
                forall|j: int|
                    0 <= j < i ==> ids@[j] == token_id(
                        words_of(prepared@)[j],
                        config.vocabulary,
                        config.unknown_token_id,
                    ),
            decreases words@.len() - i,
        {
            let word = &words[i];
            assert(word@ == words_of(prepared@)[i as int]);
            let id: u32 = match &config.vocabulary {
                Some(entries) => match Self::lookup(entries, word.as_slice()) {
                    Some(id) => id,
                    None => config.unknown_token_id,
                },
                None => {
                    let written = string_of(word.as_slice());
                    let size = written.as_str().as_bytes().len();
                    assert(size == encode_utf8(word@).len());
                    (size % 1000) as u32
                },
            };
            assert(id == token_id(word@, config.vocabulary, config.unknown_token_id));
            ids.push(id);
            i += 1;
        }
        let ghost numbered = Seq::new(
            words_of(prepared@).len(),
            |i: int|
                token_id(words_of(prepared@)[i], config.vocabulary, config.unknown_token_id),
        );
        assert(ids@ =~= numbered);
        Self::fit(ids, config.max_length, config.padding_token_id)
    }

    /// The tensor of the token numbers of a text: a vector of 32-bit floats,
    /// one for each token number and nearest to it. See
    /// [`Preprocessor::tokenize_text`] for the token numbers. This never
    /// fails.
    pub fn preprocess_text(text: &str, config: &TextPreprocessConfig) -> (r: Result<
        Tensor,
        InferenceError,
    >)
        ensures
            r matches Ok(t) && t@ == (TensorView {
                data: words32_to_bytes(token_bits(token_ids(text@, *config))),
                shape: seq![token_ids(text@, *config).len() as usize],
                data_type: DataType::F32,
            }),
    {
        let ids = Self::tokenize_text(text, config);
        let mut bits: Vec<u32> = Vec::new();
        let mut i: usize = 0;
        while i < ids.len()
            invariant
                i <= ids@.len(),
                bits@.len() == i,
                forall|j: int| 0 <= j < i ==> bits@[j] == single_of_u32(ids@[j]),
            decreases ids@.len() - i,
        {
            bits.push(single_from_u32(ids[i]));
            i += 1;
        }
        assert(bits@ =~= token_bits(ids@));
        let mut shape: Vec<usize> = Vec::new();
        shape.push(ids.len());
        proof {
            assert(shape@ =~= seq![ids@.len() as usize]);
            lemma_product_single(ids@.len() as usize);
        }
        Tensor::from_f32_bits(bits, shape)
    }
}

} // verus!
