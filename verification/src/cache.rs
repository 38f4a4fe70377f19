//! The cache of a built index: when it may be used, where it lies, and how an
//! index is written to bytes and read back.
use vstd::prelude::*;
use crate::index::{found_records_model, keys_nonempty, records_model, Dictionary};
use crate::lookup::{
    is_search_result, lemma_full_listing_builds_index, lemma_search_result_unique, pairs_index,
};
use crate::model::{EntryModel, Record};

verus! {

/// The stage of a load that failed.
#[derive(Clone, Copy, Debug, PartialEq, Eq, Structural)]
pub enum LoadErrorKind {
    /// The source could not be opened.
    SourceOpen,
    /// A line of the source could not be read as text.
    SourceRead,
    /// The cache could not be read back as an index.
    CacheDeserialize,
    /// The cache of a freshly built index could not be written.
    CachePersist,
}

/// Why a load failed: the stage, and the file that it worked on.
#[derive(Clone, Debug, PartialEq, Eq)]
pub struct LoadError {
    pub kind: LoadErrorKind,
    pub path: String,
}

impl View for LoadError {
    type V = (LoadErrorKind, Seq<char>);

    open spec fn view(&self) -> (LoadErrorKind, Seq<char>) {
        (self.kind, self.path@)
    }
}

/// What the message says of a failing stage.
pub open spec fn stage_text(kind: LoadErrorKind) -> Seq<char> {
    match kind {
        LoadErrorKind::SourceOpen => "failed to open dictionary at "@,
        LoadErrorKind::SourceRead => "failed to read dictionary at "@,
        LoadErrorKind::CacheDeserialize => "failed to load the dictionary word index from "@,
        LoadErrorKind::CachePersist => "failed to save the dictionary word index to "@,
    }
}

impl LoadError {
    /// One line for the user: the stage that failed and the file.
    pub fn message(&self) -> (text: String)
        ensures
            text@ == stage_text(self.kind) + self.path@,
    {
        let stage = match self.kind {
            LoadErrorKind::SourceOpen => "failed to open dictionary at ",
            LoadErrorKind::SourceRead => "failed to read dictionary at ",
            LoadErrorKind::CacheDeserialize => "failed to load the dictionary word index from ",
            LoadErrorKind::CachePersist => "failed to save the dictionary word index to ",
        };
        stage.to_owned().concat(self.path.as_str())
    }
}

/// Where the source of the dictionary lies.
pub open spec fn dictionary_path() -> Seq<char> {
    "data/kaikki.org-dictionary-English.jsonl"@
}

/// The extension of every cache.
pub open spec fn cache_extension() -> Seq<char> {
    seq!['.', 'c', 'a', 'c', 'h', 'e']
}

/// Whether the cache is used. It is used only if it exists, both files
/// report when they were last modified, and the cache was modified strictly
/// later than the source. Times count from a common origin in a common unit.
pub open spec fn uses_cache(
    cache_exists: bool,
    source_modified: Option<i128>,
    cache_modified: Option<i128>,
) -> bool {
    cache_exists && source_modified is Some && cache_modified is Some && cache_modified->Some_0
        > source_modified->Some_0
}

/// The place of the dot that begins the extension of the file name, looking
/// at the first `end` characters of `path`: the last dot of the file name,
/// unless the name begins with it. The file name is what follows the last
/// `/`.
pub open spec fn extension_dot(path: Seq<char>, end: int) -> Option<int>
    decreases end,
{
    if end <= 0 || end > path.len() {
        None
    } else if path[end - 1] == '/' {
        None
    } else if path[end - 1] == '.' {
        if end - 1 > 0 && path[end - 2] != '/' {
            Some(end - 1)
        } else {
            None
        }
    } else {
        extension_dot(path, end - 1)
    }
}

/// The path of the cache of a source: the path of the source with the
/// extension of its file name replaced by the cache extension, or with the
/// cache extension added where the file name has none.
pub open spec fn cache_path_of(source: Seq<char>) -> Seq<char> {
    match extension_dot(source, source.len() as int) {
        Some(dot) => source.take(dot) + cache_extension(),
        None => source + cache_extension(),
    }
}

/// Where the source of the dictionary lies.
pub fn find_dictionary_path() -> (path: String)
    ensures
        path@ == dictionary_path(),
{
    "data/kaikki.org-dictionary-English.jsonl".to_owned()
}

/// Decides whether to read the index from the cache rather than build it
/// from the source. Equal times count against the cache.
pub fn should_cache(
    cache_exists: bool,
    source_modified: Option<i128>,
    cache_modified: Option<i128>,
) -> (use_cache: bool)
    ensures
        use_cache == uses_cache(cache_exists, source_modified, cache_modified),
        source_modified is Some && cache_modified is Some && source_modified->Some_0
            >= cache_modified->Some_0 ==> !use_cache,
        cache_exists && source_modified is Some && cache_modified is Some
            && source_modified->Some_0 < cache_modified->Some_0 ==> use_cache,
{
    if !cache_exists {
        return false;
    }
    match (source_modified, cache_modified) {
        (Some(source), Some(cache)) => cache > source,
        _ => false,
    }
}

/// The path of the cache that belongs to a source.
pub fn cache_path_for(source: &str) -> (path: String)
    ensures
        path@ == cache_path_of(source@),
{
    let length: usize = source.unicode_len();
    let mut dot: Option<usize> = None;
    let mut after_separator: bool = true;
    let mut i: usize = 0;
    for c in it: source.chars()
        invariant
            it.seq() == source@,
            length == source@.len(),
            i == it.index(),
            i <= length,
            after_separator == (i == 0 || source@[i - 1] == '/'),
            match dot {
                Some(d) => extension_dot(source@, i as int) == Some(d as int) && d < i,
                None => extension_dot(source@, i as int) is None,
            },
    {
        if c == '/' {
            dot = None;
        } else if c == '.' {
            if after_separator {
                dot = None;
            } else {
                dot = Some(i);
            }
        }
        after_separator = c == '/';
        i += 1;
    }
    proof {
        reveal_strlit(".cache");
        assert(".cache"@ =~= cache_extension());
    }
    match dot {
        Some(d) => {
            assert(source@.subrange(0, d as int) =~= source@.take(d as int));
            source.substring_char(0, d).to_owned().concat(".cache")
        },
        None => source.to_owned().concat(".cache"),
    }
}

/// `postcard::Error`. Which error it is does not matter here: every one of
/// them becomes a [`LoadError`] of the stage that met it.
#[verifier::external_type_specification]
#[verifier::external_body]
pub struct ExPostcardError(postcard::Error);

/// The bytes that `postcard` writes for a list of keyed records, or `None`
/// where it reports an error.
pub uninterp spec fn cache_encoding(pairs: Seq<(Seq<u8>, EntryModel)>) -> Option<Seq<u8>>;

/// The list of keyed records that `postcard` reads from bytes, or `None`
/// where it reports an error. Bytes that follow the list are ignored.
pub uninterp spec fn cache_decoding(bytes: Seq<u8>) -> Option<Seq<(Seq<u8>, EntryModel)>>;

/// Calls `postcard::to_stdvec` on a list of keyed records. The contract
/// claims that the outcome depends on what the list holds alone, and that
/// `postcard` reads from the bytes it wrote the list that it was given.
#[verifier::external_body]
fn encode_pairs(pairs: &Vec<(Vec<u8>, &Record)>) -> (r: Result<Vec<u8>, postcard::Error>)
    ensures
        r is Err ==> cache_encoding(found_records_model(pairs@)) is None,
        r is Ok ==> cache_encoding(found_records_model(pairs@)) == Some(r->Ok_0@),
        r is Ok ==> cache_decoding(r->Ok_0@) == Some(found_records_model(pairs@)),
{
    postcard::to_stdvec(pairs)
}

/// Calls `postcard::from_bytes` for a list of keyed records. The contract
/// claims that the outcome depends on the bytes alone.
#[verifier::external_body]
fn decode_pairs(bytes: &[u8]) -> (r: Result<Vec<(Vec<u8>, Record)>, postcard::Error>)
    ensures
        r is Err ==> cache_decoding(bytes@) is None,
        r is Ok ==> cache_decoding(bytes@) == Some(records_model(r->Ok_0@)),
{
    postcard::from_bytes(bytes)
}

/// The full listing of an index: its pairs in ascending order of the keys.
pub open spec fn index_listing(index: Map<Seq<u8>, EntryModel>) -> Seq<(Seq<u8>, EntryModel)> {
    choose|found: Seq<(Seq<u8>, EntryModel)>| is_search_result(index, Seq::empty(), found)
}

/// The index that the bytes of a cache hold: the one that their list of keyed
/// records builds, if the bytes can be read as such a list and no key in it
/// is empty.
pub open spec fn cache_index(bytes: Seq<u8>) -> Option<Map<Seq<u8>, EntryModel>> {
    match cache_decoding(bytes) {
        Some(pairs) if keys_nonempty(pairs) => Some(pairs_index(pairs)),
        _ => None,
    }
}

/// Round trip: bytes that hold an index are read back as an index that
/// answers every query as the first one does, with the same keys and entries
/// in the same order. The bytes that [`save_to_cache`] returns hold the index
/// that they were made from, and [`load_from_cache`] returns the index that
/// its bytes hold.
pub proof fn lemma_reloaded_index_answers_alike(
    index: Map<Seq<u8>, EntryModel>,
    bytes: Seq<u8>,
    reloaded: Map<Seq<u8>, EntryModel>,
    query: Seq<u8>,
    before: Seq<(Seq<u8>, EntryModel)>,
    after: Seq<(Seq<u8>, EntryModel)>,
)
    requires
        cache_index(bytes) == Some(index),
        cache_index(bytes) == Some(reloaded),
        is_search_result(index, query, before),
        is_search_result(reloaded, query, after),
    ensures
        reloaded == index,
        after == before,
{
    lemma_search_result_unique(index, query, before, after);
}

/// Writes an index to the bytes of its cache, which is to lie at
/// `cache_path`: the full listing of the index, encoded. Bytes that this
/// function returns hold the index that they were made from.
pub fn save_to_cache(index: &Dictionary, cache_path: &str) -> (r: Result<Vec<u8>, LoadError>)
    ensures
        match r {
            Ok(bytes) => cache_encoding(index_listing(index@)) == Some(bytes@) && cache_index(
                bytes@,
            ) == Some(index@),
            Err(error) => cache_encoding(index_listing(index@)) is None && error@ == (
                LoadErrorKind::CachePersist,
                cache_path@,
            ),
        },
{
    let listing = index.records(&[]);
    proof {
        let found = found_records_model(listing@);
        let empty: &[u8] = &[];
        assert(empty@ =~= Seq::<u8>::empty());
        lemma_search_result_unique(index@, Seq::empty(), found, index_listing(index@));
        lemma_full_listing_builds_index(index@, found);
    }
    match encode_pairs(&listing) {
        Ok(bytes) => Ok(bytes),
        Err(_) => Err(LoadError { kind: LoadErrorKind::CachePersist, path: cache_path.to_owned() }),
    }
}

/// Reads an index from the bytes of the cache at `cache_path`. Bytes that
/// hold no index are an error: nothing is built from the source in their
/// place.
pub fn load_from_cache(bytes: &[u8], cache_path: &str) -> (r: Result<Dictionary, LoadError>)
    ensures
        match r {
            Ok(index) => cache_index(bytes@) == Some(index@),
            Err(error) => cache_index(bytes@) is None && error@ == (
                LoadErrorKind::CacheDeserialize,
                cache_path@,
            ),
        },
{
    match decode_pairs(bytes) {
        Ok(pairs) => match Dictionary::from_records(pairs) {
            Some(index) => Ok(index),
            None => Err(
                LoadError { kind: LoadErrorKind::CacheDeserialize, path: cache_path.to_owned() },
            ),
        },
        Err(_) => Err(
            LoadError { kind: LoadErrorKind::CacheDeserialize, path: cache_path.to_owned() },
        ),
    }
}

} // verus!
