//! The course of a load, as a state machine. The caller does the reading and
//! writing of files; the machine decides what is read or written next, and
//! what becomes of each outcome.
use vstd::prelude::*;
use crate::cache::{
    cache_encoding, cache_index, cache_path_for, cache_path_of, index_listing, load_from_cache,
    save_to_cache, should_cache, uses_cache, LoadError, LoadErrorKind,
};
use crate::index::{build_trie_from, built_index, Dictionary};
use crate::model::{texts_model, EntryModel};

verus! {

/// How far a load has come.
pub enum LoadState {
    /// Nothing has been asked for yet.
    Uninitialized,
    /// The state of the two files has been asked for.
    AwaitingTimes { source: String, cache: String },
    /// The cache is used: its bytes have been asked for.
    AwaitingCache { cache: String },
    /// The index is rebuilt: the lines of the source have been asked for.
    AwaitingSource { source: String, cache: String },
    /// The index is built and the writing of its cache has been asked for.
    AwaitingPersist { index: Dictionary, cache: String },
    /// The load is done and the index can be searched.
    Ready { index: Dictionary },
    /// The load has failed.
    Failed { error: LoadError },
}

/// What the caller is to do next.
#[derive(Clone, Debug, PartialEq, Eq)]
pub enum LoadAction {
    /// Report `Start` with the path of the source.
    Begin,
    /// Find out whether the cache exists and when both files were modified.
    ReadTimes { source: String, cache: String },
    /// Read the whole cache.
    ReadCache { path: String },
    /// Read the lines of the source.
    ReadSource { path: String },
    /// Create or truncate the cache and write the bytes to it.
    WriteCache { path: String, bytes: Vec<u8> },
    /// Nothing: the load is done or has failed.
    Finish,
}

/// Why the lines of the source are not there.
#[derive(Clone, Copy, Debug, PartialEq, Eq, Structural)]
pub enum SourceFailure {
    /// The file could not be opened.
    Open,
    /// A line could not be read as text.
    Read,
}

/// What the caller reports.
pub enum LoadEvent {
    /// The load is to begin, for the source at this path.
    Start { source: String },
    /// The state of the two files. A time that the platform cannot report is
    /// `None`. Times count from a common origin in a common unit.
    Times { cache_exists: bool, source_modified: Option<i128>, cache_modified: Option<i128> },
    /// The bytes of the cache, or `None` where they could not be read.
    CacheRead { bytes: Option<Vec<u8>> },
    /// The lines of the source, or why they are not there.
    SourceRead { lines: Result<Vec<String>, SourceFailure> },
    /// Whether the cache was written.
    CacheWritten { done: bool },
}

/// What a [`LoadState`] stands for.
pub enum LoadStateModel {
    Uninitialized,
    AwaitingTimes { source: Seq<char>, cache: Seq<char> },
    AwaitingCache { cache: Seq<char> },
    AwaitingSource { source: Seq<char>, cache: Seq<char> },
    AwaitingPersist { index: Map<Seq<u8>, EntryModel>, cache: Seq<char> },
    Ready { index: Map<Seq<u8>, EntryModel> },
    Failed { kind: LoadErrorKind, path: Seq<char> },
}

/// What a [`LoadAction`] stands for.
pub enum LoadActionModel {
    Begin,
    ReadTimes { source: Seq<char>, cache: Seq<char> },
    ReadCache { path: Seq<char> },
    ReadSource { path: Seq<char> },
    WriteCache { path: Seq<char>, bytes: Seq<u8> },
    Finish,
}

impl View for LoadState {
    type V = LoadStateModel;

    open spec fn view(&self) -> LoadStateModel {
        match self {
            LoadState::Uninitialized => LoadStateModel::Uninitialized,
            LoadState::AwaitingTimes { source, cache } => LoadStateModel::AwaitingTimes {
                source: source@,
                cache: cache@,
            },
            LoadState::AwaitingCache { cache } => LoadStateModel::AwaitingCache { cache: cache@ },
            LoadState::AwaitingSource { source, cache } => LoadStateModel::AwaitingSource {
                source: source@,
                cache: cache@,
            },
            LoadState::AwaitingPersist { index, cache } => LoadStateModel::AwaitingPersist {
                index: index@,
                cache: cache@,
            },
            LoadState::Ready { index } => LoadStateModel::Ready { index: index@ },
            LoadState::Failed { error } => LoadStateModel::Failed {
                kind: error.kind,
                path: error.path@,
            },
        }
    }
}

impl View for LoadAction {
    type V = LoadActionModel;

    open spec fn view(&self) -> LoadActionModel {
        match self {
            LoadAction::Begin => LoadActionModel::Begin,
            LoadAction::ReadTimes { source, cache } => LoadActionModel::ReadTimes {
                source: source@,
                cache: cache@,
            },
            LoadAction::ReadCache { path } => LoadActionModel::ReadCache { path: path@ },
            LoadAction::ReadSource { path } => LoadActionModel::ReadSource { path: path@ },
            LoadAction::WriteCache { path, bytes } => LoadActionModel::WriteCache {
                path: path@,
                bytes: bytes@,
            },
            LoadAction::Finish => LoadActionModel::Finish,
        }
    }
}

/// The action that a state waits for.
pub open spec fn pending(state: LoadStateModel) -> LoadActionModel {
    match state {
        LoadStateModel::Uninitialized => LoadActionModel::Begin,
        LoadStateModel::AwaitingTimes { source, cache } => LoadActionModel::ReadTimes {
            source,
            cache,
        },
        LoadStateModel::AwaitingCache { cache } => LoadActionModel::ReadCache { path: cache },
        LoadStateModel::AwaitingSource { source, cache } => LoadActionModel::ReadSource {
            path: source,
        },
        LoadStateModel::AwaitingPersist { index, cache } => match cache_encoding(
            index_listing(index),
        ) {
            Some(bytes) => LoadActionModel::WriteCache { path: cache, bytes },
            None => LoadActionModel::Finish,
        },
        LoadStateModel::Ready { .. } => LoadActionModel::Finish,
        LoadStateModel::Failed { .. } => LoadActionModel::Finish,
    }
}

/// The state that follows when `event` answers what `state` waits for, or
/// `None` where it does not answer it.
///
/// - `Start` leads from `Uninitialized` to the question for the two files.
/// - `Times` decides between the cache and the source.
/// - `CacheRead` ends the load: with the index that the bytes hold, or in
///   failure where they hold none or could not be read. The source is not
///   tried in their place.
/// - `SourceRead` fails where the source could not be opened or read;
///   otherwise the index is built, and the load goes on to write its cache,
///   or fails where the index cannot be encoded.
/// - `CacheWritten` ends the load: with the index, or in failure where the
///   cache was not written, although the index was built.
pub open spec fn answer(state: LoadStateModel, event: LoadEvent, monoword: bool) -> Option<
    LoadStateModel,
> {
    match (state, event) {
        (LoadStateModel::Uninitialized, LoadEvent::Start { source }) => Some(
            LoadStateModel::AwaitingTimes { source: source@, cache: cache_path_of(source@) },
        ),
        (
            LoadStateModel::AwaitingTimes { source, cache },
            LoadEvent::Times { cache_exists, source_modified, cache_modified },
        ) => if uses_cache(cache_exists, source_modified, cache_modified) {
            Some(LoadStateModel::AwaitingCache { cache })
        } else {
            Some(LoadStateModel::AwaitingSource { source, cache })
        },
        (LoadStateModel::AwaitingCache { cache }, LoadEvent::CacheRead { bytes }) => match bytes {
            Some(bytes) => match cache_index(bytes@) {
                Some(index) => Some(LoadStateModel::Ready { index }),
                None => Some(
                    LoadStateModel::Failed { kind: LoadErrorKind::CacheDeserialize, path: cache },
                ),
            },
            None => Some(
                LoadStateModel::Failed { kind: LoadErrorKind::CacheDeserialize, path: cache },
            ),
        },
        (
            LoadStateModel::AwaitingSource { source, cache },
            LoadEvent::SourceRead { lines },
        ) => match lines {
            Ok(lines) => {
                let index = built_index(texts_model(lines@), monoword);
                if cache_encoding(index_listing(index)) is Some {
                    Some(LoadStateModel::AwaitingPersist { index, cache })
                } else {
                    Some(LoadStateModel::Failed { kind: LoadErrorKind::CachePersist, path: cache })
                }
            },
            Err(SourceFailure::Open) => Some(
                LoadStateModel::Failed { kind: LoadErrorKind::SourceOpen, path: source },
            ),
            Err(SourceFailure::Read) => Some(
                LoadStateModel::Failed { kind: LoadErrorKind::SourceRead, path: source },
            ),
        },
        (LoadStateModel::AwaitingPersist { index, cache }, LoadEvent::CacheWritten { done }) => {
            if done {
                Some(LoadStateModel::Ready { index })
            } else {
                Some(LoadStateModel::Failed { kind: LoadErrorKind::CachePersist, path: cache })
            }
        },
        _ => None,
    }
}

/// The state after an event: the one that answers it, or the same state
/// where the event does not answer what the state waits for.
pub open spec fn next_state(state: LoadStateModel, event: LoadEvent, monoword: bool) -> LoadStateModel {
    match answer(state, event, monoword) {
        Some(next) => next,
        None => state,
    }
}

impl LoadState {
    /// The state before a load.
    pub fn new() -> (state: LoadState)
        ensures
            state@ == LoadStateModel::Uninitialized,
    {
        LoadState::Uninitialized
    }

    /// The index, once the load is done. Before that there is nothing to
    /// search.
    pub fn index(&self) -> (r: Option<&Dictionary>)
        ensures
            match r {
                Some(index) => self@ == (LoadStateModel::Ready { index: index@ }),
                None => !(self@ is Ready),
            },
    {
        match self {
            LoadState::Ready { index } => Some(index),
            _ => None,
        }
    }

    /// The failure, once the load has failed.
    pub fn error(&self) -> (r: Option<&LoadError>)
        ensures
            match r {
                Some(error) => self@ == (LoadStateModel::Failed {
                    kind: error.kind,
                    path: error.path@,
                }),
                None => !(self@ is Failed),
            },
    {
        match self {
            LoadState::Failed { error } => Some(error),
            _ => None,
        }
    }
}

/// Takes the load one step on: from a state and the event that the caller
/// reports to the next state and what the caller is to do then. An event that
/// does not answer what the state waits for changes nothing, and the caller
/// is told again what the state waits for.
pub fn step(state: LoadState, event: LoadEvent, monoword: bool) -> (r: (LoadState, LoadAction))
    ensures
        r.0@ == next_state(state@, event, monoword),
        r.1@ == pending(r.0@),
{
    match (state, event) {
        (LoadState::Uninitialized, LoadEvent::Start { source }) => {
            let cache = cache_path_for(source.as_str());
            let action = LoadAction::ReadTimes { source: source.clone(), cache: cache.clone() };
            (LoadState::AwaitingTimes { source, cache }, action)
        },
        (
            LoadState::AwaitingTimes { source, cache },
            LoadEvent::Times { cache_exists, source_modified, cache_modified },
        ) => {
            if should_cache(cache_exists, source_modified, cache_modified) {
                let action = LoadAction::ReadCache { path: cache.clone() };
                (LoadState::AwaitingCache { cache }, action)
            } else {
                let action = LoadAction::ReadSource { path: source.clone() };
                (LoadState::AwaitingSource { source, cache }, action)
            }
        },
        (LoadState::AwaitingCache { cache }, LoadEvent::CacheRead { bytes }) => {
            let outcome = match bytes {
                Some(bytes) => load_from_cache(bytes.as_slice(), cache.as_str()),
                None => Err(LoadError { kind: LoadErrorKind::CacheDeserialize, path: cache }),
            };
            match outcome {
                Ok(index) => (LoadState::Ready { index }, LoadAction::Finish),
                Err(error) => (LoadState::Failed { error }, LoadAction::Finish),
            }
        },
        (LoadState::AwaitingSource { source, cache }, LoadEvent::SourceRead { lines }) => {
            match lines {
                Ok(lines) => {
                    let index = build_trie_from(&lines, monoword);
                    match save_to_cache(&index, cache.as_str()) {
                        Ok(bytes) => {
                            let action = LoadAction::WriteCache { path: cache.clone(), bytes };
                            (LoadState::AwaitingPersist { index, cache }, action)
                        },
                        Err(error) => (LoadState::Failed { error }, LoadAction::Finish),
                    }
                },
                Err(SourceFailure::Open) => {
                    let error = LoadError { kind: LoadErrorKind::SourceOpen, path: source };
                    (LoadState::Failed { error }, LoadAction::Finish)
                },
                Err(SourceFailure::Read) => {
                    let error = LoadError { kind: LoadErrorKind::SourceRead, path: source };
                    (LoadState::Failed { error }, LoadAction::Finish)
                },
            }
        },
        (LoadState::AwaitingPersist { index, cache }, LoadEvent::CacheWritten { done }) => {
            if done {
                (LoadState::Ready { index }, LoadAction::Finish)
            } else {
                let error = LoadError { kind: LoadErrorKind::CachePersist, path: cache };
                (LoadState::Failed { error }, LoadAction::Finish)
            }
        },
        (state, _) => {
            let action = state.pending_action();
            (state, action)
        },
    }
}

impl LoadState {
    /// What the state waits for.
    pub fn pending_action(&self) -> (action: LoadAction)
        ensures
            action@ == pending(self@),
    {
        match self {
            LoadState::Uninitialized => LoadAction::Begin,
            LoadState::AwaitingTimes { source, cache } => LoadAction::ReadTimes {
                source: source.clone(),
                cache: cache.clone(),
            },
            LoadState::AwaitingCache { cache } => LoadAction::ReadCache { path: cache.clone() },
            LoadState::AwaitingSource { source, cache } => LoadAction::ReadSource {
                path: source.clone(),
            },
            LoadState::AwaitingPersist { index, cache } => match save_to_cache(
                index,
                cache.as_str(),
            ) {
                Ok(bytes) => LoadAction::WriteCache { path: cache.clone(), bytes },
                Err(_) => LoadAction::Finish,
            },
            LoadState::Ready { .. } => LoadAction::Finish,
            LoadState::Failed { .. } => LoadAction::Finish,
        }
    }
}

} // verus!
