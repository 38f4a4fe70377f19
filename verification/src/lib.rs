//! A prefix-searchable index over the word senses of a dictionary, with a
//! binary cache of the built index.
pub mod cache;
pub mod filter;
pub mod index;
pub mod json;
pub mod loader;
pub mod lookup;
pub mod model;

pub use crate::cache::{
    cache_path_for, find_dictionary_path, load_from_cache, save_to_cache, should_cache, LoadError,
    LoadErrorKind,
};
pub use crate::filter::{index_key, keep_entry, MONOWORD_FILTERS};
pub use crate::index::{build_trie_from, Dictionary};
pub use crate::json::parse_entry;
pub use crate::loader::{step, LoadAction, LoadEvent, LoadState, SourceFailure};
pub use crate::model::{Entry, Record, Sense};
