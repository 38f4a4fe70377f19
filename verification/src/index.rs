//! The dictionary index: a trie from byte keys to entries, built once and
//! then only read.
use vstd::prelude::*;
use vstd::utf8::encode_utf8;
use trie_rs::map::{Trie, TrieBuilder};
use crate::filter::{
    has_space, index_key, keep_entry, key_bytes, keeps, lemma_key_nonempty, name_tag,
};
use crate::json::{parse_entry, parsed_entry};
use crate::lookup::{is_search_result, pairs_index};
use crate::model::{record_model, texts_model, Entry, EntryModel, Record};

verus! {

/// `trie_rs::map::Trie`, of which nothing is known but what the functions
/// below say.
#[verifier::external_type_specification]
#[verifier::external_body]
#[verifier::reject_recursive_types(Label)]
#[verifier::reject_recursive_types(Value)]
pub struct ExTrie<Label, Value>(Trie<Label, Value>);

/// `trie_rs::map::TrieBuilder`, of which nothing is known but what the
/// functions below say.
#[verifier::external_type_specification]
#[verifier::external_body]
#[verifier::reject_recursive_types(Label)]
#[verifier::reject_recursive_types(Value)]
pub struct ExTrieBuilder<Label, Value>(TrieBuilder<Label, Value>);

/// What a finished trie holds: for each key, the entry stored under it.
pub uninterp spec fn trie_contents(trie: Trie<u8, Record>) -> Map<Seq<u8>, EntryModel>;

/// What a trie under construction holds so far.
pub uninterp spec fn builder_contents(builder: TrieBuilder<u8, Record>) -> Map<
    Seq<u8>,
    EntryModel,
>;

/// Calls `TrieBuilder::new`. The contract claims that the new builder holds
/// nothing.
#[verifier::external_body]
fn builder_new() -> (builder: TrieBuilder<u8, Record>)
    ensures
        builder_contents(builder) == empty_index(),
{
    TrieBuilder::new()
}

/// Calls `TrieBuilder::push`, which panics on an empty key. The contract
/// claims that afterwards the builder holds the record under the key, in
/// place of what it held under that key before, and everything else as before.
#[verifier::external_body]
fn builder_push(builder: &mut TrieBuilder<u8, Record>, key: &[u8], record: Record)
    requires
        key@.len() > 0,
    ensures
        builder_contents(*final(builder)) == builder_contents(*old(builder)).insert(
            key@,
            record_model(record),
        ),
{
    builder.push(key, record)
}

/// Calls `TrieBuilder::build`. The contract claims that the trie holds what
/// the builder held.
#[verifier::external_body]
fn builder_build(builder: TrieBuilder<u8, Record>) -> (trie: Trie<u8, Record>)
    ensures
        trie_contents(trie) == builder_contents(builder),
{
    builder.build()
}

/// Calls `Trie::predictive_search` and collects what it yields, with each key
/// as a vector of bytes. The contract claims that these are the pairs of the
/// trie whose key starts with the query, each once, in ascending
/// lexicographic order of the keys.
#[verifier::external_body]
fn trie_search<'a>(trie: &'a Trie<u8, Record>, query: &[u8]) -> (found: Vec<(Vec<u8>, &'a Record)>)
    ensures
        is_search_result(trie_contents(*trie), query@, found_records_model(found@)),
{
    trie.predictive_search::<Vec<u8>, _>(query).collect()
}

/// The index that holds nothing.
pub open spec fn empty_index() -> Map<Seq<u8>, EntryModel> {
    Map::empty()
}

/// The pairs that a list of found records stands for.
pub open spec fn found_records_model(found: Seq<(Vec<u8>, &Record)>) -> Seq<(Seq<u8>, EntryModel)> {
    Seq::new(found.len(), |i: int| (found[i].0@, record_model(*found[i].1)))
}

/// The pairs that a list of keyed records stands for.
pub open spec fn records_model(pairs: Seq<(Vec<u8>, Record)>) -> Seq<(Seq<u8>, EntryModel)> {
    Seq::new(pairs.len(), |i: int| (pairs[i].0@, record_model(pairs[i].1)))
}

/// The pairs that a list of keyed entries stands for.
pub open spec fn found_model(found: Seq<(Vec<u8>, Entry)>) -> Seq<(Seq<u8>, EntryModel)> {
    Seq::new(found.len(), |i: int| (found[i].0@, found[i].1@))
}

/// Whether no pair of the list has the empty key.
pub open spec fn keys_nonempty(pairs: Seq<(Seq<u8>, EntryModel)>) -> bool {
    forall|i: int| 0 <= i < pairs.len() ==> (#[trigger] pairs[i]).0.len() > 0
}

/// The index that the lines of a source build: each line that describes an
/// entry which the policy keeps is stored under the key of that entry, in the
/// order of the lines, so that of two entries with one key the later stays.
pub open spec fn built_index(lines: Seq<Seq<char>>, monoword: bool) -> Map<Seq<u8>, EntryModel>
    decreases lines.len(),
{
    if lines.len() == 0 {
        Map::empty()
    } else {
        let earlier = built_index(lines.drop_last(), monoword);
        match parsed_entry(lines.last()) {
            Some(entry) if keeps(entry, monoword) => earlier.insert(key_bytes(entry), entry),
            _ => earlier,
        }
    }
}

/// Whether the line `later` takes the place of the line `earlier` in the
/// index: it describes an entry that the policy keeps, under the key of the
/// entry that `earlier` describes.
pub open spec fn replaces(later: Seq<char>, monoword: bool, earlier: Seq<char>) -> bool {
    match (parsed_entry(later), parsed_entry(earlier)) {
        (Some(entry), Some(replaced)) => keeps(entry, monoword) && key_bytes(entry) == key_bytes(
            replaced,
        ),
        _ => false,
    }
}

/// A prefix-searchable index from byte keys to entries. Once built it is
/// only read.
pub struct Dictionary {
    trie: Trie<u8, Record>,
}

impl View for Dictionary {
    type V = Map<Seq<u8>, EntryModel>;

    closed spec fn view(&self) -> Map<Seq<u8>, EntryModel> {
        trie_contents(self.trie)
    }
}

impl Dictionary {
    #[verifier::type_invariant]
    spec fn has_no_empty_key(&self) -> bool {
        !trie_contents(self.trie).dom().contains(Seq::empty())
    }

    /// Builds an index from keyed records, inserted in order: of two records
    /// with one key the later stays. No index has an empty key, so a list
    /// that holds one builds nothing.
    pub fn from_records(pairs: Vec<(Vec<u8>, Record)>) -> (r: Option<Dictionary>)
        ensures
            match r {
                Some(index) => keys_nonempty(records_model(pairs@)) && index@ == pairs_index(
                    records_model(pairs@),
                ),
                None => !keys_nonempty(records_model(pairs@)),
            },
    {
        let ghost model = records_model(pairs@);
        let mut builder = builder_new();
        assert(model.take(0) =~= Seq::empty());
        for pair in it: pairs.into_iter()
            invariant
                it.seq() == pairs@,
                model == records_model(pairs@),
                builder_contents(builder) == pairs_index(model.take(it.index() as int)),
                keys_nonempty(model.take(it.index() as int)),
                !builder_contents(builder).dom().contains(Seq::empty()),
        {
            let ghost n = it.index() as int;
            assert(model[n] == (pair.0@, record_model(pair.1)));
            if pair.0.len() == 0 {
                assert(model[n].0.len() == 0);
                return None;
            }
            proof {
                let next = model.take(n + 1);
                assert(next.drop_last() =~= model.take(n));
                assert(next.last() == model[n]);
                assert forall|j: int| 0 <= j < next.len() implies (#[trigger] next[j]).0.len()
                    > 0 by {
                    if j < n {
                        assert(model.take(n)[j] == next[j]);
                    }
                }
            }
            builder_push(&mut builder, pair.0.as_slice(), pair.1);
        }
        assert(model.take(pairs@.len() as int) =~= model);
        Some(Dictionary { trie: builder_build(builder) })
    }

    /// Every stored pair whose key starts with `prefix`, in ascending
    /// lexicographic order of the keys. The stored records are borrowed.
    pub fn records(&self, prefix: &[u8]) -> (found: Vec<(Vec<u8>, &Record)>)
        ensures
            is_search_result(self@, prefix@, found_records_model(found@)),
            keys_nonempty(found_records_model(found@)),
    {
        let found = trie_search(&self.trie, prefix);
        proof {
            use_type_invariant(self);
            let model = found_records_model(found@);
            assert forall|i: int| 0 <= i < model.len() implies (#[trigger] model[i]).0.len()
                > 0 by {
                assert(self@.dom().contains(model[i].0));
                if model[i].0.len() == 0 {
                    assert(model[i].0 =~= Seq::empty());
                }
            }
        }
        found
    }

    /// Predictive search on bytes: every stored pair whose key starts with
    /// `prefix`, in ascending lexicographic order of the keys. The empty
    /// prefix finds every pair; a prefix of no key finds nothing.
    pub fn search_bytes(&self, prefix: &[u8]) -> (found: Vec<(Vec<u8>, Entry)>)
        ensures
            is_search_result(self@, prefix@, found_model(found@)),
    {
        let records = trie_search(&self.trie, prefix);
        let mut found: Vec<(Vec<u8>, Entry)> = Vec::new();
        for pair in it: records.into_iter()
            invariant
                it.seq() == records@,
                found@.len() == it.index(),
                forall|j: int|
                    0 <= j < it.index() ==> (#[trigger] found_model(found@)[j])
                        == found_records_model(records@)[j],
        {
            let ghost before = found@;
            let ghost n = it.index() as int;
            let entry = Entry::from_record(pair.1);
            found.push((pair.0, entry));
            assert forall|j: int| 0 <= j < n + 1 implies (#[trigger] found_model(found@)[j])
                == found_records_model(records@)[j] by {
                if j < n {
                    assert(found@[j] == before[j]);
                    assert(found_model(before)[j] == found_records_model(records@)[j]);
                }
            }
        }
        assert(found_model(found@) =~= found_records_model(records@));
        found
    }

    /// Predictive search: every stored pair whose key starts with the bytes
    /// of the typed text, in ascending lexicographic order of the keys.
    pub fn search(&self, prefix: &str) -> (found: Vec<(Vec<u8>, Entry)>)
        ensures
            is_search_result(self@, encode_utf8(prefix@), found_model(found@)),
    {
        self.search_bytes(prefix.as_bytes())
    }
}

/// Every pair of a built index comes from a line of the source: a line that
/// describes the stored entry, which the policy keeps and whose key is the
/// key of the pair.
pub proof fn lemma_stored_entry_comes_from_a_kept_line(
    lines: Seq<Seq<char>>,
    monoword: bool,
    key: Seq<u8>,
)
    requires
        built_index(lines, monoword).dom().contains(key),
    ensures
        keeps(built_index(lines, monoword)[key], monoword),
        key_bytes(built_index(lines, monoword)[key]) == key,
        exists|i: int|
            0 <= i < lines.len() && parsed_entry(#[trigger] lines[i]) == Some(
                built_index(lines, monoword)[key],
            ),
    decreases lines.len(),
{
    if lines.len() > 0 {
        let earlier = lines.drop_last();
        let last = lines.len() - 1;
        let stored = built_index(lines, monoword)[key];
        let from_last = match parsed_entry(lines.last()) {
            Some(entry) => keeps(entry, monoword) && key_bytes(entry) == key,
            None => false,
        };
        if from_last {
            assert(parsed_entry(lines[last]) == Some(stored));
        } else {
            lemma_stored_entry_comes_from_a_kept_line(earlier, monoword, key);
            let i = choose|i: int|
                0 <= i < earlier.len() && parsed_entry(#[trigger] earlier[i]) == Some(stored);
            assert(lines[i] == earlier[i]);
        }
    }
}

/// Filter correctness with the policy on: the index built under the
/// monoword policy stores no entry whose headword holds white space, and none
/// whose part of speech is the tag of proper names.
pub proof fn lemma_monoword_index_has_no_phrase_and_no_name(lines: Seq<Seq<char>>, key: Seq<u8>)
    requires
        built_index(lines, true).dom().contains(key),
    ensures
        !has_space(built_index(lines, true)[key].word),
        built_index(lines, true)[key].pos != name_tag(),
{
    lemma_stored_entry_comes_from_a_kept_line(lines, true, key);
}

/// Every line that describes an entry which the policy keeps is indexed
/// under the key of that entry, and the entry of the last such line with a
/// given key is the one that stays. Without the policy every entry is kept,
/// so every line that describes an entry is indexed.
pub proof fn lemma_kept_line_is_indexed(lines: Seq<Seq<char>>, monoword: bool, i: int)
    requires
        0 <= i < lines.len(),
        parsed_entry(lines[i]) is Some,
        keeps(parsed_entry(lines[i])->Some_0, monoword),
    ensures
        built_index(lines, monoword).dom().contains(key_bytes(parsed_entry(lines[i])->Some_0)),
        (forall|j: int|
            i < j < lines.len() ==> !replaces(#[trigger] lines[j], monoword, lines[i]))
            ==> built_index(lines, monoword)[key_bytes(parsed_entry(lines[i])->Some_0)]
            == parsed_entry(lines[i])->Some_0,
    decreases lines.len(),
{
    let last = lines.len() - 1;
    if i < last {
        let earlier = lines.drop_last();
        assert(earlier[i] == lines[i]);
        lemma_kept_line_is_indexed(earlier, monoword, i);
        if forall|j: int| i < j < lines.len() ==> !replaces(#[trigger] lines[j], monoword, lines[i]) {
            assert(!replaces(lines[last], monoword, lines[i]));
            assert forall|j: int| i < j < earlier.len() implies !replaces(
                #[trigger] earlier[j],
                monoword,
                lines[i],
            ) by {
                assert(earlier[j] == lines[j]);
            }
        }
    }
}

/// Builds the index of a source from its lines: each line is read for an
/// entry, the policy is applied to it, and what it keeps is stored under its
/// key. A line that describes no entry is passed over.
pub fn build_trie_from(lines: &Vec<String>, monoword: bool) -> (index: Dictionary)
    ensures
        index@ == built_index(texts_model(lines@), monoword),
{
    let ghost texts = texts_model(lines@);
    let mut builder = builder_new();
    let mut i: usize = 0;
    assert(texts.take(0) =~= Seq::empty());
    while i < lines.len()
        invariant
            i <= lines.len(),
            texts == texts_model(lines@),
            builder_contents(builder) == built_index(texts.take(i as int), monoword),
            !builder_contents(builder).dom().contains(Seq::empty()),
        decreases lines.len() - i,
    {
        proof {
            let next = texts.take(i + 1);
            assert(next.drop_last() =~= texts.take(i as int));
            assert(next.last() == lines@[i as int]@);
        }
        match parse_entry(lines[i].as_str()) {
            Some(entry) => {
                if keep_entry(&entry, monoword) {
                    let key = index_key(&entry);
                    let record = entry.to_record();
                    proof {
                        lemma_key_nonempty(entry@);
                    }
                    builder_push(&mut builder, key.as_str().as_bytes(), record);
                }
            },
            None => {},
        }
        i += 1;
    }
    assert(texts.take(i as int) =~= texts);
    Dictionary { trie: builder_build(builder) }
}

} // verus!
