//! What a prefix lookup returns, stated over the index as a map from byte keys
//! to entries, and the laws that follow from that statement.
use vstd::prelude::*;
use crate::model::EntryModel;

verus! {

/// Strict lexicographic order on byte sequences: a proper prefix comes before
/// its extensions, and otherwise the first differing byte decides.
pub open spec fn bytes_lt(a: Seq<u8>, b: Seq<u8>) -> bool
    decreases a.len(),
{
    if b.len() == 0 {
        false
    } else if a.len() == 0 {
        true
    } else if a[0] == b[0] {
        bytes_lt(a.drop_first(), b.drop_first())
    } else {
        a[0] < b[0]
    }
}

/// Whether `found` is the answer to the prefix query `query` on `index`:
/// every pair it lists is stored in the index under a key that starts with the
/// query, every such key is listed, and the keys come in strictly ascending
/// lexicographic order.
pub open spec fn is_search_result(
    index: Map<Seq<u8>, EntryModel>,
    query: Seq<u8>,
    found: Seq<(Seq<u8>, EntryModel)>,
) -> bool {
    &&& forall|i: int|
        0 <= i < found.len() ==> query.is_prefix_of((#[trigger] found[i]).0)
            && index.contains_pair(found[i].0, found[i].1)
    &&& forall|key: Seq<u8>|
        #[trigger] index.dom().contains(key) && query.is_prefix_of(key) ==> exists|i: int|
            0 <= i < found.len() && (#[trigger] found[i]).0 == key
    &&& forall|i: int, j: int|
        0 <= i < j < found.len() ==> bytes_lt((#[trigger] found[i]).0, (#[trigger] found[j]).0)
}

/// The index that a list of pairs builds when they are inserted in order: a
/// later pair replaces an earlier one with the same key.
pub open spec fn pairs_index(pairs: Seq<(Seq<u8>, EntryModel)>) -> Map<Seq<u8>, EntryModel>
    decreases pairs.len(),
{
    if pairs.len() == 0 {
        Map::empty()
    } else {
        pairs_index(pairs.drop_last()).insert(pairs.last().0, pairs.last().1)
    }
}

/// No byte sequence comes before itself.
pub proof fn lemma_bytes_lt_irreflexive(a: Seq<u8>)
    ensures
        !bytes_lt(a, a),
    decreases a.len(),
{
    if a.len() > 0 {
        lemma_bytes_lt_irreflexive(a.drop_first());
    }
}

/// The order on byte sequences is transitive.
pub proof fn lemma_bytes_lt_transitive(a: Seq<u8>, b: Seq<u8>, c: Seq<u8>)
    requires
        bytes_lt(a, b),
        bytes_lt(b, c),
    ensures
        bytes_lt(a, c),
    decreases a.len(),
{
    if a.len() > 0 && a[0] == b[0] && b[0] == c[0] {
        lemma_bytes_lt_transitive(a.drop_first(), b.drop_first(), c.drop_first());
    }
}

/// Prefix containment: whatever is stored under `key` is found by a query for
/// any prefix of `key`, the whole key included.
pub proof fn lemma_prefix_containment(
    index: Map<Seq<u8>, EntryModel>,
    key: Seq<u8>,
    prefix: Seq<u8>,
    found: Seq<(Seq<u8>, EntryModel)>,
)
    requires
        index.dom().contains(key),
        prefix.is_prefix_of(key),
        is_search_result(index, prefix, found),
    ensures
        found.contains((key, index[key])),
        key.is_prefix_of(key),
{
    let i = choose|i: int| 0 <= i < found.len() && (#[trigger] found[i]).0 == key;
    assert(index.contains_pair(found[i].0, found[i].1));
    assert(found[i] == (key, index[key]));
}

/// Non-prefix exclusion: a query never finds a key that does not start with
/// it, whatever entry is paired with the key.
pub proof fn lemma_non_prefix_exclusion(
    index: Map<Seq<u8>, EntryModel>,
    key: Seq<u8>,
    query: Seq<u8>,
    found: Seq<(Seq<u8>, EntryModel)>,
)
    requires
        !query.is_prefix_of(key),
        is_search_result(index, query, found),
    ensures
        forall|i: int| 0 <= i < found.len() ==> (#[trigger] found[i]).0 != key,
        forall|entry: EntryModel| !found.contains((key, entry)),
{
    assert forall|entry: EntryModel| !found.contains((key, entry)) by {
        if found.contains((key, entry)) {
            let i = choose|i: int| 0 <= i < found.len() && found[i] == (key, entry);
            assert(query.is_prefix_of(found[i].0));
        }
    }
}

/// A query has one answer: two lists that both answer the same query on the
/// same index are equal, pair by pair and in the same order.
pub proof fn lemma_search_result_unique(
    index: Map<Seq<u8>, EntryModel>,
    query: Seq<u8>,
    a: Seq<(Seq<u8>, EntryModel)>,
    b: Seq<(Seq<u8>, EntryModel)>,
)
    requires
        is_search_result(index, query, a),
        is_search_result(index, query, b),
    ensures
        a == b,
    decreases a.len(),
{
    if a.len() == 0 {
        if b.len() > 0 {
            assert(index.dom().contains(b[0].0));
        }
        assert(a =~= b);
    } else if b.len() == 0 {
        assert(index.dom().contains(a[0].0));
    } else {
        let top = a.last().0;
        assert(index.dom().contains(top));
        let j = choose|j: int| 0 <= j < b.len() && (#[trigger] b[j]).0 == top;
        assert(index.dom().contains(b.last().0));
        let i = choose|i: int| 0 <= i < a.len() && (#[trigger] a[i]).0 == b.last().0;
        if j < b.len() - 1 {
            assert(bytes_lt(b[j].0, b.last().0));
            if i < a.len() - 1 {
                assert(bytes_lt(a[i].0, a.last().0));
                lemma_bytes_lt_transitive(top, b.last().0, top);
            }
            lemma_bytes_lt_irreflexive(top);
        }
        assert(b.last().0 == top);
        let rest = index.remove(top);
        lemma_rest_is_search_result(index, query, a);
        lemma_rest_is_search_result(index, query, b);
        lemma_search_result_unique(rest, query, a.drop_last(), b.drop_last());
        assert(a.last() == b.last());
        assert(a =~= a.drop_last().push(a.last()));
        assert(b =~= b.drop_last().push(b.last()));
    }
}

/// Without its last pair, an answer is the answer on the index without that
/// pair's key.
proof fn lemma_rest_is_search_result(
    index: Map<Seq<u8>, EntryModel>,
    query: Seq<u8>,
    found: Seq<(Seq<u8>, EntryModel)>,
)
    requires
        is_search_result(index, query, found),
        found.len() > 0,
    ensures
        is_search_result(index.remove(found.last().0), query, found.drop_last()),
{
    let top = found.last().0;
    let rest = index.remove(top);
    let shorter = found.drop_last();
    lemma_bytes_lt_irreflexive(top);
    assert forall|i: int| 0 <= i < shorter.len() implies query.is_prefix_of(
        (#[trigger] shorter[i]).0,
    ) && rest.contains_pair(shorter[i].0, shorter[i].1) by {
        assert(shorter[i] == found[i]);
        assert(bytes_lt(found[i].0, found[found.len() - 1].0));
    }
    assert forall|key: Seq<u8>| #[trigger]
        rest.dom().contains(key) && query.is_prefix_of(key) implies exists|i: int|
        0 <= i < shorter.len() && (#[trigger] shorter[i]).0 == key by {
        assert(index.dom().contains(key));
        let i = choose|i: int| 0 <= i < found.len() && (#[trigger] found[i]).0 == key;
        assert(shorter[i] == found[i]);
    }
    assert forall|i: int, j: int| 0 <= i < j < shorter.len() implies bytes_lt(
        (#[trigger] shorter[i]).0,
        (#[trigger] shorter[j]).0,
    ) by {
        assert(shorter[i] == found[i]);
        assert(shorter[j] == found[j]);
    }
}

/// The answer to the empty query lists the whole index: inserting its pairs
/// in order builds the index again.
pub proof fn lemma_full_listing_builds_index(
    index: Map<Seq<u8>, EntryModel>,
    found: Seq<(Seq<u8>, EntryModel)>,
)
    requires
        is_search_result(index, Seq::empty(), found),
    ensures
        pairs_index(found) == index,
    decreases found.len(),
{
    if found.len() == 0 {
        assert forall|key: Seq<u8>| !index.dom().contains(key) by {
            if index.dom().contains(key) {
                assert(Seq::<u8>::empty().is_prefix_of(key));
            }
        }
        assert(pairs_index(found) =~= index);
    } else {
        let top = found.last().0;
        lemma_rest_is_search_result(index, Seq::empty(), found);
        lemma_full_listing_builds_index(index.remove(top), found.drop_last());
        assert(index.contains_pair(found.last().0, found.last().1));
        assert(index.remove(top).insert(top, found.last().1) =~= index);
    }
}

} // verus!
