//! Which entries the index keeps, and the key under which it stores each.
use vstd::prelude::*;
use vstd::utf8::{encode_utf8, encode_utf8_decode_utf8};
use crate::model::{Entry, EntryModel};

verus! {

/// Whether the index leaves out phrases and proper names. It is fixed when
/// the program is built.
pub const MONOWORD_FILTERS: bool = true;

/// Whether `c` is a white space character: one of the code points that
/// Unicode gives the property `White_Space`.
pub open spec fn is_space(c: char) -> bool {
    let u = c as u32;
    ||| 0x09 <= u <= 0x0D
    ||| u == 0x20
    ||| u == 0x85
    ||| u == 0xA0
    ||| u == 0x1680
    ||| 0x2000 <= u <= 0x200A
    ||| u == 0x2028
    ||| u == 0x2029
    ||| u == 0x202F
    ||| u == 0x205F
    ||| u == 0x3000
}

/// Whether some character of `text` is white space.
pub open spec fn has_space(text: Seq<char>) -> bool {
    exists|i: int| 0 <= i < text.len() && is_space(#[trigger] text[i])
}

/// The part of speech that marks a proper name.
pub open spec fn name_tag() -> Seq<char> {
    seq!['n', 'a', 'm', 'e']
}

/// The character that separates the headword from the part of speech in a key.
pub open spec fn key_delimiter() -> char {
    ';'
}

/// Whether the index keeps an entry. With the monoword policy on, an entry
/// whose headword holds white space, or whose part of speech is the tag of
/// proper names, is dropped; with the policy off, every entry is kept.
pub open spec fn keeps(entry: EntryModel, monoword: bool) -> bool {
    !monoword || !(has_space(entry.word) || entry.pos == name_tag())
}

/// The text of the key of an entry: the headword, the delimiter, the part of
/// speech.
pub open spec fn key_text(entry: EntryModel) -> Seq<char> {
    entry.word + seq![key_delimiter()] + entry.pos
}

/// The key of an entry in the index: the UTF-8 bytes of its key text.
pub open spec fn key_bytes(entry: EntryModel) -> Seq<u8> {
    encode_utf8(key_text(entry))
}

/// The UTF-8 encoding of a text that is not empty is not empty.
pub proof fn lemma_encoding_nonempty(text: Seq<char>)
    requires
        text.len() > 0,
    ensures
        encode_utf8(text).len() > 0,
{
}

/// The key of an entry is never empty.
pub proof fn lemma_key_nonempty(entry: EntryModel)
    ensures
        key_bytes(entry).len() > 0,
{
    lemma_encoding_nonempty(key_text(entry));
}

/// The UTF-8 encoding of two texts in a row is the encoding of the first
/// followed by the encoding of the second.
pub proof fn lemma_encoding_of_concatenation(a: Seq<char>, b: Seq<char>)
    ensures
        encode_utf8(a + b) == encode_utf8(a) + encode_utf8(b),
    decreases a.len(),
{
    if a.len() == 0 {
        assert(a + b =~= b);
        assert(encode_utf8(a) + encode_utf8(b) =~= encode_utf8(b));
    } else {
        lemma_encoding_of_concatenation(a.drop_first(), b);
        assert((a + b).drop_first() =~= a.drop_first() + b);
        assert(encode_utf8(a + b) =~= encode_utf8(a) + encode_utf8(b));
    }
}

/// One headword with two parts of speech has two keys, so that neither entry
/// takes the place of the other in the index.
pub proof fn lemma_parts_of_speech_have_distinct_keys(first: EntryModel, second: EntryModel)
    requires
        first.word == second.word,
        first.pos != second.pos,
    ensures
        key_bytes(first) != key_bytes(second),
{
    let head = first.word + seq![key_delimiter()];
    assert(key_text(first).subrange(head.len() as int, key_text(first).len() as int)
        =~= first.pos);
    assert(key_text(second).subrange(head.len() as int, key_text(second).len() as int)
        =~= second.pos);
    encode_utf8_decode_utf8(key_text(first));
    encode_utf8_decode_utf8(key_text(second));
}

/// A typed text that begins a key text gives bytes that begin the bytes of
/// the key: whoever types the beginning of `word;pos` finds the entry.
pub proof fn lemma_typed_prefix_is_byte_prefix(typed: Seq<char>, text: Seq<char>)
    requires
        typed.is_prefix_of(text),
    ensures
        encode_utf8(typed).is_prefix_of(encode_utf8(text)),
{
    let rest = text.subrange(typed.len() as int, text.len() as int);
    assert(text =~= typed + rest);
    lemma_encoding_of_concatenation(typed, rest);
    assert((encode_utf8(typed) + encode_utf8(rest)).subrange(0, encode_utf8(typed).len() as int)
        =~= encode_utf8(typed));
}

/// Tells whether a character is white space.
pub fn is_whitespace(c: char) -> (r: bool)
    ensures
        r == is_space(c),
{
    let u: u32 = c as u32;
    (0x09 <= u && u <= 0x0D) || u == 0x20 || u == 0x85 || u == 0xA0 || u == 0x1680 || (0x2000 <= u
        && u <= 0x200A) || u == 0x2028 || u == 0x2029 || u == 0x202F || u == 0x205F || u == 0x3000
}

/// Tells whether a text holds a white space character.
pub fn has_whitespace(text: &str) -> (r: bool)
    ensures
        r == has_space(text@),
{
    let mut found = false;
    for c in it: text.chars()
        invariant
            it.seq() == text@,
            found == exists|i: int| 0 <= i < it.index() && is_space(#[trigger] text@[i]),
    {
        if is_whitespace(c) {
            found = true;
        }
    }
    found
}

/// Tells whether the index keeps `entry` under the policy `monoword`.
pub fn keep_entry(entry: &Entry, monoword: bool) -> (r: bool)
    ensures
        r == keeps(entry@, monoword),
{
    if !monoword {
        return true;
    }
    proof {
        reveal_strlit("name");
        assert("name"@ =~= name_tag());
    }
    let tag = "name".to_owned();
    let is_name = entry.pos == tag;
    !(has_whitespace(entry.word.as_str()) || is_name)
}

/// The key text of `entry`: `word;pos`, so that one headword with several
/// parts of speech takes several places in the index.
pub fn index_key(entry: &Entry) -> (key: String)
    ensures
        key@ == key_text(entry@),
{
    let mut key = entry.word.clone();
    proof {
        reveal_strlit(";");
        assert(";"@ =~= seq![key_delimiter()]);
    }
    key.append(";");
    key.append(entry.pos.as_str());
    key
}

} // verus!
