//! Reading one line of the source: a JSON document, and the entry that it
//! describes if it has the shape of one.
use vstd::prelude::*;
use crate::model::{Entry, EntryModel, Sense};

verus! {

/// A JSON document, as far as the shape of an entry depends on it.
#[derive(Debug)]
pub enum Json {
    Null,
    Bool(bool),
    /// A number. Its value is not kept: no field of an entry is a number.
    Number,
    Text(String),
    Array(Vec<Json>),
    /// The members of an object. Where a name occurs twice, the first counts.
    Object(Vec<(String, Json)>),
}

/// `serde_json::Value`, which is only handed from the parser to the function
/// that turns it into a [`Json`].
#[verifier::external_type_specification]
#[verifier::external_body]
pub struct ExJsonValue(serde_json::Value);

/// The document that `serde_json` reads from a text, or `None` where it
/// reports an error.
pub uninterp spec fn json_document(text: Seq<char>) -> Option<Json>;

/// Calls `serde_json::from_str` for a `serde_json::Value`. The contract claims
/// that the outcome depends on the text alone, and gives it the name
/// [`json_document`]; it claims nothing about what a given text holds.
#[verifier::external_body]
fn parse_json(line: &str) -> (r: Option<Json>)
    ensures
        r == json_document(line@),
{
    match serde_json::from_str::<serde_json::Value>(line) {
        Ok(value) => Some(json_of_value(value)),
        Err(_) => None,
    }
}

/// Turns a `serde_json::Value` into a [`Json`], variant by variant.
#[verifier::external_body]
fn json_of_value(value: serde_json::Value) -> Json {
    match value {
        serde_json::Value::Null => Json::Null,
        serde_json::Value::Bool(b) => Json::Bool(b),
        serde_json::Value::Number(_) => Json::Number,
        serde_json::Value::String(s) => Json::Text(s),
        serde_json::Value::Array(items) => Json::Array(
            items.into_iter().map(json_of_value).collect(),
        ),
        serde_json::Value::Object(members) => Json::Object(
            members.into_iter().map(|(name, member)| (name, json_of_value(member))).collect(),
        ),
    }
}

/// The value of the first member called `name`, if there is one.
pub open spec fn member(members: Seq<(String, Json)>, name: Seq<char>) -> Option<Json>
    decreases members.len(),
{
    if members.len() == 0 {
        None
    } else if members[0].0@ == name {
        Some(members[0].1)
    } else {
        member(members.drop_first(), name)
    }
}

/// The texts of a list of documents, if every one of them is a text.
pub open spec fn texts_of(items: Seq<Json>) -> Option<Seq<Seq<char>>> {
    if forall|i: int| 0 <= i < items.len() ==> (#[trigger] items[i]) is Text {
        Some(Seq::new(items.len(), |i: int| items[i]->Text_0@))
    } else {
        None
    }
}

/// The sense that a document describes: an object whose member `glosses`, if
/// it has one, is an array of texts. Without that member the sense has no
/// glosses. Other members are ignored.
pub open spec fn sense_of_json(document: Json) -> Option<Seq<Seq<char>>> {
    match document {
        Json::Object(members) => match member(members@, "glosses"@) {
            None => Some(Seq::empty()),
            Some(Json::Array(items)) => texts_of(items@),
            Some(_) => None,
        },
        _ => None,
    }
}

/// The senses that a list of documents describes, if every one of them
/// describes a sense.
pub open spec fn senses_of(items: Seq<Json>) -> Option<Seq<Seq<Seq<char>>>> {
    if forall|i: int| 0 <= i < items.len() ==> sense_of_json(#[trigger] items[i]) is Some {
        Some(Seq::new(items.len(), |i: int| sense_of_json(items[i])->Some_0))
    } else {
        None
    }
}

/// The entry that a document describes: an object with a text `word` that is
/// not empty, a text `pos` and an array `senses` of senses. Other members are
/// ignored. Any other document describes no entry.
pub open spec fn entry_of_json(document: Json) -> Option<EntryModel> {
    match document {
        Json::Object(members) => match (
            member(members@, "word"@),
            member(members@, "pos"@),
            member(members@, "senses"@),
        ) {
            (Some(Json::Text(word)), Some(Json::Text(pos)), Some(Json::Array(items))) => {
                match senses_of(items@) {
                    Some(senses) if word@.len() > 0 => Some(
                        EntryModel { word: word@, pos: pos@, senses },
                    ),
                    _ => None,
                }
            },
            _ => None,
        },
        _ => None,
    }
}

/// The entry that a line of the source describes, or `None` for a line that
/// is dropped: one that is no JSON document, or a document of another shape.
pub open spec fn parsed_entry(line: Seq<char>) -> Option<EntryModel> {
    match json_document(line) {
        Some(document) => entry_of_json(document),
        None => None,
    }
}

/// Finds the first member called `name`.
pub fn find_member<'a>(members: &'a Vec<(String, Json)>, name: &str) -> (r: Option<&'a Json>)
    ensures
        match r {
            Some(found) => member(members@, name@) == Some(*found),
            None => member(members@, name@) is None,
        },
{
    let wanted = name.to_owned();
    let mut i: usize = 0;
    assert(members@.skip(0) =~= members@);
    while i < members.len()
        invariant
            i <= members.len(),
            wanted@ == name@,
            member(members@, name@) == member(members@.skip(i as int), name@),
        decreases members.len() - i,
    {
        if members[i].0 == wanted {
            assert(members@.skip(i as int)[0] == members@[i as int]);
            return Some(&members[i].1);
        }
        proof {
            let rest = members@.skip(i as int);
            assert(rest[0] == members@[i as int]);
            assert(rest.drop_first() =~= members@.skip(i + 1));
        }
        i += 1;
    }
    assert(members@.skip(i as int).len() == 0);
    None
}

/// Reads the glosses of a sense from an array of documents.
pub fn texts_from_json(items: &Vec<Json>) -> (r: Option<Vec<String>>)
    ensures
        match r {
            Some(texts) => texts_of(items@) == Some(crate::model::texts_model(texts@)),
            None => texts_of(items@) is None,
        },
{
    let mut texts: Vec<String> = Vec::new();
    let mut i: usize = 0;
    while i < items.len()
        invariant
            i <= items.len(),
            texts@.len() == i,
            forall|j: int| 0 <= j < i ==> (#[trigger] items@[j]) is Text,
            forall|j: int| 0 <= j < i ==> (#[trigger] texts@[j])@ == items@[j]->Text_0@,
        decreases items.len() - i,
    {
        match &items[i] {
            Json::Text(text) => {
                texts.push(text.clone());
            },
            _ => {
                assert(!(items@[i as int] is Text));
                return None;
            },
        }
        i += 1;
    }
    assert(texts_of(items@)->Some_0 =~= crate::model::texts_model(texts@));
    Some(texts)
}

/// Reads a sense from a document.
pub fn sense_from_json(document: &Json) -> (r: Option<Sense>)
    ensures
        match r {
            Some(sense) => sense_of_json(*document) == Some(sense@),
            None => sense_of_json(*document) is None,
        },
{
    match document {
        Json::Object(members) => match find_member(members, "glosses") {
            None => {
                let sense = Sense { glosses: Vec::new() };
                assert(sense@ =~= Seq::empty());
                Some(sense)
            },
            Some(Json::Array(items)) => match texts_from_json(items) {
                Some(glosses) => Some(Sense { glosses }),
                None => None,
            },
            Some(_) => None,
        },
        _ => None,
    }
}

/// Reads the senses of an entry from an array of documents.
pub fn senses_from_json(items: &Vec<Json>) -> (r: Option<Vec<Sense>>)
    ensures
        match r {
            Some(senses) => senses_of(items@) == Some(
                Seq::new(senses@.len(), |i: int| senses@[i]@),
            ),
            None => senses_of(items@) is None,
        },
{
    let mut senses: Vec<Sense> = Vec::new();
    let mut i: usize = 0;
    while i < items.len()
        invariant
            i <= items.len(),
            senses@.len() == i,
            forall|j: int| 0 <= j < i ==> sense_of_json(#[trigger] items@[j]) is Some,
            forall|j: int| 0 <= j < i ==> (#[trigger] senses@[j])@ == sense_of_json(items@[j])->Some_0,
        decreases items.len() - i,
    {
        match sense_from_json(&items[i]) {
            Some(sense) => {
                senses.push(sense);
            },
            None => {
                assert(sense_of_json(items@[i as int]) is None);
                return None;
            },
        }
        i += 1;
    }
    assert(senses_of(items@)->Some_0 =~= Seq::new(senses@.len(), |i: int| senses@[i]@));
    Some(senses)
}

/// Reads an entry from a document.
pub fn entry_from_json(document: &Json) -> (r: Option<Entry>)
    ensures
        match r {
            Some(entry) => entry_of_json(*document) == Some(entry@),
            None => entry_of_json(*document) is None,
        },
{
    match document {
        Json::Object(members) => {
            let word = find_member(members, "word");
            let pos = find_member(members, "pos");
            let senses = find_member(members, "senses");
            match (word, pos, senses) {
                (Some(Json::Text(word)), Some(Json::Text(pos)), Some(Json::Array(items))) => {
                    if word.as_str().is_empty() {
                        return None;
                    }
                    match senses_from_json(items) {
                        Some(senses) => Some(
                            Entry { word: word.clone(), pos: pos.clone(), senses },
                        ),
                        None => None,
                    }
                },
                _ => None,
            }
        },
        _ => None,
    }
}

/// Reads an entry from a line of the source. A line that is no JSON document,
/// or that describes no entry, gives `None`: it is dropped, which is no error.
pub fn parse_entry(line: &str) -> (r: Option<Entry>)
    ensures
        match r {
            Some(entry) => parsed_entry(line@) == Some(entry@),
            None => parsed_entry(line@) is None,
        },
{
    match parse_json(line) {
        Some(document) => entry_from_json(&document),
        None => None,
    }
}

} // verus!
