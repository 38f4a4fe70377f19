//! The records of the dictionary and their mathematical models.
use vstd::prelude::*;

verus! {

/// One sense of a word: its definitions, in order.
#[derive(Clone, Debug, PartialEq, Eq)]
pub struct Sense {
    pub glosses: Vec<String>,
}

/// One word sense record: a headword, its part of speech and its senses.
#[derive(Clone, Debug, PartialEq, Eq)]
pub struct Entry {
    pub word: String,
    pub pos: String,
    pub senses: Vec<Sense>,
}

/// What an [`Entry`] stands for: the headword and the part of speech as
/// sequences of characters, and for each sense the sequence of its glosses.
pub struct EntryModel {
    pub word: Seq<char>,
    pub pos: Seq<char>,
    pub senses: Seq<Seq<Seq<char>>>,
}

/// An entry as the index stores it: headword, part of speech, and the glosses
/// of each sense.
pub type Record = (String, String, Vec<Vec<String>>);

/// The texts that a vector of strings stands for.
pub open spec fn texts_model(texts: Seq<String>) -> Seq<Seq<char>> {
    Seq::new(texts.len(), |i: int| texts[i]@)
}

/// The senses that a vector of gloss vectors stands for.
pub open spec fn gloss_lists_model(lists: Seq<Vec<String>>) -> Seq<Seq<Seq<char>>> {
    Seq::new(lists.len(), |i: int| texts_model(lists[i]@))
}

/// The entry that a stored record stands for.
pub open spec fn record_model(record: Record) -> EntryModel {
    EntryModel { word: record.0@, pos: record.1@, senses: gloss_lists_model(record.2@) }
}

impl View for Sense {
    type V = Seq<Seq<char>>;

    open spec fn view(&self) -> Seq<Seq<char>> {
        texts_model(self.glosses@)
    }
}

impl View for Entry {
    type V = EntryModel;

    open spec fn view(&self) -> EntryModel {
        EntryModel {
            word: self.word@,
            pos: self.pos@,
            senses: Seq::new(self.senses@.len(), |i: int| self.senses@[i]@),
        }
    }
}

/// A copy of a list of glosses.
pub fn copy_glosses(glosses: &Vec<String>) -> (copy: Vec<String>)
    ensures
        texts_model(copy@) == texts_model(glosses@),
{
    let mut copy: Vec<String> = Vec::new();
    let mut i: usize = 0;
    while i < glosses.len()
        invariant
            i <= glosses.len(),
            copy@.len() == i,
            forall|j: int| 0 <= j < i ==> copy@[j]@ == glosses@[j]@,
        decreases glosses.len() - i,
    {
        copy.push(glosses[i].clone());
        i += 1;
    }
    assert(texts_model(copy@) =~= texts_model(glosses@));
    copy
}

impl Entry {
    /// The record under which the index stores this entry.
    pub fn to_record(&self) -> (record: Record)
        ensures
            record_model(record) == self@,
    {
        let mut lists: Vec<Vec<String>> = Vec::new();
        let mut i: usize = 0;
        while i < self.senses.len()
            invariant
                i <= self.senses.len(),
                lists@.len() == i,
                forall|j: int| 0 <= j < i ==> texts_model(lists@[j]@) == self.senses@[j]@,
            decreases self.senses.len() - i,
        {
            lists.push(copy_glosses(&self.senses[i].glosses));
            i += 1;
        }
        assert(gloss_lists_model(lists@) =~= self@.senses);
        (self.word.clone(), self.pos.clone(), lists)
    }

    /// The entry that a stored record holds.
    pub fn from_record(record: &Record) -> (entry: Entry)
        ensures
            entry@ == record_model(*record),
    {
        let mut senses: Vec<Sense> = Vec::new();
        let mut i: usize = 0;
        while i < record.2.len()
            invariant
                i <= record.2.len(),
                senses@.len() == i,
                forall|j: int| 0 <= j < i ==> senses@[j]@ == texts_model(record.2@[j]@),
            decreases record.2.len() - i,
        {
            senses.push(Sense { glosses: copy_glosses(&record.2[i]) });
            i += 1;
        }
        let entry = Entry { word: record.0.clone(), pos: record.1.clone(), senses };
        assert(entry@.senses =~= gloss_lists_model(record.2@));
        entry
    }
}

} // verus!
