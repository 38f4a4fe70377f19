use kerralla::{build_trie_from, Dictionary, Entry, Record, Sense};

fn record(word: &str, pos: &str, glosses: &[&str]) -> Record {
    (
        word.to_string(),
        pos.to_string(),
        vec![glosses.iter().map(|gloss| gloss.to_string()).collect()],
    )
}

fn keyed(key: &[u8], word: &str) -> (Vec<u8>, Record) {
    (key.to_vec(), record(word, "noun", &["a gloss"]))
}

fn sample() -> Dictionary {
    Dictionary::from_records(vec![
        keyed(b"better", "better"),
        keyed(b"app", "app"),
        keyed(b"a", "a"),
        keyed(b"application", "application"),
        keyed(b"apple", "apple"),
    ])
    .unwrap()
}

fn found_keys(found: &[(Vec<u8>, Entry)]) -> Vec<Vec<u8>> {
    found.iter().map(|pair| pair.0.clone()).collect()
}

fn keys(texts: &[&str]) -> Vec<Vec<u8>> {
    texts.iter().map(|text| text.as_bytes().to_vec()).collect()
}

#[test]
fn the_empty_query_finds_everything_in_ascending_order() {
    let found = sample().search("");
    assert_eq!(found_keys(&found), keys(&["a", "app", "apple", "application", "better"]));
    let words: Vec<&str> = found.iter().map(|pair| pair.1.word.as_str()).collect();
    assert_eq!(words, vec!["a", "app", "apple", "application", "better"]);
}

#[test]
fn a_query_finds_the_keys_that_start_with_it() {
    let index = sample();
    assert_eq!(found_keys(&index.search("app")), keys(&["app", "apple", "application"]));
    assert_eq!(found_keys(&index.search("appl")), keys(&["apple", "application"]));
    assert_eq!(found_keys(&index.search("apple")), keys(&["apple"]));
    assert_eq!(found_keys(&index.search("b")), keys(&["better"]));
    assert_eq!(found_keys(&index.search("a")), keys(&["a", "app", "apple", "application"]));
}

#[test]
fn a_query_that_begins_no_key_finds_nothing() {
    let index = sample();
    assert!(index.search("c").is_empty());
    assert!(index.search("apples").is_empty());
    assert!(index.search("ab").is_empty());
    assert!(index.search("betters").is_empty());
    assert!(index.search("A").is_empty());
}

#[test]
fn every_prefix_of_a_key_finds_its_entry() {
    let index = sample();
    let key = b"application";
    for end in 0..=key.len() {
        let found = index.search_bytes(&key[..end]);
        let hits: Vec<&(Vec<u8>, Entry)> =
            found.iter().filter(|pair| pair.0 == key.to_vec()).collect();
        assert_eq!(hits.len(), 1, "prefix of length {}", end);
        assert_eq!(hits[0].1.word, "application");
    }
}

#[test]
fn no_query_finds_a_key_that_does_not_start_with_it() {
    let index = sample();
    for query in ["", "a", "ap", "app", "appl", "b", "be", "x", "apple", "applications"] {
        for pair in index.search(query) {
            assert!(pair.0.starts_with(query.as_bytes()), "{:?} under {:?}", pair.0, query);
        }
    }
}

#[test]
fn a_repeated_query_gives_the_same_answer() {
    let index = sample();
    assert_eq!(index.search("ap"), index.search("ap"));
    assert_eq!(index.search(""), index.search(""));
}

#[test]
fn the_found_entry_is_the_stored_one() {
    let index = Dictionary::from_records(vec![(
        b"talo;noun".to_vec(),
        ("talo".to_string(), "noun".to_string(), vec![vec!["house".to_string()], vec![]]),
    )])
    .unwrap();
    let found = index.search("talo");
    assert_eq!(
        found,
        vec![(
            b"talo;noun".to_vec(),
            Entry {
                word: "talo".to_string(),
                pos: "noun".to_string(),
                senses: vec![Sense { glosses: vec!["house".to_string()] }, Sense { glosses: vec![] }],
            }
        )]
    );
}

#[test]
fn of_two_records_with_one_key_the_later_stays() {
    let index = Dictionary::from_records(vec![
        (b"run".to_vec(), record("run", "verb", &["first"])),
        (b"walk".to_vec(), record("walk", "verb", &["other"])),
        (b"run".to_vec(), record("run", "verb", &["second"])),
    ])
    .unwrap();
    let found = index.search("");
    assert_eq!(found.len(), 2);
    assert_eq!(found[0].0, b"run".to_vec());
    assert_eq!(found[0].1.senses[0].glosses, vec!["second".to_string()]);
    assert_eq!(found[1].0, b"walk".to_vec());
}

#[test]
fn of_two_lines_with_one_key_the_later_stays() {
    let lines: Vec<String> = vec![
        r#"{"word":"run","pos":"verb","senses":[{"glosses":["first"]}]}"#.to_string(),
        r#"{"word":"run","pos":"noun","senses":[{"glosses":["a run"]}]}"#.to_string(),
        r#"{"word":"run","pos":"verb","senses":[{"glosses":["second"]}]}"#.to_string(),
    ];
    let found = build_trie_from(&lines, true).search("run;verb");
    assert_eq!(found.len(), 1);
    assert_eq!(found[0].1.senses, vec![Sense { glosses: vec!["second".to_string()] }]);
}

#[test]
fn an_empty_key_builds_no_index() {
    assert!(Dictionary::from_records(vec![keyed(b"", "nothing")]).is_none());
    assert!(Dictionary::from_records(vec![keyed(b"a", "a"), keyed(b"", "nothing")]).is_none());
    assert!(Dictionary::from_records(vec![keyed(b"a", "a")]).is_some());
}

#[test]
fn an_index_may_be_empty() {
    let index = Dictionary::from_records(Vec::new()).unwrap();
    assert!(index.search("").is_empty());
    assert!(index.search("a").is_empty());
    assert!(index.records(b"").is_empty());
    let built = build_trie_from(&Vec::new(), true);
    assert!(built.search("").is_empty());
}

#[test]
fn keys_are_ordered_byte_by_byte() {
    let index = Dictionary::from_records(vec![
        keyed("äiti".as_bytes(), "äiti"),
        keyed(b"zebra", "zebra"),
        keyed(b"Zoo", "Zoo"),
        keyed(b"a;b", "a"),
        keyed(b"a", "a"),
        keyed(b"a b", "a b"),
        keyed(&[0xff, 0x00], "high"),
        keyed(&[0x00], "low"),
    ])
    .unwrap();
    let expected: Vec<Vec<u8>> = vec![
        vec![0x00],
        b"Zoo".to_vec(),
        b"a".to_vec(),
        b"a b".to_vec(),
        b"a;b".to_vec(),
        b"zebra".to_vec(),
        "äiti".as_bytes().to_vec(),
        vec![0xff, 0x00],
    ];
    assert_eq!(found_keys(&index.search("")), expected);
}

#[test]
fn a_query_may_end_inside_a_character() {
    let index = Dictionary::from_records(vec![
        keyed("äiti".as_bytes(), "äiti"),
        keyed("öljy".as_bytes(), "öljy"),
    ])
    .unwrap();
    let first_byte = &"ä".as_bytes()[..1];
    let found = index.search_bytes(first_byte);
    assert_eq!(found_keys(&found), vec!["äiti".as_bytes().to_vec(), "öljy".as_bytes().to_vec()]);
    assert_eq!(found_keys(&index.search("ä")), vec!["äiti".as_bytes().to_vec()]);
}

#[test]
fn the_borrowed_records_are_the_found_entries() {
    let index = sample();
    let records = index.records(b"app");
    let entries = index.search_bytes(b"app");
    assert_eq!(records.len(), 3);
    for (borrowed, owned) in records.iter().zip(entries.iter()) {
        assert_eq!(borrowed.0, owned.0);
        assert_eq!(Entry::from_record(borrowed.1), owned.1);
    }
}

#[test]
fn an_entry_and_its_record_hold_the_same() {
    let entry = Entry {
        word: "run".to_string(),
        pos: "verb".to_string(),
        senses: vec![
            Sense { glosses: vec!["a".to_string(), "b".to_string()] },
            Sense { glosses: vec![] },
        ],
    };
    let record = entry.to_record();
    assert_eq!(
        record,
        (
            "run".to_string(),
            "verb".to_string(),
            vec![vec!["a".to_string(), "b".to_string()], vec![]]
        )
    );
    assert_eq!(Entry::from_record(&record), entry);
}

#[test]
fn many_entries_are_built_and_found() {
    let mut lines: Vec<String> = Vec::new();
    for i in 0..5000 {
        lines.push(format!(r#"{{"word":"w{:05}","pos":"noun","senses":[]}}"#, i));
    }
    let index = build_trie_from(&lines, true);
    assert_eq!(index.search("").len(), 5000);
    assert_eq!(index.search("w0001").len(), 10);
    let found = index.search("w00042");
    assert_eq!(found.len(), 1);
    assert_eq!(found[0].0, b"w00042;noun".to_vec());
}
