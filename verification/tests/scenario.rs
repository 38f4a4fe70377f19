use kerralla::index::build_trie_from;
use kerralla::model::Entry;

fn lines(texts: &[&str]) -> Vec<String> {
    texts.iter().map(|text| text.to_string()).collect()
}

fn keys(found: &[(Vec<u8>, Entry)]) -> Vec<String> {
    found.iter().map(|pair| String::from_utf8(pair.0.clone()).unwrap()).collect()
}

fn run_source() -> Vec<String> {
    lines(&[
        r#"{"word":"run","pos":"verb","senses":[{"glosses":["to move fast"]}]}"#,
        r#"{"word":"run","pos":"noun","senses":[{"glosses":["an act of running"]}]}"#,
        r#"{"word":"running shoe","pos":"noun","senses":[]}"#,
    ])
}

#[test]
fn monoword_search_finds_both_forms_of_run() {
    let index = build_trie_from(&run_source(), true);
    let found = index.search("run");
    assert_eq!(keys(&found), vec!["run;noun".to_string(), "run;verb".to_string()]);
    assert_eq!(found[0].1.word, "run");
    assert_eq!(found[0].1.pos, "noun");
    assert_eq!(found[0].1.senses.len(), 1);
    assert_eq!(found[0].1.senses[0].glosses, vec!["an act of running".to_string()]);
    assert_eq!(found[1].1.pos, "verb");
    assert_eq!(found[1].1.senses[0].glosses, vec!["to move fast".to_string()]);
}

#[test]
fn monoword_search_for_running_is_empty() {
    let index = build_trie_from(&run_source(), true);
    assert!(index.search("running").is_empty());
}

#[test]
fn without_the_policy_the_phrase_is_found() {
    let index = build_trie_from(&run_source(), false);
    let found = index.search("running");
    assert_eq!(keys(&found), vec!["running shoe;noun".to_string()]);
    assert_eq!(index.search("run").len(), 3);
}
