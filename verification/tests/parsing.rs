use kerralla::json::{entry_from_json, find_member, sense_from_json, Json};
use kerralla::model::{Entry, Sense};
use kerralla::parse_entry;

fn text(s: &str) -> Json {
    Json::Text(s.to_string())
}

fn object(members: Vec<(&str, Json)>) -> Json {
    Json::Object(members.into_iter().map(|(name, value)| (name.to_string(), value)).collect())
}

#[test]
fn a_full_line_gives_its_entry() {
    let entry = parse_entry(
        r#"{"word":"run","pos":"verb","senses":[{"glosses":["to move fast","to flee"]},{"glosses":["to flow"]}]}"#,
    );
    assert_eq!(
        entry,
        Some(Entry {
            word: "run".to_string(),
            pos: "verb".to_string(),
            senses: vec![
                Sense { glosses: vec!["to move fast".to_string(), "to flee".to_string()] },
                Sense { glosses: vec!["to flow".to_string()] },
            ],
        })
    );
}

#[test]
fn a_sense_without_glosses_has_none() {
    let entry = parse_entry(r#"{"word":"run","pos":"verb","senses":[{},{"tags":["rare"]}]}"#)
        .unwrap();
    assert_eq!(entry.senses, vec![Sense { glosses: vec![] }, Sense { glosses: vec![] }]);
}

#[test]
fn an_entry_may_have_no_senses() {
    let entry = parse_entry(r#"{"word":"running shoe","pos":"noun","senses":[]}"#).unwrap();
    assert_eq!(entry.word, "running shoe");
    assert!(entry.senses.is_empty());
}

#[test]
fn unknown_members_are_ignored() {
    let entry = parse_entry(
        r#"{"lang":"English","word":"kissa","etymology":{"n":1},"pos":"noun","senses":[{"id":7,"glosses":["cat"]}],"sounds":[1.5,null,true]}"#,
    )
    .unwrap();
    assert_eq!(entry.word, "kissa");
    assert_eq!(entry.pos, "noun");
    assert_eq!(entry.senses, vec![Sense { glosses: vec!["cat".to_string()] }]);
}

#[test]
fn escapes_and_other_scripts_are_read() {
    let entry =
        parse_entry(r#"{"word":"äiti","pos":"noun","senses":[{"glosses":["a \"mother\"", "母"]}]}"#)
            .unwrap();
    assert_eq!(entry.word, "äiti");
    assert_eq!(entry.senses[0].glosses, vec!["a \"mother\"".to_string(), "母".to_string()]);
}

#[test]
fn a_line_that_is_no_json_is_dropped() {
    assert_eq!(parse_entry(""), None);
    assert_eq!(parse_entry("run verb"), None);
    assert_eq!(parse_entry(r#"{"word":"run","pos":"verb","senses":[]"#), None);
    assert_eq!(parse_entry(r#"{"word":"run","pos":"verb","senses":[]} trailing"#), None);
}

#[test]
fn a_document_that_is_no_object_is_dropped() {
    assert_eq!(parse_entry("null"), None);
    assert_eq!(parse_entry("42"), None);
    assert_eq!(parse_entry(r#""run""#), None);
    assert_eq!(parse_entry(r#"["run","verb",[]]"#), None);
}

#[test]
fn a_missing_member_drops_the_line() {
    assert_eq!(parse_entry(r#"{"pos":"verb","senses":[]}"#), None);
    assert_eq!(parse_entry(r#"{"word":"run","senses":[]}"#), None);
    assert_eq!(parse_entry(r#"{"word":"run","pos":"verb"}"#), None);
}

#[test]
fn a_member_of_the_wrong_kind_drops_the_line() {
    assert_eq!(parse_entry(r#"{"word":7,"pos":"verb","senses":[]}"#), None);
    assert_eq!(parse_entry(r#"{"word":"run","pos":null,"senses":[]}"#), None);
    assert_eq!(parse_entry(r#"{"word":"run","pos":"verb","senses":{}}"#), None);
    assert_eq!(parse_entry(r#"{"word":"run","pos":"verb","senses":["fast"]}"#), None);
    assert_eq!(parse_entry(r#"{"word":"run","pos":"verb","senses":[{"glosses":"fast"}]}"#), None);
    assert_eq!(parse_entry(r#"{"word":"run","pos":"verb","senses":[{"glosses":[1]}]}"#), None);
    assert_eq!(parse_entry(r#"{"word":"run","pos":"verb","senses":[{"glosses":null}]}"#), None);
}

#[test]
fn an_empty_headword_drops_the_line() {
    assert_eq!(parse_entry(r#"{"word":"","pos":"verb","senses":[]}"#), None);
    assert!(parse_entry(r#"{"word":"a","pos":"","senses":[]}"#).is_some());
}

#[test]
fn one_bad_sense_drops_the_whole_line() {
    assert_eq!(
        parse_entry(r#"{"word":"run","pos":"verb","senses":[{"glosses":["a"]},{"glosses":[true]}]}"#),
        None
    );
}

#[test]
fn the_first_member_of_a_name_is_found() {
    let members = vec![
        ("pos".to_string(), text("noun")),
        ("word".to_string(), text("first")),
        ("word".to_string(), text("second")),
    ];
    match find_member(&members, "word") {
        Some(Json::Text(found)) => assert_eq!(found, "first"),
        other => panic!("found {:?}", other),
    }
    assert!(find_member(&members, "senses").is_none());
    assert!(find_member(&members, "wor").is_none());
    assert!(find_member(&Vec::new(), "word").is_none());
}

#[test]
fn an_entry_is_read_from_a_document() {
    let document = object(vec![
        ("word", text("talo")),
        ("pos", text("noun")),
        ("senses", Json::Array(vec![object(vec![("glosses", Json::Array(vec![text("house")]))])])),
        ("extra", Json::Number),
    ]);
    let entry = entry_from_json(&document).unwrap();
    assert_eq!(entry.word, "talo");
    assert_eq!(entry.pos, "noun");
    assert_eq!(entry.senses, vec![Sense { glosses: vec!["house".to_string()] }]);
}

#[test]
fn documents_of_other_shapes_are_no_entry() {
    assert_eq!(entry_from_json(&Json::Null), None);
    assert_eq!(entry_from_json(&Json::Bool(true)), None);
    assert_eq!(entry_from_json(&Json::Array(vec![])), None);
    assert_eq!(entry_from_json(&object(vec![])), None);
    let numbered =
        object(vec![("word", Json::Number), ("pos", text("noun")), ("senses", Json::Array(vec![]))]);
    assert_eq!(entry_from_json(&numbered), None);
}

#[test]
fn a_sense_is_read_from_a_document() {
    assert_eq!(sense_from_json(&object(vec![])), Some(Sense { glosses: vec![] }));
    assert_eq!(
        sense_from_json(&object(vec![("glosses", Json::Array(vec![text("a"), text("b")]))])),
        Some(Sense { glosses: vec!["a".to_string(), "b".to_string()] })
    );
    assert_eq!(sense_from_json(&object(vec![("glosses", Json::Null)])), None);
    assert_eq!(sense_from_json(&Json::Array(vec![])), None);
    assert_eq!(sense_from_json(&text("a")), None);
}
