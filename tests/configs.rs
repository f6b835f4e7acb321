use napkin::configs::{
    check_docs, parse_yaml, yaml_annotate, yaml_get_bool, yaml_get_date, yaml_get_int,
    yaml_get_list, yaml_get_str, Error, Kind, Node, Timestamp,
};

fn sample() -> Node {
    parse_yaml("name: napkin\ncount: 3\nflag: true\nitems: [a, b]\nwhen: 2024-01-02T03:04:05+02:00\nbad_when: yesterday\n")
        .unwrap()
}

#[test]
fn empty_text_is_empty_document() {
    assert_eq!(parse_yaml("").unwrap_err(), Error::EmptyYaml);
    assert_eq!(parse_yaml("# only a comment\n").unwrap_err(), Error::EmptyYaml);
}

#[test]
fn sequence_root_is_not_a_mapping() {
    assert_eq!(parse_yaml("- a\n- b\n").unwrap_err(), Error::NonHashMapDoc);
    assert_eq!(parse_yaml("just a scalar").unwrap_err(), Error::NonHashMapDoc);
}

#[test]
fn two_documents_are_rejected() {
    assert_eq!(parse_yaml("a: 1\n---\nb: 2\n").unwrap_err(), Error::MultipleYamlDocs);
}

#[test]
fn syntax_error_is_invalid_yaml() {
    match parse_yaml("a: [1, 2\nb: 3\n") {
        Err(Error::InvalidYaml { line, info }) => {
            assert!(line >= 1);
            assert!(!info.is_empty());
        }
        other => panic!("unexpected {:?}", other),
    }
}

#[test]
fn check_docs_shapes() {
    assert_eq!(check_docs(vec![]).unwrap_err(), Error::EmptyYaml);
    assert_eq!(check_docs(vec![Node::Null]).unwrap_err(), Error::NonHashMapDoc);
    assert_eq!(
        check_docs(vec![Node::Hash(vec![]), Node::Hash(vec![])]).unwrap_err(),
        Error::MultipleYamlDocs
    );
    assert!(matches!(check_docs(vec![Node::Hash(vec![])]), Ok(Node::Hash(_))));
}

#[test]
fn getters_read_values() {
    let doc = sample();
    assert_eq!(yaml_get_str("name", &doc).unwrap(), "napkin");
    assert_eq!(yaml_get_int("count", &doc).unwrap(), 3);
    assert_eq!(yaml_get_bool("flag", &doc).unwrap(), true);
    let items = yaml_get_list("items", &doc).unwrap();
    assert_eq!(items.len(), 2);
    assert!(matches!(&items[0], Node::Str(s) if s == "a"));
    assert!(matches!(&items[1], Node::Str(s) if s == "b"));
}

#[test]
fn getters_report_missing_key() {
    let doc = sample();
    let missing = Error::MissingKey("absent".to_string());
    assert_eq!(yaml_get_str("absent", &doc).unwrap_err(), missing);
    assert_eq!(yaml_get_int("absent", &doc).unwrap_err(), missing);
    assert_eq!(yaml_get_bool("absent", &doc).unwrap_err(), missing);
    assert_eq!(yaml_get_list("absent", &doc).unwrap_err(), missing);
    assert_eq!(yaml_get_date("absent", &doc).unwrap_err(), missing);
}

#[test]
fn getters_report_wrong_type() {
    let doc = sample();
    let wrong = |kind| Error::WrongKeyType { key: "count".to_string(), expected_type: kind };
    assert_eq!(yaml_get_str("count", &doc).unwrap_err(), wrong(Kind::String));
    assert_eq!(yaml_get_bool("count", &doc).unwrap_err(), wrong(Kind::Boolean));
    assert_eq!(yaml_get_list("count", &doc).unwrap_err(), wrong(Kind::List));
    assert_eq!(yaml_get_date("count", &doc).unwrap_err(), wrong(Kind::String));
    assert_eq!(
        yaml_get_int("name", &doc).unwrap_err(),
        Error::WrongKeyType { key: "name".to_string(), expected_type: Kind::Integer }
    );
}

#[test]
fn numeric_string_is_not_an_integer() {
    let doc = parse_yaml("n: \"5\"\n").unwrap();
    assert_eq!(
        yaml_get_int("n", &doc).unwrap_err(),
        Error::WrongKeyType { key: "n".to_string(), expected_type: Kind::Integer }
    );
    assert_eq!(yaml_get_str("n", &doc).unwrap(), "5");
}

#[test]
fn date_getter_parses_rfc3339() {
    let doc = sample();
    assert_eq!(
        yaml_get_date("when", &doc).unwrap(),
        Timestamp { secs: 1704157445, nanos: 0, offset: 7200 }
    );
    assert_eq!(
        yaml_get_date("bad_when", &doc).unwrap_err(),
        Error::InvalidDate("bad_when".to_string())
    );
}

#[test]
fn getters_on_non_mapping_report_missing() {
    assert_eq!(
        yaml_get_str("k", &Node::Null).unwrap_err(),
        Error::MissingKey("k".to_string())
    );
}

#[test]
fn annotate_missing_key_keeps_text() {
    let src = "---\nversion: \"1\"\n...";
    let out = yaml_annotate(src, Error::MissingKey("napkins".to_string()));
    assert_eq!(out, "## ERROR: Missing key 'napkins'\n\n---\nversion: \"1\"\n...");
    assert!(out.starts_with("## ERROR"));
    assert!(out.contains("napkins"));
    assert!(out.contains(src));
}

#[test]
fn annotate_document_level_errors() {
    assert_eq!(
        yaml_annotate("", Error::EmptyYaml),
        "## ERROR: Expected some YAML here...\n"
    );
    assert_eq!(
        yaml_annotate("- a", Error::NonHashMapDoc),
        "## ERROR: Expected a hashmap YAML doc instead\n- a"
    );
    assert_eq!(
        yaml_annotate("a: 1\n---\nb: 2", Error::MultipleYamlDocs),
        "## ERROR: Multiple YAML docs found\na: 1\n---\nb: 2"
    );
}

#[test]
fn annotate_invalid_yaml_before_line() {
    let err = Error::InvalidYaml { line: 3, info: "oops".to_string() };
    assert_eq!(
        yaml_annotate("a: 1\nb: 2\nc: [\n", err),
        "a: 1\nb: 2 ## ERROR: Invalid Yaml: oops\nc: [\n"
    );
    let first = Error::InvalidYaml { line: 1, info: "bad".to_string() };
    assert_eq!(yaml_annotate("x: [", first), "## ERROR: Invalid Yaml: bad\nx: [");
    let beyond = Error::InvalidYaml { line: 9, info: "bad".to_string() };
    assert_eq!(yaml_annotate("x: [", beyond), "## ERROR: Invalid Yaml: bad\nx: [");
}

#[test]
fn annotate_wrong_type_on_key_line() {
    let src = "a: 1\ncount: x\nb: 2";
    let err = Error::WrongKeyType { key: "count".to_string(), expected_type: Kind::Integer };
    assert_eq!(
        yaml_annotate(src, err),
        "a: 1\ncount: x ## ERROR: Key of wrong type: expected 'count' to be a integer\nb: 2"
    );
}

#[test]
fn annotate_wrong_type_on_last_line() {
    let err = Error::WrongKeyType { key: "k".to_string(), expected_type: Kind::List };
    assert_eq!(
        yaml_annotate("a: 1\nk: 2", err),
        "a: 1\nk: 2 ## ERROR: Key of wrong type: expected 'k' to be a list"
    );
}

#[test]
fn annotate_prefers_key_with_colon() {
    let err = Error::InvalidDate("when".to_string());
    assert_eq!(
        yaml_annotate("# when is it\nwhen: soon\n", err),
        "# when is it\nwhen: soon ## ERROR: Invalid Date\n"
    );
}

#[test]
fn annotate_absent_key_goes_first() {
    let err = Error::InvalidDate("zzz".to_string());
    assert_eq!(yaml_annotate("a: 1", err), "## ERROR: Invalid Date\na: 1");
}

#[test]
fn annotate_non_ascii_text() {
    let err = Error::WrongKeyType { key: "ключ".to_string(), expected_type: Kind::String };
    assert_eq!(
        yaml_annotate("é: 1\nключ: 2\n", err),
        "é: 1\nключ: 2 ## ERROR: Key of wrong type: expected 'ключ' to be a string\n"
    );
}

#[test]
fn wrong_type_note_is_inert() {
    let src = "version: 1\nnapkins: []\n";
    let doc = parse_yaml(src).unwrap();
    let err = yaml_get_str("version", &doc).unwrap_err();
    let out = yaml_annotate(src, err.clone());
    assert_eq!(out.lines().next().unwrap(), "version: 1 ## ERROR: Key of wrong type: expected 'version' to be a string");
    let again = parse_yaml(&out).unwrap();
    assert_eq!(yaml_get_str("version", &again).unwrap_err(), err);
}
