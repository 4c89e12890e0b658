use tree_crasher::grammar::{candidate_text, parse, parse_candidate, tree_or_error, ParseError};
use tree_crasher::corpus::{load_seed, read_seed, seed_from_parse};
use tree_sitter::Language;

fn json() -> Language {
    Language::new(tree_sitter_json::LANGUAGE)
}

#[test]
fn a_text_parses_to_a_tree_over_all_of_it() {
    let tree = parse(&json(), "[1, 2]").unwrap();
    let root = tree.root_node();
    assert_eq!(root.kind(), "document");
    assert_eq!(root.byte_range(), 0..6);
    assert!(!root.has_error());
}

#[test]
fn a_broken_text_still_gets_a_tree() {
    let tree = parse(&json(), "[1, ").unwrap();
    assert!(tree.root_node().has_error());
}

#[test]
fn a_missing_tree_is_an_error() {
    assert_eq!(tree_or_error(None).err(), Some(ParseError::NoTree));
    let tree = parse(&json(), "{}").unwrap();
    assert!(tree_or_error(Some(tree)).is_ok());
}

#[test]
fn parse_errors_have_their_messages() {
    assert_eq!(ParseError::Language.message(), "Failed to set tree-sitter parser language");
    assert_eq!(ParseError::NoTree.message(), "Failed to parse code");
}

#[test]
fn a_candidate_is_decoded_before_it_is_parsed() {
    let tree = parse_candidate(&json(), b"[1]").unwrap();
    assert_eq!(tree.root_node().byte_range(), 0..3);
    let tree = parse_candidate(&json(), &[b'"', 0xff, b'"']).unwrap();
    assert_eq!(tree.root_node().end_byte(), 5);
    let tree = parse_candidate(&json(), &[]).unwrap();
    assert_eq!(tree.root_node().end_byte(), 0);
}

#[test]
fn a_readable_file_becomes_a_seed_with_its_tree() {
    let seed = read_seed(&json(), "a.json".to_string(), Some("{\"a\": 1}".to_string())).unwrap();
    assert_eq!(seed.name, "a.json");
    assert_eq!(seed.bytes, b"{\"a\": 1}".to_vec());
    assert_eq!(seed.tree.root_node().byte_range(), 0..8);
}

#[test]
fn a_file_that_is_not_valid_in_the_grammar_is_still_a_seed() {
    let seed = read_seed(&json(), "a.json".to_string(), Some("[1, ".to_string())).unwrap();
    assert_eq!(seed.bytes, b"[1, ".to_vec());
    assert!(seed.tree.root_node().has_error());
}

#[test]
fn an_unreadable_file_is_passed_over() {
    assert!(read_seed(&json(), "a.json".to_string(), None).is_none());
}

#[test]
fn a_parsed_text_becomes_a_seed_with_its_tree() {
    let parsed = parse(&json(), "[true]");
    let seed = seed_from_parse("t.json".to_string(), "[true]".to_string(), parsed).unwrap();
    assert_eq!(seed.name, "t.json");
    assert_eq!(seed.bytes, b"[true]".to_vec());
    assert_eq!(seed.tree.root_node().byte_range(), 0..6);
}

#[test]
fn a_text_without_a_tree_is_passed_over() {
    let none = seed_from_parse("t".to_string(), "x".to_string(), Err(ParseError::NoTree));
    assert!(none.is_none());
    let none = seed_from_parse("t".to_string(), "x".to_string(), Err(ParseError::Language));
    assert!(none.is_none());
}

#[test]
fn only_read_and_parsed_text_becomes_a_seed() {
    let tree = || parse(&json(), "1").ok();
    let s = load_seed("a.js".to_string(), Some("1".to_string()), tree()).unwrap();
    assert_eq!(s.name, "a.js");
    assert_eq!(s.bytes, b"1".to_vec());
    assert_eq!(s.tree.root_node().end_byte(), 1);
    assert!(load_seed("a.js".to_string(), Some("1".to_string()), None).is_none());
    assert!(load_seed("a.js".to_string(), None, tree()).is_none());
    assert!(load_seed("a.js".to_string(), None, None).is_none());
    let s = load_seed("u".to_string(), Some("h\u{e9}".to_string()), tree()).unwrap();
    assert_eq!(s.bytes, vec![b'h', 0xc3, 0xa9]);
}

#[test]
fn a_language_that_is_taken_always_gives_a_tree() {
    for text in ["", "[", "\u{0}", "not json at all", "{\"a\": [1, 2, {\"b\": null}]}"] {
        assert!(parse(&json(), text).is_ok());
        assert!(parse_candidate(&json(), text.as_bytes()).is_ok());
    }
    assert!(parse_candidate(&json(), &[0xff, 0xfe, 0x00]).is_ok());
}

#[test]
fn a_candidate_has_a_text_whatever_its_bytes() {
    assert_eq!(candidate_text(b"1+1;"), "1+1;");
    assert_eq!(candidate_text(&[b'a', 0xff, b'b']), "a\u{fffd}b");
    assert_eq!(candidate_text(&[]), "");
}
