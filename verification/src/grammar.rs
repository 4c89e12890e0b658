//! Parsing under the target grammar. A language and a tree are carried
//! through; nothing here looks inside one.

use crate::outside::{decode_lossy, lossy_text};
use tree_sitter::{Language, Parser, Tree};
use vstd::prelude::*;

verus! {

/// `tree_sitter::Language`: a grammar, carried through as it is.
#[verifier::external_type_specification]
#[verifier::external_body]
pub struct ExLanguage(Language);

/// `tree_sitter::Tree`: a syntax tree, carried through as it is.
#[verifier::external_type_specification]
#[verifier::external_body]
pub struct ExTree(Tree);

/// `tree_sitter::Parser`: made, used and dropped within one parse.
#[verifier::external_type_specification]
#[verifier::external_body]
pub struct ExParser(Parser);

/// Why a text gave no tree.
#[derive(Clone, Copy, Debug, PartialEq, Eq, Structural)]
pub enum ParseError {
    /// The parser did not take the language.
    Language,
    /// The parser gave no tree.
    NoTree,
}

/// Whether a parser takes `language`: whether the version of the interface
/// that the language was generated for is one that the parser supports.
pub uninterp spec fn takes_language(language: Language) -> bool;

/// Whether a language has been assigned to the parser.
pub uninterp spec fn has_language(parser: Parser) -> bool;

/// Whether nothing bounds a parse by the parser: no timeout is set and no
/// cancellation flag.
pub uninterp spec fn unbounded(parser: Parser) -> bool;

/// What the user is told for each error.
pub open spec fn parse_message_of(e: ParseError) -> Seq<char> {
    match e {
        ParseError::Language => "Failed to set tree-sitter parser language"@,
        ParseError::NoTree => "Failed to parse code"@,
    }
}

/// `tree_sitter::Parser::new`. The contract claims that a new parser has
/// neither a timeout nor a cancellation flag.
#[verifier::external_body]
fn new_parser() -> (parser: Parser)
    ensures
        unbounded(parser),
{
    Parser::new()
}

/// `tree_sitter::Parser::set_language`, asked only whether it succeeded. The
/// contract names the answer, which depends on the language alone, and
/// claims that a language that was taken is assigned to the parser, and that
/// the call sets no timeout and no cancellation flag, nor takes one away.
#[verifier::external_body]
fn set_language(parser: &mut Parser, language: &Language) -> (ok: bool)
    ensures
        ok == takes_language(*language),
        ok ==> has_language(*final(parser)),
        unbounded(*final(parser)) == unbounded(*old(parser)),
{
    parser.set_language(language).is_ok()
}

/// `tree_sitter::Parser::parse` without an earlier tree. The contract claims
/// that a parser with a language, and with nothing to bound the parse, gives
/// a tree; it claims nothing of the tree.
#[verifier::external_body]
fn parse_text(parser: &mut Parser, code: &str) -> (tree: Option<Tree>)
    ensures
        has_language(*old(parser)) && unbounded(*old(parser)) ==> tree is Some,
{
    parser.parse(code, None)
}

impl ParseError {
    /// What the user is told.
    pub fn message(&self) -> (text: String)
        ensures
            text@ == parse_message_of(*self),
    {
        match self {
            ParseError::Language => String::from_str("Failed to set tree-sitter parser language"),
            ParseError::NoTree => String::from_str("Failed to parse code"),
        }
    }
}

/// What a parse comes to once the parser has taken the language: the tree,
/// or the error for its absence.
pub fn tree_or_error(tree: Option<Tree>) -> (parsed: Result<Tree, ParseError>)
    ensures
        parsed == match tree {
            Some(t) => Ok::<Tree, ParseError>(t),
            None => Err::<Tree, ParseError>(ParseError::NoTree),
        },
{
    match tree {
        Some(t) => Ok(t),
        None => Err(ParseError::NoTree),
    }
}

/// Parses `code` under `language` with a parser of its own. A language that
/// the parser takes gives a tree, whatever the text; any other gives the
/// error for it.
pub fn parse(language: &Language, code: &str) -> (parsed: Result<Tree, ParseError>)
    ensures
        parsed is Ok <==> takes_language(*language),
        parsed matches Err(ParseError::Language) <==> !takes_language(*language),
{
    let mut parser = new_parser();
    if !set_language(&mut parser, language) {
        return Err(ParseError::Language);
    }
    tree_or_error(parse_text(&mut parser, code))
}

/// The text of a candidate, which need not be text: each ill-formed
/// sequence is read as the replacement character.
pub fn candidate_text(candidate: &[u8]) -> (text: String)
    ensures
        text@ == lossy_text(candidate@),
{
    decode_lossy(candidate)
}

/// Parses a candidate: its text, as `candidate_text` gives it, is parsed as
/// `parse` does.
pub fn parse_candidate(language: &Language, candidate: &[u8]) -> (parsed: Result<
    Tree,
    ParseError,
>)
    ensures
        parsed is Ok <==> takes_language(*language),
        parsed matches Err(ParseError::Language) <==> !takes_language(*language),
{
    let text = candidate_text(candidate);
    parse(language, text.as_str())
}

} // verus!
