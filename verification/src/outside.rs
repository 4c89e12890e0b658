//! The calls this library makes into other crates. Verus takes the contracts
//! in this file on trust.

use regex::Regex;
use vstd::prelude::*;

verus! {

/// `regex::Regex`: a compiled pattern, carried through as it is.
#[verifier::external_type_specification]
#[verifier::external_body]
pub struct ExRegex(Regex);

/// Whether the `regex` crate compiles `pattern` with its default limits.
pub uninterp spec fn regex_accepts(pattern: Seq<char>) -> bool;

/// The text that a pattern was compiled from.
pub uninterp spec fn regex_text(pattern: Regex) -> Seq<char>;

/// Whether a compiled pattern matches somewhere in `text`.
pub uninterp spec fn regex_matches(pattern: Regex, text: Seq<char>) -> bool;

/// The text that `bytes` decode to, each ill-formed sequence read as the
/// replacement character.
pub uninterp spec fn lossy_text(bytes: Seq<u8>) -> Seq<char>;

/// `true` for the digits and the letters `a` to `f`.
pub open spec fn is_lower_hex(c: char) -> bool {
    ('0' <= c && c <= '9') || ('a' <= c && c <= 'f')
}

/// The shape of an identifier in its hyphenated form: 36 characters, a hyphen
/// at places 8, 13, 18 and 23, a lower-case hexadecimal digit everywhere else.
pub open spec fn is_uuid_text(s: Seq<char>) -> bool {
    &&& s.len() == 36
    &&& forall|i: int|
        0 <= i < 36 ==> if i == 8 || i == 13 || i == 18 || i == 23 {
            #[trigger] s[i] == '-'
        } else {
            is_lower_hex(s[i])
        }
}

/// `regex::Regex::new`, its error dropped. The contract names whether the
/// pattern compiles, and claims that a compiled pattern keeps the text it
/// was compiled from, which is what `regex::Regex::as_str` gives back.
#[verifier::external_body]
pub(crate) fn compile(pattern: &str) -> (compiled: Option<Regex>)
    ensures
        compiled is Some <==> regex_accepts(pattern@),
        compiled is Some ==> regex_text(compiled->0) == pattern@,
{
    Regex::new(pattern).ok()
}

/// `regex::Regex::is_match`. The contract names the answer and claims nothing
/// about what matches.
#[verifier::external_body]
pub(crate) fn is_match(pattern: &Regex, text: &str) -> (found: bool)
    ensures
        found == regex_matches(*pattern, text@),
{
    pattern.is_match(text)
}

/// `String::from_utf8_lossy`, as an owned text. The contract names the text
/// and claims nothing more of it.
#[verifier::external_body]
pub(crate) fn decode_lossy(bytes: &[u8]) -> (text: String)
    ensures
        text@ == lossy_text(bytes@),
{
    String::from_utf8_lossy(bytes).into_owned()
}

/// `rand::Rng::gen_range` on the thread's generator, over `low..high`. The
/// contract claims only that the draw lies in the range; the call panics on
/// an empty range, which `requires` leaves out.
#[verifier::external_body]
pub(crate) fn uniform_in(low: u64, high: u64) -> (drawn: u64)
    requires
        low < high,
    ensures
        low <= drawn < high,
{
    rand::Rng::gen_range(&mut rand::thread_rng(), low..high)
}

/// `rand::Rng::gen` for a `u64` on the thread's generator. Nothing is claimed
/// of the value.
#[verifier::external_body]
pub(crate) fn any_u64() -> u64 {
    rand::Rng::gen::<u64>(&mut rand::thread_rng())
}

/// `uuid::Uuid::new_v4`, written out by the type's `Display`. The contract
/// claims the hyphenated lower-case shape of the text and nothing about the
/// value drawn.
#[verifier::external_body]
pub(crate) fn fresh_uuid_text() -> (id: String)
    ensures
        is_uuid_text(id@),
{
    uuid::Uuid::new_v4().to_string()
}

} // verus!
