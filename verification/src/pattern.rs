//! Regular-expression checks on user names and e-mail addresses.

use vstd::prelude::*;

verus! {

/// The error type of the `regex` crate.
#[verifier::external_type_specification]
#[verifier::external_body]
pub struct ExRegexError(regex::Error);

/// Whether `Regex::new` accepts `pattern`.
pub uninterp spec fn regex_compiles(pattern: Seq<char>) -> bool;

/// Whether the compiled `pattern` matches somewhere in `text`, as
/// `Regex::is_match` decides it.
pub uninterp spec fn regex_finds_match(pattern: Seq<char>, text: Seq<char>) -> bool;

/// Compiles `pattern` with `Regex::new` and, when it compiles, searches
/// `text` with `Regex::is_match`.
///
/// Trusted: the contract claims that compiling fails exactly when
/// `regex_compiles` is false, and that otherwise the answer is
/// `regex_finds_match`, a function of the two strings alone.
#[verifier::external_body]
fn regex_search(pattern: &str, text: &str) -> (res: Result<bool, regex::Error>)
    ensures
        res is Ok <==> regex_compiles(pattern@),
        res matches Ok(b) ==> b == regex_finds_match(pattern@, text@),
{
    match regex::Regex::new(pattern) {
        Ok(re) => Ok(re.is_match(text)),
        Err(e) => Err(e),
    }
}

/// The configured user-name pattern does not compile.
#[derive(Debug, Clone, Copy, PartialEq, Eq)]
pub struct InvalidPattern;

/// Whether `name` matches the configured user-name pattern.
pub fn username_matches(pattern: &str, name: &str) -> (res: Result<bool, InvalidPattern>)
    ensures
        regex_compiles(pattern@) ==> res == Ok::<bool, InvalidPattern>(regex_finds_match(pattern@, name@)),
        !regex_compiles(pattern@) ==> res == Err::<bool, InvalidPattern>(InvalidPattern),
{
    match regex_search(pattern, name) {
        Ok(b) => Ok(b),
        Err(_) => Err(InvalidPattern),
    }
}

/// The pattern an e-mail address must match: something, an `@`, something.
pub open spec fn email_pattern() -> Seq<char> {
    "(.+)@(.+)"@
}

/// Whether `email` looks like an e-mail address; `None` if the fixed
/// pattern failed to compile.
pub fn email_looks_valid(email: &str) -> (res: Option<bool>)
    ensures
        regex_compiles(email_pattern()) ==> res == Some(regex_finds_match(email_pattern(), email@)),
        !regex_compiles(email_pattern()) ==> res == None::<bool>,
{
    match regex_search("(.+)@(.+)", email) {
        Ok(b) => Some(b),
        Err(_) => None,
    }
}

} // verus!
