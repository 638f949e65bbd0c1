//! Apple's association-file path globs, compiled to regular expressions.
//!
//! `*` stands for any run of characters and `?` for exactly one; every other
//! character stands for itself. A glob is compiled to a regex that must
//! match the whole path. A glob that begins with `NOT ` only ever excludes.

use vstd::prelude::*;
use vstd::string::*;
use crate::text::{chars_of, seq_starts_with, starts_with};

verus! {

/// `regex::Regex`, held opaque inside [`CompiledRegex`].
#[verifier::external_type_specification]
#[verifier::external_body]
pub struct ExRegex(regex::Regex);

/// The characters with a meaning in regex syntax, which must be escaped to stand for themselves.
pub open spec fn is_regex_meta(c: char) -> bool {
    c == '\\' || c == '.' || c == '+' || c == '*' || c == '?' || c == '(' || c == ')' || c == '|'
        || c == '[' || c == ']' || c == '{' || c == '}' || c == '^' || c == '$' || c == '#' || c
        == '&' || c == '-' || c == '~'
}

/// Relies on `regex_syntax::is_meta_character`: true for exactly the
/// characters listed in [`is_regex_meta`].
pub assume_specification[ regex_syntax::is_meta_character ](c: char) -> (r: bool)
    ensures
        r == is_regex_meta(c),
;

/// Whether the regex crate accepts `re` as a pattern under its default limits.
pub uninterp spec fn regex_compiles(re: Seq<char>) -> bool;

/// Whether the compiled pattern `re` matches somewhere in `haystack`.
pub uninterp spec fn regex_finds(re: Seq<char>, haystack: Seq<char>) -> bool;

/// A compiled regex together with the pattern it was compiled from. Only
/// [`compile_regex`] builds one, so `regex` is always `source` compiled.
struct CompiledRegex {
    source: String,
    regex: regex::Regex,
}

/// Relies on `regex::Regex::new`: compiles `re`, failing on invalid syntax
/// or an oversized program, both of which depend on the pattern alone.
#[verifier::external_body]
fn compile_regex(re: &str) -> (r: Option<CompiledRegex>)
    ensures
        r is Some == regex_compiles(re@),
        r is Some ==> r->0.source@ == re@,
{
    match regex::Regex::new(re) {
        Ok(regex) => Some(CompiledRegex { source: re.to_string(), regex }),
        Err(_) => None,
    }
}

/// Relies on `regex::Regex::is_match`: whether the regex matches anywhere in `haystack`.
#[verifier::external_body]
fn regex_is_match(re: &CompiledRegex, haystack: &str) -> (r: bool)
    ensures
        r == regex_finds(re.source@, haystack@),
{
    re.regex.is_match(haystack)
}

/// The regex text for one glob character.
pub open spec fn glob_char_regex(c: char) -> Seq<char> {
    if c == '*' {
        seq!['.', '*']
    } else if c == '?' {
        seq!['.']
    } else if is_regex_meta(c) {
        seq!['\\', c]
    } else {
        seq![c]
    }
}

/// The regex text for a glob: each character translated in turn.
pub open spec fn glob_regex(glob: Seq<char>) -> Seq<char>
    decreases glob.len(),
{
    if glob.len() == 0 {
        seq![]
    } else {
        glob_regex(glob.drop_last()) + glob_char_regex(glob.last())
    }
}

/// The regex that matches exactly the whole strings that `re` matches.
pub open spec fn anchored(re: Seq<char>) -> Seq<char> {
    "^(?:"@ + re + ")$"@
}

/// Whether the glob, compiled, matches the whole of `path`.
pub open spec fn glob_accepts(glob: Seq<char>, path: Seq<char>) -> bool {
    let re = anchored(glob_regex(glob));
    regex_compiles(re) && regex_finds(re, path)
}

/// Whether the pattern claims `path`: it is not a `NOT ` pattern, and its glob accepts the path.
pub open spec fn path_claimed(pattern: Seq<char>, path: Seq<char>) -> bool {
    !seq_starts_with(pattern, "NOT "@) && glob_accepts(pattern, path)
}

/// The regex text for a glob: regex metacharacters escaped, `*` turned into
/// `.*` and `?` into `.`.
pub fn regex_from_pattern(pattern: &str) -> (r: String)
    ensures
        r@ == glob_regex(pattern@),
{
    let chars = chars_of(pattern);
    let mut escaped = String::new();
    let mut i: usize = 0;
    while i < chars.len()
        invariant
            i <= chars@.len(),
            chars@ == pattern@,
            escaped@ == glob_regex(pattern@.take(i as int)),
        decreases chars@.len() - i,
    {
        let c = chars[i];
        let ghost before = escaped@;
        proof {
            reveal_strlit(".*");
            reveal_strlit(".");
            reveal_strlit("\\");
        }
        assert(pattern@.subrange(i as int, i + 1) =~= seq![c]);
        if c == '*' {
            escaped.append(".*");
        } else if c == '?' {
            escaped.append(".");
        } else if regex_syntax::is_meta_character(c) {
            escaped.append("\\");
            escaped.append(pattern.substring_char(i, i + 1));
        } else {
            escaped.append(pattern.substring_char(i, i + 1));
        }
        assert(pattern@.take(i + 1).drop_last() =~= pattern@.take(i as int));
        assert(escaped@ =~= before + glob_char_regex(c));
        i += 1;
    }
    assert(pattern@.take(chars@.len() as int) =~= pattern@);
    escaped
}

/// Whether the glob, compiled, matches the whole of `path`.
pub fn glob_match(glob: &str, path: &str) -> (r: bool)
    ensures
        r == glob_accepts(glob@, path@),
{
    let mut re = "^(?:".to_owned();
    let body = regex_from_pattern(glob);
    re.append(body.as_str());
    re.append(")$");
    match compile_regex(re.as_str()) {
        Some(compiled) => regex_is_match(&compiled, path),
        None => false,
    }
}

/// Whether the association-file path pattern claims `path`. A pattern that
/// begins with `NOT ` never claims a path: it can only exclude one.
pub fn aasa_match_path(pattern: &str, path: &str) -> (r: bool)
    ensures
        r == path_claimed(pattern@, path@),
{
    if starts_with(pattern, "NOT ") {
        return false;
    }
    glob_match(pattern, path)
}

/// A `NOT ` pattern never claims a path, whatever the path: it can only
/// exclude one.
pub proof fn not_patterns_never_claim(pattern: Seq<char>, path: Seq<char>)
    requires
        seq_starts_with(pattern, "NOT "@),
    ensures
        !path_claimed(pattern, path),
{
}

} // verus!
