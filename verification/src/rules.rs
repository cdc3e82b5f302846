//! The rules a new account must meet: the username grammar, the ban-word list and
//! the password length.

use vstd::prelude::*;
use crate::outside::{
    compile_pattern, pattern_is_match, spec_regex_compiles, spec_regex_is_match, CompiledPattern,
};
use crate::text::{chars_of, contains_part, decimal, decimal_string, occurs_in, trim_stars, trim_stars_bounds};

verus! {

/// The regular expression that a username must match in full: one to `max` characters,
/// each an ASCII letter, digit, `_`, `-` or `.`.
pub open spec fn username_pattern(max: nat) -> Seq<char> {
    "^[a-zA-Z0-9_\\-\\.]{1,"@ + decimal(max) + "}$"@
}

/// The text of [`username_pattern`] for `max`.
pub fn username_pattern_text(max: usize) -> (r: String)
    ensures
        r@ == username_pattern(max as nat),
{
    let mut r = String::from_str("^[a-zA-Z0-9_\\-\\.]{1,");
    let n = decimal_string(max);
    r.append(n.as_str());
    r.append("}$");
    r
}

/// Compiles the username rule for `max`; `None` where the regex engine refuses the
/// pattern (for a very large `max`).
pub fn username_rule(max: usize) -> (r: Option<CompiledPattern>)
    ensures
        r is Some <==> spec_regex_compiles(username_pattern(max as nat)),
        r matches Some(p) ==> p.source() == username_pattern(max as nat),
{
    let text = username_pattern_text(max);
    match compile_pattern(&text) {
        Ok(p) => Some(p),
        Err(_) => None,
    }
}

/// Whether `name` is an acceptable username under a rule compiled by [`username_rule`].
pub fn username_acceptable(rule: &CompiledPattern, name: &String) -> (r: bool)
    ensures
        r == spec_regex_is_match(rule.source(), name@),
{
    pattern_is_match(rule, name)
}

/// Whether a text begins with `*`.
pub open spec fn starts_with_star(s: Seq<char>) -> bool {
    s.len() > 0 && s[0] == '*'
}

/// Whether a text ends with `*`.
pub open spec fn ends_with_star(s: Seq<char>) -> bool {
    s.len() > 0 && s.last() == '*'
}

/// How a ban word that is not a valid regex applies to a username: a word wrapped in
/// `*` on both sides bans every name that contains the word without its stars; any
/// other word bans exactly the name equal to it.
pub open spec fn wildcard_bans(word: Seq<char>, name: Seq<char>) -> bool {
    if starts_with_star(word) && ends_with_star(word) {
        occurs_in(trim_stars(word), name)
    } else {
        name == word
    }
}

/// Whether ban word `word` forbids username `name`: a word that compiles as a regex
/// forbids the names it matches; any other word applies as [`wildcard_bans`] says.
pub open spec fn word_bans(word: Seq<char>, name: Seq<char>) -> bool {
    if spec_regex_compiles(word) {
        spec_regex_is_match(word, name)
    } else {
        wildcard_bans(word, name)
    }
}

/// Whether some word of the list forbids `name`.
pub open spec fn name_banned(words: Seq<Seq<char>>, name: Seq<char>) -> bool {
    exists|i: int| 0 <= i < words.len() && word_bans(#[trigger] words[i], name)
}

/// The wildcard reading of a ban word, as [`wildcard_bans`] states it.
pub fn wildcard_match(word: &String, name: &String) -> (r: bool)
    ensures
        r == wildcard_bans(word@, name@),
{
    let w = chars_of(word.as_str());
    let n = w.len();
    if n > 0 && w[0] == '*' && w[n - 1] == '*' {
        let h = chars_of(name.as_str());
        let (lo, hi) = trim_stars_bounds(&w);
        contains_part(&h, &w, lo, hi)
    } else {
        name.eq(word)
    }
}

/// Whether ban word `word` forbids `name`.
pub fn word_forbids(word: &String, name: &String) -> (r: bool)
    ensures
        r == word_bans(word@, name@),
{
    match compile_pattern(word) {
        Ok(p) => pattern_is_match(&p, name),
        Err(_) => wildcard_match(word, name),
    }
}

/// Whether some word of `words` forbids `name`.
pub fn name_is_banned(words: &Vec<String>, name: &String) -> (r: bool)
    ensures
        r == name_banned(crate::models::strings_view(words@), name@),
{
    let ghost ws = crate::models::strings_view(words@);
    let mut i: usize = 0;
    while i < words.len()
        invariant
            i <= words@.len(),
            ws == crate::models::strings_view(words@),
            forall|j: int| 0 <= j < i ==> !word_bans(#[trigger] ws[j], name@),
        decreases words@.len() - i,
    {
        if word_forbids(&words[i], name) {
            assert(word_bans(ws[i as int], name@));
            return true;
        }
        i = i + 1;
    }
    false
}

} // verus!
