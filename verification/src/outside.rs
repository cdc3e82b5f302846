//! The calls this library makes into outside crates, each behind a declaration whose
//! contract is believed, not proved. Every contract here restates what the outside
//! crate's source or documentation shows, and no more.

use vstd::prelude::*;

verus! {

/// `regex::Regex`, carried through opaquely.
#[verifier::external_type_specification]
#[verifier::external_body]
pub struct ExRegex(regex::Regex);

/// `regex::Error`, the error of a pattern that does not compile.
#[verifier::external_type_specification]
#[verifier::external_body]
pub struct ExRegexError(regex::Error);

/// `bcrypt::BcryptError`, the error of a failed hash or verification.
#[verifier::external_type_specification]
#[verifier::external_body]
pub struct ExBcryptError(bcrypt::BcryptError);

/// `uuid::Error`, the error of a string that is not a UUID.
#[verifier::external_type_specification]
#[verifier::external_body]
pub struct ExUuidError(uuid::Error);

/// Whether `regex::Regex::new` accepts `pattern` (it is a function of the pattern alone).
pub uninterp spec fn spec_regex_compiles(pattern: Seq<char>) -> bool;

/// What `regex::Regex::is_match` answers for the regex compiled from `pattern` on `text`.
pub uninterp spec fn spec_regex_is_match(pattern: Seq<char>, text: Seq<char>) -> bool;

/// What `bcrypt::verify(password, hash)` returns: `Some(b)` for `Ok(b)`, `None` for an error.
pub uninterp spec fn spec_bcrypt_verify(password: Seq<char>, hash: Seq<char>) -> Option<bool>;

/// The 128-bit value that `uuid::Uuid::parse_str` reads from `text`, or `None` where it
/// returns an error.
pub uninterp spec fn spec_uuid_parse(text: Seq<char>) -> Option<u128>;

/// A compiled regular expression together with the pattern it was compiled from.
/// Its fields are private, and only [`compile_pattern`] builds one, so `regex` is
/// always the compilation of `source`.
pub struct CompiledPattern {
    source: String,
    regex: regex::Regex,
}

impl CompiledPattern {
    /// The pattern this regex was compiled from.
    pub closed spec fn source(&self) -> Seq<char> {
        self.source@
    }
}

/// Calls `regex::Regex::new(pattern)`. Claims that it succeeds exactly when the pattern
/// compiles, and that the result remembers `pattern` as its source.
#[verifier::external_body]
pub(crate) fn compile_pattern(pattern: &String) -> (res: Result<CompiledPattern, regex::Error>)
    ensures
        res is Ok <==> spec_regex_compiles(pattern@),
        res matches Ok(p) ==> p.source() == pattern@,
{
    regex::Regex::new(pattern.as_str()).map(|regex| CompiledPattern { source: pattern.clone(), regex })
}

/// Calls `regex::Regex::is_match` on the compiled pattern. Claims that the answer is the
/// named result for the pattern's source and `text`.
#[verifier::external_body]
pub(crate) fn pattern_is_match(pattern: &CompiledPattern, text: &String) -> (res: bool)
    ensures
        res == spec_regex_is_match(pattern.source(), text@),
{
    pattern.regex.is_match(text.as_str())
}

/// Whether a character belongs to bcrypt's base-64 alphabet.
pub open spec fn is_bcrypt_char(c: char) -> bool {
    c == '.' || c == '/' || ('A' <= c && c <= 'Z') || ('a' <= c && c <= 'z') || ('0' <= c && c <= '9')
}

/// Whether a text has the form of a hash that `bcrypt::hash` writes at the default
/// cost: `$2b$12$`, then 22 characters of salt and 31 of hash, all in bcrypt's base-64
/// alphabet.
pub open spec fn is_bcrypt_hash_text(h: Seq<char>) -> bool {
    &&& h.len() == 60
    &&& h.take(7) == "$2b$12$"@
    &&& forall|i: int| 7 <= i < 60 ==> is_bcrypt_char(#[trigger] h[i])
}

/// Calls `bcrypt::hash(password, bcrypt::DEFAULT_COST)`, which draws a random salt.
/// Claims that a hash it returns has the form the crate writes (version `2b`, cost 12,
/// the 16-byte salt and 23-byte hash each in bcrypt's unpadded base 64), and that it
/// verifies against the same password: `verify` re-derives the hash from the cost and
/// salt written into it, with the same truncation of the password, and compares.
#[verifier::external_body]
pub(crate) fn bcrypt_hash(password: &String) -> (res: Result<String, bcrypt::BcryptError>)
    ensures
        res matches Ok(h) ==> spec_bcrypt_verify(password@, h@) == Some(true),
        res matches Ok(h) ==> is_bcrypt_hash_text(h@),
{
    bcrypt::hash(password.as_str(), bcrypt::DEFAULT_COST)
}

/// Calls `bcrypt::verify(password, hash)`. Claims that the result is the named result
/// for the two arguments.
#[verifier::external_body]
pub(crate) fn bcrypt_verify(password: &String, hash: &String) -> (res: Result<bool, bcrypt::BcryptError>)
    ensures
        res matches Ok(b) ==> spec_bcrypt_verify(password@, hash@) == Some(b),
        res is Err ==> spec_bcrypt_verify(password@, hash@) is None,
{
    bcrypt::verify(password.as_str(), hash.as_str())
}

/// Whether a character may appear in the text of a UUID as `uuid` writes it.
pub open spec fn is_uuid_text_char(c: char) -> bool {
    ('0' <= c && c <= '9') || ('a' <= c && c <= 'f') || c == '-'
}

/// Whether a text has the shape of a UUID as `uuid` writes it: 36 characters, each a
/// lower-case hexadecimal digit or a hyphen.
pub open spec fn is_uuid_text(t: Seq<char>) -> bool {
    t.len() == 36 && forall|i: int| 0 <= i < 36 ==> is_uuid_text_char(#[trigger] t[i])
}

/// Whether a timestamp lies in the range that [`now_timestamp`] returns.
pub open spec fn clock_reading(now: i64) -> bool {
    0 <= now <= 17_592_186_044_416
}

/// Calls `uuid::Uuid::new_v4()` and writes the result with `to_string` (the hyphenated
/// lower-case form). The value is random; claims only the shape of the text: 36
/// characters, lower-case hexadecimal digits and hyphens. (`new_v4` panics where the
/// operating system gives no random bytes; that is not an input of the call.)
#[verifier::external_body]
pub(crate) fn new_uuid_text() -> (res: String)
    ensures
        is_uuid_text(res@),
{
    uuid::Uuid::new_v4().to_string()
}

/// Calls `uuid::Uuid::parse_str(text)` and reads the result as a 128-bit number.
/// Claims that the outcome is the named result for `text`.
#[verifier::external_body]
pub(crate) fn parse_uuid(text: &String) -> (res: Result<u128, uuid::Error>)
    ensures
        res matches Ok(v) ==> spec_uuid_parse(text@) == Some(v),
        res is Err ==> spec_uuid_parse(text@) is None,
{
    uuid::Uuid::parse_str(text.as_str()).map(|u| u.as_u128())
}

/// Calls `chrono::Utc::now().timestamp()`: the current time in seconds since the Unix
/// epoch. It depends on the clock, so only its range is claimed: `Utc::now` panics on a
/// system clock before the epoch or beyond `chrono`'s dates (years up to 262142, well
/// inside 2^44 seconds), so a value it returns lies between them.
#[verifier::external_body]
pub(crate) fn now_timestamp() -> (res: i64)
    ensures
        clock_reading(res),
{
    chrono::Utc::now().timestamp()
}

} // verus!
