//! Calls into other crates and into parts of the standard library. Verus
//! does not read the bodies in this module: each contract here is taken on
//! trust, and says only what the source or the documentation of the called
//! function shows.

use crate::audio::metadata_parser::{is_separator, separator_char};
use rand::seq::SliceRandom;
use rand::Rng;
use vstd::prelude::*;

verus! {

/// `rand::rngs::ThreadRng`: a handle to the thread's random number generator.
/// Nothing is known of its state.
#[verifier::external_type_specification]
#[verifier::external_body]
pub struct ExThreadRng(rand::rngs::ThreadRng);

/// `rand::thread_rng`: hands out the generator of the calling thread.
pub assume_specification[ rand::thread_rng ]() -> (rng: rand::rngs::ThreadRng)
;

/// `Rng::gen_range` on the half-open range `0..bound`: some number below
/// `bound`. The call panics on an empty range, so `bound` must not be zero.
#[verifier::external_body]
pub(crate) fn draw_below(rng: &mut rand::rngs::ThreadRng, bound: u128) -> (roll: u128)
    requires
        bound > 0,
    ensures
        roll < bound,
{
    rng.gen_range(0..bound)
}

/// `SliceRandom::choose` on a list of identifiers: nothing for an empty
/// list, else one of its entries.
#[verifier::external_body]
pub(crate) fn choose_id(rng: &mut rand::rngs::ThreadRng, ids: &[u128]) -> (chosen: Option<u128>)
    ensures
        ids@.len() == 0 <==> chosen is None,
        chosen is Some ==> ids@.contains(chosen->0),
{
    ids.choose(rng).copied()
}

/// `chrono::Utc::now`, read through `DateTime::timestamp_millis`: the
/// system clock in milliseconds since the Unix epoch. Nothing is promised of
/// the value.
#[verifier::external_body]
pub(crate) fn now_millis() -> (now: i64) {
    chrono::Utc::now().timestamp_millis()
}

/// What `str::to_lowercase` returns for a text: its lowercase equivalent by
/// the Unicode rules.
pub uninterp spec fn lowercase_text(text: Seq<char>) -> Seq<char>;

/// `str::to_lowercase`.
#[verifier::external_body]
pub(crate) fn to_lowercase(text: &str) -> (lowered: String)
    ensures
        lowered@ == lowercase_text(text@),
{
    text.to_lowercase()
}

/// An ASCII capital letter as its small letter; any other character as it
/// is.
pub open spec fn ascii_lowered(c: char) -> char {
    if 'A' <= c && c <= 'Z' {
        ((c as u8) + 32) as char
    } else {
        c
    }
}

/// `str::to_ascii_lowercase`: the text with each ASCII capital letter
/// replaced by its small letter and every other character kept.
#[verifier::external_body]
pub(crate) fn to_ascii_lowercase(text: &str) -> (lowered: String)
    ensures
        lowered@ == text@.map_values(|c: char| ascii_lowered(c)),
{
    text.to_ascii_lowercase()
}

/// What `Path::extension` returns for a path given as text, where it is
/// valid Unicode: the part of the file name after its last dot, if the name
/// has one that is not its first character.
pub uninterp spec fn extension_text(path: Seq<char>) -> Option<Seq<char>>;

/// `std::path::Path::extension`, on a path given as text.
#[verifier::external_body]
pub(crate) fn path_extension(path: &str) -> (extension: Option<String>)
    ensures
        extension is Some <==> extension_text(path@) is Some,
        extension is Some ==> extension->0@ == extension_text(path@)->0,
{
    std::path::Path::new(path).extension().and_then(|e| e.to_str()).map(|e| e.to_string())
}

/// What `Path::join` returns for two paths given as text: `child` itself
/// when it is absolute, else `base` followed by `child`, with a separator
/// between them where `base` does not end in one.
pub uninterp spec fn joined_path(base: Seq<char>, child: Seq<char>) -> Seq<char>;

/// `std::path::Path::join`, on paths given as text.
#[verifier::external_body]
pub(crate) fn path_join(base: &str, child: &str) -> (path: String)
    ensures
        path@ == joined_path(base@, child@),
{
    std::path::Path::new(base).join(child).to_string_lossy().into_owned()
}

/// What `Path::file_stem` returns for a path given as text, where it is
/// valid Unicode: the file name without its extension.
pub uninterp spec fn file_stem_text(path: Seq<char>) -> Option<Seq<char>>;

/// `std::path::Path::file_stem`, on a path given as text.
#[verifier::external_body]
pub(crate) fn path_file_stem(path: &str) -> (stem: Option<String>)
    ensures
        stem is Some <==> file_stem_text(path@) is Some,
        stem is Some ==> stem->0@ == file_stem_text(path@)->0,
{
    std::path::Path::new(path).file_stem().and_then(|s| s.to_str()).map(|s| s.to_string())
}

/// What `xxh64` returns: the 64-bit XXH64 digest of `bytes` under `seed`.
pub uninterp spec fn xxh64_digest(bytes: Seq<u8>, seed: u64) -> u64;

/// `xxhash_rust::xxh64::xxh64`.
#[verifier::external_body]
pub(crate) fn xxh64(bytes: &[u8], seed: u64) -> (digest: u64)
    ensures
        digest == xxh64_digest(bytes@, seed),
{
    xxhash_rust::xxh64::xxh64(bytes, seed)
}

/// What `str::replace` returns: `text` with every match of `from`, found
/// from the left and not overlapping, replaced by `to`.
pub uninterp spec fn replaced_text(text: Seq<char>, from: Seq<char>, to: Seq<char>) -> Seq<char>;

/// `str::replace`, with a text as the pattern.
#[verifier::external_body]
pub(crate) fn replace_text(text: &str, from: &str, to: &str) -> (replaced: String)
    ensures
        replaced@ == replaced_text(text@, from@, to@),
{
    text.replace(from, to)
}

/// Whether `pattern` stands somewhere in `text`.
pub open spec fn has_text(text: Seq<char>, pattern: Seq<char>) -> bool {
    exists|i: int|
        0 <= i && i + pattern.len() <= text.len() && #[trigger] text.subrange(
            i,
            i + pattern.len(),
        ) == pattern
}

/// `str::contains`, with a text as the pattern: whether the pattern stands
/// somewhere in the text.
#[verifier::external_body]
pub(crate) fn contains_text(text: &str, pattern: &str) -> (found: bool)
    ensures
        found == has_text(text@, pattern@),
{
    text.contains(pattern)
}

/// What `char::is_whitespace` returns: whether the character has the
/// Unicode property `White_Space`.
pub uninterp spec fn whitespace_char(c: char) -> bool;

/// `char::is_whitespace`.
#[verifier::external_body]
pub(crate) fn is_whitespace(c: char) -> (white: bool)
    ensures
        white == whitespace_char(c),
{
    c.is_whitespace()
}

/// What `char::is_alphabetic` returns: whether the character has the
/// Unicode property `Alphabetic`.
pub uninterp spec fn alphabetic_char(c: char) -> bool;

/// `char::is_alphabetic`.
#[verifier::external_body]
pub(crate) fn is_alphabetic(c: char) -> (alphabetic: bool)
    ensures
        alphabetic == alphabetic_char(c),
{
    c.is_alphabetic()
}

/// What `char::is_numeric` returns: whether the character is in one of the
/// Unicode number categories.
pub uninterp spec fn numeric_char(c: char) -> bool;

/// `char::is_numeric`.
#[verifier::external_body]
pub(crate) fn is_numeric(c: char) -> (numeric: bool)
    ensures
        numeric == numeric_char(c),
{
    c.is_numeric()
}

/// `text` without the characters at its beginning that `strip` holds of.
pub open spec fn strip_front(text: Seq<char>, strip: spec_fn(char) -> bool) -> Seq<char>
    decreases text.len(),
{
    if text.len() > 0 && strip(text[0]) {
        strip_front(text.drop_first(), strip)
    } else {
        text
    }
}

/// `text` without the characters at its end that `strip` holds of.
pub open spec fn strip_back(text: Seq<char>, strip: spec_fn(char) -> bool) -> Seq<char>
    decreases text.len(),
{
    if text.len() > 0 && strip(text.last()) {
        strip_back(text.drop_last(), strip)
    } else {
        text
    }
}

/// `text` without the characters at its beginning and at its end that
/// `strip` holds of.
pub open spec fn stripped(text: Seq<char>, strip: spec_fn(char) -> bool) -> Seq<char> {
    strip_back(strip_front(text, strip), strip)
}

/// `str::trim`: the text without the whitespace at its beginning and at its
/// end.
#[verifier::external_body]
pub(crate) fn trim_text(text: &str) -> (trimmed: String)
    ensures
        trimmed@ == stripped(text@, |c: char| whitespace_char(c)),
{
    text.trim().to_string()
}

/// `str::trim_matches`, with the library's test for separators as the
/// pattern: the text without the separators at its beginning and at its
/// end.
#[verifier::external_body]
pub(crate) fn trim_separators(text: &str) -> (trimmed: String)
    ensures
        trimmed@ == stripped(text@, |c: char| separator_char(c)),
{
    text.trim_matches(|c: char| is_separator(c)).to_string()
}

/// The decimal digits of a number, the most significant first, with no
/// leading zero.
pub open spec fn decimal_text(number: nat) -> Seq<char>
    decreases number,
{
    if number < 10 {
        seq![(('0' as u8) + number) as char]
    } else {
        decimal_text(number / 10).push((('0' as u8) + number % 10) as char)
    }
}

/// `ToString::to_string` on a `u64`: its decimal digits, as `Display`
/// writes them.
#[verifier::external_body]
pub(crate) fn number_to_string(number: u64) -> (text: String)
    ensures
        text@ == decimal_text(number as nat),
{
    number.to_string()
}

/// What `Uuid`'s `Display` writes for the UUID with the bits `id`: its
/// hyphenated form in small hexadecimal digits.
pub uninterp spec fn uuid_text(id: u128) -> Seq<char>;

/// `uuid::Uuid::to_string`, on the UUID made by `Uuid::from_u128`.
#[verifier::external_body]
pub(crate) fn uuid_to_string(id: u128) -> (text: String)
    ensures
        text@ == uuid_text(id),
{
    uuid::Uuid::from_u128(id).to_string()
}

/// What `Uuid::parse_str` makes of a text: the bits of the UUID it reads,
/// or nothing where the text is not a UUID in one of the forms it accepts.
pub uninterp spec fn uuid_parsed(text: Seq<char>) -> Option<u128>;

/// `uuid::Uuid::parse_str`, with the UUID read through `Uuid::as_u128`.
#[verifier::external_body]
pub(crate) fn parse_uuid(text: &str) -> (id: Option<u128>)
    ensures
        id == uuid_parsed(text@),
{
    uuid::Uuid::parse_str(text).ok().map(|u| u.as_u128())
}

/// What `DateTime::to_rfc3339` writes for the instant `millis` milliseconds
/// after the Unix epoch, in UTC; nothing where `DateTime` cannot hold the
/// instant.
pub uninterp spec fn rfc3339_text(millis: i64) -> Option<Seq<char>>;

/// `chrono::DateTime::to_rfc3339`, on the instant made by
/// `DateTime::from_timestamp_millis`.
#[verifier::external_body]
pub(crate) fn millis_to_rfc3339(millis: i64) -> (text: Option<String>)
    ensures
        text is Some <==> rfc3339_text(millis) is Some,
        text is Some ==> text->0@ == rfc3339_text(millis)->0,
{
    chrono::DateTime::from_timestamp_millis(millis).map(|t| t.to_rfc3339())
}

/// What `DateTime::parse_from_rfc3339` makes of a text, as whole
/// milliseconds after the Unix epoch; nothing where the text is no RFC 3339
/// date and time.
pub uninterp spec fn rfc3339_millis(text: Seq<char>) -> Option<i64>;

/// `chrono::DateTime::parse_from_rfc3339`, read through
/// `DateTime::timestamp_millis`.
#[verifier::external_body]
pub(crate) fn parse_rfc3339(text: &str) -> (millis: Option<i64>)
    ensures
        millis == rfc3339_millis(text@),
{
    chrono::DateTime::parse_from_rfc3339(text).ok().map(|t| t.timestamp_millis())
}

/// `serde_json::Error`: why a value could not be written or read as JSON.
#[verifier::external_type_specification]
#[verifier::external_body]
pub struct ExJsonError(serde_json::Error);

/// What `serde_json::to_string` writes for a list of numbers; nothing where
/// it fails.
pub uninterp spec fn json_of_numbers(numbers: Seq<u64>) -> Option<Seq<char>>;

/// `serde_json::to_string`, on a list of numbers.
#[verifier::external_body]
pub(crate) fn numbers_to_json(numbers: &Vec<u64>) -> (json: Result<String, serde_json::Error>)
    ensures
        json is Ok <==> json_of_numbers(numbers@) is Some,
        json is Ok ==> json->Ok_0@ == json_of_numbers(numbers@)->0,
{
    serde_json::to_string(numbers)
}

/// What `serde_json::from_str` reads from a text as a list of numbers;
/// nothing where the text is not a JSON list of numbers that fit 64 bits.
pub uninterp spec fn numbers_of_json(json: Seq<char>) -> Option<Seq<u64>>;

/// `serde_json::from_str`, for a list of numbers.
#[verifier::external_body]
pub(crate) fn json_to_numbers(json: &str) -> (numbers: Result<Vec<u64>, serde_json::Error>)
    ensures
        numbers is Ok <==> numbers_of_json(json@) is Some,
        numbers is Ok ==> numbers->Ok_0@ == numbers_of_json(json@)->0,
{
    serde_json::from_str(json)
}

/// What `serde_json::to_string` writes for a list of texts; nothing where
/// it fails.
pub uninterp spec fn json_of_texts(texts: Seq<Seq<char>>) -> Option<Seq<char>>;

/// `serde_json::to_string`, on a list of texts.
#[verifier::external_body]
pub(crate) fn texts_to_json(texts: &Vec<String>) -> (json: Result<String, serde_json::Error>)
    ensures
        json is Ok <==> json_of_texts(texts@.map_values(|t: String| t@)) is Some,
        json is Ok ==> json->Ok_0@ == json_of_texts(texts@.map_values(|t: String| t@))->0,
{
    serde_json::to_string(texts)
}

/// What `serde_json::from_str` reads from a text as a list of texts;
/// nothing where the text is not a JSON list of strings.
pub uninterp spec fn texts_of_json(json: Seq<char>) -> Option<Seq<Seq<char>>>;

/// `serde_json::from_str`, for a list of texts.
#[verifier::external_body]
pub(crate) fn json_to_texts(json: &str) -> (texts: Result<Vec<String>, serde_json::Error>)
    ensures
        texts is Ok <==> texts_of_json(json@) is Some,
        texts is Ok ==> texts->Ok_0@.map_values(|t: String| t@) == texts_of_json(json@)->0,
{
    serde_json::from_str(json)
}

/// Whether `id` has the version and variant bits of a random (version 4)
/// UUID.
pub open spec fn is_random_uuid(id: u128) -> bool {
    (id >> 76) & 0xf == 4 && (id >> 62) & 0x3 == 2
}

/// `uuid::Uuid::new_v4`, read through `Uuid::as_u128`: 128 bits from the
/// system's random source with the version and variant bits of a version 4
/// UUID set.
#[verifier::external_body]
pub(crate) fn fresh_uuid() -> (id: u128)
    ensures
        is_random_uuid(id),
{
    uuid::Uuid::new_v4().as_u128()
}

} // verus!
