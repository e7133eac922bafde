//! Text helpers: substring search, lower-casing and concatenation, over sequences of characters.

use std::borrow::Cow;
use vstd::prelude::*;
use vstd::string::*;
use vstd::utf8::is_ascii_chars;

verus! {

/// `needle` stands in `text` at position `at`.
pub open spec fn matches_at(text: Seq<char>, needle: Seq<char>, at: int) -> bool {
    &&& 0 <= at
    &&& at + needle.len() <= text.len()
    &&& text.subrange(at, at + needle.len()) == needle
}

/// `needle` occurs somewhere in `text`.
pub open spec fn has_substring(text: Seq<char>, needle: Seq<char>) -> bool {
    exists|at: int| matches_at(text, needle, at)
}

/// What `str::to_lowercase` makes of a text.
pub uninterp spec fn lowercase_of(text: Seq<char>) -> Seq<char>;

/// The character, in lower case if it is one of the letters from A to Z.
pub open spec fn ascii_lowercase_char(c: char) -> char {
    if 'A' <= c <= 'Z' {
        (c as int + 32) as char
    } else {
        c
    }
}

/// The text with its letters from A to Z in lower case.
pub open spec fn ascii_lowercase(text: Seq<char>) -> Seq<char> {
    text.map_values(|c: char| ascii_lowercase_char(c))
}

/// Calls `str::to_lowercase`. The result is the Unicode lower-case form of `text`, which depends
/// on `text` alone; the contract gives it the name `lowercase_of`. Of what it holds, the contract
/// claims that ASCII letters are lowered where they stand: a text that is ASCII becomes the same
/// text with its letters in lower case, and every part of any text that is ASCII occurs so in the
/// result. What becomes of other characters is left unsaid.
#[verifier::external_body]
fn to_lowercase(text: &str) -> (lowered: String)
    ensures
        lowered@ == lowercase_of(text@),
        is_ascii_chars(text@) ==> lowered@ == ascii_lowercase(text@),
        forall|part: Seq<char>|
            is_ascii_chars(part) && #[trigger] has_substring(text@, part) ==> has_substring(
                lowered@,
                ascii_lowercase(part),
            ),
{
    text.to_lowercase()
}

/// Calls `str::contains` with a string pattern. The contract claims that it answers whether the
/// pattern equals some sub-slice of the text.
#[verifier::external_body]
fn str_contains(text: &str, needle: &str) -> (found: bool)
    ensures
        found == has_substring(text@, needle@),
{
    text.contains(needle)
}

/// Whether `needle` occurs in `text`, letter for letter.
pub fn contains_text(text: &str, needle: &str) -> (found: bool)
    ensures
        found == has_substring(text@, needle@),
{
    str_contains(text, needle)
}

/// Whether `needle` occurs in the lower-case form of `text`. The needle is taken as it is. The form
/// is known for a text that is ASCII, and the needle is always found if it is the lower-case form of
/// an ASCII part of the text.
pub fn lowercase_contains(text: &str, needle: &str) -> (found: bool)
    ensures
        found == has_substring(lowercase_of(text@), needle@),
        is_ascii_chars(text@) ==> lowercase_of(text@) == ascii_lowercase(text@),
        forall|part: Seq<char>|
            is_ascii_chars(part) && ascii_lowercase(part) == needle@ && #[trigger] has_substring(
                text@,
                part,
            ) ==> found,
{
    let lowered = to_lowercase(text);
    contains_text(lowered.as_str(), needle)
}

/// Looks for "json" in the lower-case form of a text that says "JSON". It is there.
pub(crate) fn find_lowered_json(text: &str) -> (found: bool)
    requires
        has_substring(text@, "JSON"@),
    ensures
        found,
        has_substring(lowercase_of(text@), "json"@),
{
    proof {
        reveal_strlit("JSON");
        reveal_strlit("json");
        assert(ascii_lowercase("JSON"@) =~= "json"@);
    }
    lowercase_contains(text, "json")
}

/// The text, borrowed.
pub fn text_of<'b>(text: &'b Cow<'_, str>) -> (borrowed: &'b str)
    ensures
        borrowed@ == text@,
{
    match text {
        Cow::Borrowed(text) => text,
        Cow::Owned(text) => text.as_str(),
    }
}

/// `first` followed by `second`.
pub fn join(first: &str, second: &str) -> (joined: String)
    ensures
        joined@ == first@ + second@,
{
    first.to_owned().concat(second)
}

} // verus!
