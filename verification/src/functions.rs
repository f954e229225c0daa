//! Small helpers of the display layer.

use vstd::prelude::*;

verus! {

/// The uppercase mapping of a character according to Unicode.
pub uninterp spec fn uppercase_of(c: char) -> Seq<char>;

/// Calls `char::to_uppercase` of the standard library and collects what its
/// iterator yields into a `String`. The text depends on the character
/// alone; the contract gives it the name `uppercase_of(c)` and claims
/// nothing more of it.
#[verifier::external_body]
fn to_uppercase(c: char) -> (r: String)
    ensures
        r@ == uppercase_of(c),
{
    c.to_uppercase().to_string()
}

/// `word` with its first character in uppercase; the empty word stays empty.
pub open spec fn capitalized(word: Seq<char>) -> Seq<char> {
    if word.len() == 0 {
        word
    } else {
        uppercase_of(word[0]) + word.drop_first()
    }
}

/// `value` with `replacement` in the place of its first character; the
/// empty text stays empty.
pub open spec fn first_replaced(value: Seq<char>, replacement: Seq<char>) -> Seq<char> {
    if value.len() == 0 {
        value
    } else {
        replacement + value.drop_first()
    }
}

/// Puts `replacement` in the place of the first character of `value`.
pub fn replace_first(value: &str, replacement: &str) -> (result: String)
    ensures
        result@ == first_replaced(value@, replacement@),
{
    let n: usize = value.unicode_len();
    if n == 0 {
        let empty = String::new();
        assert(empty@ == value@);
        return empty;
    }
    let mut result = String::from_str(replacement);
    result.append(value.substring_char(1, n));
    assert(value@.subrange(1, n as int) == value@.drop_first());
    result
}

/// Puts the first character of `value` in uppercase and keeps the rest.
pub fn capitalize(value: &str) -> (result: String)
    ensures
        result@ == capitalized(value@),
{
    if value.unicode_len() == 0 {
        let empty = String::new();
        assert(empty@ == value@);
        return empty;
    }
    let uppercase = to_uppercase(value.get_char(0));
    replace_first(value, uppercase.as_str())
}

/// How a prompt ended.
#[derive(Debug)]
pub enum PromptOutcome<T> {
    /// The user answered.
    Answered(T),
    /// The user went back without an answer.
    Canceled,
    /// The user asked to leave the program.
    Interrupted,
    /// The prompt could not be shown or read; the cause as text.
    Failed(String),
}

} // verus!
