//! A small greeting library.
//!
//! [`greet`] formats a personalized greeting `"Hello, <name>!"` from an
//! optional name, and falls back to the default greeting `"Hello, World!"`
//! when the name is absent or blank (empty or all whitespace). A blank name
//! is detected on the trimmed value, but a usable name appears in the output
//! verbatim, untrimmed.

use vstd::prelude::*;

verus! {

use vstd::string::StrSliceExecFns;
use vstd::string::StringExecFns;

/// A character with the Unicode `White_Space` property: the set of
/// characters that `char::is_whitespace` accepts and that trimming strips.
pub open spec fn is_unicode_whitespace(c: char) -> bool {
    let u: u32 = c as u32;
    (0x09 <= u && u <= 0x0D) || u == 0x20 || u == 0x85 || u == 0xA0 || u == 0x1680 || (0x2000 <= u
        && u <= 0x200A) || u == 0x2028 || u == 0x2029 || u == 0x202F || u == 0x205F || u == 0x3000
}

/// A blank text: empty, or consisting only of whitespace characters.
/// Exactly the strings whose trimmed form is empty.
pub open spec fn is_blank(s: Seq<char>) -> bool {
    forall|i: int| 0 <= i < s.len() ==> is_unicode_whitespace(s[i])
}

/// The greeting used when no usable name is given.
pub open spec fn default_greeting() -> Seq<char> {
    "Hello, World!"@
}

/// The greeting for a usable name `n`, which appears verbatim.
pub open spec fn personalized_greeting(n: Seq<char>) -> Seq<char> {
    "Hello, "@ + n + "!"@
}

/// What [`greet`] returns for each possible input.
pub open spec fn greeting(name: Option<Seq<char>>) -> Seq<char> {
    match name {
        Option::Some(n) => if is_blank(n) {
            default_greeting()
        } else {
            personalized_greeting(n)
        },
        Option::None => default_greeting(),
    }
}

/// The view of an optional name, character sequence by character sequence.
pub open spec fn name_view(name: Option<&str>) -> Option<Seq<char>> {
    match name {
        Option::Some(n) => Option::Some(n@),
        Option::None => Option::None,
    }
}

/// Whether `c` has the Unicode `White_Space` property.
fn whitespace_char(c: char) -> (r: bool)
    ensures
        r == is_unicode_whitespace(c),
{
    let u: u32 = c as u32;
    (0x09 <= u && u <= 0x0D) || u == 0x20 || u == 0x85 || u == 0xA0 || u == 0x1680 || (0x2000 <= u
        && u <= 0x200A) || u == 0x2028 || u == 0x2029 || u == 0x202F || u == 0x205F || u == 0x3000
}

/// Whether `s` is blank: empty or all whitespace.
fn blank_str(s: &str) -> (r: bool)
    ensures
        r == is_blank(s@),
{
    let len = s.unicode_len();
    let mut i: usize = 0;
    while i < len
        invariant
            len == s@.len(),
            i <= len,
            forall|j: int| 0 <= j < i ==> is_unicode_whitespace(s@[j]),
        decreases len - i,
    {
        let c = s.get_char(i);
        if !whitespace_char(c) {
            return false;
        }
        i += 1;
    }
    true
}

/// Formats a greeting from an optional name.
///
/// An absent or blank name yields the default greeting; any other name `n`
/// yields `"Hello, " + n + "!"` with `n` untrimmed. The result is never
/// empty, and depends on nothing but the input.
pub fn greet(name: Option<&str>) -> (r: String)
    ensures
        r@ == greeting(name_view(name)),
        name is None ==> r@ == default_greeting(),
        name matches Some(n) ==> (is_blank(n@) ==> r@ == default_greeting()),
        name matches Some(n) ==> (!is_blank(n@) ==> r@ == personalized_greeting(n@)),
        r@.len() > 0,
{
    proof {
        lemma_greeting_nonempty(name_view(name));
    }
    match name {
        Option::Some(n) => {
            if blank_str(n) {
                String::from_str("Hello, World!")
            } else {
                let mut r = String::from_str("Hello, ");
                r.append(n);
                r.append("!");
                r
            }
        },
        Option::None => String::from_str("Hello, World!"),
    }
}

/// The greeting is never the empty text, whatever the input.
pub proof fn lemma_greeting_nonempty(name: Option<Seq<char>>)
    ensures
        greeting(name).len() > 0,
{
    reveal_strlit("Hello, World!");
    reveal_strlit("Hello, ");
    reveal_strlit("!");
}

/// Formatting is pure: two results of the same input are identical.
pub proof fn lemma_greeting_deterministic(name: Option<Seq<char>>, r1: Seq<char>, r2: Seq<char>)
    requires
        r1 == greeting(name),
        r2 == greeting(name),
    ensures
        r1 == r2,
{
}

} // verus!
