//! Verified helpers over `String` and `&str`: handing text ownership
//! around, measuring it, appending to it, and picking words and longer
//! pieces out of it.

use vstd::prelude::*;

verus! {

use vstd::string::StrSliceExecFns;
use vstd::string::StringExecFns;
use vstd::string::StringSliceAdditionalSpecFns;
use vstd::utf8::encode_utf8;

/// Hands out a freshly owned greeting.
pub fn gives_ownership() -> (s: String)
    ensures
        s@ == "yours"@,
{
    "yours".to_owned()
}

/// Takes ownership of a text and hands the very same text back.
pub fn takes_and_gives_back(a_string: String) -> (r: String)
    ensures
        r@ == a_string@,
{
    a_string
}

/// Length of `s` in bytes of its UTF-8 encoding, returned together with
/// the text itself so the caller keeps ownership.
pub fn calculate_length_awkward(s: String) -> (r: (String, usize))
    ensures
        r.0@ == s@,
        r.1 == encode_utf8(s@).len(),
{
    let length: usize = s.as_str().as_bytes().len();
    (s, length)
}

/// Length of the borrowed text in bytes of its UTF-8 encoding.
pub fn calculate_length(s: &String) -> (n: usize)
    ensures
        n == encode_utf8(s@).len(),
{
    s.as_str().as_bytes().len()
}

/// Appends the fixed suffix `", world"` to the text in place.
pub fn change(s: &mut String)
    ensures
        final(s)@ == old(s)@ + ", world"@,
{
    s.append(", world")
}

/// Hands out an owned copy of the fixed text `"hello"`.
pub fn no_dangle() -> (s: String)
    ensures
        s@ == "hello"@,
{
    "hello".to_owned()
}

/// The longer of the two texts, measured in bytes of their UTF-8
/// encodings; ties go to the second.
pub fn longest<'a>(x: &'a str, y: &'a str) -> (r: &'a str)
    ensures
        r@ == if encode_utf8(x@).len() > encode_utf8(y@).len() {
            x@
        } else {
            y@
        },
{
    if x.as_bytes().len() > y.as_bytes().len() {
        x
    } else {
        y
    }
}

/// Always the first of the two texts.
pub fn first<'a>(x: &'a str, _y: &str) -> (r: &'a str)
    ensures
        r@ == x@,
{
    x
}

/// A borrowed excerpt out of a longer text.
pub struct ImportantExcerpt<'a> {
    pub part: &'a str,
}

impl<'a> ImportantExcerpt<'a> {
    /// Fixed importance level shared by every excerpt.
    pub fn level(&self) -> (l: i32)
        ensures
            l == 3,
    {
        3
    }
}

/// Index just past the first word of `cs`, scanning from position `i`:
/// the position of the first space at or after `i`, or the length of
/// `cs` when no space follows.
pub open spec fn word_end(cs: Seq<char>, i: int) -> int
    recommends
        0 <= i <= cs.len(),
    decreases cs.len() - i,
{
    if i < 0 || i >= cs.len() {
        i
    } else if cs[i] == ' ' {
        i
    } else {
        word_end(cs, i + 1)
    }
}

/// The first word of `s`: everything before the first space, or all of
/// `s` when it contains no space.
pub fn first_word<'a>(s: &'a str) -> (r: &'a str)
    ensures
        r@ == s@.subrange(0, word_end(s@, 0)),
{
    let n: usize = s.unicode_len();
    let mut i: usize = 0;
    while i < n
        invariant
            0 <= i <= n,
            n == s@.len(),
            word_end(s@, 0) == word_end(s@, i as int),
        decreases n - i,
    {
        if s.get_char(i) == ' ' {
            return s.substring_char(0, i);
        }
        i = i + 1;
    }
    proof {
        assert(s@.subrange(0, s@.len() as int) =~= s@);
    }
    s
}

} // verus!
