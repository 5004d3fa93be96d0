//! Small helpers on strings: the first word, lengths, the longer of two.
use vstd::prelude::*;
use vstd::string::StrSliceExecFns;
use vstd::string::StringExecFns;
use vstd::string::StringSliceAdditionalSpecFns;
use vstd::utf8::encode_utf8;

verus! {

/// A fresh string that reads "I'm back!".
pub fn gives_ownership() -> (r: String)
    ensures
        r@ == "I'm back!"@,
{
    "I'm back!".to_owned()
}

/// Hands its argument back unchanged.
pub fn takes_and_gives_back(a_string: String) -> (r: String)
    ensures
        r == a_string,
{
    a_string
}

/// The byte index of the first space in `s`, or the length of `s` in bytes
/// if it has none.
pub fn first_word(s: &String) -> (r: usize)
    ensures
        r <= encode_utf8(s@).len(),
        forall|i: int| 0 <= i < r ==> encode_utf8(s@)[i] != 32u8,
        r < encode_utf8(s@).len() ==> encode_utf8(s@)[r as int] == 32u8,
{
    let bytes = s.as_str().as_bytes();
    let mut i: usize = 0;
    while i < bytes.len()
        invariant
            bytes@ == encode_utf8(s@),
            i <= bytes@.len(),
            forall|j: int| 0 <= j < i ==> bytes@[j] != 32u8,
        decreases bytes@.len() - i,
    {
        if bytes[i] == 32u8 {
            return i;
        }
        i = i + 1;
    }
    i
}

/// The first word of `s`: everything before its first space, or all of `s`
/// if it has none.
pub fn first_word_slice(s: &str) -> (r: &str)
    ensures
        r@.len() <= s@.len(),
        r@ == s@.subrange(0, r@.len() as int),
        !r@.contains(' '),
        r@.len() < s@.len() ==> s@[r@.len() as int] == ' ',
{
    let n = s.unicode_len();
    let mut i: usize = 0;
    while i < n && s.get_char(i) != ' '
        invariant
            n == s@.len(),
            i <= n,
            forall|j: int| 0 <= j < i ==> s@[j] != ' ',
        decreases n - i,
    {
        i = i + 1;
    }
    let r = s.substring_char(0, i);
    proof {
        assert forall|j: int| 0 <= j < r@.len() implies r@[j] != ' ' by {
            assert(r@[j] == s@[j]);
        }
    }
    r
}

/// The length of `s` in bytes.
pub fn calc_length(s: &String) -> (r: usize)
    ensures
        r == encode_utf8(s@).len(),
{
    s.as_str().as_bytes().len()
}

/// Appends ", World!" to `a_str`.
pub fn change(a_str: &mut String)
    ensures
        final(a_str)@ == old(a_str)@ + ", World!"@,
{
    a_str.append(", World!");
}

/// The longer of `x` and `y` in bytes; `y` when they are as long.
pub fn longest<'a>(x: &'a str, y: &'a str) -> (r: &'a str)
    ensures
        r@ == if x.spec_bytes().len() > y.spec_bytes().len() {
            x@
        } else {
            y@
        },
{
    if x.as_bytes().len() > y.as_bytes().len() {
        x
    } else {
        y
    }
}

} // verus!
