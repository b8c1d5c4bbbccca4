//! Length and update helpers on `String`, passed by value, by value and back,
//! by shared reference and by mutable reference.

use vstd::prelude::*;
use vstd::string::*;

verus! {

/// The number of bytes that `s` takes in UTF-8 (a `String` holds no more
/// bytes than a `usize` counts, so the cast in the contracts below is exact).
pub open spec fn byte_len(s: Seq<char>) -> nat {
    vstd::utf8::encode_utf8(s).len()
}

/// Takes ownership of `s` and returns its length in bytes.
pub fn get_length(s: String) -> (len: usize)
    ensures
        len == byte_len(s@) as usize,
{
    s.as_str().len()
}

/// Takes ownership of `s`, gives it back together with its length in bytes.
pub fn get_len_with_brow(s: String) -> (res: (String, usize))
    ensures
        res.0 == s,
        res.1 == byte_len(s@) as usize,
{
    let len = s.as_str().len();
    (s, len)
}

/// Borrows `s` and returns its length in bytes.
pub fn get_with_ref(s: &String) -> (len: usize)
    ensures
        len == byte_len(s@) as usize,
{
    s.as_str().len()
}

/// Appends `" world"` to `s` in place.
pub fn update_str(s: &mut String)
    ensures
        final(s)@ == old(s)@ + " world"@,
{
    s.append(" world");
}

} // verus!
