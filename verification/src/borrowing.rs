//! String helpers that work through borrows: the caller keeps ownership.

use vstd::prelude::*;
use vstd::string::StringExecFns;
use vstd::utf8::encode_utf8;

verus! {

/// Returns the length of `s` in bytes of its UTF-8 encoding. The string is
/// only borrowed: the caller keeps ownership and may go on using it.
pub fn get_str_len(s: &String) -> (len: usize)
    ensures
        len == encode_utf8(s@).len() as usize,
{
    s.as_str().len()
}

/// Appends ", world" to the string behind the exclusive borrow.
pub fn change(s: &mut String)
    ensures
        final(s)@ == old(s)@ + ", world"@,
{
    s.append(", world");
}

} // verus!
