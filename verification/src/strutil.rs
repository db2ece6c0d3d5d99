//! Small string helpers shared by the interactive front ends.

use vstd::prelude::*;
use vstd::utf8::{decode_utf8, valid_utf8};

verus! {

/// Relies on std::str::from_utf8: succeeds exactly on valid UTF-8 input
/// and decodes the bytes to their characters.
#[verifier::external_body]
pub(crate) fn utf8_to_string(bytes: &[u8]) -> (r: Option<String>)
    ensures
        r is Some <==> valid_utf8(bytes@),
        r is Some ==> r.unwrap()@ == decode_utf8(bytes@),
{
    match std::str::from_utf8(bytes) {
        Ok(s) => Some(s.to_string()),
        Err(_) => None,
    }
}

/// Relies on String::push: appends exactly the one character to the end
/// of the string.
#[verifier::external_body]
pub(crate) fn push_char(s: &mut String, c: char)
    ensures
        final(s)@ == old(s)@.push(c),
{
    s.push(c);
}

/// The sequence `s` with one trailing newline removed: a final `'\n'` is
/// dropped, and a `'\r'` right before it is dropped as well.
pub open spec fn trimmed(s: Seq<char>) -> Seq<char> {
    if s.len() > 0 && s.last() == '\n' {
        let t = s.drop_last();
        if t.len() > 0 && t.last() == '\r' {
            t.drop_last()
        } else {
            t
        }
    } else {
        s
    }
}

/// Remove a trailing `"\n"` or `"\r\n"` from `s`, if present.
pub fn trim_newline(s: &mut String)
    ensures
        final(s)@ == trimmed(old(s)@),
{
    let n = s.as_str().unicode_len();
    if n > 0 && s.as_str().get_char(n - 1) == '\n' {
        let m = n - 1;
        if m > 0 && s.as_str().get_char(m - 1) == '\r' {
            let cut = s.as_str().substring_char(0, m - 1);
            let r = String::from_str(cut);
            proof {
                assert(r@ =~= trimmed(old(s)@));
            }
            *s = r;
        } else {
            let cut = s.as_str().substring_char(0, m);
            let r = String::from_str(cut);
            proof {
                assert(r@ =~= trimmed(old(s)@));
            }
            *s = r;
        }
    }
}

} // verus!
