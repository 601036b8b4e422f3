//! Random temporary passwords.

use vstd::prelude::*;
use crate::crypto::random_below;
use crate::text::{chars_of, push_char};

verus! {

broadcast use vstd::string::group_string_axioms;

/// The characters a temporary password is drawn from: letters and digits
/// without the look-alikes O/0 and I/l/1.
pub const TEMP_PASSWORD_CHARS: &'static str = "ABCDEFGHJKLMNPQRSTUVWXYZabcdefghjkmnpqrstuvwxyz23456789";

/// A random password of `length` characters, each from `TEMP_PASSWORD_CHARS`.
pub fn generate_temp_password(length: usize) -> (r: String)
    ensures
        r@.len() == length,
        forall|i: int| 0 <= i < length ==> TEMP_PASSWORD_CHARS@.contains(#[trigger] r@[i]),
{
    let charset = chars_of(TEMP_PASSWORD_CHARS);
    proof {
        reveal_strlit("ABCDEFGHJKLMNPQRSTUVWXYZabcdefghjkmnpqrstuvwxyz23456789");
    }
    assert(charset@.len() == 55);
    let mut r = String::new();
    let mut n: usize = 0;
    while n < length
        invariant
            n <= length,
            charset@ == TEMP_PASSWORD_CHARS@,
            charset@.len() == 55,
            r@.len() == n,
            forall|i: int| 0 <= i < n ==> TEMP_PASSWORD_CHARS@.contains(#[trigger] r@[i]),
        decreases length - n,
    {
        let idx = random_below(charset.len());
        let c = charset[idx];
        assert(TEMP_PASSWORD_CHARS@[idx as int] == c);
        push_char(&mut r, c);
        n = n + 1;
    }
    r
}

/// A random temporary password of 8 characters.
pub fn generate_temp_password_default() -> (r: String)
    ensures
        r@.len() == 8,
        forall|i: int| 0 <= i < 8 ==> TEMP_PASSWORD_CHARS@.contains(#[trigger] r@[i]),
{
    generate_temp_password(8)
}

} // verus!
