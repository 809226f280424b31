//! Contract addresses.
//!
//! The host holds collaborator addresses as plain strings. A well-formed
//! address is 3 to 63 characters, each a lowercase letter or a digit; the
//! model stands in for the execution environment's address rules.

use vstd::prelude::*;

verus! {

/// Whether one character may appear in an address.
pub open spec fn addr_char(c: char) -> bool {
    (97 <= c as int && c as int <= 122) || (48 <= c as int && c as int <= 57)
}

/// Whether a string of characters is a well-formed address.
pub open spec fn valid_address(s: Seq<char>) -> bool {
    3 <= s.len() <= 63 && forall|i: int| 0 <= i < s.len() ==> addr_char(s[i])
}

/// Checks that a string is a well-formed address.
pub fn check_address(s: &str) -> (r: bool)
    ensures
        r == valid_address(s@),
{
    let n = s.unicode_len();
    if n < 3 || n > 63 {
        return false;
    }
    let mut i: usize = 0;
    while i < n
        invariant
            i <= n,
            n == s@.len(),
            3 <= n <= 63,
            forall|j: int| 0 <= j < i ==> addr_char(s@[j]),
        decreases n - i,
    {
        let c = s.get_char(i);
        let v = c as u32;
        if !((97 <= v && v <= 122) || (48 <= v && v <= 57)) {
            return false;
        }
        i += 1;
    }
    true
}

} // verus!
