use vstd::prelude::*;

use crate::text::chars_of;

verus! {

/// True when `s` contains the character `@`.
pub open spec fn has_at_sign(s: Seq<char>) -> bool {
    exists|i: int| 0 <= i < s.len() && s[i] == '@'
}

/// Tells whether a login key is an e-mail address rather than a user id:
/// a key is taken for an e-mail address exactly when it contains `@`.
pub fn is_email(s: &String) -> (b: bool)
    ensures
        b == has_at_sign(s@),
{
    let chars = chars_of(s.as_str());
    let mut i: usize = 0;
    while i < chars.len()
        invariant
            chars@ == s@,
            i <= chars@.len(),
            forall|j: int| 0 <= j < i ==> s@[j] != '@',
        decreases chars@.len() - i,
    {
        if chars[i] == '@' {
            return true;
        }
        i += 1;
    }
    false
}

} // verus!
