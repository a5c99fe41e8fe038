//! Prefix tests on string slices, stated over their character sequences.

use vstd::prelude::*;

verus! {

/// Tells whether `text` begins with `prefix`, character by character.
pub fn starts_with(text: &str, prefix: &str) -> (hit: bool)
    ensures
        hit == prefix@.is_prefix_of(text@),
{
    let wanted: usize = prefix.unicode_len();
    if text.unicode_len() < wanted {
        return false;
    }
    let mut at: usize = 0;
    while at < wanted
        invariant
            wanted == prefix@.len(),
            wanted <= text@.len(),
            at <= wanted,
            forall|k: int| 0 <= k < at ==> prefix@[k] == text@[k],
        decreases wanted - at,
    {
        if prefix.get_char(at) != text.get_char(at) {
            return false;
        }
        at = at + 1;
    }
    true
}

} // verus!
