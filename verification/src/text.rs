//! Sets of strings held as lists: roles, domain tags.
use vstd::prelude::*;

verus! {

/// Whether `needle` occurs in `items`, compared character by character.
pub fn contains_text(items: &Vec<String>, needle: &String) -> (r: bool)
    ensures
        r == items.deep_view().contains(needle@),
{
    let mut i: usize = 0;
    while i < items.len()
        invariant
            i <= items.len(),
            forall|j: int| 0 <= j < i ==> items.deep_view()[j] != needle@,
        decreases items.len() - i,
    {
        if items[i] == *needle {
            assert(items.deep_view()[i as int] == needle@);
            return true;
        }
        i += 1;
    }
    false
}

} // verus!
