use vstd::prelude::*;

verus! {

/// An index as a mathematical integer.
pub(crate) open spec fn position(i: usize) -> int {
    i as int
}

/// The length of the longest common prefix of two strings, counted in characters.
pub(crate) fn common_prefix_len(a: &str, b: &str) -> (i: usize)
    ensures
        i <= a@.len(),
        i <= b@.len(),
        forall|j: int| 0 <= j < i ==> a@[j] == b@[j],
        i < a@.len() && i < b@.len() ==> a@[i as int] != b@[i as int],
{
    let la = a.unicode_len();
    let lb = b.unicode_len();
    let mut i: usize = 0;
    while i < la && i < lb
        invariant
            la == a@.len(),
            lb == b@.len(),
            i <= la,
            i <= lb,
            forall|j: int| 0 <= j < i ==> a@[j] == b@[j],
        decreases la - i,
    {
        if a.get_char(i) != b.get_char(i) {
            return i;
        }
        i = i + 1;
    }
    i
}

} // verus!
