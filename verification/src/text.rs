//! Small operations on text that the rest of the library is written with.

use vstd::prelude::*;
use vstd::string::*;

verus! {

/// Whether two texts hold the same characters.
pub fn same_text(a: &str, b: &str) -> (r: bool)
    ensures
        r == (a@ == b@),
{
    let left: String = a.to_owned();
    let right: String = b.to_owned();
    left == right
}

/// The position of the first character of `s` that equals `c`, or the
/// length of `s` where none does.
pub open spec fn first_index_of(s: Seq<char>, c: char) -> int
    decreases s.len(),
{
    if s.len() == 0 {
        0
    } else if s[0] == c {
        0
    } else {
        1 + first_index_of(s.drop_first(), c)
    }
}

/// `first_index_of` is the least position that holds `c`.
pub proof fn lemma_first_index_of(s: Seq<char>, c: char)
    ensures
        0 <= first_index_of(s, c) <= s.len(),
        forall|i: int| 0 <= i < first_index_of(s, c) ==> s[i] != c,
        first_index_of(s, c) < s.len() ==> s[first_index_of(s, c)] == c,
    decreases s.len(),
{
    if s.len() > 0 && s[0] != c {
        let rest = s.drop_first();
        lemma_first_index_of(rest, c);
        assert forall|i: int| 0 <= i < first_index_of(s, c) implies s[i] != c by {
            if i > 0 {
                assert(s[i] == rest[i - 1]);
            }
        }
    }
}

/// A position that holds `c` with no `c` before it is `first_index_of`, and
/// so is the length where no position holds `c`.
pub proof fn lemma_first_index_of_unique(s: Seq<char>, c: char, k: int)
    requires
        0 <= k <= s.len(),
        forall|i: int| 0 <= i < k ==> s[i] != c,
        k < s.len() ==> s[k] == c,
    ensures
        first_index_of(s, c) == k,
{
    lemma_first_index_of(s, c);
}

/// Finds the first occurrence of `c` in `s`, counted in characters.
pub fn find_char(s: &str, c: char) -> (k: usize)
    ensures
        k == first_index_of(s@, c),
{
    let n: usize = s.unicode_len();
    let mut i: usize = 0;
    while i < n
        invariant
            n == s@.len(),
            i <= n,
            forall|j: int| 0 <= j < i ==> s@[j] != c,
        decreases n - i,
    {
        if s.get_char(i) == c {
            proof {
                lemma_first_index_of_unique(s@, c, i as int);
            }
            return i;
        }
        i += 1;
    }
    proof {
        lemma_first_index_of_unique(s@, c, n as int);
    }
    n
}

} // verus!
