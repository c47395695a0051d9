use vstd::prelude::*;

verus! {

/// The code of `c` after ASCII case folding: `A`..`Z` map to `a`..`z`,
/// every other character keeps its code.
pub open spec fn folded_code(c: char) -> u32 {
    if 'A' <= c && c <= 'Z' {
        (c as u32 + 32) as u32
    } else {
        c as u32
    }
}

/// A text under ASCII case folding.
pub open spec fn ascii_folded(s: Seq<char>) -> Seq<u32> {
    s.map_values(|c: char| folded_code(c))
}

/// `s` equals `word` when ASCII letter case is ignored.
pub open spec fn spells(s: Seq<char>, word: Seq<char>) -> bool {
    ascii_folded(s) == ascii_folded(word)
}

fn fold_char(c: char) -> (r: u32)
    ensures
        r == folded_code(c),
{
    if 'A' <= c && c <= 'Z' {
        c as u32 + 32
    } else {
        c as u32
    }
}

/// Compares two texts with ASCII letter case ignored.
pub fn eq_ignore_ascii_case(s: &str, word: &str) -> (r: bool)
    ensures
        r == spells(s@, word@),
{
    let n = s.unicode_len();
    let m = word.unicode_len();
    if n != m {
        proof {
            assert(ascii_folded(s@).len() != ascii_folded(word@).len());
        }
        return false;
    }
    let mut i: usize = 0;
    while i < n
        invariant
            n == s@.len(),
            n == word@.len(),
            i <= n,
            forall|j: int| 0 <= j < i ==> folded_code(#[trigger] s@[j]) == folded_code(word@[j]),
        decreases n - i,
    {
        let a = fold_char(s.get_char(i));
        let b = fold_char(word.get_char(i));
        if a != b {
            proof {
                assert(ascii_folded(s@)[i as int] != ascii_folded(word@)[i as int]);
            }
            return false;
        }
        i = i + 1;
    }
    assert(ascii_folded(s@) =~= ascii_folded(word@));
    true
}

/// Compares two texts character by character.
pub fn str_equal(a: &str, b: &str) -> (r: bool)
    ensures
        r == (a@ == b@),
{
    let n = a.unicode_len();
    if n != b.unicode_len() {
        return false;
    }
    let mut i: usize = 0;
    while i < n
        invariant
            n == a@.len(),
            n == b@.len(),
            i <= n,
            forall|j: int| 0 <= j < i ==> a@[j] == b@[j],
        decreases n - i,
    {
        if a.get_char(i) != b.get_char(i) {
            return false;
        }
        i = i + 1;
    }
    assert(a@ =~= b@);
    true
}

} // verus!
