use vstd::prelude::*;

verus! {

/// The separator between artist and album on the player's second line: space, em dash, space.
pub open spec fn separator() -> Seq<char> {
    seq![' ', '\u{2014}', ' ']
}

pub open spec fn sep_at(s: Seq<char>, i: int) -> bool {
    0 <= i && i + 3 <= s.len() && s.subrange(i, i + 3) == separator()
}

/// The first position at or after `from` where a separator starts.
pub open spec fn find_sep(s: Seq<char>, from: int) -> Option<int>
    decreases s.len() - from,
{
    if from < 0 || from + 3 > s.len() {
        None
    } else if sep_at(s, from) {
        Some(from)
    } else {
        find_sep(s, from + 1)
    }
}

pub proof fn lemma_find_sep_bounds(s: Seq<char>, from: int)
    ensures
        find_sep(s, from) matches Some(i) ==> from <= i && sep_at(s, i),
    decreases s.len() - from,
{
    if !(from < 0 || from + 3 > s.len()) && !sep_at(s, from) {
        lemma_find_sep_bounds(s, from + 1);
    }
}

/// The first separator of `text` at or after `from`; `n` is the length of `text` in characters.
pub fn find_separator(text: &str, n: usize, from: usize) -> (r: Option<usize>)
    requires
        n == text@.len(),
        from <= n,
    ensures
        r matches Some(i) ==> find_sep(text@, from as int) == Some(i as int),
        r is None ==> find_sep(text@, from as int) is None,
{
    let mut i: usize = from;
    while n - i >= 3
        invariant
            n == text@.len(),
            from <= i <= n,
            find_sep(text@, from as int) == find_sep(text@, i as int),
        decreases n - i,
    {
        if text.get_char(i) == ' ' && text.get_char(i + 1) == '\u{2014}' && text.get_char(i + 2)
            == ' ' {
            proof {
                assert(text@.subrange(i as int, i + 3) =~= separator());
            }
            return Some(i);
        }
        proof {
            if sep_at(text@, i as int) {
                assert(text@.subrange(i as int, i + 3)[1] == text@[i + 1]);
                assert(text@.subrange(i as int, i + 3)[0] == text@[i as int]);
                assert(text@.subrange(i as int, i + 3)[2] == text@[i + 2]);
            }
        }
        i = i + 1;
    }
    None
}

/// Whether two texts are the same, character by character.
pub fn same_text(a: &str, b: &str) -> (r: bool)
    ensures
        r == (a@ == b@),
{
    let n = a.unicode_len();
    if n != b.unicode_len() {
        return false;
    }
    let mut i: usize = 0;
    while i < n
        invariant
            n == a@.len() == b@.len(),
            i <= n,
            forall|j: int| 0 <= j < i ==> a@[j] == b@[j],
        decreases n - i,
    {
        if a.get_char(i) != b.get_char(i) {
            return false;
        }
        i = i + 1;
    }
    proof {
        assert(a@ =~= b@);
    }
    true
}

} // verus!
