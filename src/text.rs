use vstd::prelude::*;

verus! {

broadcast use vstd::string::axiom_spec_iter;

/// `pat` occurs in `text` as a contiguous run of characters.
pub open spec fn has_substring(text: Seq<char>, pat: Seq<char>) -> bool {
    exists|i: int|
        0 <= i && i + pat.len() <= text.len() && #[trigger] text.subrange(i, i + pat.len()) == pat
}

/// The characters of `s`, in order.
pub fn chars_of(s: &String) -> (r: Vec<char>)
    ensures
        r@ == s@,
{
    let mut v: Vec<char> = Vec::new();
    for c in it: s.as_str().chars()
        invariant
            v@ == it.seq().take(it.index() as int),
            it.seq() == s@,
    {
        v.push(c);
    }
    v
}

/// Whether `pat` occurs in `text` starting at position `start`.
fn occurs_at(text: &Vec<char>, pat: &Vec<char>, start: usize) -> (r: bool)
    requires
        start + pat.len() <= text.len(),
    ensures
        r == (text@.subrange(start as int, start + pat.len()) == pat@),
{
    let mut j: usize = 0;
    while j < pat.len()
        invariant
            j <= pat.len(),
            start + pat.len() <= text.len(),
            forall|k: int| 0 <= k < j ==> text@[start + k] == pat@[k],
        decreases pat.len() - j,
    {
        if text[start + j] != pat[j] {
            assert(text@.subrange(start as int, start + pat.len())[j as int] != pat@[j as int]);
            return false;
        }
        j += 1;
    }
    assert(text@.subrange(start as int, start + pat.len()) =~= pat@);
    true
}

/// Whether `pat` occurs anywhere in `text`.
pub fn contains_chars(text: &Vec<char>, pat: &Vec<char>) -> (r: bool)
    ensures
        r == has_substring(text@, pat@),
{
    if pat.len() > text.len() {
        return false;
    }
    let last: usize = text.len() - pat.len();
    let mut i: usize = 0;
    while i < last
        invariant
            last == text.len() - pat.len(),
            i <= last,
            forall|k: int| 0 <= k < i ==> #[trigger] text@.subrange(k, k + pat.len()) != pat@,
        decreases last - i,
    {
        if occurs_at(text, pat, i) {
            return true;
        }
        i += 1;
    }
    occurs_at(text, pat, last)
}

} // verus!
