//! Character-level text operations: literal search, first-occurrence
//! replacement and truncation.
use vstd::prelude::*;
use vstd::string::{StrSliceExecFns, StringExecFns};

verus! {

/// `pat` occurs in `s` starting at character index `i`.
pub open spec fn occurs_at(s: Seq<char>, pat: Seq<char>, i: int) -> bool {
    0 <= i && i + pat.len() <= s.len() && s.subrange(i, i + pat.len()) == pat
}

/// `pat` occurs somewhere in `s`.
pub open spec fn contains(s: Seq<char>, pat: Seq<char>) -> bool {
    exists|i: int| occurs_at(s, pat, i)
}

/// `i` is the leftmost index at which `pat` occurs in `s`.
pub open spec fn is_first_occurrence(s: Seq<char>, pat: Seq<char>, i: int) -> bool {
    occurs_at(s, pat, i) && forall|j: int| 0 <= j < i ==> !occurs_at(s, pat, j)
}

/// `s` with the `pat.len()` characters at index `i` replaced by `new`.
pub open spec fn replaced_at(s: Seq<char>, pat: Seq<char>, new: Seq<char>, i: int) -> Seq<char> {
    s.subrange(0, i) + new + s.subrange(i + pat.len(), s.len() as int)
}

/// `t` is `s` with its first occurrence of `pat` replaced by `new`.
pub open spec fn replaces_first(s: Seq<char>, pat: Seq<char>, new: Seq<char>, t: Seq<char>) -> bool {
    exists|i: int| is_first_occurrence(s, pat, i) && t == replaced_at(s, pat, new, i)
}

/// When `pat` occurs in `s` at `i` and nowhere else, replacing its first
/// occurrence changes exactly those characters: the text before `i` and the
/// text after the occurrence are kept, and `new` stands in between.
pub proof fn lemma_replace_unique_occurrence(
    s: Seq<char>,
    pat: Seq<char>,
    new: Seq<char>,
    t: Seq<char>,
    i: int,
)
    requires
        occurs_at(s, pat, i),
        forall|j: int| occurs_at(s, pat, j) ==> j == i,
        replaces_first(s, pat, new, t),
    ensures
        t.len() == s.len() - pat.len() + new.len(),
        t.subrange(0, i) == s.subrange(0, i),
        t.subrange(i, i + new.len()) == new,
        t.subrange(i + new.len(), t.len() as int) == s.subrange(i + pat.len(), s.len() as int),
{
    let k = choose|k: int| is_first_occurrence(s, pat, k) && t == replaced_at(s, pat, new, k);
    assert(k == i);
    assert(t.subrange(0, i) =~= s.subrange(0, i));
    assert(t.subrange(i, i + new.len()) =~= new);
    assert(t.subrange(i + new.len(), t.len() as int) =~= s.subrange(i + pat.len(), s.len() as int));
}

/// Replacing the first occurrence of `pat` leaves every later occurrence that
/// does not overlap it in place, shifted by the difference in length.
pub proof fn lemma_replace_keeps_later_occurrences(
    s: Seq<char>,
    pat: Seq<char>,
    new: Seq<char>,
    t: Seq<char>,
    j: int,
)
    requires
        replaces_first(s, pat, new, t),
        occurs_at(s, pat, j),
    ensures
        exists|i: int|
            is_first_occurrence(s, pat, i) && (j >= i + pat.len() ==> occurs_at(
                t,
                pat,
                j - pat.len() + new.len(),
            )),
{
    let i = choose|i: int| is_first_occurrence(s, pat, i) && t == replaced_at(s, pat, new, i);
    if j >= i + pat.len() {
        let d = new.len() - pat.len();
        assert(t.subrange(j + d, j + d + pat.len()) =~= s.subrange(j, j + pat.len()));
    }
}

/// The first `cap` characters of `s`, or all of `s` when it is shorter.
pub open spec fn truncated(s: Seq<char>, cap: nat) -> Seq<char> {
    if s.len() <= cap {
        s
    } else {
        s.subrange(0, cap as int)
    }
}

/// The characters of `s`, one element each.
pub fn chars_of(s: &str) -> (r: Vec<char>)
    ensures
        r@ == s@,
{
    let mut r: Vec<char> = Vec::new();
    for c in it: s.chars()
        invariant
            r@ == it.seq().subrange(0, it.index@ as int),
    {
        r.push(c);
    }
    r
}

/// Whether `pat` occurs in `s` at index `i`, checked character by character.
fn matches_at(s: &Vec<char>, pat: &Vec<char>, i: usize) -> (r: bool)
    requires
        i + pat@.len() <= s@.len(),
    ensures
        r == occurs_at(s@, pat@, i as int),
{
    let n = s.len();
    let mut j: usize = 0;
    while j < pat.len()
        invariant
            j <= pat@.len(),
            i + pat@.len() <= s@.len(),
            n == s@.len(),
            forall|k: int| 0 <= k < j ==> s@[i + k] == pat@[k],
        decreases pat@.len() - j,
    {
        if s[i + j] != pat[j] {
            assert(s@.subrange(i as int, i + pat@.len())[j as int] != pat@[j as int]);
            return false;
        }
        j = j + 1;
    }
    assert(s@.subrange(i as int, i + pat@.len()) =~= pat@);
    true
}

/// The leftmost index at which `pat` occurs in `s`, if any.
pub fn find_first(s: &Vec<char>, pat: &Vec<char>) -> (r: Option<usize>)
    ensures
        match r {
            Some(i) => is_first_occurrence(s@, pat@, i as int),
            None => !contains(s@, pat@),
        },
{
    if pat.len() > s.len() {
        return None;
    }
    let last = s.len() - pat.len();
    let mut i: usize = 0;
    loop
        invariant
            last == s@.len() - pat@.len(),
            i <= last,
            forall|j: int| 0 <= j < i ==> !occurs_at(s@, pat@, j),
        decreases last + 1 - i,
    {
        if matches_at(s, pat, i) {
            return Some(i);
        }
        if i == last {
            return None;
        }
        i = i + 1;
    }
}

/// Replaces the first occurrence of `old` in `content` by `new`; `None` when
/// `old` does not occur. An empty `old` occurs at the start.
pub fn replace_first(content: &str, old: &str, new: &str) -> (r: Option<String>)
    ensures
        match r {
            Some(t) => replaces_first(content@, old@, new@, t@),
            None => !contains(content@, old@),
        },
{
    let cs = chars_of(content);
    let ps = chars_of(old);
    match find_first(&cs, &ps) {
        None => None,
        Some(i) => {
            let n = content.unicode_len();
            let head = content.substring_char(0, i);
            let tail = content.substring_char(i + ps.len(), n);
            let mut t = head.to_owned();
            t.append(new);
            t.append(tail);
            Some(t)
        },
    }
}

/// The first `cap` characters of `s`.
pub fn truncate_chars(s: &str, cap: usize) -> (r: String)
    ensures
        r@ == truncated(s@, cap as nat),
{
    let n = s.unicode_len();
    if n <= cap {
        s.to_owned()
    } else {
        s.substring_char(0, cap).to_owned()
    }
}

} // verus!
