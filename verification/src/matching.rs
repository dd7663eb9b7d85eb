//! Case-insensitive substring matching for the phone-number predicate.
//!
//! The source variants disagree on exact-versus-substring matching and on
//! case sensitivity, so one consistent policy is fixed here: a phone-number
//! filter matches a row when the filter text occurs in the row's phone number
//! as a contiguous substring, comparing characters under ASCII case folding
//! (the recommended default). This mirrors an `ILIKE '%text%'` predicate on
//! an ASCII pattern.

use vstd::prelude::*;

verus! {

/// ASCII case folding of one character, as its scalar value: the letters
/// `'A'..='Z'` fold to `'a'..='z'`; every other character folds to itself.
pub open spec fn fold_char(c: char) -> int {
    if 65 <= c as u32 <= 90 {
        c as u32 + 32
    } else {
        c as u32 as int
    }
}

/// `needle` occurs at position `i` of `hay`, comparing folded characters.
pub open spec fn matches_at(hay: Seq<char>, needle: Seq<char>, i: int) -> bool {
    forall|j: int| 0 <= j < needle.len() ==> fold_char(hay[i + j]) == #[trigger] fold_char(needle[j])
}

/// `hay` contains `needle` as a contiguous substring under ASCII case
/// folding. An empty `needle` is contained in every `hay`.
pub open spec fn contains_ci(hay: Seq<char>, needle: Seq<char>) -> bool {
    exists|i: int| 0 <= i && i + needle.len() <= hay.len() && #[trigger] matches_at(hay, needle, i)
}

fn fold_char_exec(c: char) -> (f: u32)
    ensures
        f == fold_char(c),
{
    let v = c as u32;
    if 65 <= v && v <= 90 {
        v + 32
    } else {
        v
    }
}

/// The characters of `s`, materialized for indexed scanning.
fn chars_of(s: &str) -> (v: Vec<char>)
    ensures
        v@ == s@,
{
    let n = s.unicode_len();
    let mut v: Vec<char> = Vec::new();
    let mut i: usize = 0;
    while i < n
        invariant
            n == s@.len(),
            i <= n,
            v@ == s@.subrange(0, i as int),
        decreases n - i,
    {
        let c = s.get_char(i);
        v.push(c);
        i = i + 1;
    }
    v
}

fn matches_at_exec(h: &Vec<char>, n: &Vec<char>, i: usize) -> (r: bool)
    requires
        i + n@.len() <= h@.len(),
    ensures
        r == matches_at(h@, n@, i as int),
{
    let hl = h.len();
    let mut j: usize = 0;
    while j < n.len()
        invariant
            hl == h@.len(),
            i + n@.len() <= h@.len(),
            j <= n@.len(),
            forall|t: int| 0 <= t < j ==> fold_char(h@[i + t]) == #[trigger] fold_char(n@[t]),
        decreases n@.len() - j,
    {
        if fold_char_exec(h[i + j]) != fold_char_exec(n[j]) {
            proof {
                assert(fold_char(h@[i + j]) != fold_char(n@[j as int]));
            }
            return false;
        }
        j = j + 1;
    }
    true
}

/// Whether `needle` occurs in `hay` as a substring under ASCII case folding.
pub fn contains_substring_ci(hay: &str, needle: &str) -> (r: bool)
    ensures
        r == contains_ci(hay@, needle@),
{
    let h = chars_of(hay);
    let n = chars_of(needle);
    if n.len() == 0 {
        proof {
            assert(matches_at(hay@, needle@, 0));
        }
        return true;
    }
    if n.len() > h.len() {
        return false;
    }
    let hl = h.len();
    let last = hl - n.len();
    let mut i: usize = 0;
    while i <= last
        invariant
            hl == h@.len(),
            h@ == hay@,
            n@ == needle@,
            1 <= n@.len() <= h@.len(),
            last == h@.len() - n@.len(),
            i <= last + 1,
            forall|k: int| 0 <= k < i ==> !matches_at(hay@, needle@, k),
        decreases last + 1 - i,
    {
        if matches_at_exec(&h, &n, i) {
            return true;
        }
        i = i + 1;
    }
    proof {
        assert forall|k: int| 0 <= k && k + needle@.len() <= hay@.len() implies !matches_at(
            hay@,
            needle@,
            k,
        ) by {
            assert(k < i);
        };
    }
    false
}

} // verus!
