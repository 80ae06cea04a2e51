//! Character-level string operations used by key encoding and value parsing.

use vstd::prelude::*;

verus! {

/// `sep` occurs in `s` starting at position `j`.
pub open spec fn occurs_at(s: Seq<char>, sep: Seq<char>, j: int) -> bool {
    0 <= j && j + sep.len() <= s.len() && s.subrange(j, j + sep.len()) == sep
}

/// The first position at or after `j` where `sep` occurs in `s`.
pub open spec fn first_occurrence_from(s: Seq<char>, sep: Seq<char>, j: int) -> Option<int>
    decreases s.len() - j,
{
    if j < 0 || j + sep.len() > s.len() {
        None
    } else if occurs_at(s, sep, j) {
        Some(j)
    } else if j >= s.len() {
        None
    } else {
        first_occurrence_from(s, sep, j + 1)
    }
}

/// The first position where `sep` occurs in `s`.
pub open spec fn first_occurrence(s: Seq<char>, sep: Seq<char>) -> Option<int> {
    first_occurrence_from(s, sep, 0)
}

/// The first occurrence is the one position with an occurrence and none before it.
pub proof fn lemma_first_occurrence(s: Seq<char>, sep: Seq<char>, j: int, from: int)
    requires
        0 <= from <= j,
        occurs_at(s, sep, j),
        forall|i: int| from <= i < j ==> !occurs_at(s, sep, i),
    ensures
        first_occurrence_from(s, sep, from) == Some(j),
    decreases j - from,
{
    if from < j {
        lemma_first_occurrence(s, sep, j, from + 1);
    }
}

/// Without any occurrence there is no first one.
pub proof fn lemma_no_occurrence(s: Seq<char>, sep: Seq<char>, from: int)
    requires
        0 <= from,
        forall|i: int| from <= i ==> !occurs_at(s, sep, i),
    ensures
        first_occurrence_from(s, sep, from) is None,
    decreases s.len() - from,
{
    if from < s.len() && from + sep.len() <= s.len() {
        lemma_no_occurrence(s, sep, from + 1);
    }
}

/// `s` begins with `prefix`.
pub open spec fn has_prefix(s: Seq<char>, prefix: Seq<char>) -> bool {
    prefix.len() <= s.len() && s.subrange(0, prefix.len() as int) == prefix
}

/// `s` with every leading repetition of the non-empty pattern `p` removed.
pub open spec fn trim_prefix_repeatedly(s: Seq<char>, p: Seq<char>) -> Seq<char>
    decreases s.len(),
{
    if p.len() > 0 && has_prefix(s, p) {
        trim_prefix_repeatedly(s.subrange(p.len() as int, s.len() as int), p)
    } else {
        s
    }
}

/// The code of `c` with ASCII upper-case letters mapped to lower case.
pub open spec fn ascii_lower_code(c: char) -> u32 {
    if 'A' <= c && c <= 'Z' {
        (c as u32 + 32) as u32
    } else {
        c as u32
    }
}

/// `a` and `b` are equal once ASCII letters are compared without regard to case.
pub open spec fn ascii_caseless_eq(a: Seq<char>, b: Seq<char>) -> bool {
    a.len() == b.len() && forall|i: int|
        0 <= i < a.len() ==> #[trigger] ascii_lower_code(a[i]) == ascii_lower_code(b[i])
}

/// The concatenation of `a` and `b`.
pub fn concat(a: &str, b: &str) -> (r: String)
    ensures
        r@ == a@ + b@,
{
    let mut r = String::from_str(a);
    r.append(b);
    r
}

/// Whether the two strings hold the same characters.
pub fn str_eq(a: &str, b: &str) -> (r: bool)
    ensures
        r == (a@ == b@),
{
    let x = String::from_str(a);
    let y = String::from_str(b);
    x == y
}

/// Whether `s` begins with `prefix`.
pub fn starts_with(s: &str, prefix: &str) -> (r: bool)
    ensures
        r == has_prefix(s@, prefix@),
{
    let n = s.unicode_len();
    let k = prefix.unicode_len();
    if k > n {
        return false;
    }
    let head = s.substring_char(0, k);
    str_eq(head, prefix)
}

/// `s` with every leading repetition of `p` removed, as `str::trim_start_matches`
/// does for a string pattern.
pub fn trim_start_matches<'a>(s: &'a str, p: &str) -> (r: &'a str)
    ensures
        r@ == trim_prefix_repeatedly(s@, p@),
{
    let k = p.unicode_len();
    if k == 0 {
        return s;
    }
    let mut cur: &'a str = s;
    while starts_with(cur, p)
        invariant
            k == p@.len(),
            k > 0,
            trim_prefix_repeatedly(cur@, p@) == trim_prefix_repeatedly(s@, p@),
        decreases cur@.len(),
    {
        let n = cur.unicode_len();
        cur = cur.substring_char(k, n);
    }
    cur
}

/// Splits `s` around the first occurrence of the separator `sep`; an empty separator
/// occurs first at the start.
pub fn split_once(s: &str, sep: &str) -> (r: Option<(String, String)>)
    ensures
        match r {
            Some((a, b)) => {
                &&& s@ == a@ + sep@ + b@
                &&& first_occurrence(s@, sep@) == Some(a@.len() as int)
                &&& a@ == s@.subrange(0, a@.len() as int)
                &&& b@ == s@.subrange((a@.len() + sep@.len()) as int, s@.len() as int)
            },
            None => first_occurrence(s@, sep@) is None,
        },
{
    let n = s.unicode_len();
    let k = sep.unicode_len();
    if k == 0 {
        let after = String::from_str(s);
        let before = String::new();
        assert(s@ =~= before@ + sep@ + after@);
        proof {
            assert(s@.subrange(0, 0) =~= sep@);
            assert(occurs_at(s@, sep@, 0));
            lemma_first_occurrence(s@, sep@, 0, 0);
        }
        return Some((before, after));
    }
    if k > n {
        proof {
            lemma_no_occurrence(s@, sep@, 0);
        }
        return None;
    }
    let mut j: usize = 0;
    while j <= n - k
        invariant
            n == s@.len(),
            k == sep@.len(),
            k > 0,
            k <= n,
            j <= n,
            forall|i: int| 0 <= i < j ==> !occurs_at(s@, sep@, i),
        decreases n - j,
    {
        let window = s.substring_char(j, j + k);
        if str_eq(window, sep) {
            let before = String::from_str(s.substring_char(0, j));
            let after = String::from_str(s.substring_char(j + k, n));
            assert(s@ =~= before@ + sep@ + after@);
            proof {
                lemma_first_occurrence(s@, sep@, j as int, 0);
            }
            return Some((before, after));
        }
        j = j + 1;
    }
    proof {
        lemma_no_occurrence(s@, sep@, 0);
    }
    None
}

/// Whether the two strings are equal when ASCII letters are compared without
/// regard to case.
pub fn eq_ignore_ascii_case(a: &str, b: &str) -> (r: bool)
    ensures
        r == ascii_caseless_eq(a@, b@),
{
    let n = a.unicode_len();
    let m = b.unicode_len();
    if n != m {
        return false;
    }
    let mut i: usize = 0;
    while i < n
        invariant
            n == a@.len(),
            m == b@.len(),
            n == m,
            i <= n,
            forall|j: int| 0 <= j < i ==> #[trigger] ascii_lower_code(a@[j]) == ascii_lower_code(b@[j]),
        decreases n - i,
    {
        let x = a.get_char(i);
        let y = b.get_char(i);
        let xc: u32 = if 'A' <= x && x <= 'Z' { x as u32 + 32 } else { x as u32 };
        let yc: u32 = if 'A' <= y && y <= 'Z' { y as u32 + 32 } else { y as u32 };
        if xc != yc {
            assert(ascii_lower_code(a@[i as int]) != ascii_lower_code(b@[i as int]));
            return false;
        }
        i = i + 1;
    }
    true
}

} // verus!
