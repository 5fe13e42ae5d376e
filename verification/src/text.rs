//! Small verified helpers over `&str` views that the rest of the
//! library uses for classification and formatting decisions.

use vstd::prelude::*;

verus! {

/// `sub` occurs in `text` starting at position `at`.
pub open spec fn occurs_at(text: Seq<char>, sub: Seq<char>, at: int) -> bool {
    0 <= at && at + sub.len() <= text.len() && text.subrange(at, at + sub.len() as int) == sub
}

/// `sub` occurs somewhere in `text`.
pub open spec fn contains_seq(text: Seq<char>, sub: Seq<char>) -> bool {
    exists|at: int| occurs_at(text, sub, at)
}

/// `prefix` starts `text`.
pub open spec fn starts_with_seq(text: Seq<char>, prefix: Seq<char>) -> bool {
    occurs_at(text, prefix, 0)
}

/// ASCII whitespace, the characters that blank git output may consist of.
pub open spec fn is_blank_char(c: char) -> bool {
    c == ' ' || c == '\t' || c == '\n' || c == '\r' || c == '\x0c'
}

/// Every character of `s` is whitespace (true of the empty sequence).
pub open spec fn all_blank(s: Seq<char>) -> bool {
    forall|i: int| 0 <= i < s.len() ==> is_blank_char(s[i])
}

/// Character-for-character equality of two string slices.
pub fn str_eq(a: &str, b: &str) -> (r: bool)
    ensures
        r == (a@ == b@),
{
    let an = a.unicode_len();
    let bn = b.unicode_len();
    if an != bn {
        return false;
    }
    let mut i: usize = 0;
    while i < an
        invariant
            i <= an,
            an == a@.len(),
            an == b@.len(),
            forall|j: int| 0 <= j < i ==> a@[j] == b@[j],
        decreases an - i,
    {
        if a.get_char(i) != b.get_char(i) {
            return false;
        }
        i = i + 1;
    }
    proof {
        assert(a@ =~= b@);
    }
    true
}

/// Whether `sub` occurs in `text` at exactly position `at`.
fn matches_at(text: &str, sub: &str, at: usize) -> (r: bool)
    requires
        at + sub@.len() <= text@.len(),
        text@.len() <= usize::MAX,
    ensures
        r == occurs_at(text@, sub@, at as int),
{
    let sn = sub.unicode_len();
    let mut j: usize = 0;
    while j < sn
        invariant
            j <= sn,
            sn == sub@.len(),
            at + sn <= text@.len(),
            text@.len() <= usize::MAX,
            forall|k: int| 0 <= k < j ==> text@[at + k] == sub@[k],
        decreases sn - j,
    {
        if text.get_char(at + j) != sub.get_char(j) {
            proof {
                assert(text@.subrange(at as int, at + sn as int)[j as int] != sub@[j as int]);
            }
            return false;
        }
        j = j + 1;
    }
    proof {
        assert(text@.subrange(at as int, at + sn as int) =~= sub@);
    }
    true
}

/// Substring search: does `sub` occur anywhere in `text`?
pub fn str_contains(text: &str, sub: &str) -> (r: bool)
    ensures
        r == contains_seq(text@, sub@),
{
    let tn = text.unicode_len();
    let sn = sub.unicode_len();
    if sn > tn {
        proof {
            assert(forall|at: int| !occurs_at(text@, sub@, at));
        }
        return false;
    }
    if sn == 0 {
        proof {
            assert(text@.subrange(0, 0) =~= sub@);
            assert(occurs_at(text@, sub@, 0));
        }
        return true;
    }
    let mut at: usize = 0;
    while at <= tn - sn
        invariant
            tn == text@.len(),
            sn == sub@.len(),
            1 <= sn <= tn,
            at <= tn - sn + 1,
            forall|p: int| 0 <= p < at ==> !occurs_at(text@, sub@, p),
        decreases tn - at,
    {
        if matches_at(text, sub, at) {
            return true;
        }
        at = at + 1;
    }
    proof {
        assert(forall|p: int| occurs_at(text@, sub@, p) ==> 0 <= p <= tn - sn);
    }
    false
}

/// Prefix test: does `text` begin with `prefix`?
pub fn str_starts_with(text: &str, prefix: &str) -> (r: bool)
    ensures
        r == starts_with_seq(text@, prefix@),
{
    let tn = text.unicode_len();
    let pn = prefix.unicode_len();
    if pn > tn {
        return false;
    }
    matches_at(text, prefix, 0)
}

/// Whitespace-only test, the decision behind "output is blank after trimming".
pub fn str_is_blank(s: &str) -> (r: bool)
    ensures
        r == all_blank(s@),
{
    let n = s.unicode_len();
    let mut i: usize = 0;
    while i < n
        invariant
            i <= n,
            n == s@.len(),
            forall|j: int| 0 <= j < i ==> is_blank_char(s@[j]),
        decreases n - i,
    {
        let c = s.get_char(i);
        if !(c == ' ' || c == '\t' || c == '\n' || c == '\r' || c == '\x0c') {
            return false;
        }
        i = i + 1;
    }
    true
}

/// The texts of `parts` joined by a comma and a space.
pub open spec fn comma_joined(parts: Seq<Seq<char>>) -> Seq<char>
    decreases parts.len(),
{
    if parts.len() == 0 {
        Seq::empty()
    } else if parts.len() == 1 {
        parts[0]
    } else {
        comma_joined(parts.drop_last()) + ", "@ + parts.last()
    }
}

/// Joins the strings of `parts` with a comma and a space.
pub fn join_with_commas(parts: &Vec<String>) -> (r: String)
    ensures
        r@ == comma_joined(parts.deep_view()),
{
    let mut out = String::new();
    let mut i: usize = 0;
    while i < parts.len()
        invariant
            i <= parts.len(),
            out@ == comma_joined(parts.deep_view().take(i as int)),
        decreases parts.len() - i,
    {
        proof {
            assert(parts.deep_view().take(i + 1).drop_last() =~= parts.deep_view().take(i as int));
            assert(parts.deep_view().take(i + 1).last() == parts.deep_view()[i as int]);
            assert(parts.deep_view()[i as int] == parts@[i as int]@);
        }
        if i > 0 {
            out.append(", ");
        }
        out.append(parts[i].as_str());
        proof {
            if i == 0 {
                assert(parts.deep_view().take(1)[0] == parts.deep_view()[0]);
                assert(out@ =~= comma_joined(parts.deep_view().take(1)));
            } else {
                assert(out@ =~= comma_joined(parts.deep_view().take(i + 1)));
            }
        }
        i = i + 1;
    }
    proof {
        assert(parts.deep_view().take(parts.deep_view().len() as int) =~= parts.deep_view());
    }
    out
}

/// Position of the first occurrence of `c` in `s`, if any.
pub fn str_find(s: &str, c: char) -> (r: Option<usize>)
    ensures
        match r {
            Some(i) => i < s@.len() && s@[i as int] == c && forall|j: int|
                0 <= j < i ==> s@[j] != c,
            None => forall|j: int| 0 <= j < s@.len() ==> s@[j] != c,
        },
{
    let n = s.unicode_len();
    let mut i: usize = 0;
    while i < n
        invariant
            i <= n,
            n == s@.len(),
            forall|j: int| 0 <= j < i ==> s@[j] != c,
        decreases n - i,
    {
        if s.get_char(i) == c {
            return Some(i);
        }
        i = i + 1;
    }
    None
}

} // verus!
