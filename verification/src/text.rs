//! Character and string helpers: white space, ASCII case folding,
//! suffix and substring matching over `Seq<char>` views.

use vstd::prelude::*;

verus! {

/// A white-space code point, as `str::trim` treats them.
pub open spec fn is_space_char(c: char) -> bool {
    let u = c as u32;
    u == 0x09 || u == 0x0A || u == 0x0B || u == 0x0C || u == 0x0D || u == 0x20 || u == 0x85
        || u == 0xA0 || u == 0x1680 || (0x2000 <= u && u <= 0x200A) || u == 0x2028 || u == 0x2029
        || u == 0x202F || u == 0x205F || u == 0x3000
}

/// Whether `c` is white space.
pub fn is_space(c: char) -> (r: bool)
    ensures
        r == is_space_char(c),
{
    let u = c as u32;
    u == 0x09 || u == 0x0A || u == 0x0B || u == 0x0C || u == 0x0D || u == 0x20 || u == 0x85
        || u == 0xA0 || u == 0x1680 || (0x2000 <= u && u <= 0x200A) || u == 0x2028 || u == 0x2029
        || u == 0x202F || u == 0x205F || u == 0x3000
}

/// Case-insensitive character equality, folding ASCII letters only.
pub open spec fn char_eq_ci(a: char, b: char) -> bool {
    let au = a as u32;
    let bu = b as u32;
    au == bu || (0x41 <= au && au <= 0x5A && au + 32 == bu) || (0x41 <= bu && bu <= 0x5A && bu
        + 32 == au)
}

/// Whether `a` and `b` are equal up to ASCII case.
pub fn chars_eq_ci(a: char, b: char) -> (r: bool)
    ensures
        r == char_eq_ci(a, b),
{
    let au = a as u32;
    let bu = b as u32;
    au == bu || (0x41 <= au && au <= 0x5A && au + 32 == bu) || (0x41 <= bu && bu <= 0x5A && bu
        + 32 == au)
}

/// Elementwise case-insensitive equality of two character sequences.
pub open spec fn seq_eq_ci(a: Seq<char>, b: Seq<char>) -> bool {
    a.len() == b.len() && forall|i: int| 0 <= i < a.len() ==> char_eq_ci(a[i], b[i])
}

/// `s` ends with `suf`, up to ASCII case.
pub open spec fn has_suffix_ci(s: Seq<char>, suf: Seq<char>) -> bool {
    s.len() >= suf.len() && seq_eq_ci(s.subrange(s.len() - suf.len(), s.len() as int), suf)
}

/// Whether `s` ends with `suf`, up to ASCII case.
pub fn ends_with_ci(s: &str, suf: &str) -> (r: bool)
    ensures
        r == has_suffix_ci(s@, suf@),
{
    let n = s.unicode_len();
    let m = suf.unicode_len();
    if n < m {
        return false;
    }
    let mut j: usize = 0;
    while j < m
        invariant
            m <= n,
            n == s@.len(),
            m == suf@.len(),
            j <= m,
            forall|l: int| 0 <= l < j ==> char_eq_ci(s@[n - m + l], suf@[l]),
        decreases m - j,
    {
        if !chars_eq_ci(s.get_char(n - m + j), suf.get_char(j)) {
            assert(!char_eq_ci(s@.subrange(n - m, n as int)[j as int], suf@[j as int]));
            return false;
        }
        j += 1;
    }
    assert forall|i: int| 0 <= i < m implies char_eq_ci(
        s@.subrange(n - m, n as int)[i],
        suf@[i],
    ) by {
        assert(s@.subrange(n - m, n as int)[i] == s@[n - m + i]);
    }
    true
}

/// The pattern `pat` occurs in `s` at position `i`, up to ASCII case.
pub open spec fn matches_ci_at(s: Seq<char>, pat: Seq<char>, i: int) -> bool {
    0 <= i && i + pat.len() <= s.len() && forall|l: int|
        0 <= l < pat.len() ==> char_eq_ci(s[i + l], pat[l])
}

/// `pat` occurs somewhere in `s`, up to ASCII case.
pub open spec fn contains_ci(s: Seq<char>, pat: Seq<char>) -> bool {
    exists|i: int| matches_ci_at(s, pat, i)
}

/// Whether `pat` occurs in `s`, up to ASCII case.
pub fn contains_pat_ci(s: &str, pat: &str) -> (r: bool)
    ensures
        r == contains_ci(s@, pat@),
{
    let n = s.unicode_len();
    let m = pat.unicode_len();
    if m > n {
        return false;
    }
    let mut i: usize = 0;
    while i <= n - m
        invariant
            m <= n,
            n == s@.len(),
            m == pat@.len(),
            i <= n - m + 1,
            forall|k: int| 0 <= k < i ==> !matches_ci_at(s@, pat@, k),
        decreases n + 1 - i,
    {
        let mut j: usize = 0;
        let mut all: bool = true;
        while j < m
            invariant
                m <= n,
                n == s@.len(),
                m == pat@.len(),
                i + m <= n,
                j <= m,
                all ==> forall|l: int| 0 <= l < j ==> char_eq_ci(s@[i + l], pat@[l]),
                !all ==> !matches_ci_at(s@, pat@, i as int),
            decreases m - j,
        {
            if !chars_eq_ci(s.get_char(i + j), pat.get_char(j)) {
                all = false;
                j = m;
            } else {
                j += 1;
            }
        }
        if all {
            assert(matches_ci_at(s@, pat@, i as int));
            return true;
        }
        i += 1;
    }
    assert forall|k: int| true implies !matches_ci_at(s@, pat@, k) by {
        if 0 <= k && k + pat@.len() <= s@.len() {
            assert(k < i);
        }
    }
    false
}

/// The pattern `pat` occurs in `s` at position `i`, exactly.
pub open spec fn matches_at(s: Seq<char>, pat: Seq<char>, i: int) -> bool {
    0 <= i && i + pat.len() <= s.len() && forall|l: int| 0 <= l < pat.len() ==> s[i + l] == pat[l]
}

/// `pat` occurs somewhere in `s`, exactly.
pub open spec fn contains_seq(s: Seq<char>, pat: Seq<char>) -> bool {
    exists|i: int| matches_at(s, pat, i)
}

/// Whether `pat` occurs in `s`, case-sensitively.
pub fn contains_pat(s: &str, pat: &str) -> (r: bool)
    ensures
        r == contains_seq(s@, pat@),
{
    let n = s.unicode_len();
    let m = pat.unicode_len();
    if m > n {
        return false;
    }
    let mut i: usize = 0;
    while i <= n - m
        invariant
            m <= n,
            n == s@.len(),
            m == pat@.len(),
            i <= n - m + 1,
            forall|k: int| 0 <= k < i ==> !matches_at(s@, pat@, k),
        decreases n + 1 - i,
    {
        let mut j: usize = 0;
        let mut all: bool = true;
        while j < m
            invariant
                m <= n,
                n == s@.len(),
                m == pat@.len(),
                i + m <= n,
                j <= m,
                all ==> forall|l: int| 0 <= l < j ==> s@[i + l] == pat@[l],
                !all ==> !matches_at(s@, pat@, i as int),
            decreases m - j,
        {
            let sc = s.get_char(i + j);
            let pc = pat.get_char(j);
            if sc as u32 != pc as u32 {
                assert(s@[i + j] as u32 != pat@[j as int] as u32);
                all = false;
                j = m;
            } else {
                assert(s@[i + j] as u32 == pat@[j as int] as u32);
                assert(s@[i + j] == pat@[j as int]) by {
                    char_u32_injective(s@[i + j], pat@[j as int]);
                }
                j += 1;
            }
        }
        if all {
            assert(matches_at(s@, pat@, i as int));
            return true;
        }
        i += 1;
    }
    assert forall|k: int| true implies !matches_at(s@, pat@, k) by {
        if 0 <= k && k + pat@.len() <= s@.len() {
            assert(k < i);
        }
    }
    false
}

/// Two characters with the same code point are the same character.
proof fn char_u32_injective(a: char, b: char)
    requires
        a as u32 == b as u32,
    ensures
        a == b,
{
}

/// `s` with leading white space removed.
pub open spec fn trim_front(s: Seq<char>) -> Seq<char>
    decreases s.len(),
{
    if s.len() > 0 && is_space_char(s[0]) {
        trim_front(s.subrange(1, s.len() as int))
    } else {
        s
    }
}

/// `s` with trailing white space removed.
pub open spec fn trim_back(s: Seq<char>) -> Seq<char>
    decreases s.len(),
{
    if s.len() > 0 && is_space_char(s[s.len() - 1]) {
        trim_back(s.subrange(0, s.len() - 1))
    } else {
        s
    }
}

/// `s` with white space removed from both ends.
pub open spec fn trim_spec(s: Seq<char>) -> Seq<char> {
    trim_back(trim_front(s))
}

proof fn lemma_trim_front_skip(s: Seq<char>, a: int)
    requires
        0 <= a < s.len(),
        is_space_char(s[a]),
        trim_front(s) == trim_front(s.subrange(a, s.len() as int)),
    ensures
        trim_front(s) == trim_front(s.subrange(a + 1, s.len() as int)),
{
    let tail = s.subrange(a, s.len() as int);
    assert(tail[0] == s[a]);
    assert(tail.subrange(1, tail.len() as int) =~= s.subrange(a + 1, s.len() as int));
}

proof fn lemma_trim_back_shrink(s: Seq<char>, a: int, b: int)
    requires
        0 <= a < b <= s.len(),
        is_space_char(s[b - 1]),
        trim_spec(s) == trim_back(s.subrange(a, b)),
    ensures
        trim_spec(s) == trim_back(s.subrange(a, b - 1)),
{
    let part = s.subrange(a, b);
    assert(part[part.len() - 1] == s[b - 1]);
    assert(part.subrange(0, part.len() - 1) =~= s.subrange(a, b - 1));
}

/// `s` with white space removed from both ends, as a fresh string.
pub fn trim_str(s: &str) -> (r: String)
    ensures
        r@ == trim_spec(s@),
{
    let n = s.unicode_len();
    let mut a: usize = 0;
    proof {
        assert(s@.subrange(0, n as int) =~= s@);
    }
    while a < n && is_space(s.get_char(a))
        invariant
            a <= n,
            n == s@.len(),
            trim_front(s@) == trim_front(s@.subrange(a as int, n as int)),
        decreases n - a,
    {
        proof {
            lemma_trim_front_skip(s@, a as int);
        }
        a += 1;
    }
    // The front loop stopped either at the end or at a non-space character.
    proof {
        let tail = s@.subrange(a as int, n as int);
        if a == n {
            assert(tail.len() == 0);
            assert(trim_front(tail) == tail);
        } else {
            assert(tail[0] == s@[a as int]);
            assert(trim_front(tail) == tail);
        }
        assert(trim_spec(s@) == trim_back(s@.subrange(a as int, n as int)));
    }
    let mut b: usize = n;
    while b > a && is_space(s.get_char(b - 1))
        invariant
            a <= b <= n,
            n == s@.len(),
            trim_spec(s@) == trim_back(s@.subrange(a as int, b as int)),
        decreases b,
    {
        proof {
            lemma_trim_back_shrink(s@, a as int, b as int);
        }
        b -= 1;
    }
    proof {
        let part = s@.subrange(a as int, b as int);
        if b == a {
            assert(part.len() == 0);
            assert(trim_back(part) == part);
        } else {
            assert(part[part.len() - 1] == s@[b - 1]);
            assert(trim_back(part) == part);
        }
    }
    let out = s.substring_char(a, b);
    String::from_str(out)
}

} // verus!
