//! Character-level string operations with their meaning stated over the
//! strings' characters: whitespace trimming, substring search, and mapping.
use vstd::prelude::*;
use vstd::string::StrSliceExecFns;

verus! {

/// Unicode `White_Space`, the property `char::is_whitespace` tests.
pub open spec fn is_whitespace_char(c: char) -> bool {
    let u = c as u32;
    ||| 0x09 <= u <= 0x0D
    ||| u == 0x20
    ||| u == 0x85
    ||| u == 0xA0
    ||| u == 0x1680
    ||| 0x2000 <= u <= 0x200A
    ||| u == 0x2028
    ||| u == 0x2029
    ||| u == 0x202F
    ||| u == 0x205F
    ||| u == 0x3000
}

/// Whether `c` is Unicode white space.
pub fn is_whitespace(c: char) -> (r: bool)
    ensures
        r == is_whitespace_char(c),
{
    let u = c as u32;
    (0x09 <= u && u <= 0x0D) || u == 0x20 || u == 0x85 || u == 0xA0 || u == 0x1680
        || (0x2000 <= u && u <= 0x200A) || u == 0x2028 || u == 0x2029 || u == 0x202F
        || u == 0x205F || u == 0x3000
}

/// `s` without leading white space.
pub open spec fn trim_start_text(s: Seq<char>) -> Seq<char>
    decreases s.len(),
{
    if s.len() > 0 && is_whitespace_char(s[0]) {
        trim_start_text(s.drop_first())
    } else {
        s
    }
}

/// `s` without trailing white space.
pub open spec fn trim_end_text(s: Seq<char>) -> Seq<char>
    decreases s.len(),
{
    if s.len() > 0 && is_whitespace_char(s.last()) {
        trim_end_text(s.drop_last())
    } else {
        s
    }
}

/// `s` without leading and trailing white space, as `str::trim` gives.
pub open spec fn trim_text(s: Seq<char>) -> Seq<char> {
    trim_end_text(trim_start_text(s))
}

pub(crate) proof fn lemma_trim_start_skip(s: Seq<char>, i: int)
    requires
        0 <= i <= s.len(),
        forall|k: int| 0 <= k < i ==> is_whitespace_char(s[k]),
    ensures
        trim_start_text(s) == trim_start_text(s.subrange(i, s.len() as int)),
    decreases i,
{
    if i > 0 {
        assert(s.drop_first() =~= s.subrange(1, s.len() as int));
        lemma_trim_start_skip(s.drop_first(), i - 1);
        assert(s.drop_first().subrange(i - 1, s.drop_first().len() as int) =~= s.subrange(i, s.len() as int));
    } else {
        assert(s.subrange(0, s.len() as int) =~= s);
    }
}

pub(crate) proof fn lemma_trim_end_cut(s: Seq<char>, j: int)
    requires
        0 <= j <= s.len(),
        forall|k: int| j <= k < s.len() ==> is_whitespace_char(s[k]),
    ensures
        trim_end_text(s) == trim_end_text(s.subrange(0, j)),
    decreases s.len() - j,
{
    if j < s.len() {
        assert(s.drop_last() =~= s.subrange(0, s.len() - 1));
        lemma_trim_end_cut(s.drop_last(), j);
        assert(s.drop_last().subrange(0, j) =~= s.subrange(0, j));
    } else {
        assert(s.subrange(0, j) =~= s);
    }
}

/// `s` without leading and trailing white space (`str::trim`).
pub fn trim_ws<'a>(s: &'a str) -> (r: &'a str)
    ensures
        r@ == trim_text(s@),
{
    let n = s.unicode_len();
    let mut i: usize = 0;
    while i < n && is_whitespace(s.get_char(i))
        invariant
            n == s@.len(),
            i <= n,
            forall|k: int| 0 <= k < i ==> is_whitespace_char(s@[k]),
        decreases n - i,
    {
        i = i + 1;
    }
    let mut j: usize = n;
    while j > i && is_whitespace(s.get_char(j - 1))
        invariant
            n == s@.len(),
            i <= j <= n,
            forall|k: int| j <= k < n ==> is_whitespace_char(s@[k]),
        decreases j - i,
    {
        j = j - 1;
    }
    proof {
        lemma_trim_start_skip(s@, i as int);
        let t = s@.subrange(i as int, n as int);
        if i < n {
            assert(!is_whitespace_char(t[0]));
        } else {
            assert(t.len() == 0);
        }
        assert(trim_start_text(t) == t);
        lemma_trim_end_cut(t, (j - i) as int);
        let u = t.subrange(0, (j - i) as int);
        assert(u =~= s@.subrange(i as int, j as int));
        if j > i {
            assert(!is_whitespace_char(u.last()));
        }
        assert(trim_end_text(u) == u);
    }
    s.substring_char(i, j)
}

/// `needle` occurs in `s` at position `i`.
pub open spec fn occurs_at(s: Seq<char>, needle: Seq<char>, i: int) -> bool {
    0 <= i && i + needle.len() <= s.len() && s.subrange(i, i + needle.len()) == needle
}

/// `needle` occurs somewhere in `s` (`str::contains` with a string pattern).
pub open spec fn contains_text(s: Seq<char>, needle: Seq<char>) -> bool {
    exists|i: int| occurs_at(s, needle, i)
}

/// Whether `needle` occurs in `s`.
pub fn contains_str(s: &str, needle: &str) -> (r: bool)
    ensures
        r == contains_text(s@, needle@),
{
    let n = s.unicode_len();
    let m = needle.unicode_len();
    if m > n {
        proof {
            assert forall|i: int| !occurs_at(s@, needle@, i) by {}
        }
        return false;
    }
    let mut i: usize = 0;
    while i <= n - m
        invariant
            n == s@.len(),
            m == needle@.len(),
            m <= n,
            i <= n - m + 1,
            forall|k: int| 0 <= k < i ==> !occurs_at(s@, needle@, k),
        decreases n - m + 1 - i,
    {
        let mut k: usize = 0;
        while k < m && s.get_char(i + k) == needle.get_char(k)
            invariant
                n == s@.len(),
                m == needle@.len(),
                i + m <= n,
                k <= m,
                forall|q: int| 0 <= q < k ==> s@[i + q] == needle@[q],
            decreases m - k,
        {
            k = k + 1;
        }
        if k == m {
            assert(s@.subrange(i as int, i + m) =~= needle@);
            assert(occurs_at(s@, needle@, i as int));
            return true;
        }
        proof {
            assert(s@.subrange(i as int, i + m)[k as int] != needle@[k as int]);
        }
        i = i + 1;
    }
    proof {
        assert forall|q: int| !occurs_at(s@, needle@, q) by {
            if 0 <= q && q + m <= n {
                assert(q < i);
            }
        }
    }
    false
}

} // verus!
