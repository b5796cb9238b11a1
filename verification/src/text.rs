//! Character-level text operations used on user input and configuration
//! text: trimming, prefix tests, substring search, and stripping of
//! backslash characters.

use vstd::prelude::*;

verus! {

/// Whitespace characters recognised when trimming user input.
pub open spec fn is_space(c: char) -> bool {
    c == ' ' || c == '\t' || c == '\n' || c == '\r'
}

/// No space character occurs anywhere in `s`.
pub open spec fn no_space(s: Seq<char>) -> bool {
    forall|j: int| 0 <= j < s.len() ==> s[j] != ' '
}

/// `i` is the index of the first space character of `s`.
pub open spec fn is_first_space(s: Seq<char>, i: int) -> bool {
    &&& 0 <= i < s.len()
    &&& s[i] == ' '
    &&& forall|j: int| 0 <= j < i ==> s[j] != ' '
}

/// `s` with leading whitespace removed.
pub open spec fn trim_start_s(s: Seq<char>) -> Seq<char>
    decreases s.len(),
{
    if s.len() > 0 && is_space(s.first()) {
        trim_start_s(s.drop_first())
    } else {
        s
    }
}

/// `s` with trailing whitespace removed.
pub open spec fn trim_end_s(s: Seq<char>) -> Seq<char>
    decreases s.len(),
{
    if s.len() > 0 && is_space(s.last()) {
        trim_end_s(s.drop_last())
    } else {
        s
    }
}

/// `s` with leading and trailing whitespace removed.
pub open spec fn trimmed(s: Seq<char>) -> Seq<char> {
    trim_end_s(trim_start_s(s))
}

/// `s` with every backslash character removed.
pub open spec fn without_backslashes(s: Seq<char>) -> Seq<char>
    decreases s.len(),
{
    if s.len() == 0 {
        Seq::empty()
    } else if s.last() == '\\' {
        without_backslashes(s.drop_last())
    } else {
        without_backslashes(s.drop_last()).push(s.last())
    }
}

/// `p` is a prefix of `s`.
pub open spec fn starts_with(s: Seq<char>, p: Seq<char>) -> bool {
    p.len() <= s.len() && s.subrange(0, p.len() as int) == p
}

/// `pat` occurs contiguously somewhere in `text`.
pub open spec fn is_substring(text: Seq<char>, pat: Seq<char>) -> bool {
    exists|i: int|
        0 <= i && i + pat.len() <= text.len() && #[trigger] text.subrange(
            i,
            i + pat.len() as int,
        ) == pat
}

fn is_space_char(c: char) -> (r: bool)
    ensures
        r == is_space(c),
{
    c == ' ' || c == '\t' || c == '\n' || c == '\r'
}

/// `s` with leading and trailing whitespace removed.
pub fn trim_str(s: &str) -> (r: String)
    ensures
        r@ == trimmed(s@),
{
    let len: usize = s.unicode_len();
    proof {
        assert(s@.subrange(0, len as int) =~= s@);
    }
    let mut start: usize = 0;
    while start < len && is_space_char(s.get_char(start))
        invariant
            start <= len,
            len == s@.len(),
            trim_start_s(s@) == trim_start_s(s@.subrange(start as int, len as int)),
        decreases len - start,
    {
        proof {
            let sub = s@.subrange(start as int, len as int);
            assert(sub.first() == s@[start as int]);
            assert(sub.drop_first() =~= s@.subrange(start as int + 1, len as int));
        }
        start = start + 1;
    }
    proof {
        let sub = s@.subrange(start as int, len as int);
        assert(trim_start_s(sub) == sub);
    }
    let mut end: usize = len;
    while end > start && is_space_char(s.get_char(end - 1))
        invariant
            start <= end <= len,
            len == s@.len(),
            trim_start_s(s@) == s@.subrange(start as int, len as int),
            trim_end_s(s@.subrange(start as int, len as int)) == trim_end_s(
                s@.subrange(start as int, end as int),
            ),
        decreases end,
    {
        proof {
            let sub = s@.subrange(start as int, end as int);
            assert(sub.last() == s@[end as int - 1]);
            assert(sub.drop_last() =~= s@.subrange(start as int, end as int - 1));
        }
        end = end - 1;
    }
    proof {
        let sub = s@.subrange(start as int, end as int);
        assert(trim_end_s(sub) == sub);
    }
    let out = s.substring_char(start, end);
    out.to_owned()
}

/// `s` with every backslash character removed.
pub fn strip_backslashes(s: &str) -> (r: String)
    ensures
        r@ == without_backslashes(s@),
{
    let len: usize = s.unicode_len();
    let mut r = String::new();
    let mut i: usize = 0;
    while i < len
        invariant
            i <= len,
            len == s@.len(),
            r@ == without_backslashes(s@.subrange(0, i as int)),
        decreases len - i,
    {
        proof {
            let pre = s@.subrange(0, i as int + 1);
            assert(pre.drop_last() =~= s@.subrange(0, i as int));
            assert(pre.last() == s@[i as int]);
        }
        let c = s.get_char(i);
        if c != '\\' {
            let piece = s.substring_char(i, i + 1);
            proof {
                assert(piece@ =~= seq![s@[i as int]]);
            }
            r.append(piece);
            proof {
                assert(r@ =~= without_backslashes(s@.subrange(0, i as int)).push(s@[i as int]));
            }
        }
        i = i + 1;
    }
    proof {
        assert(s@.subrange(0, len as int) =~= s@);
    }
    r
}

/// Whether `p` is a prefix of `s`.
pub fn starts_with_str(s: &str, p: &str) -> (r: bool)
    ensures
        r == starts_with(s@, p@),
{
    let n: usize = s.unicode_len();
    let m: usize = p.unicode_len();
    if m > n {
        return false;
    }
    let mut i: usize = 0;
    while i < m
        invariant
            i <= m,
            m <= n,
            n == s@.len(),
            m == p@.len(),
            forall|j: int| 0 <= j < i ==> s@[j] == p@[j],
        decreases m - i,
    {
        if s.get_char(i) != p.get_char(i) {
            proof {
                assert(s@.subrange(0, m as int)[i as int] == s@[i as int]);
            }
            return false;
        }
        i = i + 1;
    }
    proof {
        assert(s@.subrange(0, m as int) =~= p@);
    }
    true
}

/// The index of the first space character of `s`, if any.
pub fn find_space(s: &str) -> (r: Option<usize>)
    ensures
        match r {
            Some(i) => is_first_space(s@, i as int),
            None => no_space(s@),
        },
{
    let len: usize = s.unicode_len();
    let mut i: usize = 0;
    while i < len
        invariant
            i <= len,
            len == s@.len(),
            forall|j: int| 0 <= j < i ==> s@[j] != ' ',
        decreases len - i,
    {
        if s.get_char(i) == ' ' {
            return Some(i);
        }
        i = i + 1;
    }
    None
}

/// Whether `pat` occurs contiguously somewhere in `text`.
pub fn contains_str(text: &str, pat: &str) -> (r: bool)
    ensures
        r == is_substring(text@, pat@),
{
    let n: usize = text.unicode_len();
    let m: usize = pat.unicode_len();
    if m > n {
        return false;
    }
    let mut i: usize = 0;
    while i <= n - m
        invariant
            m <= n,
            n == text@.len(),
            m == pat@.len(),
            i <= n - m + 1,
            forall|k: int|
                0 <= k < i ==> #[trigger] text@.subrange(k, k + m as int) != pat@,
        decreases n - i,
    {
        let mut j: usize = 0;
        while j < m && text.get_char(i + j) == pat.get_char(j)
            invariant
                j <= m,
                i + m <= n,
                n == text@.len(),
                m == pat@.len(),
                forall|l: int| 0 <= l < j ==> text@[i + l] == pat@[l],
            decreases m - j,
        {
            j = j + 1;
        }
        if j == m {
            proof {
                assert(text@.subrange(i as int, i as int + m as int) =~= pat@);
            }
            return true;
        }
        proof {
            assert(text@.subrange(i as int, i as int + m as int)[j as int] == text@[i as int
                + j as int]);
        }
        i = i + 1;
    }
    proof {
        assert forall|k: int| 0 <= k && k + pat@.len() <= text@.len() implies #[trigger] text@
            .subrange(k, k + pat@.len() as int) != pat@ by {
            assert(k < i);
        }
    }
    false
}

} // verus!
