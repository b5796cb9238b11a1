//! The configuration patcher: given the current text of a line-oriented
//! key/value configuration file and a set of required lines, it appends
//! each required line that does not already occur in the text. Presence is
//! a substring test against the text as it was read, so a line is never
//! appended twice: patching is idempotent.

use vstd::prelude::*;

use crate::text::contains_str;
use crate::text::is_substring;

verus! {

/// One newline character, appended after each added configuration line.
pub open spec fn newline() -> Seq<char> {
    seq!['\n']
}

/// The text the patcher appends to `text` for the required `lines`: each
/// line that does not already occur in `text`, followed by a newline, in
/// the order the lines are given.
pub open spec fn additions(text: Seq<char>, lines: Seq<Seq<char>>) -> Seq<char>
    decreases lines.len(),
{
    if lines.len() == 0 {
        Seq::empty()
    } else {
        additions(text, lines.drop_last()) + (if is_substring(text, lines.last()) {
            Seq::<char>::empty()
        } else {
            lines.last() + newline()
        })
    }
}

/// The required lines that do not occur in `text`, in order.
pub open spec fn missing(text: Seq<char>, lines: Seq<Seq<char>>) -> Seq<Seq<char>>
    decreases lines.len(),
{
    if lines.len() == 0 {
        Seq::empty()
    } else {
        missing(text, lines.drop_last()) + (if is_substring(text, lines.last()) {
            Seq::<Seq<char>>::empty()
        } else {
            seq![lines.last()]
        })
    }
}

/// The configuration text after one run of the patcher.
pub open spec fn patched(text: Seq<char>, lines: Seq<Seq<char>>) -> Seq<char> {
    text + additions(text, lines)
}

/// The required lines that are absent from `text`, in order: exactly the
/// lines the caller must append to the file.
pub fn lines_to_append(text: &str, lines: &Vec<String>) -> (r: Vec<String>)
    ensures
        r.deep_view() == missing(text@, lines.deep_view()),
{
    let mut r: Vec<String> = Vec::new();
    let mut i: usize = 0;
    while i < lines.len()
        invariant
            i <= lines.len(),
            r.deep_view() == missing(text@, lines.deep_view().subrange(0, i as int)),
        decreases lines.len() - i,
    {
        proof {
            let lv = lines.deep_view();
            assert(lv.subrange(0, i as int + 1).drop_last() =~= lv.subrange(0, i as int));
            assert(lv.subrange(0, i as int + 1).last() == lv[i as int]);
            assert(lv[i as int] == lines@[i as int]@);
        }
        if !contains_str(text, lines[i].as_str()) {
            let line = lines[i].clone();
            r.push(line);
            proof {
                assert(r.deep_view() =~= missing(
                    text@,
                    lines.deep_view().subrange(0, i as int + 1),
                ));
            }
        } else {
            proof {
                assert(r.deep_view() =~= missing(
                    text@,
                    lines.deep_view().subrange(0, i as int + 1),
                ));
            }
        }
        i = i + 1;
    }
    proof {
        assert(lines.deep_view().subrange(0, lines.len() as int) =~= lines.deep_view());
    }
    r
}

/// The configuration text after one run of the patcher: `text` with each
/// absent required line appended, followed by a newline.
pub fn patch_text(text: &str, lines: &Vec<String>) -> (r: String)
    ensures
        r@ == patched(text@, lines.deep_view()),
{
    let mut r: String = text.to_owned();
    let mut i: usize = 0;
    while i < lines.len()
        invariant
            i <= lines.len(),
            r@ == text@ + additions(text@, lines.deep_view().subrange(0, i as int)),
        decreases lines.len() - i,
    {
        proof {
            let lv = lines.deep_view();
            assert(lv.subrange(0, i as int + 1).drop_last() =~= lv.subrange(0, i as int));
            assert(lv.subrange(0, i as int + 1).last() == lv[i as int]);
            assert(lv[i as int] == lines@[i as int]@);
        }
        if !contains_str(text, lines[i].as_str()) {
            r.append(lines[i].as_str());
            r.append("\n");
            proof {
                reveal_strlit("\n");
                assert("\n"@ =~= newline());
                assert(r@ =~= text@ + additions(
                    text@,
                    lines.deep_view().subrange(0, i as int + 1),
                ));
            }
        } else {
            proof {
                assert(r@ =~= text@ + additions(
                    text@,
                    lines.deep_view().subrange(0, i as int + 1),
                ));
            }
        }
        i = i + 1;
    }
    proof {
        assert(lines.deep_view().subrange(0, lines.len() as int) =~= lines.deep_view());
    }
    r
}

/// A substring of `a` is a substring of `a + b`.
pub proof fn lemma_substring_extends_right(a: Seq<char>, b: Seq<char>, pat: Seq<char>)
    requires
        is_substring(a, pat),
    ensures
        is_substring(a + b, pat),
{
    let i = choose|i: int|
        0 <= i && i + pat.len() <= a.len() && #[trigger] a.subrange(i, i + pat.len() as int)
            == pat;
    assert((a + b).subrange(i, i + pat.len() as int) =~= a.subrange(i, i + pat.len() as int));
}

/// A substring of `b` is a substring of `a + b`.
pub proof fn lemma_substring_extends_left(a: Seq<char>, b: Seq<char>, pat: Seq<char>)
    requires
        is_substring(b, pat),
    ensures
        is_substring(a + b, pat),
{
    let i = choose|i: int|
        0 <= i && i + pat.len() <= b.len() && #[trigger] b.subrange(i, i + pat.len() as int)
            == pat;
    assert((a + b).subrange(a.len() + i, a.len() + i + pat.len() as int) =~= b.subrange(
        i,
        i + pat.len() as int,
    ));
}

/// A line occurs in itself followed by a newline.
proof fn lemma_line_in_own_addition(line: Seq<char>)
    ensures
        is_substring(line + newline(), line),
{
    let t = line + newline();
    assert(t.subrange(0, 0 + line.len() as int) =~= line);
    assert(is_substring(t, line));
}

/// After one run of the patcher, every required line occurs in the text.
pub proof fn lemma_patched_contains(text: Seq<char>, lines: Seq<Seq<char>>, k: int)
    requires
        0 <= k < lines.len(),
    ensures
        is_substring(patched(text, lines), lines[k]),
    decreases lines.len(),
{
    let rest = lines.drop_last();
    let tail = if is_substring(text, lines.last()) {
        Seq::<char>::empty()
    } else {
        lines.last() + newline()
    };
    assert(additions(text, lines) == additions(text, rest) + tail);
    assert(patched(text, lines) =~= (text + additions(text, rest)) + tail);
    if k == lines.len() - 1 {
        if is_substring(text, lines.last()) {
            lemma_substring_extends_right(text, additions(text, lines), lines.last());
            assert(text + additions(text, lines) =~= patched(text, lines));
        } else {
            lemma_line_in_own_addition(lines.last());
            lemma_substring_extends_left(text + additions(text, rest), tail, lines.last());
        }
    } else {
        lemma_patched_contains(text, rest, k);
        lemma_substring_extends_right(text + additions(text, rest), tail, lines[k]);
    }
}

/// When every required line already occurs in the text, the patcher
/// appends nothing.
pub proof fn lemma_additions_noop(text: Seq<char>, lines: Seq<Seq<char>>)
    requires
        forall|k: int| 0 <= k < lines.len() ==> is_substring(text, #[trigger] lines[k]),
    ensures
        additions(text, lines) == Seq::<char>::empty(),
    decreases lines.len(),
{
    if lines.len() > 0 {
        lemma_additions_noop(text, lines.drop_last());
        assert(is_substring(text, lines.last()));
        assert(additions(text, lines) =~= Seq::<char>::empty());
    }
}

/// Patching is idempotent: a second run of the patcher over the same
/// required lines leaves the text unchanged, so no duplicate lines
/// accumulate across re-runs.
pub proof fn lemma_patch_idempotent(text: Seq<char>, lines: Seq<Seq<char>>)
    ensures
        patched(patched(text, lines), lines) == patched(text, lines),
{
    let p1 = patched(text, lines);
    assert forall|k: int| 0 <= k < lines.len() implies is_substring(p1, #[trigger] lines[k]) by {
        lemma_patched_contains(text, lines, k);
    }
    lemma_additions_noop(p1, lines);
    assert(patched(p1, lines) =~= p1);
}

} // verus!
