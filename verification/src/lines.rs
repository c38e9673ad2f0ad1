//! Splitting captured output into lines, with the same meaning as Rust's
//! `str::lines`: lines end at `'\n'`, a `'\r'` immediately before the `'\n'`
//! is dropped, and a trailing newline does not open a final empty line.

use vstd::prelude::*;

verus! {

/// Index of the first `'\n'` in `s`, or `s.len()` if there is none.
pub open spec fn find_nl(s: Seq<char>) -> int
    decreases s.len(),
{
    if s.len() == 0 {
        0
    } else if s[0] == '\n' {
        0
    } else {
        1 + find_nl(s.skip(1))
    }
}

/// A line as delivered: the text up to a newline, with one carriage return
/// dropped if it stood right before that newline.
pub open spec fn strip_cr(l: Seq<char>) -> Seq<char> {
    if l.len() > 0 && l[l.len() - 1] == '\r' {
        l.take(l.len() - 1)
    } else {
        l
    }
}

/// The lines of `s`, in order.
pub open spec fn spec_lines(s: Seq<char>) -> Seq<Seq<char>>
    decreases s.len(),
{
    if s.len() == 0 {
        Seq::empty()
    } else {
        let i = find_nl(s);
        if 0 <= i < s.len() {
            seq![strip_cr(s.take(i))] + spec_lines(s.skip(i + 1))
        } else {
            seq![s]
        }
    }
}

pub proof fn lemma_find_nl_bounds(s: Seq<char>)
    ensures
        0 <= find_nl(s) <= s.len(),
    decreases s.len(),
{
    if s.len() != 0 && s[0] != '\n' {
        lemma_find_nl_bounds(s.skip(1));
    }
}

/// `find_nl` is pinned down by its characterization: no newline before `m`,
/// and a newline at `m` unless `m` is the length.
pub proof fn lemma_find_nl_at(s: Seq<char>, m: int)
    requires
        0 <= m <= s.len(),
        forall|k: int| 0 <= k < m ==> s[k] != '\n',
        m < s.len() ==> s[m] == '\n',
    ensures
        find_nl(s) == m,
    decreases m,
{
    if s.len() == 0 {
    } else if m == 0 {
        if s[0] != '\n' {
            lemma_find_nl_bounds(s.skip(1));
        }
    } else {
        assert(s[0] != '\n');
        let t = s.skip(1);
        assert forall|k: int| 0 <= k < m - 1 implies t[k] != '\n' by {
            assert(t[k] == s[k + 1]);
        }
        if m - 1 < t.len() {
            assert(t[m - 1] == s[m]);
        }
        lemma_find_nl_at(t, m - 1);
    }
}

/// Splits `content` into its lines.
pub fn split_lines(content: &str) -> (r: Vec<String>)
    ensures
        r.deep_view() == spec_lines(content@),
{
    let n = content.unicode_len();
    let mut r: Vec<String> = Vec::new();
    let mut start: usize = 0;
    let mut i: usize = 0;
    proof {
        assert(content@.skip(0) =~= content@);
    }
    while i < n
        invariant
            start <= i <= n == content@.len(),
            forall|k: int| start <= k < i ==> content@[k] != '\n',
            r.deep_view() + spec_lines(content@.skip(start as int)) =~= spec_lines(content@),
        decreases n - i,
    {
        if content.get_char(i) == '\n' {
            let raw = content.substring_char(start, i);
            let m = raw.unicode_len();
            let line = if m > 0 && raw.get_char(m - 1) == '\r' {
                raw.substring_char(0, m - 1)
            } else {
                raw
            };
            proof {
                let rest = content@.skip(start as int);
                assert forall|k: int| 0 <= k < i - start implies rest[k] != '\n' by {
                    assert(rest[k] == content@[start + k]);
                }
                assert(rest[i - start] == content@[i as int]);
                lemma_find_nl_at(rest, i - start);
                assert(rest.take(i - start) =~= content@.subrange(start as int, i as int));
                assert(rest.skip(i - start + 1) =~= content@.skip(i + 1));
                assert(line@ =~= strip_cr(raw@));
                assert(spec_lines(rest) == seq![strip_cr(raw@)] + spec_lines(
                    content@.skip(i + 1),
                ));
            }
            r.push(String::from_str(line));
            proof {
                assert(r.deep_view() + spec_lines(content@.skip(i + 1)) =~= spec_lines(
                    content@,
                ));
            }
            start = i + 1;
        }
        i = i + 1;
    }
    proof {
        let rest = content@.skip(start as int);
        if rest.len() != 0 {
            assert forall|k: int| 0 <= k < rest.len() implies rest[k] != '\n' by {
                assert(rest[k] == content@[start + k]);
            }
            lemma_find_nl_at(rest, rest.len() as int);
            assert(spec_lines(rest) == seq![rest]);
        }
    }
    if start < n {
        let tail = content.substring_char(start, n);
        proof {
            assert(tail@ =~= content@.skip(start as int));
        }
        r.push(String::from_str(tail));
        proof {
            assert(r.deep_view() =~= spec_lines(content@));
        }
    } else {
        proof {
            assert(content@.skip(start as int).len() == 0);
            assert(r.deep_view() =~= spec_lines(content@));
        }
    }
    r
}

} // verus!
