//! Substring search and first-occurrence replacement over character
//! sequences, together with joining a list of lines into newline-terminated
//! text. These are the string operations that manifest rendering and
//! argument parsing are built on.

use vstd::prelude::*;
use vstd::string::StrSliceExecFns;
use vstd::string::StringExecFns;

verus! {

/// `pat` occurs in `s` starting at position `i`.
pub open spec fn matches_at(s: Seq<char>, pat: Seq<char>, i: int) -> bool {
    &&& 0 <= i
    &&& i + pat.len() <= s.len()
    &&& s.subrange(i, i + pat.len() as int) == pat
}

/// `pat` occurs somewhere in `s`.
pub open spec fn contains_seq(s: Seq<char>, pat: Seq<char>) -> bool {
    exists|i: int| matches_at(s, pat, i)
}

/// `i` is the position of the first occurrence of `pat` in `s`.
pub open spec fn is_first_match(s: Seq<char>, pat: Seq<char>, i: int) -> bool {
    &&& matches_at(s, pat, i)
    &&& forall|j: int| 0 <= j < i ==> !matches_at(s, pat, j)
}

/// The position of the first occurrence of `pat` in `s`; meaningful only
/// when `contains_seq(s, pat)` holds.
pub open spec fn first_match(s: Seq<char>, pat: Seq<char>) -> int {
    choose|i: int| is_first_match(s, pat, i)
}

/// `s` with the first occurrence of `pat` replaced by `rep`; `s` itself
/// when `pat` does not occur.
pub open spec fn replace_first_spec(s: Seq<char>, pat: Seq<char>, rep: Seq<char>) -> Seq<char> {
    if contains_seq(s, pat) {
        let i = first_match(s, pat);
        s.subrange(0, i) + rep + s.subrange(i + pat.len() as int, s.len() as int)
    } else {
        s
    }
}

/// Wherever `pat` occurs at all, it has a first occurrence.
pub proof fn lemma_first_match_exists(s: Seq<char>, pat: Seq<char>, j: int)
    requires
        matches_at(s, pat, j),
    ensures
        exists|i: int| is_first_match(s, pat, i),
    decreases j,
{
    if forall|k: int| 0 <= k < j ==> !matches_at(s, pat, k) {
        assert(is_first_match(s, pat, j));
    } else {
        let k = choose|k: int| 0 <= k < j && matches_at(s, pat, k);
        lemma_first_match_exists(s, pat, k);
    }
}

/// The first occurrence is unique.
pub proof fn lemma_first_match_unique(s: Seq<char>, pat: Seq<char>, i1: int, i2: int)
    requires
        is_first_match(s, pat, i1),
        is_first_match(s, pat, i2),
    ensures
        i1 == i2,
{
    if i1 < i2 {
        assert(!matches_at(s, pat, i1));
    }
    if i2 < i1 {
        assert(!matches_at(s, pat, i2));
    }
}

/// Whether `pat` occurs in `s` starting exactly at position `i`.
fn match_at(s: &str, pat: &str, i: usize) -> (r: bool)
    requires
        i + pat@.len() <= s@.len(),
    ensures
        r == matches_at(s@, pat@, i as int),
{
    let n: usize = s.unicode_len();
    let m: usize = pat.unicode_len();
    let mut k: usize = 0;
    while k < m
        invariant
            n == s@.len(),
            m == pat@.len(),
            i + m <= n,
            k <= m,
            forall|t: int| 0 <= t < k ==> s@[i + t] == pat@[t],
        decreases m - k,
    {
        let sc: char = s.get_char(i + k);
        let pc: char = pat.get_char(k);
        if sc != pc {
            proof {
                assert(s@.subrange(i as int, i + m as int)[k as int] == s@[i + k]);
            }
            return false;
        }
        k += 1;
    }
    proof {
        assert(s@.subrange(i as int, i + m as int) =~= pat@);
    }
    true
}

/// The position of the first occurrence of `pat` in `s`, or `None` when
/// `pat` does not occur.
pub fn find_first(s: &str, pat: &str) -> (r: Option<usize>)
    ensures
        match r {
            Some(i) => is_first_match(s@, pat@, i as int),
            None => !contains_seq(s@, pat@),
        },
{
    let n: usize = s.unicode_len();
    let m: usize = pat.unicode_len();
    if m > n {
        proof {
            assert(forall|i: int| !matches_at(s@, pat@, i));
        }
        return None;
    }
    if m == 0 {
        proof {
            assert(s@.subrange(0, 0) =~= pat@);
            assert(is_first_match(s@, pat@, 0));
        }
        return Some(0);
    }
    let mut i: usize = 0;
    while i <= n - m
        invariant
            n == s@.len(),
            m == pat@.len(),
            1 <= m <= n,
            i <= n - m + 1,
            forall|j: int| 0 <= j < i ==> !matches_at(s@, pat@, j),
        decreases n - m + 1 - i,
    {
        if match_at(s, pat, i) {
            return Some(i);
        }
        i += 1;
    }
    proof {
        assert(forall|j: int| matches_at(s@, pat@, j) ==> 0 <= j <= n - m);
    }
    None
}

/// Whether `pat` occurs anywhere in `s`.
pub fn contains_str(s: &str, pat: &str) -> (r: bool)
    ensures
        r == contains_seq(s@, pat@),
{
    match find_first(s, pat) {
        Some(i) => {
            proof {
                assert(matches_at(s@, pat@, i as int));
            }
            true
        },
        None => false,
    }
}

/// Whether `a` and `b` hold the same characters.
pub fn str_eq(a: &str, b: &str) -> (r: bool)
    ensures
        r == (a@ == b@),
{
    let n: usize = a.unicode_len();
    let m: usize = b.unicode_len();
    if n != m {
        return false;
    }
    let r = match_at(a, b, 0);
    proof {
        if r {
            assert(a@.subrange(0, m as int) =~= a@);
        } else {
            if a@ == b@ {
                assert(a@.subrange(0, m as int) =~= b@);
            }
        }
    }
    r
}

/// `s` with the first occurrence of `pat` replaced by `rep`; a copy of `s`
/// when `pat` does not occur.
pub fn replace_first(s: &str, pat: &str, rep: &str) -> (r: String)
    ensures
        r@ == replace_first_spec(s@, pat@, rep@),
{
    match find_first(s, pat) {
        Some(i) => {
            let n: usize = s.unicode_len();
            let m: usize = pat.unicode_len();
            let head: &str = s.substring_char(0, i);
            let mut out: String = head.to_owned();
            out.append(rep);
            let tail: &str = s.substring_char(i + m, n);
            out.append(tail);
            proof {
                lemma_first_match_exists(s@, pat@, i as int);
                lemma_first_match_unique(s@, pat@, i as int, first_match(s@, pat@));
            }
            out
        },
        None => {
            let out: String = s.to_owned();
            out
        },
    }
}

/// Replacement touches nothing but the first occurrence: everything before
/// it and everything after it is carried over unchanged, and the
/// replacement text stands exactly where the occurrence stood.
pub proof fn lemma_replace_first_shape(s: Seq<char>, pat: Seq<char>, rep: Seq<char>, i: int)
    requires
        is_first_match(s, pat, i),
    ensures
        replace_first_spec(s, pat, rep).len() == s.len() - pat.len() + rep.len(),
        replace_first_spec(s, pat, rep).subrange(0, i) == s.subrange(0, i),
        replace_first_spec(s, pat, rep).subrange(i, i + rep.len()) == rep,
        replace_first_spec(s, pat, rep).subrange(
            i + rep.len(),
            s.len() - pat.len() + rep.len(),
        ) == s.subrange(i + pat.len() as int, s.len() as int),
{
    assert(contains_seq(s, pat));
    lemma_first_match_unique(s, pat, i, first_match(s, pat));
    let r = replace_first_spec(s, pat, rep);
    assert(r.subrange(0, i) =~= s.subrange(0, i));
    assert(r.subrange(i, i + rep.len()) =~= rep);
    assert(r.subrange(i + rep.len(), s.len() - pat.len() + rep.len()) =~= s.subrange(
        i + pat.len() as int,
        s.len() as int,
    ));
}

/// The lines joined into one text, each line followed by a newline.
pub open spec fn join_terminated(lines: Seq<Seq<char>>) -> Seq<char>
    decreases lines.len(),
{
    if lines.len() == 0 {
        Seq::empty()
    } else {
        join_terminated(lines.drop_last()) + lines.last() + seq!['\n']
    }
}

/// Joins the lines into one text, terminating each with a newline.
pub fn render_lines(lines: &Vec<String>) -> (r: String)
    ensures
        r@ == join_terminated(lines.deep_view()),
{
    let mut out: String = String::new();
    let mut i: usize = 0;
    while i < lines.len()
        invariant
            i <= lines@.len(),
            out@ == join_terminated(lines.deep_view().take(i as int)),
        decreases lines@.len() - i,
    {
        out.append(lines[i].as_str());
        out.append("\n");
        proof {
            reveal_strlit("\n");
            assert(("\n")@ =~= seq!['\n']);
            let full = lines.deep_view();
            assert(full.take(i + 1 as int).drop_last() =~= full.take(i as int));
            assert(full.take(i + 1 as int).last() == lines@[i as int]@);
        }
        i += 1;
    }
    proof {
        assert(lines.deep_view().take(lines@.len() as int) =~= lines.deep_view());
    }
    out
}

/// The lines of `s`, with `cur` the line being read when `s` starts
/// mid-line: a newline ends the current line; a last line without a
/// newline still counts.
pub open spec fn split_acc(s: Seq<char>, cur: Seq<char>) -> Seq<Seq<char>>
    decreases s.len(),
{
    if s.len() == 0 {
        if cur.len() == 0 {
            Seq::empty()
        } else {
            seq![cur]
        }
    } else if s[0] == '\n' {
        seq![cur] + split_acc(s.drop_first(), Seq::empty())
    } else {
        split_acc(s.drop_first(), cur.push(s[0]))
    }
}

/// The lines of `s`: what stands between the newlines, a trailing newline
/// ending the last line.
pub open spec fn split_lines(s: Seq<char>) -> Seq<Seq<char>> {
    split_acc(s, Seq::empty())
}

/// A sequence of characters holds no newline.
pub open spec fn newline_free(l: Seq<char>) -> bool {
    forall|k: int| 0 <= k < l.len() ==> l[k] != '\n'
}

/// Reading a newline-free line followed by a newline closes exactly one
/// line: what was accumulated so far extended by that line.
proof fn lemma_split_acc_step(l: Seq<char>, t: Seq<char>, cur: Seq<char>)
    requires
        newline_free(l),
    ensures
        split_acc(l + seq!['\n'] + t, cur) == seq![cur + l] + split_acc(t, Seq::empty()),
    decreases l.len(),
{
    let s = l + seq!['\n'] + t;
    if l.len() == 0 {
        assert(s[0] == '\n');
        assert(s.drop_first() =~= t);
        assert(cur + l =~= cur);
    } else {
        assert(s[0] == l[0]);
        assert(s.drop_first() =~= l.drop_first() + seq!['\n'] + t);
        lemma_split_acc_step(l.drop_first(), t, cur.push(l[0]));
        assert(cur.push(l[0]) + l.drop_first() =~= cur + l);
    }
}

/// Joining a non-empty line list is also: the first line, a newline, then
/// the rest joined.
pub proof fn lemma_join_terminated_front(lines: Seq<Seq<char>>)
    requires
        lines.len() > 0,
    ensures
        join_terminated(lines) == lines[0] + seq!['\n'] + join_terminated(lines.drop_first()),
    decreases lines.len(),
{
    if lines.len() == 1 {
        assert(lines.drop_last() =~= Seq::<Seq<char>>::empty());
        assert(lines.drop_first() =~= Seq::<Seq<char>>::empty());
        assert(join_terminated(Seq::<Seq<char>>::empty()) == Seq::<char>::empty());
        assert(join_terminated(lines) == join_terminated(lines.drop_last()) + lines.last()
            + seq!['\n']);
        assert(join_terminated(lines) =~= lines[0] + seq!['\n']);
        assert(lines[0] + seq!['\n'] + join_terminated(lines.drop_first()) =~= lines[0]
            + seq!['\n']);
    } else {
        let head = lines.drop_last();
        lemma_join_terminated_front(head);
        assert(head[0] == lines[0]);
        assert(lines.drop_first().drop_last() =~= head.drop_first());
        assert(lines.drop_first().last() == lines.last());
        assert(join_terminated(lines) == join_terminated(head) + lines.last() + seq!['\n']);
        assert(join_terminated(lines) =~= lines[0] + seq!['\n'] + (join_terminated(
            head.drop_first(),
        ) + lines.last() + seq!['\n']));
    }
}

/// Splitting undoes joining: a list of newline-free lines, joined with a
/// newline after each, splits back into exactly that list.
pub proof fn lemma_split_join_terminated(lines: Seq<Seq<char>>)
    requires
        forall|k: int| 0 <= k < lines.len() ==> newline_free(#[trigger] lines[k]),
    ensures
        split_lines(join_terminated(lines)) == lines,
    decreases lines.len(),
{
    if lines.len() == 0 {
        assert(split_lines(join_terminated(lines)) =~= lines);
    } else {
        lemma_join_terminated_front(lines);
        lemma_split_acc_step(lines[0], join_terminated(lines.drop_first()), Seq::empty());
        lemma_split_join_terminated(lines.drop_first());
        assert(Seq::<char>::empty() + lines[0] =~= lines[0]);
        assert(seq![lines[0]] + lines.drop_first() =~= lines);
    }
}

} // verus!
