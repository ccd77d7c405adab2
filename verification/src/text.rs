//! Lines and substring matching: the model behind the search routines.
//!
//! `lines_of` states how a text splits into lines — at each newline,
//! with a carriage return immediately before the newline stripped, and
//! with an optional final line ending — and `spec_contains` states when
//! one character sequence occurs inside another.  The executable
//! functions split a text into line slices and search for a needle,
//! each proved against those statements.

use vstd::prelude::*;
use vstd::string::StrSliceExecFns;

verus! {

/// A line with a trailing carriage return stripped: what remains of a
/// line when it was ended by `"\r\n"` rather than a bare `"\n"`.
pub open spec fn strip_cr(l: Seq<char>) -> Seq<char> {
    if l.len() > 0 && l.last() == '\r' {
        l.drop_last()
    } else {
        l
    }
}

/// The lines of `s` when `cur` holds the characters of the current line
/// read so far: each `'\n'` ends a line (a `'\r'` just before it is
/// stripped), and a non-empty final line needs no ending.
pub open spec fn lines_from(s: Seq<char>, cur: Seq<char>) -> Seq<Seq<char>>
    decreases s.len(),
{
    if s.len() == 0 {
        if cur.len() == 0 {
            Seq::empty()
        } else {
            seq![cur]
        }
    } else if s.first() == '\n' {
        seq![strip_cr(cur)] + lines_from(s.drop_first(), Seq::empty())
    } else {
        lines_from(s.drop_first(), cur.push(s.first()))
    }
}

/// The lines of a text, split as `str::lines` splits them.
pub open spec fn lines_of(s: Seq<char>) -> Seq<Seq<char>> {
    lines_from(s, Seq::empty())
}

/// `n` occurs in `h` starting at position `i`.
pub open spec fn contains_at(h: Seq<char>, n: Seq<char>, i: int) -> bool {
    0 <= i && i + n.len() <= h.len() && h.subrange(i, i + n.len()) == n
}

/// `n` occurs somewhere in `h`; an empty `n` occurs in every `h`.
pub open spec fn spec_contains(h: Seq<char>, n: Seq<char>) -> bool {
    exists|i: int| contains_at(h, n, i)
}

/// The case-folded image of a character sequence; `lowercase` below
/// relates it to `str::to_lowercase`.
pub uninterp spec fn lower_of(s: Seq<char>) -> Seq<char>;

/// Relies on str::to_lowercase: the lowercase conversion of a string,
/// a function of its characters alone.
#[verifier::external_body]
pub fn lowercase(s: &str) -> (r: String)
    ensures
        r@ == lower_of(s@),
{
    s.to_lowercase()
}

fn match_at(h: &str, n: &str, i: usize, hlen: usize, nlen: usize) -> (b: bool)
    requires
        hlen == h@.len(),
        nlen == n@.len(),
        i + nlen <= hlen,
    ensures
        b == contains_at(h@, n@, i as int),
{
    let mut j: usize = 0;
    while j < nlen
        invariant
            hlen == h@.len(),
            nlen == n@.len(),
            i + nlen <= hlen,
            0 <= j <= nlen,
            forall|m: int| 0 <= m < j ==> h@[i + m] == n@[m],
        decreases nlen - j,
    {
        if h.get_char(i + j) != n.get_char(j) {
            proof {
                assert(h@.subrange(i as int, i as int + n@.len() as int)[j as int]
                    == h@[i as int + j as int]);
            }
            return false;
        }
        j += 1;
    }
    proof {
        assert(h@.subrange(i as int, i as int + n@.len() as int) =~= n@);
    }
    true
}

/// Does `n` occur inside `h`?  Matches what `str::contains` reports for
/// a string needle.
pub fn contains_str(h: &str, n: &str) -> (b: bool)
    ensures
        b == spec_contains(h@, n@),
{
    let hlen = h.unicode_len();
    let nlen = n.unicode_len();
    if nlen == 0 {
        proof {
            assert(h@.subrange(0, 0) =~= n@);
            assert(contains_at(h@, n@, 0));
        }
        return true;
    }
    if nlen > hlen {
        proof {
            assert(forall|i: int| !contains_at(h@, n@, i));
        }
        return false;
    }
    let mut i: usize = 0;
    while i <= hlen - nlen
        invariant
            hlen == h@.len(),
            nlen == n@.len(),
            1 <= nlen <= hlen,
            0 <= i <= hlen - nlen + 1,
            forall|k: int| 0 <= k < i ==> !contains_at(h@, n@, k),
        decreases hlen - nlen + 1 - i,
    {
        if match_at(h, n, i, hlen, nlen) {
            return true;
        }
        i += 1;
    }
    proof {
        assert forall|k: int| !contains_at(h@, n@, k) by {
            if 0 <= k < i {
            } else if k >= i {
                assert(k + n@.len() > h@.len());
            }
        }
    }
    false
}

proof fn lemma_lines_from_step_nl(rest: Seq<char>, cur: Seq<char>)
    requires
        rest.len() > 0,
        rest.first() == '\n',
    ensures
        lines_from(rest, cur) == seq![strip_cr(cur)] + lines_from(rest.drop_first(), Seq::empty()),
{
}

proof fn lemma_lines_from_step_ch(rest: Seq<char>, cur: Seq<char>)
    requires
        rest.len() > 0,
        rest.first() != '\n',
    ensures
        lines_from(rest, cur) == lines_from(rest.drop_first(), cur.push(rest.first())),
{
}

/// Splits a text into its lines, as `str::lines` does: one slice per
/// line, carriage returns before newlines stripped, no empty final
/// line for a text that ends in a newline.
pub fn split_lines<'a>(contents: &'a str) -> (r: Vec<&'a str>)
    ensures
        r.deep_view() == lines_of(contents@),
{
    let n = contents.unicode_len();
    let mut results: Vec<&'a str> = Vec::new();
    let ghost mut done: Seq<Seq<char>> = Seq::empty();
    let mut i: usize = 0;
    let mut ls: usize = 0;
    proof {
        assert(contents@.skip(0) =~= contents@);
        assert(contents@.subrange(0, 0) =~= Seq::<char>::empty());
        assert(results.deep_view() =~= done);
    }
    while i < n
        invariant
            n == contents@.len(),
            0 <= ls <= i <= n,
            lines_of(contents@) == done + lines_from(
                contents@.skip(i as int),
                contents@.subrange(ls as int, i as int),
            ),
            results.deep_view() == done,
        decreases n - i,
    {
        let ghost cur = contents@.subrange(ls as int, i as int);
        let ghost rest = contents@.skip(i as int);
        proof {
            assert(rest.len() == n - i);
            assert(rest.first() == contents@[i as int]);
            assert(rest.drop_first() =~= contents@.skip(i as int + 1));
        }
        let c = contents.get_char(i);
        if c == '\n' {
            let line: &'a str = if i > ls && contents.get_char(i - 1) == '\r' {
                contents.substring_char(ls, i - 1)
            } else {
                contents.substring_char(ls, i)
            };
            proof {
                if i > ls && contents@[i as int - 1] == '\r' {
                    assert(cur.last() == contents@[i as int - 1]);
                    assert(cur.drop_last() =~= contents@.subrange(ls as int, i as int - 1));
                    assert(line@ == strip_cr(cur));
                } else {
                    if cur.len() > 0 {
                        assert(cur.last() == contents@[i as int - 1]);
                    }
                    assert(line@ == strip_cr(cur));
                }
                lemma_lines_from_step_nl(rest, cur);
            }
            results.push(line);
            proof {
                let prev = done;
                done = done.push(line@);
                assert(results.deep_view() =~= done);
                assert(prev + (seq![strip_cr(cur)] + lines_from(
                    rest.drop_first(),
                    Seq::empty(),
                )) =~= done + lines_from(rest.drop_first(), Seq::empty()));
                assert(contents@.subrange(i as int + 1, i as int + 1)
                    =~= Seq::<char>::empty());
            }
            i += 1;
            ls = i;
        } else {
            proof {
                lemma_lines_from_step_ch(rest, cur);
                assert(cur.push(contents@[i as int])
                    =~= contents@.subrange(ls as int, i as int + 1));
            }
            i += 1;
        }
    }
    if ls < n {
        let line: &'a str = contents.substring_char(ls, n);
        proof {
            let cur = contents@.subrange(ls as int, n as int);
            assert(contents@.skip(n as int).len() == 0);
            assert(lines_from(contents@.skip(n as int), cur) == seq![cur]);
        }
        results.push(line);
        proof {
            done = done.push(contents@.subrange(ls as int, n as int));
            assert(results.deep_view() =~= done);
            assert(lines_of(contents@) =~= done);
        }
    } else {
        proof {
            let cur = contents@.subrange(ls as int, n as int);
            assert(cur.len() == 0);
            assert(lines_from(contents@.skip(n as int), cur) == Seq::<Seq<char>>::empty());
            assert(lines_of(contents@) =~= done);
        }
    }
    results
}

/// The lines of `contents` that contain `query`, in order.
pub open spec fn filter_matching(ls: Seq<Seq<char>>, query: Seq<char>) -> Seq<Seq<char>> {
    ls.filter(|l: Seq<char>| spec_contains(l, query))
}

/// The lines of `contents` whose case-folded form contains the
/// case-folded `query`, in order.
pub open spec fn ci_filter_matching(ls: Seq<Seq<char>>, query: Seq<char>) -> Seq<Seq<char>> {
    ls.filter(|l: Seq<char>| spec_contains(lower_of(l), lower_of(query)))
}

pub proof fn lemma_filter_matching_push(ls: Seq<Seq<char>>, l: Seq<char>, query: Seq<char>)
    ensures
        filter_matching(ls.push(l), query) == if spec_contains(l, query) {
            filter_matching(ls, query).push(l)
        } else {
            filter_matching(ls, query)
        },
{
    reveal_with_fuel(Seq::filter, 2);
    assert(ls.push(l).drop_last() =~= ls);
    assert(ls.push(l).last() == l);
}

pub proof fn lemma_ci_filter_matching_push(ls: Seq<Seq<char>>, l: Seq<char>, query: Seq<char>)
    ensures
        ci_filter_matching(ls.push(l), query) == if spec_contains(lower_of(l), lower_of(query)) {
            ci_filter_matching(ls, query).push(l)
        } else {
            ci_filter_matching(ls, query)
        },
{
    reveal_with_fuel(Seq::filter, 2);
    assert(ls.push(l).drop_last() =~= ls);
    assert(ls.push(l).last() == l);
}

} // verus!
