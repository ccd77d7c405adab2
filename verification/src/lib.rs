//! A bounded worker pool with task submission and graceful shutdown,
//! together with the small utilities that surround it: a line-search
//! routine, a fixed two-route HTTP responder, and a number-guessing game.
//!
//! The pool itself is modelled as a state machine over the shared task
//! queue: submission appends to the queue, workers claim tasks from its
//! front, and shutdown closes the queue and drains it.  The contracts
//! state exactly-once dispatch and first-in-first-out claiming.

pub mod example_deref_drop;
pub mod function_like;
pub mod guess_number;
pub mod pool;
pub mod respond;
pub mod text;

use vstd::prelude::*;

verus! {

/// The lines of `contents` that contain `query`, in order of appearance.
pub open spec fn matching_lines(contents: Seq<char>, query: Seq<char>) -> Seq<Seq<char>> {
    text::filter_matching(text::lines_of(contents), query)
}

/// The lines of `contents` that contain `query` once both are
/// case-folded, in order of appearance.
pub open spec fn ci_matching_lines(contents: Seq<char>, query: Seq<char>) -> Seq<Seq<char>> {
    text::ci_filter_matching(text::lines_of(contents), query)
}

/// What a search run was asked to do: the needle, the file to search,
/// and whether case matters.
pub struct QueryConfig {
    pub query: String,
    pub filename: String,
    pub case_sensitive: bool,
}

impl QueryConfig {
    /// Builds a configuration from the argument list: the needle is
    /// the second argument, the filename the third.  `case_insensitive`
    /// says whether the caller's environment asked to ignore case; the
    /// search is case-sensitive exactly when it did not.
    pub fn new(args: Vec<String>, case_insensitive: bool) -> (r: Result<QueryConfig, &'static str>)
        ensures
            args@.len() < 3 ==> (r matches Err(m) && m@ == "not enough arguments."@),
            args@.len() >= 3 ==> (r matches Ok(c) && c.query@ == args@[1]@
                && c.filename@ == args@[2]@ && c.case_sensitive == !case_insensitive),
    {
        if args.len() < 3 {
            return Err("not enough arguments.");
        }
        let query = args[1].clone();
        let filename = args[2].clone();
        Ok(QueryConfig { query, filename, case_sensitive: !case_insensitive })
    }
}

/// The compute half of a search run: picks the matching lines of the
/// already-read file contents, honouring the configured case policy.
/// The caller reads the file and prints the result.
pub fn run_search<'a>(config: &QueryConfig, contents: &'a str) -> (r: Vec<&'a str>)
    ensures
        config.case_sensitive ==> r.deep_view() == matching_lines(contents@, config.query@),
        !config.case_sensitive ==> r.deep_view() == ci_matching_lines(contents@, config.query@),
{
    if config.case_sensitive {
        search(config.query.as_str(), contents)
    } else {
        search_case_insensitive(config.query.as_str(), contents)
    }
}

/// The lines of `contents` that contain `query`, in order.
pub fn search<'a>(query: &str, contents: &'a str) -> (r: Vec<&'a str>)
    ensures
        r.deep_view() == matching_lines(contents@, query@),
{
    let lines = text::split_lines(contents);
    let mut results: Vec<&'a str> = Vec::new();
    let mut k: usize = 0;
    proof {
        assert(text::lines_of(contents@).take(0) =~= Seq::<Seq<char>>::empty());
        assert(results.deep_view() =~= text::filter_matching(
            text::lines_of(contents@).take(0),
            query@,
        ));
    }
    while k < lines.len()
        invariant
            lines.deep_view() == text::lines_of(contents@),
            lines@.len() == text::lines_of(contents@).len(),
            0 <= k <= lines@.len(),
            results.deep_view() == text::filter_matching(
                text::lines_of(contents@).take(k as int),
                query@,
            ),
        decreases lines@.len() - k,
    {
        let line = lines[k];
        let ghost lseq = text::lines_of(contents@);
        proof {
            assert(lines.deep_view()[k as int] == lines@[k as int]@);
            assert(lseq.take(k as int + 1) =~= lseq.take(k as int).push(lseq[k as int]));
            text::lemma_filter_matching_push(lseq.take(k as int), line@, query@);
        }
        let ghost prev = results.deep_view();
        if text::contains_str(line, query) {
            results.push(line);
            proof {
                assert(results.deep_view() =~= prev.push(line@));
            }
        }
        k += 1;
    }
    proof {
        assert(text::lines_of(contents@).take(lines@.len() as int) =~= text::lines_of(contents@));
    }
    results
}

/// The lines of `contents` that contain `query` when case is ignored:
/// both the line and the needle are case-folded before matching, and
/// the line is returned in its original case.
pub fn search_case_insensitive<'a>(query: &str, contents: &'a str) -> (r: Vec<&'a str>)
    ensures
        r.deep_view() == ci_matching_lines(contents@, query@),
{
    let q = text::lowercase(query);
    let lines = text::split_lines(contents);
    let mut results: Vec<&'a str> = Vec::new();
    let mut k: usize = 0;
    proof {
        assert(text::lines_of(contents@).take(0) =~= Seq::<Seq<char>>::empty());
        assert(results.deep_view() =~= text::ci_filter_matching(
            text::lines_of(contents@).take(0),
            query@,
        ));
    }
    while k < lines.len()
        invariant
            q@ == text::lower_of(query@),
            lines.deep_view() == text::lines_of(contents@),
            lines@.len() == text::lines_of(contents@).len(),
            0 <= k <= lines@.len(),
            results.deep_view() == text::ci_filter_matching(
                text::lines_of(contents@).take(k as int),
                query@,
            ),
        decreases lines@.len() - k,
    {
        let line = lines[k];
        let ghost lseq = text::lines_of(contents@);
        proof {
            assert(lines.deep_view()[k as int] == lines@[k as int]@);
            assert(lseq.take(k as int + 1) =~= lseq.take(k as int).push(lseq[k as int]));
            text::lemma_ci_filter_matching_push(lseq.take(k as int), line@, query@);
        }
        let lowered = text::lowercase(line);
        let ghost prev = results.deep_view();
        if text::contains_str(lowered.as_str(), q.as_str()) {
            results.push(line);
            proof {
                assert(results.deep_view() =~= prev.push(line@));
            }
        }
        k += 1;
    }
    proof {
        assert(text::lines_of(contents@).take(lines@.len() as int) =~= text::lines_of(contents@));
    }
    results
}

} // verus!
