//! What is asked of the completion service and how its answers are read.
use vstd::prelude::*;
use crate::json::{str_in, json_str_at, opt_view};

verus! {

/// Comment text used when a completion carries no message content.
pub open spec fn no_suggestions() -> Seq<char> {
    "No suggestions found."@
}

/// The prompt that asks for a review of one file's diff.
pub open spec fn review_prompt_text(filename: Seq<char>, diff: Seq<char>) -> Seq<char> {
    "Review the following diff of `"@ + filename
        + "` for bugs, security issues and departures from best practices:\n\n"@ + diff
}

/// Builds the prompt that asks for a review of one file's diff.
pub fn review_prompt(filename: &str, diff: &str) -> (r: String)
    ensures
        r@ == review_prompt_text(filename@, diff@),
{
    let mut r = "Review the following diff of `".to_owned();
    r.append(filename);
    r.append("` for bugs, security issues and departures from best practices:\n\n");
    r.append(diff);
    r
}

/// The review comment for a completion whose first message content is
/// `content`: that content, or the placeholder where there is none.
pub open spec fn review_text_of(content: Option<Seq<char>>) -> Seq<char> {
    match content {
        Some(c) => c,
        None => no_suggestions(),
    }
}

/// The review comment for an extracted completion content.
pub fn review_text(content: Option<String>) -> (r: String)
    ensures
        r@ == review_text_of(opt_view(content)),
{
    match content {
        Some(c) => c,
        None => "No suggestions found.".to_owned(),
    }
}

/// The message content of the first choice of a completion response body.
pub open spec fn completion_text(body: Seq<char>) -> Option<Seq<char>> {
    json_str_at(body, "/choices/0/message/content"@)
}

/// The message content of the first choice of a completion response body,
/// `None` where the body lacks it or is not JSON.
pub fn completion_content(body: &str) -> (r: Option<String>)
    ensures
        opt_view(r) == completion_text(body@),
{
    str_in(body, "/choices/0/message/content")
}

/// The review comment carried by a completion response body: its message
/// content, or the placeholder where there is none.
pub fn review_from_response(body: &str) -> (r: String)
    ensures
        r@ == review_text_of(completion_text(body@)),
{
    review_text(completion_content(body))
}

/// Lines joined with a newline between each two.
pub open spec fn join_lines(s: Seq<Seq<char>>) -> Seq<char>
    decreases s.len(),
{
    if s.len() == 0 {
        Seq::empty()
    } else if s.len() == 1 {
        s[0]
    } else {
        join_lines(s.drop_last()) + seq!['\n'] + s.last()
    }
}

/// The views of a sequence of strings.
pub open spec fn string_views(s: Seq<String>) -> Seq<Seq<char>> {
    s.map_values(|x: String| x@)
}

/// The prompt that asks, for a set of changed files, for a commit message,
/// missing docstrings and test-case suggestions.
pub open spec fn commit_prompt_text(files: Seq<Seq<char>>) -> Seq<char> {
    "Analyze the following changed files:\n\n"@ + join_lines(files)
        + "\n\n1. Generate a meaningful Git commit message.\n2. Generate missing docstrings.\n3. Suggest relevant test cases."@
}

/// Builds the commit-analysis prompt for the names of the changed files.
pub fn commit_prompt(changed_files: &Vec<String>) -> (r: String)
    ensures
        r@ == commit_prompt_text(string_views(changed_files@)),
{
    let mut joined = String::new();
    let mut i: usize = 0;
    while i < changed_files.len()
        invariant
            i <= changed_files@.len(),
            joined@ == join_lines(string_views(changed_files@.subrange(0, i as int))),
        decreases changed_files@.len() - i,
    {
        proof {
            reveal_strlit("\n");
        }
        let ghost before = string_views(changed_files@.subrange(0, i as int));
        let ghost after = string_views(changed_files@.subrange(0, i as int + 1));
        assert(after.drop_last() =~= before);
        if i > 0 {
            joined.append("\n");
        }
        joined.append(changed_files[i].as_str());
        assert(joined@ =~= join_lines(after));
        i = i + 1;
    }
    assert(changed_files@.subrange(0, changed_files@.len() as int) =~= changed_files@);
    let mut r = "Analyze the following changed files:\n\n".to_owned();
    r.append(joined.as_str());
    r.append(
        "\n\n1. Generate a meaningful Git commit message.\n2. Generate missing docstrings.\n3. Suggest relevant test cases.",
    );
    r
}

/// The first index at or after `from` where a blank-line separator (two
/// newlines) starts, or the length of `s` where there is none.
pub open spec fn next_sep(s: Seq<char>, from: int) -> int
    decreases s.len() - from,
{
    if from < 0 || from + 1 >= s.len() {
        s.len() as int
    } else if s[from] == '\n' && s[from + 1] == '\n' {
        from
    } else {
        next_sep(s, from + 1)
    }
}

/// The separator search stays within the text and stops on a separator.
pub proof fn lemma_next_sep(s: Seq<char>, from: int)
    requires
        0 <= from <= s.len(),
    ensures
        from <= next_sep(s, from) <= s.len(),
        next_sep(s, from) < s.len() ==> next_sep(s, from) + 1 < s.len() && s[next_sep(s, from)]
            == '\n' && s[next_sep(s, from) + 1] == '\n',
    decreases s.len() - from,
{
    if from + 1 < s.len() && !(s[from] == '\n' && s[from + 1] == '\n') {
        lemma_next_sep(s, from + 1);
    }
}

/// A commit analysis: the commit message, and at most one docstring and one
/// test-case suggestion.
pub struct CommitAnalysis {
    pub commit_message: String,
    pub docstrings: Vec<String>,
    pub test_cases: Vec<String>,
}

/// The first three blank-line-separated segments of a completion text: the
/// commit message (the whole text where there is no separator), then a
/// docstring and a test case where those segments exist.
pub open spec fn commit_parts(s: Seq<char>) -> (Seq<char>, Seq<Seq<char>>, Seq<Seq<char>>) {
    let a = next_sep(s, 0);
    if a >= s.len() {
        (s, Seq::empty(), Seq::empty())
    } else {
        let b0 = a + 2;
        let b = next_sep(s, b0);
        if b >= s.len() {
            (s.subrange(0, a), seq![s.subrange(b0, s.len() as int)], Seq::empty())
        } else {
            let c0 = b + 2;
            (
                s.subrange(0, a),
                seq![s.subrange(b0, b)],
                seq![s.subrange(c0, next_sep(s, c0))],
            )
        }
    }
}

/// The view of a commit analysis, its lists taken as sequences of texts.
pub open spec fn analysis_view(c: CommitAnalysis) -> (Seq<char>, Seq<Seq<char>>, Seq<Seq<char>>) {
    (c.commit_message@, string_views(c.docstrings@), string_views(c.test_cases@))
}

/// Finds the next blank-line separator at or after `from`.
fn find_sep(s: &str, n: usize, from: usize) -> (r: usize)
    requires
        n == s@.len(),
        from <= n,
    ensures
        r as int == next_sep(s@, from as int),
{
    let mut i: usize = from;
    while i < n && i + 1 < n
        invariant
            from <= i <= n,
            n == s@.len(),
            next_sep(s@, i as int) == next_sep(s@, from as int),
        decreases n - i,
    {
        if s.get_char(i) == '\n' && s.get_char(i + 1) == '\n' {
            return i;
        }
        i = i + 1;
    }
    n
}

/// Splits a completion text on blank lines into commit message, docstrings
/// and test cases, by position alone.
pub fn parse_commit_analysis(text: &str) -> (r: CommitAnalysis)
    ensures
        analysis_view(r) == commit_parts(text@),
{
    let n = text.unicode_len();
    proof {
        lemma_next_sep(text@, 0);
    }
    let a = find_sep(text, n, 0);
    if a >= n {
        let r = CommitAnalysis {
            commit_message: text.to_owned(),
            docstrings: Vec::new(),
            test_cases: Vec::new(),
        };
        assert(string_views(r.docstrings@) =~= Seq::empty());
        assert(string_views(r.test_cases@) =~= Seq::empty());
        return r;
    }
    let commit_message = text.substring_char(0, a).to_owned();
    let b0 = a + 2;
    proof {
        lemma_next_sep(text@, b0 as int);
    }
    let b = find_sep(text, n, b0);
    let mut docstrings: Vec<String> = Vec::new();
    let mut test_cases: Vec<String> = Vec::new();
    if b >= n {
        docstrings.push(text.substring_char(b0, n).to_owned());
    } else {
        docstrings.push(text.substring_char(b0, b).to_owned());
        let c0 = b + 2;
        proof {
            lemma_next_sep(text@, c0 as int);
        }
        let c = find_sep(text, n, c0);
        test_cases.push(text.substring_char(c0, c).to_owned());
    }
    let r = CommitAnalysis { commit_message, docstrings, test_cases };
    assert(analysis_view(r) =~= commit_parts(text@));
    r
}

/// The completion text that a commit analysis is read from: the message
/// content, or the placeholder where there is none.
pub open spec fn feedback_text(content: Option<Seq<char>>) -> Seq<char> {
    match content {
        Some(c) => c,
        None => "No AI feedback available."@,
    }
}

/// The commit analysis of an extracted completion content; without content,
/// that of the placeholder text.
pub fn commit_analysis_of(content: Option<String>) -> (r: CommitAnalysis)
    ensures
        analysis_view(r) == commit_parts(feedback_text(opt_view(content))),
{
    match content {
        Some(c) => parse_commit_analysis(c.as_str()),
        None => parse_commit_analysis("No AI feedback available."),
    }
}

/// Reads a commit analysis from a completion response body; a body without
/// message content, or not JSON, is read as the placeholder text.
pub fn commit_analysis_from_response(body: &str) -> (r: CommitAnalysis)
    ensures
        analysis_view(r) == commit_parts(feedback_text(completion_text(body@))),
{
    commit_analysis_of(completion_content(body))
}

} // verus!
