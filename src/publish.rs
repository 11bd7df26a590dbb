//! Addresses on the source-hosting API and the comments posted there.
use vstd::prelude::*;
use crate::text::{decimal, decimal_text};

verus! {

/// A transport-level failure of an outbound call (connection, TLS, DNS).
pub struct UpstreamError {
    pub message: String,
}

/// What the comment-post call answered: its HTTP status and body.
pub struct PublishOutcome {
    pub status: u16,
    pub body: String,
}

impl PublishOutcome {
    /// Whether the comment was created (HTTP 201).
    pub fn is_created(&self) -> (r: bool)
        ensures
            r == (self.status == 201),
    {
        self.status == 201
    }
}

/// The address that lists the changed files of a pull request.
pub open spec fn files_url_text(repo: Seq<char>, pr_number: int) -> Seq<char> {
    "https://api.github.com/repos/"@ + repo + "/pulls/"@ + decimal_text(pr_number) + "/files"@
}

/// The address that takes new comments on a pull request.
pub open spec fn comments_url_text(repo: Seq<char>, pr_number: int) -> Seq<char> {
    "https://api.github.com/repos/"@ + repo + "/issues/"@ + decimal_text(pr_number)
        + "/comments"@
}

/// The posted text of a review comment on one file.
pub open spec fn comment_body_text(filename: Seq<char>, comment: Seq<char>) -> Seq<char> {
    "\u{1F50D} AI Code Review for `"@ + filename + "`:\n"@ + comment
}

/// Builds the address that lists the changed files of a pull request.
pub fn files_url(repo: &str, pr_number: i64) -> (r: String)
    ensures
        r@ == files_url_text(repo@, pr_number as int),
{
    let mut r = "https://api.github.com/repos/".to_owned();
    r.append(repo);
    r.append("/pulls/");
    r.append(decimal(pr_number).as_str());
    r.append("/files");
    r
}

/// Builds the address that takes new comments on a pull request.
pub fn comments_url(repo: &str, pr_number: i64) -> (r: String)
    ensures
        r@ == comments_url_text(repo@, pr_number as int),
{
    let mut r = "https://api.github.com/repos/".to_owned();
    r.append(repo);
    r.append("/issues/");
    r.append(decimal(pr_number).as_str());
    r.append("/comments");
    r
}

/// Formats the comment posted for one file's review.
pub fn comment_body(filename: &str, comment: &str) -> (r: String)
    ensures
        r@ == comment_body_text(filename@, comment@),
{
    let mut r = "\u{1F50D} AI Code Review for `".to_owned();
    r.append(filename);
    r.append("`:\n");
    r.append(comment);
    r
}

} // verus!
