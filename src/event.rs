//! Deciding whether a webhook delivery asks for a review.
use vstd::prelude::*;
use crate::json::{str_in, i64_in, json_str_at, json_i64_at, opt_view};
use crate::text::same_text;

verus! {

/// What the review logic reads from a webhook delivery. Each field is `None`
/// where the delivery lacks it or holds a value of another JSON type.
pub struct WebhookEvent {
    pub action: Option<String>,
    pub pr_number: Option<i64>,
    pub repo: Option<String>,
}

/// The pull request that a delivery asks to review.
pub struct ActionTarget {
    pub repo: String,
    pub pr_number: i64,
}

/// The actions that start a review.
pub open spec fn is_review_action(action: Seq<char>) -> bool {
    action == "opened"@ || action == "synchronize"@
}

/// The target of a delivery: present exactly when its action starts a review
/// and it names both the pull request and the repository.
pub open spec fn target_of(e: WebhookEvent) -> Option<(Seq<char>, int)> {
    match (e.action, e.pr_number, e.repo) {
        (Some(a), Some(n), Some(r)) => if is_review_action(a@) {
            Some((r@, n as int))
        } else {
            None
        },
        _ => None,
    }
}

impl WebhookEvent {
    /// Reads the action, `pull_request.number` and `repository.full_name` of
    /// a delivery from its body text. Fields that are missing or of another
    /// type, and every field of a body that is not JSON, are taken as absent.
    pub fn parse(body: &str) -> (r: WebhookEvent)
        ensures
            opt_view(r.action) == json_str_at(body@, "/action"@),
            opt_view(r.repo) == json_str_at(body@, "/repository/full_name"@),
            (match r.pr_number {
                Some(n) => json_i64_at(body@, "/pull_request/number"@) == Some(n as int),
                None => json_i64_at(body@, "/pull_request/number"@) is None,
            }),
    {
        WebhookEvent {
            action: str_in(body, "/action"),
            pr_number: i64_in(body, "/pull_request/number"),
            repo: str_in(body, "/repository/full_name"),
        }
    }
}

/// Whether `action` starts a review.
pub fn is_review_action_exec(action: &str) -> (r: bool)
    ensures
        r == is_review_action(action@),
{
    same_text(action, "opened") || same_text(action, "synchronize")
}

/// The pull request to review for a delivery, if it asks for one. Missing or
/// mistyped fields give `None`, never an error.
pub fn classify(e: &WebhookEvent) -> (r: Option<ActionTarget>)
    ensures
        match (r, target_of(*e)) {
            (Some(t), Some((repo, n))) => t.repo@ == repo && t.pr_number as int == n,
            (None, None) => true,
            _ => false,
        },
{
    match (&e.action, e.pr_number, &e.repo) {
        (Some(a), Some(n), Some(repo)) => {
            if is_review_action_exec(a.as_str()) {
                Some(ActionTarget { repo: repo.clone(), pr_number: n })
            } else {
                None
            }
        },
        _ => None,
    }
}

} // verus!
