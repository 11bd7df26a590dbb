//! The review of one webhook delivery as a state machine: the caller performs
//! each outbound call that a step names and hands back what came of it.
use vstd::prelude::*;
use crate::event::{WebhookEvent, ActionTarget, classify, target_of};
use crate::files::{
    ChangedFile, FileDiff, files_to_review, parse_changed_files, reviewable, diff_views, entry_views,
    listing_of,
};
use crate::analysis::{
    review_prompt, review_prompt_text, review_from_response, review_text_of, completion_text,
};
use crate::publish::{
    UpstreamError, PublishOutcome, files_url, files_url_text, comments_url, comments_url_text,
    comment_body, comment_body_text,
};

verus! {

/// Where a review stands.
#[derive(PartialEq, Eq, Structural, Clone, Copy)]
pub enum Stage {
    /// Waiting for the changed-file listing.
    Fetching,
    /// Waiting for the completion for the current file.
    Analyzing,
    /// Waiting for the comment post for the current file.
    Publishing,
    /// Nothing more to do.
    Finished,
}

/// The next outbound call, or the end of the review.
pub enum Step {
    /// List the changed files at `url`.
    FetchFiles { url: String },
    /// Ask the completion service to review `filename` with `prompt`.
    Analyze { filename: String, prompt: String },
    /// Post `body` as a comment at `url`.
    Publish { url: String, body: String },
    /// The review is over.
    Done,
}

/// The model of a review: the files to review, the index of the current one,
/// and the stage.
pub struct ReviewState {
    pub files: Seq<(Seq<char>, Seq<char>)>,
    pub next: int,
    pub stage: Stage,
}

/// A review of one pull request in progress.
pub struct Review {
    pub target: ActionTarget,
    pub files: Vec<FileDiff>,
    pub next: usize,
    pub stage: Stage,
}

impl View for Review {
    type V = ReviewState;

    open spec fn view(&self) -> ReviewState {
        ReviewState { files: diff_views(self.files@), next: self.next as int, stage: self.stage }
    }
}

/// While a file is being analysed or published, it is one of the files.
pub open spec fn state_wf(s: ReviewState) -> bool {
    (s.stage == Stage::Analyzing || s.stage == Stage::Publishing) ==> 0 <= s.next < s.files.len()
}

impl Review {
    pub open spec fn wf(&self) -> bool {
        state_wf(self@)
    }
}

/// The state once the listing has been read: the first file is analysed, or
/// the review ends where there is none.
pub open spec fn after_listing(files: Seq<(Seq<char>, Seq<char>)>) -> ReviewState {
    ReviewState {
        files,
        next: 0,
        stage: if files.len() > 0 {
            Stage::Analyzing
        } else {
            Stage::Finished
        },
    }
}

/// Moving on to the file after the current one, or to the end.
pub open spec fn advance(s: ReviewState) -> ReviewState {
    ReviewState {
        files: s.files,
        next: s.next + 1,
        stage: if s.next + 1 < s.files.len() {
            Stage::Analyzing
        } else {
            Stage::Finished
        },
    }
}

/// The state after the reply to a file's call; `ok` is false on a transport
/// failure. Only a successful analysis leads to a post; after a post, failed
/// or not, the review moves on.
pub open spec fn after_reply(s: ReviewState, ok: bool) -> ReviewState {
    if s.stage == Stage::Analyzing && ok {
        ReviewState { files: s.files, next: s.next, stage: Stage::Publishing }
    } else if s.stage == Stage::Analyzing || s.stage == Stage::Publishing {
        advance(s)
    } else {
        s
    }
}

/// The calls made from `s` as replies come in: for each, whether it is a post
/// (else an analysis) and the index of its file.
pub open spec fn calls(s: ReviewState, replies: Seq<bool>) -> Seq<(bool, int)>
    decreases replies.len(),
{
    if replies.len() == 0 || !(s.stage == Stage::Analyzing || s.stage == Stage::Publishing) {
        Seq::empty()
    } else {
        seq![(s.stage == Stage::Publishing, s.next)] + calls(
            after_reply(s, replies[0]),
            replies.drop_first(),
        )
    }
}

/// The state reached from `s` after the given replies.
pub open spec fn run(s: ReviewState, replies: Seq<bool>) -> ReviewState
    decreases replies.len(),
{
    if replies.len() == 0 {
        s
    } else {
        run(after_reply(s, replies[0]), replies.drop_first())
    }
}

/// What a step must be in a state: the analysis of the current file while
/// analysing, the end once finished.
pub open spec fn step_for(s: ReviewState, step: Step) -> bool {
    if s.stage == Stage::Analyzing {
        match step {
            Step::Analyze { filename, prompt } => filename@ == s.files[s.next].0 && prompt@
                == review_prompt_text(s.files[s.next].0, s.files[s.next].1),
            _ => false,
        }
    } else if s.stage == Stage::Finished {
        step is Done
    } else {
        true
    }
}

/// Whether a step lists the changed files at `url`.
pub open spec fn fetches(step: Step, url: Seq<char>) -> bool {
    match step {
        Step::FetchFiles { url: u } => u@ == url,
        _ => false,
    }
}

/// Whether a step posts `body` as a comment at `url`.
pub open spec fn posts(step: Step, url: Seq<char>, body: Seq<char>) -> bool {
    match step {
        Step::Publish { url: u, body: b } => u@ == url && b@ == body,
        _ => false,
    }
}

impl Review {
    /// Starts the review that a delivery asks for. A delivery that asks for
    /// none gives no review and the step `Done`: no outbound call at all.
    pub fn begin(e: &WebhookEvent) -> (r: (Option<Review>, Step))
        ensures
            (match target_of(*e) {
                None => r.0 is None && r.1 is Done,
                Some((repo, n)) => match r.0 {
                    Some(rv) => rv.target.repo@ == repo && rv.target.pr_number as int == n
                        && rv.stage == Stage::Fetching && rv.wf() && fetches(
                        r.1,
                        files_url_text(repo, n),
                    ),
                    None => false,
                },
            }),
    {
        match classify(e) {
            Some(target) => {
                let url = files_url(target.repo.as_str(), target.pr_number);
                (
                    Some(Review { target, files: Vec::new(), next: 0, stage: Stage::Fetching }),
                    Step::FetchFiles { url },
                )
            },
            None => (None, Step::Done),
        }
    }

    /// The analysis of the current file, or `Done` once finished.
    fn current_step(&self) -> (r: Step)
        requires
            self.wf(),
            self.stage == Stage::Analyzing || self.stage == Stage::Finished,
        ensures
            step_for(self@, r),
    {
        if self.stage == Stage::Analyzing {
            let f = &self.files[self.next];
            Step::Analyze {
                filename: f.filename.clone(),
                prompt: review_prompt(f.filename.as_str(), f.patch.as_str()),
            }
        } else {
            Step::Done
        }
    }

    /// Takes the changed-file listing, or the failure to fetch it, which ends
    /// the review.
    pub fn on_listing(&mut self, listing: Result<Vec<ChangedFile>, UpstreamError>) -> (r: Step)
        requires
            old(self).stage == Stage::Fetching,
        ensures
            final(self).target == old(self).target,
            final(self).wf(),
            listing matches Ok(files) ==> final(self)@ == after_listing(
                reviewable(entry_views(files@)),
            ),
            listing is Err ==> final(self).stage == Stage::Finished,
            step_for(final(self)@, r),
    {
        match listing {
            Ok(files) => {
                self.files = files_to_review(&files);
                self.next = 0;
                self.stage = if self.files.len() > 0 {
                    Stage::Analyzing
                } else {
                    Stage::Finished
                };
            },
            Err(_) => {
                self.stage = Stage::Finished;
            },
        }
        self.current_step()
    }

    /// Takes the body of the listing response, read leniently: a body that is
    /// not a JSON array lists no file.
    pub fn on_listing_response(&mut self, reply: Result<String, UpstreamError>) -> (r: Step)
        requires
            old(self).stage == Stage::Fetching,
        ensures
            final(self).target == old(self).target,
            final(self).wf(),
            (match reply {
                Ok(b) => final(self)@ == after_listing(reviewable(listing_of(b@))),
                Err(_) => final(self).stage == Stage::Finished,
            }),
            step_for(final(self)@, r),
    {
        match reply {
            Ok(body) => self.on_listing(Ok(parse_changed_files(body.as_str()))),
            Err(e) => self.on_listing(Err(e)),
        }
    }

    /// Takes the review text for the current file, or the failure of its
    /// analysis. A review is posted on the pull request; a failure moves on to
    /// the next file.
    pub fn on_review(&mut self, review: Result<String, UpstreamError>) -> (r: Step)
        requires
            old(self).wf(),
            old(self).stage == Stage::Analyzing,
        ensures
            final(self).target == old(self).target,
            final(self).wf(),
            final(self)@ == after_reply(old(self)@, review is Ok),
            (match review {
                Ok(text) => posts(
                    r,
                    comments_url_text(old(self).target.repo@, old(self).target.pr_number as int),
                    comment_body_text(old(self)@.files[old(self).next as int].0, text@),
                ),
                Err(_) => true,
            }),
            step_for(final(self)@, r),
    {
        match review {
            Ok(text) => {
                self.stage = Stage::Publishing;
                let url = comments_url(self.target.repo.as_str(), self.target.pr_number);
                let body = comment_body(self.files[self.next].filename.as_str(), text.as_str());
                Step::Publish { url, body }
            },
            Err(_) => {
                self.move_on();
                self.current_step()
            },
        }
    }

    /// Takes the completion response body for the current file; one without
    /// message content is reviewed with the placeholder text.
    pub fn on_completion_response(&mut self, reply: Result<String, UpstreamError>) -> (r: Step)
        requires
            old(self).wf(),
            old(self).stage == Stage::Analyzing,
        ensures
            final(self).target == old(self).target,
            final(self).wf(),
            final(self)@ == after_reply(old(self)@, reply is Ok),
            (match reply {
                Ok(b) => posts(
                    r,
                    comments_url_text(old(self).target.repo@, old(self).target.pr_number as int),
                    comment_body_text(
                        old(self)@.files[old(self).next as int].0,
                        review_text_of(completion_text(b@)),
                    ),
                ),
                Err(_) => true,
            }),
            step_for(final(self)@, r),
    {
        match reply {
            Ok(body) => self.on_review(Ok(review_from_response(body.as_str()))),
            Err(e) => self.on_review(Err(e)),
        }
    }

    /// Takes the outcome of the current file's post. Whether it succeeded or
    /// not, the review moves on to the next file.
    pub fn on_published(&mut self, reply: Result<PublishOutcome, UpstreamError>) -> (r: Step)
        requires
            old(self).wf(),
            old(self).stage == Stage::Publishing,
        ensures
            final(self).target == old(self).target,
            final(self).wf(),
            final(self)@ == after_reply(old(self)@, reply is Ok),
            step_for(final(self)@, r),
    {
        self.move_on();
        self.current_step()
    }

    fn move_on(&mut self)
        requires
            old(self).wf(),
            old(self).stage == Stage::Analyzing || old(self).stage == Stage::Publishing,
        ensures
            final(self).target == old(self).target,
            final(self).files == old(self).files,
            final(self).wf(),
            final(self)@ == advance(old(self)@),
    {
        let n = self.files.len();
        assert(self@.files.len() == n);
        self.next = self.next + 1;
        self.stage = if self.next < n {
            Stage::Analyzing
        } else {
            Stage::Finished
        };
    }
}

} // verus!
