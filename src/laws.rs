//! What holds of whole reviews, over the models of the other modules.
use vstd::prelude::*;
use crate::event::{WebhookEvent, is_review_action, target_of};
use crate::files::{EntryView, reviewable, count_reviewable, lemma_reviewable_len, listing_of};
use crate::json::json_array_len;
use crate::analysis::{next_sep, commit_parts};
use crate::pipeline::{ReviewState, Stage, after_listing, after_reply, calls, run, state_wf};

verus! {

/// A delivery whose action is neither "opened" nor "synchronize" has no
/// target, so the review never starts and no outbound call is made.
pub proof fn lemma_other_actions_ignored(e: WebhookEvent)
    requires
        e.action matches Some(a) ==> !is_review_action(a@),
    ensures
        target_of(e) is None,
{
}

/// A delivery without a pull-request number or repository name has no
/// target, so no outbound call is made.
pub proof fn lemma_incomplete_delivery_ignored(e: WebhookEvent)
    requires
        e.pr_number is None || e.repo is None,
    ensures
        target_of(e) is None,
{
}

/// The calls made from the analysis of file `i` when every analysis succeeds:
/// an analysis and a post for each file from `i` on, in order, and then the end.
proof fn lemma_calls_from(s: ReviewState, replies: Seq<bool>)
    requires
        state_wf(s),
        s.stage == Stage::Analyzing,
        replies.len() == 2 * (s.files.len() - s.next),
        forall|j: int| 0 <= j < replies.len() && j % 2 == 0 ==> #[trigger] replies[j],
    ensures
        calls(s, replies) =~= Seq::new(
            replies.len(),
            |j: int| (j % 2 == 1, s.next + j / 2),
        ),
        run(s, replies).stage == Stage::Finished,
    decreases replies.len(),
{
    let p = after_reply(s, replies[0]);
    let r1 = replies.drop_first();
    let q = after_reply(p, r1[0]);
    let r2 = r1.drop_first();
    assert(replies[0]);
    assert(p.stage == Stage::Publishing);
    if s.next + 1 < s.files.len() {
        assert forall|j: int| 0 <= j < r2.len() && j % 2 == 0 implies #[trigger] r2[j] by {
            assert(r2[j] == replies[j + 2]);
        }
        lemma_calls_from(q, r2);
    } else {
        assert(r2.len() == 0);
        assert(q.stage == Stage::Finished);
    }
    assert(run(s, replies) == run(p, r1));
    assert(run(p, r1) == run(q, r2));
    assert(calls(s, replies) == seq![(false, s.next)] + calls(p, r1));
    assert(calls(p, r1) == seq![(true, s.next)] + calls(q, r2));
}

/// From a listing whose entries hold `K` files with a name and a non-empty
/// patch, a review whose analyses all succeed makes exactly `2 * K` calls,
/// whether the posts succeed or fail: the analysis and then the post of each
/// such file, in listing order, and then it ends.
pub proof fn lemma_each_file_analysed_and_posted(files: Seq<EntryView>, replies: Seq<bool>)
    requires
        replies.len() == 2 * count_reviewable(files),
        forall|j: int| 0 <= j < replies.len() && j % 2 == 0 ==> #[trigger] replies[j],
    ensures
        calls(after_listing(reviewable(files)), replies) =~= Seq::new(
            2 * count_reviewable(files),
            |j: int| (j % 2 == 1, j / 2),
        ),
        run(after_listing(reviewable(files)), replies).stage == Stage::Finished,
{
    lemma_reviewable_len(files);
    let s = after_listing(reviewable(files));
    if replies.len() > 0 {
        lemma_calls_from(s, replies);
    }
}

/// The files analysed by a sequence of calls, in order.
pub open spec fn analysed(c: Seq<(bool, int)>) -> Seq<int>
    decreases c.len(),
{
    if c.len() == 0 {
        Seq::empty()
    } else {
        (if c[0].0 {
            Seq::empty()
        } else {
            seq![c[0].1]
        }) + analysed(c.drop_first())
    }
}

/// The first file not yet analysed in a state.
spec fn first_unanalysed(s: ReviewState) -> int {
    if s.stage == Stage::Publishing {
        s.next + 1
    } else {
        s.next
    }
}

proof fn lemma_analysed_from(s: ReviewState, replies: Seq<bool>)
    requires
        state_wf(s),
        s.stage == Stage::Analyzing || s.stage == Stage::Publishing,
        run(s, replies).stage == Stage::Finished,
    ensures
        analysed(calls(s, replies)) =~= Seq::new(
            (s.files.len() - first_unanalysed(s)) as nat,
            |j: int| first_unanalysed(s) + j,
        ),
    decreases replies.len(),
{
    assert(replies.len() > 0);
    let t = after_reply(s, replies[0]);
    let rest = replies.drop_first();
    let c = calls(s, replies);
    assert(c == seq![(s.stage == Stage::Publishing, s.next)] + calls(t, rest));
    assert(c.drop_first() =~= calls(t, rest));
    assert(run(s, replies) == run(t, rest));
    let h: Seq<int> = if s.stage == Stage::Publishing {
        Seq::empty()
    } else {
        seq![s.next]
    };
    assert(analysed(c) == h + analysed(calls(t, rest)));
    if t.stage == Stage::Finished {
        assert(calls(t, rest) =~= Seq::<(bool, int)>::empty());
        assert(analysed(calls(t, rest)) =~= Seq::<int>::empty());
    } else {
        lemma_analysed_from(t, rest);
        assert(first_unanalysed(t) == s.next + 1);
    }
}

/// Whatever the replies, failed or not, a review of a listing that runs to
/// its end analyses each file with a name and a non-empty patch exactly
/// once, in listing order.
pub proof fn lemma_each_file_analysed_once(files: Seq<EntryView>, replies: Seq<bool>)
    requires
        run(after_listing(reviewable(files)), replies).stage == Stage::Finished,
    ensures
        analysed(calls(after_listing(reviewable(files)), replies)) =~= Seq::new(
            count_reviewable(files),
            |j: int| j,
        ),
{
    lemma_reviewable_len(files);
    let s = after_listing(reviewable(files));
    if s.stage == Stage::Analyzing {
        lemma_analysed_from(s, replies);
    } else if replies.len() > 0 {
        assert(calls(s, replies) =~= Seq::<(bool, int)>::empty());
    }
}

/// A listing response body that is not a JSON array lists no file: the
/// review ends at once, without any analysis or post.
pub proof fn lemma_non_array_listing_makes_no_calls(doc: Seq<char>, replies: Seq<bool>)
    requires
        json_array_len(doc) is None,
    ensures
        listing_of(doc).len() == 0,
        after_listing(reviewable(listing_of(doc))).stage == Stage::Finished,
        calls(after_listing(reviewable(listing_of(doc))), replies) == Seq::<(bool, int)>::empty(),
{
    assert(reviewable(listing_of(doc)).len() == 0);
    if replies.len() > 0 {
        assert(calls(after_listing(reviewable(listing_of(doc))), replies) =~= Seq::<
            (bool, int),
        >::empty());
    }
}

/// A post of file `i` that fails leaves the review where a successful one
/// would: file `i + 1` is analysed next and, once analysed, posted.
pub proof fn lemma_failed_post_moves_on(s: ReviewState)
    requires
        state_wf(s),
        s.stage == Stage::Publishing,
        s.next + 1 < s.files.len(),
    ensures
        after_reply(s, false) == after_reply(s, true),
        calls(s, seq![false, true, true]) == seq![
            (true, s.next),
            (false, s.next + 1),
            (true, s.next + 1),
        ],
{
    let r = seq![false, true, true];
    let a = after_reply(s, false);
    let b = after_reply(a, true);
    let c = after_reply(b, true);
    assert(r.drop_first() =~= seq![true, true]);
    assert(seq![true, true].drop_first() =~= seq![true]);
    assert(seq![true].drop_first() =~= Seq::<bool>::empty());
    assert(calls(c, Seq::<bool>::empty()) == Seq::<(bool, int)>::empty());
    assert(calls(b, seq![true]) =~= seq![(true, s.next + 1)]);
    assert(calls(a, seq![true, true]) =~= seq![(false, s.next + 1), (true, s.next + 1)]);
    assert(calls(s, r) =~= seq![(true, s.next), (false, s.next + 1), (true, s.next + 1)]);
}

/// A separator search over text without a blank line finds none.
proof fn lemma_no_sep_found(s: Seq<char>, from: int)
    requires
        0 <= from <= s.len(),
        forall|i: int| 0 <= i < s.len() - 1 ==> !(#[trigger] s[i] == '\n' && s[i + 1] == '\n'),
    ensures
        next_sep(s, from) == s.len(),
    decreases s.len() - from,
{
    if from + 1 < s.len() {
        lemma_no_sep_found(s, from + 1);
    }
}

/// A completion text without a blank line is the commit message as a whole,
/// with no docstring and no test case.
pub proof fn lemma_no_blank_line_whole_message(s: Seq<char>)
    requires
        forall|i: int| 0 <= i < s.len() - 1 ==> !(#[trigger] s[i] == '\n' && s[i + 1] == '\n'),
    ensures
        commit_parts(s) == (s, Seq::<Seq<char>>::empty(), Seq::<Seq<char>>::empty()),
{
    lemma_no_sep_found(s, 0);
}

} // verus!
