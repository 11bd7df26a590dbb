//! The changed files of a pull request and which of them get a review.
use vstd::prelude::*;
use crate::json::{str_in, array_len_in, json_str_at, json_array_len, opt_view};
use crate::text::{decimal_u64, digits};

verus! {

/// One entry of the changed-file listing. `patch` is absent for binary or
/// rename-only changes.
pub struct ChangedFile {
    pub filename: Option<String>,
    pub patch: Option<String>,
}

/// The model of a listing entry: its name and its patch, where present.
pub type EntryView = (Option<Seq<char>>, Option<Seq<char>>);

impl View for ChangedFile {
    type V = EntryView;

    open spec fn view(&self) -> EntryView {
        (opt_view(self.filename), opt_view(self.patch))
    }
}

/// A file that is reviewed: its name and its unified diff.
pub struct FileDiff {
    pub filename: String,
    pub patch: String,
}

impl View for FileDiff {
    type V = (Seq<char>, Seq<char>);

    open spec fn view(&self) -> (Seq<char>, Seq<char>) {
        (self.filename@, self.patch@)
    }
}

/// A listing entry is reviewed when it has a name and a non-empty patch.
pub open spec fn is_reviewable(f: EntryView) -> bool {
    f.0 is Some && f.1 is Some && f.1->0.len() > 0
}

/// The reviewed files of a listing, in listing order.
pub open spec fn reviewable(s: Seq<EntryView>) -> Seq<(Seq<char>, Seq<char>)>
    decreases s.len(),
{
    if s.len() == 0 {
        Seq::empty()
    } else {
        let rest = reviewable(s.drop_last());
        let f = s.last();
        if is_reviewable(f) {
            rest.push((f.0->0, f.1->0))
        } else {
            rest
        }
    }
}

/// The views of a sequence of listing entries.
pub open spec fn entry_views(s: Seq<ChangedFile>) -> Seq<EntryView> {
    s.map_values(|f: ChangedFile| f@)
}

/// The views of a sequence of reviewed files.
pub open spec fn diff_views(s: Seq<FileDiff>) -> Seq<(Seq<char>, Seq<char>)> {
    s.map_values(|d: FileDiff| d@)
}

/// The number of entries of a listing that are reviewed.
pub open spec fn count_reviewable(s: Seq<EntryView>) -> nat
    decreases s.len(),
{
    if s.len() == 0 {
        0
    } else {
        count_reviewable(s.drop_last()) + if is_reviewable(s.last()) {
            1nat
        } else {
            0nat
        }
    }
}

/// The number of reviewed files is the number of entries that have a name and
/// a non-empty patch.
pub proof fn lemma_reviewable_len(s: Seq<EntryView>)
    ensures
        reviewable(s).len() == count_reviewable(s),
    decreases s.len(),
{
    if s.len() > 0 {
        lemma_reviewable_len(s.drop_last());
    }
}

/// The JSON pointer to a field of the `i`-th element of an array.
pub open spec fn entry_pointer(i: nat, field: Seq<char>) -> Seq<char> {
    seq!['/'] + digits(i) + seq!['/'] + field
}

/// The listing that a response body holds: one entry per element of the
/// array it is, with the strings at `filename` and `patch`; no entry where the
/// body is not a JSON array.
pub open spec fn listing_of(doc: Seq<char>) -> Seq<EntryView> {
    let n = match json_array_len(doc) {
        Some(n) => n,
        None => 0,
    };
    Seq::new(
        n,
        |i: int|
            (
                json_str_at(doc, entry_pointer(i as nat, "filename"@)),
                json_str_at(doc, entry_pointer(i as nat, "patch"@)),
            ),
    )
}

/// Selects the files to review: those with a name and a non-empty patch, in
/// listing order.
pub fn files_to_review(files: &Vec<ChangedFile>) -> (r: Vec<FileDiff>)
    ensures
        diff_views(r@) == reviewable(entry_views(files@)),
{
    let mut r: Vec<FileDiff> = Vec::new();
    let mut i: usize = 0;
    while i < files.len()
        invariant
            i <= files@.len(),
            diff_views(r@) == reviewable(entry_views(files@.subrange(0, i as int))),
        decreases files@.len() - i,
    {
        let ghost prefix = entry_views(files@.subrange(0, i as int + 1));
        assert(prefix.drop_last() =~= entry_views(files@.subrange(0, i as int)));
        let f = &files[i];
        match (&f.filename, &f.patch) {
            (Some(name), Some(patch)) => {
                if patch.unicode_len() > 0 {
                    r.push(FileDiff { filename: name.clone(), patch: patch.clone() });
                }
            },
            _ => {},
        }
        assert(diff_views(r@) =~= reviewable(prefix));
        i = i + 1;
    }
    assert(files@.subrange(0, files@.len() as int) =~= files@);
    r
}

/// Builds the JSON pointer to a field of the `i`-th element of an array.
fn entry_pointer_exec(i: usize, field: &str) -> (r: String)
    ensures
        r@ == entry_pointer(i as nat, field@),
{
    proof {
        reveal_strlit("/");
    }
    let mut r = "/".to_owned();
    r.append(decimal_u64(i as u64).as_str());
    r.append("/");
    r.append(field);
    assert(r@ =~= entry_pointer(i as nat, field@));
    r
}

/// Reads the changed-file listing from its response body. A body that is not
/// a JSON array gives no entries.
pub fn parse_changed_files(body: &str) -> (r: Vec<ChangedFile>)
    ensures
        entry_views(r@) == listing_of(body@),
{
    let n: usize = match array_len_in(body) {
        Some(n) => n,
        None => 0,
    };
    let mut r: Vec<ChangedFile> = Vec::new();
    let mut i: usize = 0;
    while i < n
        invariant
            i <= n,
            n == listing_of(body@).len(),
            entry_views(r@) == listing_of(body@).subrange(0, i as int),
        decreases n - i,
    {
        let fp = entry_pointer_exec(i, "filename");
        let pp = entry_pointer_exec(i, "patch");
        let filename = str_in(body, fp.as_str());
        let patch = str_in(body, pp.as_str());
        assert(opt_view(filename) == listing_of(body@)[i as int].0);
        assert(opt_view(patch) == listing_of(body@)[i as int].1);
        let ghost before = r@;
        let entry = ChangedFile { filename, patch };
        assert(entry@ == listing_of(body@)[i as int]);
        r.push(entry);
        assert(r@ == before.push(entry));
        assert(entry_views(r@) =~= entry_views(before).push(entry@));
        assert(entry_views(r@) =~= listing_of(body@).subrange(0, i as int + 1));
        i = i + 1;
    }
    assert(listing_of(body@).subrange(0, n as int) =~= listing_of(body@));
    r
}

} // verus!
