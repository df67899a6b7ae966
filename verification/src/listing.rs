//! The listings that fill the fuzzy finder: the `jj` command that prints
//! each, and what the interface reads from its output.
use crate::model::Model;
use crate::shell_out::{
    JjCommand, JjCommandView, jj_bookmark_list_all_names_view,
    jj_bookmark_list_tracked_remote_view, jj_bookmark_list_untracked_remote_view,
    jj_file_list_view, jj_git_remote_list_view, jj_log_targets_view,
};
use crate::text::{
    char_is_white_space, chars_of, is_white_space, lines, sorted_unique, split_lines,
    strictly_sorted, trim, trim_start, trimmed,
};
use vstd::prelude::*;

verus! {

broadcast use vstd::string::group_string_axioms;

/// What a finder offers.
#[derive(Debug, Clone, Copy, PartialEq, Eq, Structural)]
pub enum Listing {
    /// The names of the local bookmarks.
    BookmarkNames,
    /// The tracked remote bookmarks, as `name@remote`.
    TrackedRemoteBookmarks,
    /// The untracked remote bookmarks, as `name@remote`.
    UntrackedRemoteBookmarks,
    /// The git remotes.
    GitRemotes,
    /// The change ids, commit ids and bookmarks of the revset's revisions.
    RevisionTargets,
    /// The files of the working copy.
    Files,
}

/// The trimmed lines of `ls` that are not empty, in order.
pub open spec fn nonblank_trimmed(ls: Seq<Seq<char>>) -> Seq<Seq<char>>
    decreases ls.len(),
{
    if ls.len() == 0 {
        Seq::empty()
    } else {
        let rest = nonblank_trimmed(ls.drop_last());
        let t = trim(ls.last());
        if t.len() > 0 {
            rest.push(t)
        } else {
            rest
        }
    }
}

/// Where the run of non-whitespace characters of `s` that starts at `i` ends.
pub open spec fn word_end(s: Seq<char>, i: int) -> int
    decreases s.len() - i,
{
    if 0 <= i < s.len() && !is_white_space(s[i]) {
        word_end(s, i + 1)
    } else {
        i
    }
}

/// The first whitespace-separated word of `line`, where it has one.
pub open spec fn first_word(line: Seq<char>) -> Option<Seq<char>> {
    let t = trim_start(line);
    if t.len() == 0 {
        None
    } else {
        Some(t.take(word_end(t, 0)))
    }
}

/// The first words of the lines of `ls` that have one, in order.
pub open spec fn first_words(ls: Seq<Seq<char>>) -> Seq<Seq<char>>
    decreases ls.len(),
{
    if ls.len() == 0 {
        Seq::empty()
    } else {
        let rest = first_words(ls.drop_last());
        match first_word(ls.last()) {
            Some(w) => rest.push(w),
            None => rest,
        }
    }
}

/// The command that prints `listing`.
pub open spec fn listing_command_view(model: Model, listing: Listing) -> JjCommandView {
    let g = model.global_args@;
    match listing {
        Listing::BookmarkNames => jj_bookmark_list_all_names_view(g),
        Listing::TrackedRemoteBookmarks => jj_bookmark_list_tracked_remote_view(g),
        Listing::UntrackedRemoteBookmarks => jj_bookmark_list_untracked_remote_view(g),
        Listing::GitRemotes => jj_git_remote_list_view(g),
        Listing::RevisionTargets => jj_log_targets_view(model.revset@, g),
        Listing::Files => jj_file_list_view(g),
    }
}

/// The trimmed lines of `output` that are not empty, in order.
pub fn nonblank_lines(output: &str) -> (r: Vec<String>)
    ensures
        r.deep_view() == nonblank_trimmed(lines(output@)),
{
    let ls = split_lines(output);
    let mut r: Vec<String> = Vec::new();
    for i in 0..ls.len()
        invariant
            ls.deep_view() == lines(output@),
            r.deep_view() == nonblank_trimmed(ls.deep_view().take(i as int)),
    {
        assert(ls.deep_view().take(i + 1).drop_last() =~= ls.deep_view().take(i as int));
        let t = trimmed(ls[i].as_str());
        if !t.as_str().is_empty() {
            r.push(t);
        }
        assert(r.deep_view() =~= nonblank_trimmed(ls.deep_view().take(i + 1)));
    }
    assert(ls.deep_view().take(ls.len() as int) =~= ls.deep_view());
    r
}

/// The first whitespace-separated word of `line`, where it has one.
pub fn line_first_word(line: &str) -> (w: Option<String>)
    ensures
        match first_word(line@) {
            Some(x) => w matches Some(s) && s@ == x,
            None => w is None,
        },
{
    let chars = chars_of(line);
    let len = chars.len();
    let mut lo: usize = 0;
    assert(line@.subrange(0, len as int) =~= line@);
    while lo < len && char_is_white_space(chars[lo])
        invariant
            chars@ == line@,
            len == line@.len(),
            lo <= len,
            trim_start(line@) == trim_start(line@.subrange(lo as int, len as int)),
        decreases len - lo,
    {
        assert(line@.subrange(lo as int, len as int).drop_first() =~= line@.subrange(lo + 1, len as int));
        lo = lo + 1;
    }
    let ghost t = line@.subrange(lo as int, len as int);
    assert(trim_start(line@) == t);
    if lo == len {
        return None;
    }
    let mut hi: usize = lo;
    while hi < len && !char_is_white_space(chars[hi])
        invariant
            chars@ == line@,
            len == line@.len(),
            lo <= hi <= len,
            t == line@.subrange(lo as int, len as int),
            word_end(t, 0) == word_end(t, hi - lo),
        decreases len - hi,
    {
        assert(t[hi - lo] == chars@[hi as int]);
        hi = hi + 1;
    }
    assert(word_end(t, hi - lo) == hi - lo);
    assert(t.take(hi - lo) =~= line@.subrange(lo as int, hi as int));
    Some(String::from_str(line.substring_char(lo, hi)))
}

/// The first words of the lines of `output` that have one, in order.
pub fn line_first_words(output: &str) -> (r: Vec<String>)
    ensures
        r.deep_view() == first_words(lines(output@)),
{
    let ls = split_lines(output);
    let mut r: Vec<String> = Vec::new();
    for i in 0..ls.len()
        invariant
            ls.deep_view() == lines(output@),
            r.deep_view() == first_words(ls.deep_view().take(i as int)),
    {
        assert(ls.deep_view().take(i + 1).drop_last() =~= ls.deep_view().take(i as int));
        match line_first_word(ls[i].as_str()) {
            Some(w) => r.push(w),
            None => {},
        }
        assert(r.deep_view() =~= first_words(ls.deep_view().take(i + 1)));
    }
    assert(ls.deep_view().take(ls.len() as int) =~= ls.deep_view());
    r
}

/// What the interface reads from the output of the command of `listing`:
/// for files, the trimmed non-empty lines in order; for remotes, the first
/// word of each line that has one; for the others, the distinct trimmed
/// non-empty lines, sorted.
pub fn parse_listing(listing: Listing, output: &str) -> (r: Vec<String>)
    ensures
        listing == Listing::Files ==> r.deep_view() == nonblank_trimmed(lines(output@)),
        listing == Listing::GitRemotes ==> r.deep_view() == first_words(lines(output@)),
        listing != Listing::Files && listing != Listing::GitRemotes ==> {
            &&& strictly_sorted(r.deep_view())
            &&& forall|x: Seq<char>|
                r.deep_view().contains(x) <==> nonblank_trimmed(lines(output@)).contains(x)
        },
{
    match listing {
        Listing::Files => nonblank_lines(output),
        Listing::GitRemotes => line_first_words(output),
        _ => sorted_unique(nonblank_lines(output)),
    }
}

impl Model {
    /// The command that prints `listing`.
    pub fn listing_command(&self, listing: Listing) -> (cmd: JjCommand)
        ensures
            cmd@ == listing_command_view(*self, listing),
    {
        match listing {
            Listing::BookmarkNames => JjCommand::jj_bookmark_list_all_names(self.global_args.clone()),
            Listing::TrackedRemoteBookmarks => JjCommand::jj_bookmark_list_tracked_remote(self.global_args.clone()),
            Listing::UntrackedRemoteBookmarks => JjCommand::jj_bookmark_list_untracked_remote(self.global_args.clone()),
            Listing::GitRemotes => JjCommand::jj_git_remote_list(self.global_args.clone()),
            Listing::RevisionTargets => JjCommand::jj_log_targets(self.revset.as_str(), self.global_args.clone()),
            Listing::Files => JjCommand::jj_file_list(self.global_args.clone()),
        }
    }
}

} // verus!
