//! The repository as one look at it found it, and the questions that the
//! rules ask of it.
//!
//! Whoever looks at the disk and asks the version-control tool writes down
//! what came back. The rules read only what was written down, so one record
//! always gives one answer. A path that nothing was written down for is not
//! on disk, not tracked, not ignored, no link, and cannot be read.

use vstd::prelude::*;
use vstd::string::*;
use vstd::utf8::{decode_utf8, valid_utf8};
use crate::model::{optional_text, FatalError, FatalErrorView};
use crate::text::{lines, lines_of};

verus! {

/// How one question to the version-control tool ended.
#[derive(Clone, Copy, Debug, PartialEq, Eq, Structural)]
pub enum QueryOutcome {
    /// The tool ran and said yes.
    Accepted,
    /// The tool ran and said no, or failed.
    Refused,
    /// The tool could not be run.
    Unavailable,
}

/// How listing the tracked files ended.
#[derive(Clone, Debug)]
pub enum Listing {
    /// The tool could not be run.
    Unavailable,
    /// The tool ran and failed.
    Refused,
    /// The tool ran and printed these bytes: one path on each line.
    Output(Vec<u8>),
}

/// What was found out about one path. The path is relative to the root of
/// the repository.
#[derive(Clone, Debug)]
pub struct PathFacts {
    pub path: String,
    /// The path leads to something, links followed.
    pub on_disk: bool,
    /// The path itself is a symbolic link.
    pub is_symlink: bool,
    /// Whether the tool has the path registered.
    pub tracked_by_git: QueryOutcome,
    /// Whether the tool's ignore rules match the path.
    pub ignored_by_git: QueryOutcome,
    /// The text of the file; none where it could not be read as text.
    pub content: Option<String>,
}

/// One look at the repository.
#[derive(Clone, Debug)]
pub struct Repository {
    pub listing: Listing,
    /// Of two entries for one path the first one counts.
    pub paths: Vec<PathFacts>,
}

/// The first of `entries` that is about `path`.
pub open spec fn find_facts(entries: Seq<PathFacts>, path: Seq<char>) -> Option<PathFacts>
    decreases entries.len(),
{
    if entries.len() == 0 {
        None
    } else if entries[0].path@ == path {
        Some(entries[0])
    } else {
        find_facts(entries.skip(1), path)
    }
}

/// The lines of `text` that are not empty.
pub open spec fn listed_paths(text: Seq<char>) -> Seq<Seq<char>> {
    lines_of(text).filter(|line: Seq<char>| line.len() > 0)
}

impl Repository {
    /// What was written down for `path`.
    pub open spec fn facts(&self, path: Seq<char>) -> Option<PathFacts> {
        find_facts(self.paths@, path)
    }

    /// `path` is on disk.
    pub open spec fn is_on_disk(&self, path: Seq<char>) -> bool {
        match self.facts(path) {
            Some(facts) => facts.on_disk,
            None => false,
        }
    }

    /// The tool has `path` registered. A question that the tool did not
    /// answer counts as a no.
    pub open spec fn is_tracked(&self, path: Seq<char>) -> bool {
        match self.facts(path) {
            Some(facts) => facts.tracked_by_git == QueryOutcome::Accepted,
            None => false,
        }
    }

    /// The tool's ignore rules match `path`. A question that the tool did not
    /// answer counts as a no.
    pub open spec fn is_ignored(&self, path: Seq<char>) -> bool {
        match self.facts(path) {
            Some(facts) => facts.ignored_by_git == QueryOutcome::Accepted,
            None => false,
        }
    }

    /// `path` is a symbolic link that leads nowhere.
    pub open spec fn is_broken(&self, path: Seq<char>) -> bool {
        match self.facts(path) {
            Some(facts) => facts.is_symlink && !facts.on_disk,
            None => false,
        }
    }

    /// The text of the file at `path`.
    pub open spec fn content(&self, path: Seq<char>) -> Option<Seq<char>> {
        match self.facts(path) {
            Some(facts) => optional_text(facts.content),
            None => None,
        }
    }

    /// The tracked files. That the tool could not be run, or printed what is
    /// no text, ends the run; a tool that ran and failed tracks nothing.
    pub open spec fn tracked_files(&self) -> Result<Seq<Seq<char>>, FatalErrorView> {
        match self.listing {
            Listing::Unavailable => Err(FatalErrorView::ListingUnavailable),
            Listing::Refused => Ok(Seq::empty()),
            Listing::Output(bytes) => if valid_utf8(bytes@) {
                Ok(listed_paths(decode_utf8(bytes@)))
            } else {
                Err(FatalErrorView::ListingNotText)
            },
        }
    }

    /// What was written down for `path`.
    pub fn lookup(&self, path: &str) -> (found: Option<&PathFacts>)
        ensures
            match found {
                Some(facts) => self.facts(path@) == Some(*facts),
                None => self.facts(path@) is None,
            },
    {
        let wanted = String::from_str(path);
        let mut i: usize = 0;
        assert(self.paths@.skip(0) =~= self.paths@);
        while i < self.paths.len()
            invariant
                i <= self.paths.len(),
                wanted@ == path@,
                self.facts(path@) == find_facts(self.paths@.skip(i as int), path@),
            decreases self.paths.len() - i,
        {
            assert(self.paths@.skip(i as int).skip(1) =~= self.paths@.skip(i + 1));
            if self.paths[i].path == wanted {
                return Some(&self.paths[i]);
            }
            i += 1;
        }
        None
    }

    /// Whether `path` is on disk.
    pub fn path_exists(&self, path: &str) -> (found: bool)
        ensures
            found == self.is_on_disk(path@),
    {
        match self.lookup(path) {
            Some(facts) => facts.on_disk,
            None => false,
        }
    }

    /// The text of the file at `path`; none where it could not be read.
    pub fn read(&self, path: &str) -> (text: Option<&String>)
        ensures
            match text {
                Some(t) => self.content(path@) == Some(t@),
                None => self.content(path@) is None,
            },
    {
        match self.lookup(path) {
            Some(facts) => match &facts.content {
                Some(text) => Some(text),
                None => None,
            },
            None => None,
        }
    }
}

/// Whether the version-control tool has `filepath` registered as a tracked
/// file. Any failure of the question counts as a no.
pub fn is_tracked_by_git(repo: &Repository, filepath: &str) -> (yes: bool)
    ensures
        yes == repo.is_tracked(filepath@),
{
    match repo.lookup(filepath) {
        Some(facts) => match facts.tracked_by_git {
            QueryOutcome::Accepted => true,
            QueryOutcome::Refused => false,
            QueryOutcome::Unavailable => false,
        },
        None => false,
    }
}

/// Whether the ignore rules of the version-control tool match `filepath`.
/// Any failure of the question counts as a no.
pub fn is_ignored_by_git(repo: &Repository, filepath: &str) -> (yes: bool)
    ensures
        yes == repo.is_ignored(filepath@),
{
    match repo.lookup(filepath) {
        Some(facts) => match facts.ignored_by_git {
            QueryOutcome::Accepted => true,
            QueryOutcome::Refused => false,
            QueryOutcome::Unavailable => false,
        },
        None => false,
    }
}

/// Whether `path` is a symbolic link whose target cannot be reached: the
/// path itself is a link, and following it leads to nothing.
pub fn is_broken_symlink(repo: &Repository, path: &str) -> (broken: bool)
    ensures
        broken == repo.is_broken(path@),
{
    match repo.lookup(path) {
        Some(facts) => facts.is_symlink && !facts.on_disk,
        None => false,
    }
}

/// Calls `str::from_utf8` of std: the text that `bytes` encode, or nothing
/// where they are no valid UTF-8.
#[verifier::external_body]
fn text_in(bytes: &[u8]) -> (text: Option<&str>)
    ensures
        text is Some <==> valid_utf8(bytes@),
        text matches Some(t) ==> t@ == decode_utf8(bytes@),
{
    std::str::from_utf8(bytes).ok()
}

/// The lines of `text` that are not empty.
pub fn paths_in(text: &str) -> (paths: Vec<String>)
    ensures
        paths.deep_view() == listed_paths(text@),
{
    let all = lines(text);
    let ghost keep = |line: Seq<char>| line.len() > 0;
    let mut paths: Vec<String> = Vec::new();
    let mut i: usize = 0;
    proof {
        reveal(Seq::filter);
        assert(all.deep_view().take(0).filter(keep) =~= Seq::<Seq<char>>::empty());
    }
    while i < all.len()
        invariant
            i <= all.len(),
            keep == |line: Seq<char>| line.len() > 0,
            paths.deep_view() == all.deep_view().take(i as int).filter(keep),
        decreases all.len() - i,
    {
        let ghost next = all.deep_view().take(i + 1);
        proof {
            reveal(Seq::filter);
            assert(next.drop_last() =~= all.deep_view().take(i as int));
            assert(next.last() == all@[i as int]@);
        }
        if !all[i].as_str().is_empty() {
            let ghost before = paths.deep_view();
            paths.push(all[i].clone());
            assert(paths.deep_view() =~= before.push(all@[i as int]@));
        }
        i += 1;
    }
    assert(all.deep_view().take(all.len() as int) =~= all.deep_view());
    paths
}

/// The texts of a list of paths, or the error that came in its place.
pub open spec fn texts_or_error(outcome: Result<Vec<String>, FatalError>) -> Result<
    Seq<Seq<char>>,
    FatalErrorView,
> {
    match outcome {
        Ok(texts) => Ok(texts.deep_view()),
        Err(error) => Err(error@),
    }
}

/// Every tracked file, relative to the root of the repository.
pub fn get_tracked_files(repo: &Repository) -> (files: Result<Vec<String>, FatalError>)
    ensures
        texts_or_error(files) == repo.tracked_files(),
{
    match &repo.listing {
        Listing::Unavailable => Err(FatalError::ListingUnavailable),
        Listing::Refused => {
            let none: Vec<String> = Vec::new();
            assert(none.deep_view() =~= Seq::<Seq<char>>::empty());
            Ok(none)
        },
        Listing::Output(bytes) => match text_in(bytes.as_slice()) {
            Some(text) => Ok(paths_in(text)),
            None => Err(FatalError::ListingNotText),
        },
    }
}

} // verus!
