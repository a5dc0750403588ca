//! `odx clean`: removing caches and stray logs, and pruning old `odx run` sessions.
//!
//! The walk over the project happens in the caller, one directory at a time; what to
//! do with each entry is decided here, as is which run sessions are stale.
use vstd::prelude::*;
use crate::order::{sort_strings, sorted, strictly_sorted, views};
use crate::paths::path_components;
use crate::text::{owned, starts_with, starts_with_str, str_eq, strs};

verus! {

/// Directories never descended into: `.git`, `.venv`, and `.testing` (which holds the
/// session logs that the `log` extension would otherwise sweep away).
pub open spec fn is_skip_dir(name: Seq<char>) -> bool {
    name == ".git"@ || name == ".venv"@ || name == ".testing"@
}

/// Directories removed whole.
pub open spec fn is_junk_dir(name: Seq<char>) -> bool {
    name == "__pycache__"@
}

/// File extensions removed.
pub open spec fn is_junk_ext(ext: Seq<char>) -> bool {
    ext == "pyc"@ || ext == "pyo"@ || ext == "log"@
}

/// How many `odx run` sessions are kept.
pub const KEEP_RUN_SESSIONS: usize = 5;

/// `Path::extension` of a file name: what follows its last `.`, unless there is no
/// `.` or the only one starts the name.
pub open spec fn name_extension(name: Seq<char>) -> Option<Seq<char>> {
    match last_dot(name) {
        Some(i) => if i == 0 {
            None
        } else {
            Some(name.skip(i + 1))
        },
        None => None,
    }
}

/// The index of the last `.` of a name.
pub open spec fn last_dot(name: Seq<char>) -> Option<int>
    decreases name.len(),
{
    if name.len() == 0 {
        None
    } else if name.last() == '.' {
        Some(name.len() - 1)
    } else {
        last_dot(name.drop_last())
    }
}

/// The extension of the last component of a path; none for `..`.
pub open spec fn path_extension(path: Seq<char>) -> Option<Seq<char>> {
    let cs = path_components(path);
    if cs.len() == 0 || cs.last() == ".."@ {
        None
    } else {
        name_extension(cs.last())
    }
}

fn last_dot_exec(name: &[char]) -> (r: Option<usize>)
    ensures
        (match r {
            Some(i) => last_dot(name@) == Some(i as int),
            None => last_dot(name@) is None,
        }),
        r matches Some(i) ==> i < name@.len(),
{
    let mut k: usize = name.len();
    assert(name@.take(name@.len() as int) =~= name@);
    while k > 0
        invariant
            k <= name@.len(),
            last_dot(name@) == last_dot(name@.take(k as int)),
        decreases k,
    {
        assert(name@.take(k as int).drop_last() =~= name@.take(k - 1));
        if name[k - 1] == '.' {
            return Some(k - 1);
        }
        k = k - 1;
    }
    None
}

/// The file at `path` has an extension of the ones `odx clean` removes (`pyc`, `pyo`,
/// `log`).
pub fn has_junk_extension(path: &str) -> (r: bool)
    ensures
        r == (path_extension(path@) matches Some(e) && is_junk_ext(e)),
{
    let cs = crate::paths::components(path);
    let n = cs.len();
    if n == 0 || str_eq(cs[n - 1].as_str(), "..") {
        return false;
    }
    let name = crate::text::chars_of(cs[n - 1].as_str());
    match last_dot_exec(&name) {
        Some(i) => {
            if i == 0 {
                false
            } else {
                let len = name.len();
                let ext = crate::text::slice_chars(&name, i + 1, len);
                assert(ext@ =~= name@.skip(i + 1));
                let e = crate::text::string_of(&ext);
                str_eq(e.as_str(), "pyc") || str_eq(e.as_str(), "pyo") || str_eq(e.as_str(), "log")
            }
        },
        None => false,
    }
}

/// What `odx clean` does with one entry of a directory it walks.
#[derive(Debug, Clone, Copy, PartialEq, Eq, Structural)]
pub enum SweepAction {
    /// Leave it alone.
    Keep,
    /// Remove the directory and everything in it.
    RemoveDir,
    /// Walk into the directory.
    Descend,
    /// Remove the file.
    RemoveFile,
}

/// The kind of an entry, as `DirEntry::file_type` reports it (not following links).
#[derive(Debug, Clone, Copy, PartialEq, Eq, Structural)]
pub enum EntryKind {
    Symlink,
    Dir,
    File,
    Other,
}

/// Links are never followed (a link to an ancestor would recurse forever); skipped
/// directories are left alone; `__pycache__` goes whole; other directories are
/// walked; files with a junk extension go.
pub open spec fn sweep_action_of(kind: EntryKind, name: Seq<char>, path: Seq<char>) -> SweepAction {
    match kind {
        EntryKind::Symlink => SweepAction::Keep,
        EntryKind::Dir => if is_skip_dir(name) {
            SweepAction::Keep
        } else if is_junk_dir(name) {
            SweepAction::RemoveDir
        } else {
            SweepAction::Descend
        },
        EntryKind::File => if path_extension(path) matches Some(e) && is_junk_ext(e) {
            SweepAction::RemoveFile
        } else {
            SweepAction::Keep
        },
        EntryKind::Other => SweepAction::Keep,
    }
}

/// What to do with the entry `name` (at `path`) of a directory being swept.
pub fn sweep_action(kind: EntryKind, name: &str, path: &str) -> (r: SweepAction)
    ensures
        r == sweep_action_of(kind, name@, path@),
{
    match kind {
        EntryKind::Symlink => SweepAction::Keep,
        EntryKind::Dir => {
            if str_eq(name, ".git") || str_eq(name, ".venv") || str_eq(name, ".testing") {
                SweepAction::Keep
            } else if str_eq(name, "__pycache__") {
                SweepAction::RemoveDir
            } else {
                SweepAction::Descend
            }
        },
        EntryKind::File => {
            if has_junk_extension(path) {
                SweepAction::RemoveFile
            } else {
                SweepAction::Keep
            }
        },
        EntryKind::Other => SweepAction::Keep,
    }
}

/// What a sweep removed.
#[derive(Debug, Default, PartialEq, Eq)]
pub struct CleanStats {
    pub dirs: usize,
    pub files: usize,
}

impl CleanStats {
    pub fn new() -> (r: CleanStats)
        ensures
            r.dirs == 0,
            r.files == 0,
    {
        CleanStats { dirs: 0, files: 0 }
    }

    /// Counts one removal that succeeded.
    pub fn removed(&mut self, action: SweepAction)
        requires
            old(self).dirs < usize::MAX,
            old(self).files < usize::MAX,
        ensures
            final(self).dirs == old(self).dirs + if action == SweepAction::RemoveDir { 1usize } else { 0usize },
            final(self).files == old(self).files + if action == SweepAction::RemoveFile { 1usize } else { 0usize },
    {
        match action {
            SweepAction::RemoveDir => {
                self.dirs = self.dirs + 1;
            },
            SweepAction::RemoveFile => {
                self.files = self.files + 1;
            },
            _ => {},
        }
    }
}

/// The `odx run` sessions among the entries of `.testing/sessions`: directories whose
/// name starts with `run-` (`odx test` sessions, named by a bare timestamp, are left
/// alone).
pub open spec fn run_sessions(entries: Seq<(Seq<char>, bool)>) -> Seq<Seq<char>>
    decreases entries.len(),
{
    if entries.len() == 0 {
        Seq::empty()
    } else {
        run_sessions(entries.drop_last()) + if entries.last().1 && starts_with(entries.last().0, "run-"@) {
            seq![entries.last().0]
        } else {
            Seq::empty()
        }
    }
}

pub open spec fn entry_views(v: Seq<(String, bool)>) -> Seq<(Seq<char>, bool)> {
    v.map_values(|e: (String, bool)| (e.0@, e.1))
}

/// The run sessions to delete so that only the `keep` newest remain: the oldest ones,
/// oldest first (names are `run-<unix timestamp>`, so name order is age order).
pub fn stale_run_sessions(entries: &Vec<(String, bool)>, keep: usize) -> (r: Vec<String>)
    ensures
        run_sessions(entry_views(entries@)).len() <= keep ==> r@.len() == 0,
        run_sessions(entry_views(entries@)).len() > keep ==> {
            &&& r@.len() == run_sessions(entry_views(entries@)).len() - keep
            &&& exists|kept: Seq<Seq<char>>| {
                &&& #[trigger] sorted(strs(r@) + kept)
                &&& (strs(r@) + kept).to_multiset() == run_sessions(entry_views(entries@)).to_multiset()
            }
        },
{
    let ghost ev = entry_views(entries@);
    let mut runs: Vec<String> = Vec::new();
    let mut i: usize = 0;
    while i < entries.len()
        invariant
            i <= entries@.len(),
            ev == entry_views(entries@),
            strs(runs@) == run_sessions(ev.take(i as int)),
        decreases entries.len() - i,
    {
        assert(ev.take(i + 1).drop_last() =~= ev.take(i as int));
        assert(ev.take(i + 1).last() == ev[i as int]);
        let ghost r0 = strs(runs@);
        if entries[i].1 && starts_with_str(entries[i].0.as_str(), "run-") {
            runs.push(entries[i].0.clone());
            assert(strs(runs@) =~= r0 + seq![ev[i as int].0]);
        } else {
            assert(strs(runs@) =~= r0 + Seq::<Seq<char>>::empty());
        }
        i = i + 1;
    }
    assert(ev.take(ev.len() as int) =~= ev);
    let n = runs.len();
    if n <= keep {
        return Vec::new();
    }
    let ghost all = strs(runs@);
    let sorted_runs = sort_strings(runs);
    assert(views(sorted_runs@) == strs(sorted_runs@));
    let stale = n - keep;
    let mut r: Vec<String> = Vec::new();
    let mut k: usize = 0;
    while k < stale
        invariant
            k <= stale,
            stale <= sorted_runs@.len(),
            strs(r@) == strs(sorted_runs@).take(k as int),
        decreases stale - k,
    {
        let ghost r0 = strs(r@);
        r.push(sorted_runs[k].clone());
        assert(strs(r@) =~= r0.push(strs(sorted_runs@)[k as int]));
        assert(strs(sorted_runs@).take(k + 1) =~= strs(sorted_runs@).take(k as int).push(strs(sorted_runs@)[k as int]));
        k = k + 1;
    }
    proof {
        let s = strs(sorted_runs@);
        let kept = s.skip(stale as int);
        assert(strs(r@) + kept =~= s);
    }
    r
}

} // verus!
