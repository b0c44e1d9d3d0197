//! The run's configuration and the entries of the staging directory that a
//! run works on.
//!
//! Paths are compared as text, with `/` between components.

use crate::text::chars_of;
use vstd::prelude::*;
use vstd::string::*;

verus! {

/// A rule: the label that the classifier is expected to return, and the
/// directory that entries with that label are moved to.
#[derive(Debug, Clone, PartialEq, Eq)]
pub struct Classification {
    pub prompt: String,
    pub dir: String,
}

/// The rules, in the order in which they are tried, and what the classifier
/// client needs to reach the service.
#[derive(Debug, Clone, PartialEq, Eq)]
pub struct AppConfig {
    pub classifications: Vec<Classification>,
    pub endpoint: String,
    pub credential: String,
    pub model: String,
}

/// Whether an entry is a file or a directory.
#[derive(Debug, Clone, Copy, PartialEq, Eq, Structural)]
pub enum EntryKind {
    File,
    Directory,
}

/// A file or directory found directly under the staging directory.
#[derive(Debug, Clone, PartialEq, Eq)]
pub struct Entry {
    /// The entry's full path.
    pub path: String,
    /// The last component of the path.
    pub name: String,
    pub kind: EntryKind,
}

/// The configuration together with the entries that a run will process.
#[derive(Debug, Clone, PartialEq, Eq)]
pub struct LoadConfigResult {
    pub app_config: AppConfig,
    pub sub_files: Vec<Entry>,
}

/// The name of the bookkeeping file that macOS leaves in directories.
pub open spec fn ds_store() -> Seq<char> {
    ".DS_Store"@
}

/// `path` is `dir` itself or lies below it.
pub open spec fn path_under(path: Seq<char>, dir: Seq<char>) -> bool {
    ||| path == dir
    ||| {
        &&& 0 < dir.len() < path.len()
        &&& path.subrange(0, dir.len() as int) == dir
        &&& (dir.last() == '/' || path[dir.len() as int] == '/')
    }
}

/// `path` is at or below one of `dirs`.
pub open spec fn under_any(path: Seq<char>, dirs: Seq<String>) -> bool {
    exists|i: int| 0 <= i < dirs.len() && path_under(path, #[trigger] dirs[i]@)
}

/// An entry is processed unless it is the bookkeeping file or already lies at
/// or below a destination directory.
pub open spec fn eligible(entry: Entry, dirs: Seq<String>) -> bool {
    entry.name@ != ds_store() && !under_any(entry.path@, dirs)
}

/// [`eligible`] for fixed destination directories, as a predicate on entries.
pub open spec fn eligibility(dirs: Seq<String>) -> spec_fn(Entry) -> bool {
    |entry: Entry| eligible(entry, dirs)
}

/// The destination directories of the rules, in the rules' order.
pub open spec fn destination_dirs_of(rules: Seq<Classification>) -> Seq<String> {
    rules.map_values(|rule: Classification| rule.dir)
}

pub open spec fn is_directory() -> spec_fn(Entry) -> bool {
    |entry: Entry| entry.kind == EntryKind::Directory
}

pub open spec fn is_file() -> spec_fn(Entry) -> bool {
    |entry: Entry| entry.kind == EntryKind::File
}

/// The order in which entries are processed: the directories, then the files,
/// each group in the order given.
pub open spec fn in_processing_order(entries: Seq<Entry>) -> Seq<Entry> {
    entries.filter(is_directory()) + entries.filter(is_file())
}

impl Entry {
    /// A copy of this entry.
    pub fn duplicate(&self) -> (res: Entry)
        ensures
            res == *self,
    {
        Entry { path: self.path.clone(), name: self.name.clone(), kind: self.kind }
    }
}

/// Whether `path` is `dir` itself or lies below it.
pub fn is_under(path: &str, dir: &str) -> (res: bool)
    ensures
        res == path_under(path@, dir@),
{
    let path_chars = chars_of(path);
    let dir_chars = chars_of(dir);
    chars_under(&path_chars, &dir_chars)
}

fn chars_under(path: &Vec<char>, dir: &Vec<char>) -> (res: bool)
    ensures
        res == path_under(path@, dir@),
{
    let n = dir.len();
    if n > path.len() {
        assert(!path_under(path@, dir@)) by {
            if path@ == dir@ {
                assert(path@.len() == dir@.len());
            }
        }
        return false;
    }
    let mut i: usize = 0;
    while i < n
        invariant
            i <= n,
            n == dir.len(),
            n <= path.len(),
            forall|j: int| 0 <= j < i ==> path@[j] == dir@[j],
        decreases n - i,
    {
        if path[i] != dir[i] {
            assert(!path_under(path@, dir@)) by {
                if path@ == dir@ {
                } else if path@.subrange(0, dir@.len() as int) == dir@ {
                    assert(path@.subrange(0, dir@.len() as int)[i as int] == path@[i as int]);
                }
            }
            return false;
        }
        i = i + 1;
    }
    assert(path@.subrange(0, n as int) =~= dir@);
    if n == path.len() {
        assert(path@ =~= dir@);
        return true;
    }
    if n == 0 {
        return false;
    }
    dir[n - 1] == '/' || path[n] == '/'
}

fn under_any_of(path: &Vec<char>, dirs: &Vec<Vec<char>>, Ghost(texts): Ghost<Seq<String>>) -> (res:
    bool)
    requires
        dirs.len() == texts.len(),
        forall|i: int| 0 <= i < dirs.len() ==> dirs@[i]@ == (#[trigger] texts[i])@,
    ensures
        res == under_any(path@, texts),
{
    let mut i: usize = 0;
    while i < dirs.len()
        invariant
            i <= dirs.len(),
            dirs.len() == texts.len(),
            forall|k: int| 0 <= k < dirs.len() ==> dirs@[k]@ == (#[trigger] texts[k])@,
            forall|k: int| 0 <= k < i ==> !path_under(path@, #[trigger] texts[k]@),
        decreases dirs.len() - i,
    {
        if chars_under(path, &dirs[i]) {
            assert(path_under(path@, texts[i as int]@));
            return true;
        }
        i = i + 1;
    }
    false
}

/// The destination directories of the configured rules, in the rules' order.
pub fn destination_dirs(config: &AppConfig) -> (res: Vec<String>)
    ensures
        res@ == destination_dirs_of(config.classifications@),
{
    let mut out: Vec<String> = Vec::new();
    let mut i: usize = 0;
    while i < config.classifications.len()
        invariant
            i <= config.classifications.len(),
            out@ == destination_dirs_of(config.classifications@.take(i as int)),
        decreases config.classifications.len() - i,
    {
        out.push(config.classifications[i].dir.clone());
        i = i + 1;
        assert(out@ =~= destination_dirs_of(config.classifications@.take(i as int)));
    }
    assert(config.classifications@.take(i as int) =~= config.classifications@);
    out
}

/// The entries among `listed` that a run processes: all but the bookkeeping
/// file and those that already lie at or below a destination directory. The
/// order of `listed` is kept.
pub fn get_subfiles(listed: &Vec<Entry>, destination_dirs: &Vec<String>) -> (res: Vec<Entry>)
    ensures
        res@ == listed@.filter(eligibility(destination_dirs@)),
{
    let skipped = String::from_str(".DS_Store");
    let mut dirs: Vec<Vec<char>> = Vec::new();
    let mut d: usize = 0;
    while d < destination_dirs.len()
        invariant
            d <= destination_dirs.len(),
            dirs.len() == d,
            forall|i: int| 0 <= i < d ==> dirs@[i]@ == (#[trigger] destination_dirs@[i])@,
        decreases destination_dirs.len() - d,
    {
        dirs.push(chars_of(destination_dirs[d].as_str()));
        d = d + 1;
    }
    let mut out: Vec<Entry> = Vec::new();
    let mut i: usize = 0;
    assert(listed@.take(0) =~= Seq::<Entry>::empty());
    assert(out@ =~= listed@.take(0).filter(eligibility(destination_dirs@))) by {
        reveal(Seq::filter);
    }
    while i < listed.len()
        invariant
            i <= listed.len(),
            skipped@ == ds_store(),
            dirs.len() == destination_dirs.len(),
            forall|k: int|
                0 <= k < dirs.len() ==> dirs@[k]@ == (#[trigger] destination_dirs@[k])@,
            out@ == listed@.take(i as int).filter(eligibility(destination_dirs@)),
        decreases listed.len() - i,
    {
        let entry = &listed[i];
        let path_chars = chars_of(entry.path.as_str());
        let keep = !(entry.name == skipped) && !under_any_of(
            &path_chars,
            &dirs,
            Ghost(destination_dirs@),
        );
        proof {
            assert(keep == eligibility(destination_dirs@)(*entry));
            assert(listed@.take(i + 1) =~= listed@.take(i as int).push(*entry));
            listed@.take(i as int).lemma_filter_push(*entry, eligibility(destination_dirs@));
        }
        if keep {
            out.push(entry.duplicate());
        }
        i = i + 1;
    }
    assert(listed@.take(i as int) =~= listed@);
    out
}

/// Pairs a configuration with the entries of the staging directory that the
/// run will process, given everything that was found directly under it.
pub fn load_config(app_config: AppConfig, listed: &Vec<Entry>) -> (res: LoadConfigResult)
    ensures
        res.app_config == app_config,
        res.sub_files@ == listed@.filter(
            eligibility(destination_dirs_of(app_config.classifications@)),
        ),
{
    let dirs = destination_dirs(&app_config);
    let sub_files = get_subfiles(listed, &dirs);
    LoadConfigResult { app_config, sub_files }
}

fn select_kind(entries: &Vec<Entry>, kind: EntryKind, out: &mut Vec<Entry>)
    ensures
        final(out)@ == old(out)@ + entries@.filter(
            if kind == EntryKind::Directory {
                is_directory()
            } else {
                is_file()
            },
        ),
{
    let ghost wanted = if kind == EntryKind::Directory {
        is_directory()
    } else {
        is_file()
    };
    let mut i: usize = 0;
    assert(entries@.take(0) =~= Seq::<Entry>::empty());
    assert(out@ =~= old(out)@ + entries@.take(0).filter(wanted)) by {
        reveal(Seq::filter);
    }
    while i < entries.len()
        invariant
            i <= entries.len(),
            wanted == if kind == EntryKind::Directory {
                is_directory()
            } else {
                is_file()
            },
            out@ == old(out)@ + entries@.take(i as int).filter(wanted),
        decreases entries.len() - i,
    {
        let entry = &entries[i];
        proof {
            assert(entries@.take(i + 1) =~= entries@.take(i as int).push(*entry));
            entries@.take(i as int).lemma_filter_push(*entry, wanted);
        }
        if entry.kind == kind {
            out.push(entry.duplicate());
        }
        i = i + 1;
        assert(out@ =~= old(out)@ + entries@.take(i as int).filter(wanted));
    }
    assert(entries@.take(i as int) =~= entries@);
}

/// Puts the entries in the order in which they are processed: directories
/// first, then files, each group in the order given.
pub fn processing_order(entries: &Vec<Entry>) -> (res: Vec<Entry>)
    ensures
        res@ == in_processing_order(entries@),
{
    let mut out: Vec<Entry> = Vec::new();
    select_kind(entries, EntryKind::Directory, &mut out);
    select_kind(entries, EntryKind::File, &mut out);
    assert(out@ =~= in_processing_order(entries@));
    out
}

/// An entry that lies at or below a destination directory is not among the
/// entries that a run processes.
pub proof fn sorted_entries_are_excluded(listed: Seq<Entry>, dirs: Seq<String>, i: int)
    requires
        0 <= i < listed.len(),
        under_any(listed[i].path@, dirs),
    ensures
        !listed.filter(eligibility(dirs)).contains(listed[i]),
{
    let kept = listed.filter(eligibility(dirs));
    if kept.contains(listed[i]) {
        let j = choose|j: int| 0 <= j < kept.len() && kept[j] == listed[i];
        listed.lemma_filter_pred(eligibility(dirs), j);
        assert(eligibility(dirs)(kept[j]));
    }
}

/// Every other entry, the bookkeeping file apart, is among them.
pub proof fn unsorted_entries_are_kept(listed: Seq<Entry>, dirs: Seq<String>, i: int)
    requires
        0 <= i < listed.len(),
        listed[i].name@ != ds_store(),
        !under_any(listed[i].path@, dirs),
    ensures
        listed.filter(eligibility(dirs)).contains(listed[i]),
{
    assert(eligibility(dirs)(listed[i]));
    listed.lemma_filter_contains(eligibility(dirs), i);
}

/// Enumerating again what an enumeration kept changes nothing: a second run
/// over the same staging directory sees the same entries.
pub proof fn enumeration_is_idempotent(listed: Seq<Entry>, dirs: Seq<String>)
    ensures
        listed.filter(eligibility(dirs)).filter(eligibility(dirs)) == listed.filter(
            eligibility(dirs),
        ),
    decreases listed.len(),
{
    reveal(Seq::filter);
    let pred = eligibility(dirs);
    if listed.len() > 0 {
        enumeration_is_idempotent(listed.drop_last(), dirs);
        let front = listed.drop_last().filter(pred);
        if pred(listed.last()) {
            front.lemma_filter_push(listed.last(), pred);
        }
    }
}

} // verus!
