//! Removing the versions that a fresh install has made obsolete.
//!
//! The host lists the working directory; this module picks, from that
//! listing, the directories to remove. The cleanup is a courtesy: what cannot
//! be read is passed over, and nothing here can fail.

use vstd::prelude::*;
use crate::release::version_prefix_text;
use crate::text::{joined, starts_with, texts};

verus! {

/// One child of the working directory, as the host found it.
#[derive(Debug, PartialEq, Eq)]
pub enum ListedEntry {
    /// An entry and its name.
    Named(String),
    /// An entry whose name is not valid Unicode.
    Unnamed,
    /// An entry that could not be read.
    Unreadable,
}

pub enum ListedEntryModel {
    Named(Seq<char>),
    Unnamed,
    Unreadable,
}

impl View for ListedEntry {
    type V = ListedEntryModel;

    open spec fn view(&self) -> ListedEntryModel {
        match self {
            ListedEntry::Named(name) => ListedEntryModel::Named(name@),
            ListedEntry::Unnamed => ListedEntryModel::Unnamed,
            ListedEntry::Unreadable => ListedEntryModel::Unreadable,
        }
    }
}

/// The contents of a listing.
pub open spec fn entry_models(entries: Seq<ListedEntry>) -> Seq<ListedEntryModel> {
    Seq::new(entries.len(), |i: int| entries[i]@)
}

/// A directory is stale when it is named like a version directory and is not
/// the current one.
pub open spec fn is_stale(name: Seq<char>, executable: Seq<char>, version_dir: Seq<char>) -> bool {
    name != version_dir && version_prefix_text(executable).is_prefix_of(name)
}

/// The path of a child of the working directory.
pub open spec fn child_path_text(name: Seq<char>) -> Seq<char> {
    "./"@ + name
}

/// The paths to remove: those of the stale directories among the entries
/// that have a name, in the order of the listing.
pub open spec fn stale_paths(
    entries: Seq<ListedEntryModel>,
    executable: Seq<char>,
    version_dir: Seq<char>,
) -> Seq<Seq<char>>
    decreases entries.len(),
{
    if entries.len() == 0 {
        Seq::empty()
    } else {
        let before = stale_paths(entries.drop_last(), executable, version_dir);
        match entries.last() {
            ListedEntryModel::Named(name) => if is_stale(name, executable, version_dir) {
                before.push(child_path_text(name))
            } else {
                before
            },
            _ => before,
        }
    }
}

/// Whether a directory of this name is stale once `version_dir` holds the
/// installed version of `executable`.
pub fn is_stale_name(name: &String, executable: &str, version_dir: &String) -> (stale: bool)
    ensures
        stale == is_stale(name@, executable@, version_dir@),
{
    if *name == *version_dir {
        return false;
    }
    let prefix = joined(executable, "-");
    starts_with(name.as_str(), prefix.as_str())
}

/// Picks the directories to remove after `version_dir` has been installed.
/// Entries without a readable name are passed over.
pub fn plan_cleanup(entries: &Vec<ListedEntry>, executable: &str, version_dir: &String) -> (paths:
    Vec<String>)
    ensures
        texts(paths@) == stale_paths(entry_models(entries@), executable@, version_dir@),
{
    let ghost models = entry_models(entries@);
    let mut paths: Vec<String> = Vec::new();
    let mut i: usize = 0;
    assert(models.take(0) =~= Seq::empty());
    while i < entries.len()
        invariant
            i <= entries.len(),
            models == entry_models(entries@),
            texts(paths@) == stale_paths(models.take(i as int), executable@, version_dir@),
        decreases entries.len() - i,
    {
        let ghost before = texts(paths@);
        assert(models[i as int] == entries[i as int]@);
        assert(models.take(i + 1).drop_last() =~= models.take(i as int));
        assert(models.take(i + 1).last() == models[i as int]);
        match &entries[i] {
            ListedEntry::Named(name) => {
                if is_stale_name(name, executable, version_dir) {
                    paths.push(joined("./", name.as_str()));
                    assert(texts(paths@) =~= before.push(child_path_text(name@)));
                }
            },
            _ => {},
        }
        i += 1;
    }
    assert(models.take(i as int) =~= models);
    paths
}

} // verus!
