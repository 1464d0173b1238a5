//! Changes in the source tree: which of them concern the site.

use vstd::prelude::*;
use crate::paths::{extension_of, file_name, file_name_of, has_extension};
use crate::text::texts;

verus! {

/// What has happened to the paths of a change.
#[derive(Clone, Copy, Debug, PartialEq, Eq, Structural)]
pub enum Change {
    CreatedFile,
    ModifiedContent,
    RemovedFile,
    RemovedFolder,
    Other,
}

/// What a change is reported as.
#[derive(Clone, Copy, Debug, PartialEq, Eq, Structural)]
pub enum Notice {
    Created,
    Removed,
}

/// Whether a path concerns the site: the configuration file, by its name,
/// and every Markdown file, by its extension.
pub open spec fn is_watched(path: Seq<char>) -> bool {
    file_name_of(path) == Some("puggle.yaml"@) || extension_of(path) == Some("md"@)
}

/// Whether one of the paths concerns the site.
pub open spec fn any_watched(paths: Seq<Seq<char>>) -> bool {
    exists|i: int| 0 <= i < paths.len() && is_watched(#[trigger] paths[i])
}

/// What a change to `paths` is reported as: nothing unless one of the paths
/// concerns the site, and then the creation of a file and the removal of a
/// file or a folder.
pub open spec fn notice_of(change: Change, paths: Seq<Seq<char>>) -> Option<Notice> {
    if !any_watched(paths) {
        None
    } else {
        match change {
            Change::CreatedFile => Some(Notice::Created),
            Change::RemovedFile | Change::RemovedFolder => Some(Notice::Removed),
            _ => None,
        }
    }
}

/// Whether `path` concerns the site.
pub fn watches(path: &str) -> (b: bool)
    ensures
        b == is_watched(path@),
{
    let named = match file_name(path) {
        Some(name) => {
            let wanted = "puggle.yaml".to_owned();
            name == wanted
        },
        None => false,
    };
    named || has_extension(path, "md")
}

/// Decides what a change is reported as.
pub fn notice(change: Change, paths: &Vec<String>) -> (n: Option<Notice>)
    ensures
        n == notice_of(change, texts(paths@)),
{
    let mut i: usize = 0;
    let mut found = false;
    while i < paths.len() && !found
        invariant
            0 <= i <= paths@.len(),
            found ==> any_watched(texts(paths@)),
            !found ==> forall|j: int| 0 <= j < i ==> !is_watched(#[trigger] texts(paths@)[j]),
        decreases paths@.len() - i,
    {
        if watches(paths[i].as_str()) {
            assert(is_watched(texts(paths@)[i as int]));
            found = true;
        }
        i += 1;
    }
    if !found {
        return None;
    }
    match change {
        Change::CreatedFile => Some(Notice::Created),
        Change::RemovedFile => Some(Notice::Removed),
        Change::RemovedFolder => Some(Notice::Removed),
        _ => None,
    }
}

} // verus!
