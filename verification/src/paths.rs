//! Paths of source files, read as `std::path::Path` reads them.

use vstd::prelude::*;
use crate::text::{option_text, texts};

verus! {

/// The stem of the file that a path names: its last component without the
/// extension; `None` where the path names no file.
pub uninterp spec fn stem_of(path: Seq<char>) -> Option<Seq<char>>;

/// The extension of the file that a path names, without the dot; `None`
/// where there is none.
pub uninterp spec fn extension_of(path: Seq<char>) -> Option<Seq<char>>;

/// The last component of a path; `None` where the path ends in `..` or has
/// no component.
pub uninterp spec fn file_name_of(path: Seq<char>) -> Option<Seq<char>>;

/// Calls `Path::file_stem`.
#[verifier::external_body]
pub(crate) fn file_stem(path: &str) -> (stem: Option<String>)
    ensures
        option_text(stem) == stem_of(path@),
{
    std::path::Path::new(path).file_stem().map(|s| s.to_string_lossy().into_owned())
}

/// Calls `Path::extension`.
#[verifier::external_body]
pub(crate) fn extension(path: &str) -> (ext: Option<String>)
    ensures
        option_text(ext) == extension_of(path@),
{
    std::path::Path::new(path).extension().map(|s| s.to_string_lossy().into_owned())
}

/// Calls `Path::file_name`.
#[verifier::external_body]
pub(crate) fn file_name(path: &str) -> (name: Option<String>)
    ensures
        option_text(name) == file_name_of(path@),
{
    std::path::Path::new(path).file_name().map(|s| s.to_string_lossy().into_owned())
}

/// What a directory says of one of the things in it.
#[derive(Debug)]
pub struct DirEntry {
    pub path: String,
    pub is_file: bool,
}

/// The mathematical content of a `DirEntry`.
pub struct DirEntryView {
    pub path: Seq<char>,
    pub is_file: bool,
}

impl View for DirEntry {
    type V = DirEntryView;

    open spec fn view(&self) -> DirEntryView {
        DirEntryView { path: self.path@, is_file: self.is_file }
    }
}

/// The things of a directory, each by its content.
pub open spec fn dir_views(listing: Seq<DirEntry>) -> Seq<DirEntryView> {
    Seq::new(listing.len(), |i: int| listing[i]@)
}

/// Whether something in a directory is a Markdown file: a file whose
/// extension is `md`.
pub open spec fn is_markdown(entry: DirEntryView) -> bool {
    entry.is_file && extension_of(entry.path) == Some("md"@)
}

/// The paths of the Markdown files of a directory, in the order of the
/// directory.
pub open spec fn markdown_files(listing: Seq<DirEntryView>) -> Seq<Seq<char>>
    decreases listing.len(),
{
    if listing.len() == 0 {
        Seq::empty()
    } else if is_markdown(listing.last()) {
        markdown_files(listing.drop_last()).push(listing.last().path)
    } else {
        markdown_files(listing.drop_last())
    }
}

/// Whether a path has the extension `ext`.
pub fn has_extension(path: &str, ext: &str) -> (b: bool)
    ensures
        b == (extension_of(path@) == Some(ext@)),
{
    match extension(path) {
        Some(found) => {
            let wanted = ext.to_owned();
            found == wanted
        },
        None => false,
    }
}

/// Picks the Markdown files out of what a directory holds.
pub fn get_markdown_paths(listing: &Vec<DirEntry>) -> (paths: Vec<String>)
    ensures
        texts(paths@) == markdown_files(dir_views(listing@)),
{
    let mut paths: Vec<String> = Vec::new();
    let ghost all = dir_views(listing@);
    let mut i: usize = 0;
    assert(all.take(0) =~= Seq::<DirEntryView>::empty());
    assert(texts(paths@) =~= Seq::<Seq<char>>::empty());
    while i < listing.len()
        invariant
            0 <= i <= listing@.len(),
            all == dir_views(listing@),
            texts(paths@) == markdown_files(all.take(i as int)),
        decreases listing@.len() - i,
    {
        let ghost before = texts(paths@);
        assert(all.take(i + 1).drop_last() =~= all.take(i as int));
        assert(all.take(i + 1).last() == listing@[i as int]@);
        if listing[i].is_file && has_extension(listing[i].path.as_str(), "md") {
            paths.push(listing[i].path.clone());
            assert(texts(paths@) =~= before.push(listing@[i as int].path@));
        }
        i += 1;
    }
    assert(all.take(listing@.len() as int) =~= all);
    paths
}

} // verus!
