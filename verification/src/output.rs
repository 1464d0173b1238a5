//! The files of a built site, by their paths below the output directory.

use vstd::prelude::*;
use vstd::string::*;
use crate::text::texts;

verus! {

/// A file to be written: `path` is relative to the output directory, with
/// `/` between its segments.
#[derive(Debug)]
pub struct OutputFile {
    pub path: String,
    pub content: String,
}

/// The mathematical content of an `OutputFile`.
pub struct OutputFileView {
    pub path: Seq<char>,
    pub content: Seq<char>,
}

impl View for OutputFile {
    type V = OutputFileView;

    open spec fn view(&self) -> OutputFileView {
        OutputFileView { path: self.path@, content: self.content@ }
    }
}

/// The files of a list, each by its content.
pub open spec fn file_views(files: Seq<OutputFile>) -> Seq<OutputFileView> {
    Seq::new(files.len(), |i: int| files[i]@)
}

/// The path of something named `name` that belongs to the page `page`.
pub open spec fn page_path_of(page: Seq<char>, name: Seq<char>) -> Seq<char> {
    page + "/"@ + name
}

/// The path of the index file of the directory `dir`.
pub open spec fn index_file(dir: Seq<char>) -> Seq<char> {
    dir + "/index.html"@
}

/// The path of the feed of the page `page`.
pub open spec fn feed_file(page: Seq<char>) -> Seq<char> {
    page + ".rss"@
}

/// The stub that sends a browser on to `target`, a path below the root of
/// the site, and shows `title` meanwhile.
pub open spec fn redirect_stub(title: Seq<char>, target: Seq<char>) -> Seq<char> {
    "<!DOCTYPE html>\n<html>\n  <head>\n    <title>"@ + title
        + "</title>\n    <link rel=\"canonical\" href=\"/"@ + target
        + "\"/>\n    <meta http-equiv=\"content-type\" content=\"text/html; charset=utf-8\"/>\n    <meta http-equiv=\"refresh\" content=\"0; url=/"@
        + target
        + "\"/>\n  </head>\n  <body>\n    If you aren't redirected, you can manually click this link:\n    <a href=\"/"@
        + target + "\">/"@ + target + "</a>.\n  </body>\n</html>"@
}

/// The stub that stands at one alias of the entry `stem` of the page `page`.
pub open spec fn alias_file(page: Seq<char>, stem: Seq<char>, title: Seq<char>, alias: Seq<char>) -> OutputFileView {
    OutputFileView {
        path: index_file(page_path_of(page, alias)),
        content: redirect_stub(title, page_path_of(page, stem)),
    }
}

/// The files of one entry: its page first, then one stub for each alias, in
/// the order of the aliases.
pub open spec fn entry_files(
    page: Seq<char>,
    stem: Seq<char>,
    title: Seq<char>,
    aliases: Seq<Seq<char>>,
    html: Seq<char>,
) -> Seq<OutputFileView> {
    seq![OutputFileView { path: index_file(page_path_of(page, stem)), content: html }] + Seq::new(
        aliases.len(),
        |i: int| alias_file(page, stem, title, aliases[i]),
    )
}

/// Writes the path of something named `name` that belongs to `page`.
pub fn page_path(page: &str, name: &str) -> (path: String)
    ensures
        path@ == page_path_of(page@, name@),
{
    let mut path = String::new();
    path.append(page);
    path.append("/");
    path.append(name);
    assert(path@ == page_path_of(page@, name@));
    path
}

/// Writes the path of the index file of the directory `dir`.
pub fn index_path(dir: &str) -> (path: String)
    ensures
        path@ == index_file(dir@),
{
    let mut path = String::new();
    path.append(dir);
    path.append("/index.html");
    assert(path@ == index_file(dir@));
    path
}

/// Writes the path of the feed of the page `page`.
pub fn feed_path(page: &str) -> (path: String)
    ensures
        path@ == feed_file(page@),
{
    let mut path = String::new();
    path.append(page);
    path.append(".rss");
    assert(path@ == feed_file(page@));
    path
}

/// Writes a redirect stub.
pub fn redirect_html(title: &str, target: &str) -> (html: String)
    ensures
        html@ == redirect_stub(title@, target@),
{
    let mut html = String::new();
    html.append("<!DOCTYPE html>\n<html>\n  <head>\n    <title>");
    html.append(title);
    html.append("</title>\n    <link rel=\"canonical\" href=\"/");
    html.append(target);
    html.append(
        "\"/>\n    <meta http-equiv=\"content-type\" content=\"text/html; charset=utf-8\"/>\n    <meta http-equiv=\"refresh\" content=\"0; url=/",
    );
    html.append(target);
    html.append(
        "\"/>\n  </head>\n  <body>\n    If you aren't redirected, you can manually click this link:\n    <a href=\"/",
    );
    html.append(target);
    html.append("\">/");
    html.append(target);
    html.append("</a>.\n  </body>\n</html>");
    assert(html@ == redirect_stub(title@, target@));
    html
}

/// Lists the files of one entry of the page `page`: the page of the entry,
/// which holds `html`, and a redirect stub for each alias.
pub fn entry_outputs(page: &str, stem: &str, title: &str, aliases: &Vec<String>, html: String) -> (files: Vec<OutputFile>)
    ensures
        file_views(files@) == entry_files(page@, stem@, title@, texts(aliases@), html@),
{
    let target = page_path(page, stem);
    let mut files: Vec<OutputFile> = Vec::new();
    files.push(OutputFile { path: index_path(target.as_str()), content: html });
    let ghost expected = entry_files(page@, stem@, title@, texts(aliases@), html@);
    let mut i: usize = 0;
    while i < aliases.len()
        invariant
            0 <= i <= aliases@.len(),
            target@ == page_path_of(page@, stem@),
            expected == entry_files(page@, stem@, title@, texts(aliases@), html@),
            files@.len() == i + 1,
            forall|j: int| 0 <= j < files@.len() ==> files@[j]@ == expected[j],
        decreases aliases@.len() - i,
    {
        let place = page_path(page, aliases[i].as_str());
        let stub = OutputFile {
            path: index_path(place.as_str()),
            content: redirect_html(title, target.as_str()),
        };
        assert(stub@ == alias_file(page@, stem@, title@, texts(aliases@)[i as int]));
        assert(expected[i + 1] == alias_file(page@, stem@, title@, texts(aliases@)[i as int]));
        files.push(stub);
        i += 1;
    }
    assert(file_views(files@) =~= expected);
    files
}

} // verus!
