//! The description of a site: its pages, and where templates and output live.

use vstd::prelude::*;

verus! {

/// One source of entries for a page.
#[derive(Debug)]
pub enum Entry {
    /// Every Markdown file directly in `source_dir`.
    Dir { source_dir: String, template_path: String },
    /// The single file `markdown_path`.
    File { markdown_path: String, template_path: String },
}

/// A page that lists entries: it has an index of its own and one page for
/// each entry.
#[derive(Debug)]
pub struct PageWithEntries {
    pub name: String,
    pub description: Option<String>,
    pub rss: bool,
    pub rss_name: Option<String>,
    pub template_path: String,
    pub entries: Vec<Entry>,
}

/// A page that is one template and nothing else.
#[derive(Debug)]
pub struct StandalonePage {
    pub name: String,
    pub template_path: String,
}

/// A page of the site.
#[derive(Debug)]
pub enum Page {
    WithEntries(PageWithEntries),
    Standalone(StandalonePage),
}

/// The whole site.
#[derive(Debug)]
pub struct Config {
    pub pages: Vec<Page>,
    pub templates_dir: String,
    pub dest_dir: String,
    pub base_url: String,
}

impl Entry {
    /// The template that wraps the entries of this source.
    pub open spec fn template(self) -> Seq<char> {
        match self {
            Entry::Dir { template_path, .. } => template_path@,
            Entry::File { template_path, .. } => template_path@,
        }
    }

    /// The template that wraps the entries of this source.
    pub fn get_template_path(&self) -> (path: &str)
        ensures
            path@ == self.template(),
    {
        match self {
            Entry::Dir { template_path, .. } => template_path.as_str(),
            Entry::File { template_path, .. } => template_path.as_str(),
        }
    }
}

impl Page {
    /// The name of the page: the first segment of the path of everything
    /// that belongs to it.
    pub open spec fn name(self) -> Seq<char> {
        match self {
            Page::WithEntries(page) => page.name@,
            Page::Standalone(page) => page.name@,
        }
    }

    /// The template of the page itself.
    pub open spec fn template(self) -> Seq<char> {
        match self {
            Page::WithEntries(page) => page.template_path@,
            Page::Standalone(page) => page.template_path@,
        }
    }

    /// The template of the page itself.
    pub fn get_template_path(&self) -> (path: &str)
        ensures
            path@ == self.template(),
    {
        match self {
            Page::WithEntries(page) => page.template_path.as_str(),
            Page::Standalone(page) => page.template_path.as_str(),
        }
    }

    /// The name of the page.
    pub fn get_name(&self) -> (name: &str)
        ensures
            name@ == self.name(),
    {
        match self {
            Page::WithEntries(page) => page.name.as_str(),
            Page::Standalone(page) => page.name.as_str(),
        }
    }
}

} // verus!
