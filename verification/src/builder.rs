//! The build of a site, as a conversation. The build asks for one thing at a
//! time (the files of a directory, the text of a file, the metadata in a
//! front matter, a rendered template, a write) and is told the answer;
//! every decision in between is taken here.

use vstd::prelude::*;
use crate::error::{Fault, MetadataFault, ParseFilesError};
use crate::feed::{feed_xml, generate_rss_item, item_views, rss_item_of, RssItem, RssItemView};
use crate::listing::{add_to_feed, copy_metadata, feed_views, feeds_with, index_with, FeedsView, IndexView, ListingIndex, PageFeed};
use crate::metadata::{bad_created_at, bad_updated_at, metadata_views, timestamp_valid, Metadata, MetadataView};
use crate::output::{entry_files, entry_outputs, feed_file, feed_path, file_views, index_file, index_path, page_path, page_path_of, OutputFile, OutputFileView};
use crate::paths::{dir_views, file_stem, get_markdown_paths, markdown_files, stem_of, DirEntry, DirEntryView};
use crate::plan::{lemma_plan_valid, plan, plan_of, Task};
use crate::rewrite::{partial_of, rewrite_markdown};
use crate::site::{Config, Entry, Page, PageWithEntries};
use crate::template::{wrap_in_template, wrapped_template};
use crate::text::{copy_option, option_text, texts};

verus! {

/// What the build is waiting for.
#[derive(Clone, Copy, Debug, PartialEq, Eq, Structural)]
pub enum Stage {
    /// Nothing yet: the build has not been started.
    Ready,
    /// The files of the directory of the current source.
    Listing,
    /// The text of the current file.
    Source,
    /// The metadata in the front matter of the current file.
    FrontMatter,
    /// The rendered page of the current entry.
    Rendered,
    /// Word that the files of the current entry are written.
    EntryWritten,
    /// The rendered index of the current page.
    ListingPage,
    /// Word that the index of the current page is written.
    ListingWritten,
    /// Word that the current feed is written.
    FeedWritten,
    /// Nothing any more: the site is built.
    Finished,
    /// Nothing any more: the build has failed.
    Failed,
}

/// What the build asks for.
#[derive(Debug)]
pub enum Request {
    /// What the directory at this path holds.
    ListDir(String),
    /// The text of the file at this path.
    ReadFile(String),
    /// The metadata that this front matter describes.
    DecodeFrontMatter(String),
    /// The template with the source `page`, rendered with the metadata of the
    /// current entry; and, where `feed` holds a source, that one too.
    Render { page: String, feed: Option<String> },
    /// These files, written below the output directory.
    Write(Vec<OutputFile>),
    /// The template at this path, rendered with the listing index.
    RenderListing(String),
    /// The feed in the second field, written to the path in the first field,
    /// below the output directory.
    WriteFeed(String, String),
    /// Nothing: the site is built.
    Finished,
    /// Nothing: the build has failed.
    Failed(ParseFilesError),
}

/// What the build is told.
#[derive(Debug)]
pub enum Reply {
    /// To start.
    Start,
    /// What the directory holds, in the order of the file system.
    Listing(Vec<DirEntry>),
    /// The text of the file, or the rendered index.
    Text(String),
    /// The metadata of the front matter, as far as it is read from input.
    Metadata(Metadata),
    /// The rendered page, and the rendered body for the feed if it was asked
    /// for.
    Rendered { page: String, feed: Option<String> },
    /// That the write is done.
    Done,
    /// That what was asked for could not be done.
    Failed(ParseFilesError),
}

/// The mathematical content of a `Request`.
pub enum RequestView {
    ListDir(Seq<char>),
    ReadFile(Seq<char>),
    DecodeFrontMatter(Seq<char>),
    Render { page: Seq<char>, feed: Option<Seq<char>> },
    Write(Seq<OutputFileView>),
    RenderListing(Seq<char>),
    WriteFeed(Seq<char>, Seq<char>),
    Finished,
    Failed(Fault),
}

/// The mathematical content of a `Reply`.
pub enum ReplyView {
    Start,
    Listing(Seq<DirEntryView>),
    Text(Seq<char>),
    Metadata(MetadataView),
    Rendered { page: Seq<char>, feed: Option<Seq<char>> },
    Done,
    Failed(Fault),
}

impl View for Request {
    type V = RequestView;

    open spec fn view(&self) -> RequestView {
        match self {
            Request::ListDir(dir) => RequestView::ListDir(dir@),
            Request::ReadFile(path) => RequestView::ReadFile(path@),
            Request::DecodeFrontMatter(text) => RequestView::DecodeFrontMatter(text@),
            Request::Render { page, feed } => RequestView::Render {
                page: page@,
                feed: option_text(*feed),
            },
            Request::Write(files) => RequestView::Write(file_views(files@)),
            Request::RenderListing(path) => RequestView::RenderListing(path@),
            Request::WriteFeed(path, xml) => RequestView::WriteFeed(path@, xml@),
            Request::Finished => RequestView::Finished,
            Request::Failed(error) => RequestView::Failed(error@),
        }
    }
}

impl View for Reply {
    type V = ReplyView;

    open spec fn view(&self) -> ReplyView {
        match self {
            Reply::Start => ReplyView::Start,
            Reply::Listing(listing) => ReplyView::Listing(dir_views(listing@)),
            Reply::Text(text) => ReplyView::Text(text@),
            Reply::Metadata(metadata) => ReplyView::Metadata(metadata@),
            Reply::Rendered { page, feed } => ReplyView::Rendered {
                page: page@,
                feed: option_text(*feed),
            },
            Reply::Done => ReplyView::Done,
            Reply::Failed(error) => ReplyView::Failed(error@),
        }
    }
}

/// The mathematical content of a `Build`.
pub struct BuildView {
    /// The pages of the site.
    pub pages: Seq<Page>,
    /// The base address of the site.
    pub base: Seq<char>,
    pub stage: Stage,
    /// The position in the plan of the task that is being worked on.
    pub task: int,
    /// The files of the current source.
    pub files: Seq<Seq<char>>,
    /// The position in `files` of the current file.
    pub file: int,
    /// The stem of the current file.
    pub stem: Seq<char>,
    /// The body of the current entry, as HTML.
    pub partial: Seq<char>,
    /// The metadata of the current entry.
    pub metadata: Option<MetadataView>,
    /// The metadata of the entries of the current page that are written.
    pub pending: Seq<MetadataView>,
    /// The feed items of the current source that no feed holds yet.
    pub items: Seq<RssItemView>,
    pub index: IndexView,
    pub feeds: FeedsView,
    /// The position in `feeds` of the feed that is written next.
    pub feed: int,
}

impl BuildView {
    /// The plan of the build.
    pub open spec fn tasks(self) -> Seq<Task> {
        plan_of(self.pages)
    }

    /// Whether the build is working on a source of entries.
    pub open spec fn on_entry(self) -> bool {
        0 <= self.task < self.tasks().len() && self.tasks()[self.task] is Entry
    }

    /// Whether the build is working on the index of a page.
    pub open spec fn on_listing(self) -> bool {
        0 <= self.task < self.tasks().len() && self.tasks()[self.task] is Listing
    }

    /// The page of the current source.
    pub open spec fn page(self) -> PageWithEntries {
        self.pages[self.tasks()[self.task]->Entry_page as int]->WithEntries_0
    }

    /// The current source.
    pub open spec fn entry(self) -> Entry {
        self.page().entries@[self.tasks()[self.task]->Entry_entry as int]
    }

    /// The path of the current file.
    pub open spec fn path(self) -> Seq<char> {
        self.files[self.file]
    }

    /// The page path of the current entry.
    pub open spec fn page_path(self) -> Seq<char> {
        page_path_of(self.page().name@, self.stem)
    }

    /// What holds of every build.
    pub open spec fn wf(self) -> bool {
        &&& self.pages.len() <= usize::MAX
        &&& 0 <= self.task <= self.tasks().len()
        &&& 0 <= self.feed <= self.feeds.len()
        &&& 0 <= self.file
        &&& match self.stage {
            Stage::Ready | Stage::Finished | Stage::Failed => true,
            Stage::Listing => self.on_entry(),
            Stage::Source | Stage::FrontMatter => self.on_entry() && self.file < self.files.len(),
            Stage::Rendered | Stage::EntryWritten => self.on_entry() && self.file
                < self.files.len() && self.metadata is Some,
            Stage::ListingPage | Stage::ListingWritten => self.on_listing(),
            Stage::FeedWritten => self.task == self.tasks().len() && self.feed < self.feeds.len(),
        }
    }

    /// The build before it is started.
    pub open spec fn start(config: Config) -> BuildView {
        BuildView {
            pages: config.pages@,
            base: config.base_url@,
            stage: Stage::Ready,
            task: 0,
            files: Seq::empty(),
            file: 0,
            stem: Seq::empty(),
            partial: Seq::empty(),
            metadata: None,
            pending: Seq::empty(),
            items: Seq::empty(),
            index: Seq::empty(),
            feeds: Seq::empty(),
            feed: 0,
        }
    }

    /// The build stops with `fault`.
    pub open spec fn failed(self, fault: Fault) -> (BuildView, RequestView) {
        (BuildView { stage: Stage::Failed, ..self }, RequestView::Failed(fault))
    }

    /// The build turns to the current file: it needs the stem of the file,
    /// and asks for its text.
    pub open spec fn start_file(self) -> (BuildView, RequestView) {
        match stem_of(self.path()) {
            None => self.failed(Fault::FileName),
            Some(stem) => (
                BuildView { stage: Stage::Source, stem, ..self },
                RequestView::ReadFile(self.path()),
            ),
        }
    }

    /// The build turns to the current task. A source of entries that is the
    /// first of its page starts the page afresh. A directory is asked for,
    /// a single file is taken up at once. After the last task the feeds are
    /// written, one after the other, and then the site is built.
    pub open spec fn dispatch(self) -> (BuildView, RequestView) {
        if self.task < self.tasks().len() {
            match self.tasks()[self.task] {
                Task::Listing { page } => (
                    BuildView { stage: Stage::ListingPage, ..self },
                    RequestView::RenderListing(self.pages[page as int].template()),
                ),
                Task::Entry { page, entry } => {
                    let fresh = if entry == 0 {
                        BuildView { pending: Seq::empty(), items: Seq::empty(), ..self }
                    } else {
                        self
                    };
                    match self.entry() {
                        Entry::Dir { source_dir, .. } => (
                            BuildView { stage: Stage::Listing, ..fresh },
                            RequestView::ListDir(source_dir@),
                        ),
                        Entry::File { markdown_path, .. } => (BuildView {
                            files: seq![markdown_path@],
                            file: 0,
                            ..fresh
                        }).start_file(),
                    }
                },
            }
        } else if self.feed < self.feeds.len() {
            (
                BuildView { stage: Stage::FeedWritten, ..self },
                RequestView::WriteFeed(
                    feed_file(self.feeds[self.feed].0),
                    feed_xml(self.feeds[self.feed].1, self.feeds[self.feed].0, self.base),
                ),
            )
        } else {
            (BuildView { stage: Stage::Finished, ..self }, RequestView::Finished)
        }
    }

    /// The current source is done: the listing index takes the entries of
    /// the page so far, and the feed of a page that has one takes the items
    /// of the source.
    pub open spec fn close_entry(self) -> BuildView {
        let page = self.page();
        BuildView {
            index: index_with(self.index, page.name@, self.pending),
            feeds: if page.rss {
                feeds_with(
                    self.feeds,
                    page.name@,
                    option_text(page.rss_name),
                    option_text(page.description),
                    self.items,
                )
            } else {
                self.feeds
            },
            items: if page.rss {
                Seq::empty()
            } else {
                self.items
            },
            ..self
        }
    }

    /// Closing a source takes no feed away.
    pub proof fn feeds_grow(self)
        ensures
            self.close_entry().feeds.len() >= self.feeds.len(),
    {
        crate::listing::names_of(self.feeds).index_of_first_ensures(self.page().name@);
    }

    /// The build goes on with the current source: with its next file, or,
    /// when it has none left, with the next task.
    pub open spec fn work(self) -> (BuildView, RequestView) {
        if self.file < self.files.len() {
            self.start_file()
        } else {
            (BuildView { task: self.task + 1, ..self.close_entry() }).dispatch()
        }
    }

    /// The text of the current file has come: it is read as Markdown and
    /// rewritten, and the front matter that it must have is handed out.
    pub open spec fn source_read(self, markdown: Seq<char>) -> (BuildView, RequestView) {
        match partial_of(markdown, self.base, self.page_path()) {
            None => self.failed(Fault::Address(self.page_path())),
            Some(partial) => match partial.front_matter {
                None => self.failed(Fault::MetadataMissing(self.path())),
                Some(front_matter) => (
                    BuildView { stage: Stage::FrontMatter, partial: partial.html, ..self },
                    RequestView::DecodeFrontMatter(front_matter),
                ),
            },
        }
    }

    /// The metadata of the current entry has come: it is completed, and
    /// the page of the entry is asked for, with the body for the feed where
    /// the page has one.
    pub open spec fn decoded(self, metadata: MetadataView) -> (BuildView, RequestView) {
        if !timestamp_valid(metadata.created_at) {
            self.failed(Fault::Metadata(MetadataFault::Deserialize(self.path(), bad_created_at())))
        } else if !timestamp_valid(metadata.updated_at) {
            self.failed(Fault::Metadata(MetadataFault::Deserialize(self.path(), bad_updated_at())))
        } else {
            (
                BuildView {
                    stage: Stage::Rendered,
                    metadata: Some(metadata.completed(self.stem)),
                    ..self
                },
                RequestView::Render {
                    page: wrapped_template(self.partial, self.entry().template()),
                    feed: if self.page().rss {
                        Some(self.partial)
                    } else {
                        None
                    },
                },
            )
        }
    }

    /// The files of the current entry.
    pub open spec fn outputs(self, html: Seq<char>) -> Seq<OutputFileView> {
        let metadata = self.metadata->0;
        entry_files(
            self.page().name@,
            self.stem,
            metadata.title,
            match metadata.aliases {
                Some(aliases) => aliases,
                None => Seq::empty(),
            },
            html,
        )
    }

    /// The page of the current entry has come: where the page has a feed,
    /// the item of the entry is made, and the files of the entry are handed
    /// out to be written.
    pub open spec fn rendered(self, html: Seq<char>, feed: Option<Seq<char>>) -> (
        BuildView,
        RequestView,
    ) {
        if self.page().rss {
            match feed {
                None => self.failed(Fault::OutOfTurn),
                Some(content) => match rss_item_of(self.base, self.metadata->0, content) {
                    Err(fault) => self.failed(fault),
                    Ok(item) => (
                        BuildView {
                            stage: Stage::EntryWritten,
                            items: self.items.push(item),
                            ..self
                        },
                        RequestView::Write(self.outputs(html)),
                    ),
                },
            }
        } else {
            (BuildView { stage: Stage::EntryWritten, ..self }, RequestView::Write(self.outputs(html)))
        }
    }

    /// The files of the current entry are written: the entry joins the
    /// entries of its page, and the build goes on with the source.
    pub open spec fn entry_written(self) -> (BuildView, RequestView) {
        (BuildView {
            pending: self.pending.push(self.metadata->0),
            metadata: None,
            file: self.file + 1,
            ..self
        }).work()
    }

    /// The index of the current page has come, and is handed out to be
    /// written.
    pub open spec fn listing_rendered(self, html: Seq<char>) -> (BuildView, RequestView) {
        let page = self.pages[self.tasks()[self.task]->Listing_page as int];
        (
            BuildView { stage: Stage::ListingWritten, ..self },
            RequestView::Write(seq![OutputFileView { path: index_file(page.name()), content: html }]),
        )
    }

    /// What the build does when it is told `reply`: a build that is over
    /// stays as it is, a failure ends the build with that failure, an
    /// answer to what was asked moves the build on, and any other answer
    /// ends it.
    pub open spec fn next(self, reply: ReplyView) -> (BuildView, RequestView) {
        if self.stage == Stage::Finished || self.stage == Stage::Failed {
            (self, RequestView::Failed(Fault::OutOfTurn))
        } else if reply is Failed {
            self.failed(reply->Failed_0)
        } else {
            match (self.stage, reply) {
                (Stage::Ready, ReplyView::Start) => self.dispatch(),
                (Stage::Listing, ReplyView::Listing(listing)) => (BuildView {
                    files: markdown_files(listing),
                    file: 0,
                    ..self
                }).work(),
                (Stage::Source, ReplyView::Text(markdown)) => self.source_read(markdown),
                (Stage::FrontMatter, ReplyView::Metadata(metadata)) => self.decoded(metadata),
                (Stage::Rendered, ReplyView::Rendered { page, feed }) => self.rendered(page, feed),
                (Stage::EntryWritten, ReplyView::Done) => self.entry_written(),
                (Stage::ListingPage, ReplyView::Text(html)) => self.listing_rendered(html),
                (Stage::ListingWritten, ReplyView::Done) => (BuildView {
                    task: self.task + 1,
                    ..self
                }).dispatch(),
                (Stage::FeedWritten, ReplyView::Done) => (BuildView {
                    feed: self.feed + 1,
                    ..self
                }).dispatch(),
                _ => self.failed(Fault::OutOfTurn),
            }
        }
    }
}

/// A stage has no say in what `dispatch` does.
proof fn lemma_stage_free_dispatch(s: BuildView, stage: Stage)
    ensures
        (BuildView { stage, ..s }).dispatch() == s.dispatch(),
{
    let t = BuildView { stage, ..s };
    assert(t.tasks() == s.tasks());
    if s.task < s.tasks().len() {
        match s.tasks()[s.task] {
            Task::Listing { page } => {},
            Task::Entry { page, entry } => {
                let fresh_s = if entry == 0 {
                    BuildView { pending: Seq::empty(), items: Seq::empty(), ..s }
                } else {
                    s
                };
                let fresh_t = if entry == 0 {
                    BuildView { pending: Seq::empty(), items: Seq::empty(), ..t }
                } else {
                    t
                };
                assert(fresh_t == BuildView { stage, ..fresh_s });
            },
        }
    }
}

/// A stage has no say in what `dispatch`, `start_file` and `work` do: each
/// of them sets the stage anew.
proof fn lemma_stage_free(s: BuildView, stage: Stage)
    ensures
        (BuildView { stage, ..s }).dispatch() == s.dispatch(),
        (BuildView { stage, ..s }).start_file() == s.start_file(),
        (BuildView { stage, ..s }).work() == s.work(),
{
    let t = BuildView { stage, ..s };
    assert(t.tasks() == s.tasks());
    lemma_stage_free_dispatch(s, stage);
    if !(s.file < s.files.len()) {
        let closed_s = BuildView { task: s.task + 1, ..s.close_entry() };
        let closed_t = BuildView { task: t.task + 1, ..t.close_entry() };
        assert(closed_t == BuildView { stage, ..closed_s });
        lemma_stage_free_dispatch(closed_s, stage);
    }
}

/// The build of a site.
pub struct Build {
    config: Config,
    tasks: Vec<Task>,
    stage: Stage,
    task: usize,
    files: Vec<String>,
    file: usize,
    stem: String,
    partial: String,
    metadata: Option<Metadata>,
    pending: Vec<Metadata>,
    items: Vec<RssItem>,
    index: ListingIndex,
    feeds: Vec<PageFeed>,
    feed: usize,
}

impl View for Build {
    type V = BuildView;

    closed spec fn view(&self) -> BuildView {
        BuildView {
            pages: self.config.pages@,
            base: self.config.base_url@,
            stage: self.stage,
            task: self.task as int,
            files: texts(self.files@),
            file: self.file as int,
            stem: self.stem@,
            partial: self.partial@,
            metadata: match self.metadata {
                Some(metadata) => Some(metadata@),
                None => None,
            },
            pending: metadata_views(self.pending@),
            items: item_views(self.items@),
            index: self.index@,
            feeds: feed_views(self.feeds@),
            feed: self.feed as int,
        }
    }
}

impl Build {
    #[verifier::type_invariant]
    spec fn inv(self) -> bool {
        &&& self.tasks@ == plan_of(self.config.pages@)
        &&& self@.wf()
    }

    /// A build of the site that `config` describes, not yet started.
    pub fn new(config: Config) -> (build: Build)
        ensures
            build@ == BuildView::start(config),
            build@.wf(),
    {
        let tasks = plan(&config.pages);
        assert(config.pages@.len() == config.pages.len());
        assert(feed_views(Seq::<PageFeed>::empty()).len() == 0);
        let build = Build {
            config,
            tasks,
            stage: Stage::Ready,
            task: 0,
            files: Vec::new(),
            file: 0,
            stem: String::new(),
            partial: String::new(),
            metadata: None,
            pending: Vec::new(),
            items: Vec::new(),
            index: ListingIndex::new(),
            feeds: Vec::new(),
            feed: 0,
        };
        assert(build@ =~= BuildView::start(build.config)) by {
            assert(texts(build.files@) =~= Seq::<Seq<char>>::empty());
            assert(metadata_views(build.pending@) =~= Seq::<MetadataView>::empty());
            assert(item_views(build.items@) =~= Seq::<RssItemView>::empty());
            assert(feed_views(build.feeds@) =~= Seq::empty());
        }
        build
    }

    /// What the build is waiting for.
    pub fn stage(&self) -> (stage: Stage)
        ensures
            stage == self@.stage,
    {
        self.stage
    }

    /// The metadata of the current entry: what the build wants the page of
    /// the entry rendered with.
    pub fn metadata(&self) -> (metadata: &Option<Metadata>)
        ensures
            match *metadata {
                Some(m) => self@.metadata == Some(m@),
                None => self@.metadata is None,
            },
    {
        &self.metadata
    }

    /// The listing index: what the build wants the index of a page rendered
    /// with.
    pub fn index(&self) -> (index: &ListingIndex)
        ensures
            index@ == self@.index,
    {
        &self.index
    }

    /// Stops the build.
    fn fail(self, error: ParseFilesError) -> (r: (Build, Request))
        ensures
            (r.0@, r.1@) == self@.failed(error@),
    {
        proof {
            use_type_invariant(&self);
        }
        (Build { stage: Stage::Failed, ..self }, Request::Failed(error))
    }

    /// The page of the current source.
    fn page(&self) -> (page: &PageWithEntries)
        requires
            self@.on_entry(),
        ensures
            *page == self@.page(),
    {
        proof {
            use_type_invariant(self);
            lemma_plan_valid(self.config.pages@, self.task as int);
        }
        match self.tasks[self.task] {
            Task::Entry { page, .. } => match &self.config.pages[page] {
                Page::WithEntries(with) => with,
                Page::Standalone(_) => {
                    vstd::pervasive::unreached()
                },
            },
            Task::Listing { .. } => {
                vstd::pervasive::unreached()
            },
        }
    }

    /// The current source.
    fn entry(&self) -> (entry: &Entry)
        requires
            self@.on_entry(),
        ensures
            *entry == self@.entry(),
    {
        proof {
            use_type_invariant(self);
            lemma_plan_valid(self.config.pages@, self.task as int);
        }
        let page = self.page();
        match self.tasks[self.task] {
            Task::Entry { entry, .. } => &page.entries[entry],
            Task::Listing { .. } => &page.entries[0],
        }
    }

    /// Turns to the current file.
    fn start_file(self) -> (r: (Build, Request))
        requires
            self@.on_entry(),
            self@.file < self@.files.len(),
        ensures
            (r.0@, r.1@) == self@.start_file(),
    {
        proof {
            use_type_invariant(&self);
        }
        let path = self.files[self.file].clone();
        match file_stem(path.as_str()) {
            None => self.fail(ParseFilesError::FileName),
            Some(stem) => (Build { stage: Stage::Source, stem, ..self }, Request::ReadFile(path)),
        }
    }

    /// Turns to the current task.
    fn dispatch(self) -> (r: (Build, Request))
        ensures
            (r.0@, r.1@) == self@.dispatch(),
    {
        proof {
            use_type_invariant(&self);
        }
        if self.task < self.tasks.len() {
            proof {
                lemma_plan_valid(self.config.pages@, self.task as int);
            }
            match self.tasks[self.task] {
                Task::Listing { page } => {
                    let template = self.config.pages[page].get_template_path().to_owned();
                    (Build { stage: Stage::ListingPage, ..self }, Request::RenderListing(template))
                },
                Task::Entry { page, entry } => {
                    let fresh = if entry == 0 {
                        let fresh = Build { pending: Vec::new(), items: Vec::new(), ..self };
                        assert(metadata_views(fresh.pending@) =~= Seq::<MetadataView>::empty());
                        assert(item_views(fresh.items@) =~= Seq::<RssItemView>::empty());
                        assert(fresh@ =~= (BuildView {
                            pending: Seq::empty(),
                            items: Seq::empty(),
                            ..self@
                        }));
                        fresh
                    } else {
                        self
                    };
                    let source = match fresh.entry() {
                        Entry::Dir { source_dir, .. } => (true, source_dir.clone()),
                        Entry::File { markdown_path, .. } => (false, markdown_path.clone()),
                    };
                    if source.0 {
                        (Build { stage: Stage::Listing, ..fresh }, Request::ListDir(source.1))
                    } else {
                        let mut files: Vec<String> = Vec::new();
                        files.push(source.1);
                        assert(texts(files@) =~= seq![source.1@]);
                        let ghost target = BuildView { files: texts(files@), file: 0, ..fresh@ };
                        proof {
                            lemma_stage_free(target, Stage::Ready);
                        }
                        (Build { stage: Stage::Ready, files, file: 0, ..fresh }).start_file()
                    }
                },
            }
        } else if self.feed < self.feeds.len() {
            let feed = &self.feeds[self.feed];
            let path = feed_path(feed.page.as_str());
            let channel = feed.feed.channel(feed.page.as_str(), self.config.base_url.as_str());
            let xml = channel.to_xml();
            (Build { stage: Stage::FeedWritten, ..self }, Request::WriteFeed(path, xml))
        } else {
            (Build { stage: Stage::Finished, ..self }, Request::Finished)
        }
    }

    /// Goes on with the current source.
    fn work(self) -> (r: (Build, Request))
        requires
            self@.on_entry(),
        ensures
            (r.0@, r.1@) == self@.work(),
    {
        proof {
            use_type_invariant(&self);
        }
        if self.file < self.files.len() {
            return self.start_file();
        }
        let name = self.page().name.clone();
        let rss = self.page().rss;
        let title = copy_option(&self.page().rss_name);
        let description = copy_option(&self.page().description);
        let ghost before = self@;
        let Build {
            config,
            tasks,
            stage,
            task,
            files,
            file,
            stem,
            partial,
            metadata,
            pending,
            mut items,
            mut index,
            mut feeds,
            feed,
        } = self;
        index.set(name.as_str(), copy_metadata(&pending));
        if rss {
            add_to_feed(&mut feeds, name.as_str(), &title, &description, &mut items);
            assert(item_views(items@) =~= Seq::<RssItemView>::empty());
        }
        assert(feed <= feed_views(feeds@).len()) by {
            before.feeds_grow();
        }
        assert(task < tasks.len());
        let closed = Build {
            config,
            tasks,
            stage: Stage::Ready,
            task: task + 1,
            files,
            file,
            stem,
            partial,
            metadata,
            pending,
            items,
            index,
            feeds,
            feed,
        };
        proof {
            let target = BuildView { task: before.task + 1, ..before.close_entry() };
            assert(closed@ == (BuildView { stage: Stage::Ready, ..target }));
            lemma_stage_free(target, Stage::Ready);
        }
        closed.dispatch()
    }

    /// Takes in the text of the current file.
    fn source_read(self, markdown: String) -> (r: (Build, Request))
        requires
            self@.on_entry(),
            self@.file < self@.files.len(),
        ensures
            (r.0@, r.1@) == self@.source_read(markdown@),
    {
        proof {
            use_type_invariant(&self);
        }
        let place = page_path(self.page().name.as_str(), self.stem.as_str());
        match rewrite_markdown(&self.config, markdown.as_str(), place.as_str()) {
            Err(error) => self.fail(error),
            Ok(partial) => match partial.front_matter {
                None => {
                    let path = self.files[self.file].clone();
                    self.fail(ParseFilesError::MetadataMissing(path))
                },
                Some(front_matter) => (
                    Build { stage: Stage::FrontMatter, partial: partial.html, ..self },
                    Request::DecodeFrontMatter(front_matter),
                ),
            },
        }
    }

    /// Takes in the metadata of the current entry.
    fn decoded(self, metadata: Metadata) -> (r: (Build, Request))
        requires
            self@.on_entry(),
            self@.file < self@.files.len(),
        ensures
            (r.0@, r.1@) == self@.decoded(metadata@),
    {
        proof {
            use_type_invariant(&self);
        }
        match metadata.complete(self.stem.as_str(), self.files[self.file].as_str()) {
            Err(error) => self.fail(ParseFilesError::Metadata(error)),
            Ok(done) => {
                let page = wrap_in_template(self.partial.as_str(), self.entry().get_template_path());
                let feed = if self.page().rss {
                    Some(self.partial.clone())
                } else {
                    None
                };
                (
                    Build { stage: Stage::Rendered, metadata: Some(done), ..self },
                    Request::Render { page, feed },
                )
            },
        }
    }

    /// Takes in the rendered page of the current entry.
    fn rendered(self, html: String, feed: Option<String>) -> (r: (Build, Request))
        requires
            self@.on_entry(),
            self@.file < self@.files.len(),
            self@.metadata is Some,
        ensures
            (r.0@, r.1@) == self@.rendered(html@, option_text(feed)),
    {
        proof {
            use_type_invariant(&self);
        }
        let ghost before = self@;
        let item = if self.page().rss {
            match feed {
                None => {
                    return self.fail(ParseFilesError::OutOfTurn);
                },
                Some(content) => match &self.metadata {
                    Some(metadata) => match generate_rss_item(&self.config, metadata, content) {
                        Err(error) => {
                            return self.fail(error);
                        },
                        Ok(item) => Some(item),
                    },
                    None => None,
                },
            }
        } else {
            None
        };
        let none: Vec<String> = Vec::new();
        assert(texts(none@) =~= Seq::<Seq<char>>::empty());
        let files = match &self.metadata {
            Some(metadata) => entry_outputs(
                self.page().name.as_str(),
                self.stem.as_str(),
                metadata.title.as_str(),
                match &metadata.aliases {
                    Some(aliases) => aliases,
                    None => &none,
                },
                html,
            ),
            None => Vec::new(),
        };
        assert(file_views(files@) == before.outputs(html@));
        match item {
            Some(item) => {
                let mut items = self.items;
                items.push(item);
                assert(item_views(items@) =~= before.items.push(item@));
                (Build { stage: Stage::EntryWritten, items, ..self }, Request::Write(files))
            },
            None => (Build { stage: Stage::EntryWritten, ..self }, Request::Write(files)),
        }
    }

    /// Takes in the word that the files of the current entry are written.
    fn entry_written(self) -> (r: (Build, Request))
        requires
            self@.on_entry(),
            self@.file < self@.files.len(),
            self@.metadata is Some,
        ensures
            (r.0@, r.1@) == self@.entry_written(),
    {
        proof {
            use_type_invariant(&self);
        }
        let ghost before = self@;
        let mut pending = self.pending;
        match self.metadata {
            Some(metadata) => {
                pending.push(metadata);
                assert(metadata_views(pending@) =~= before.pending.push(metadata@));
            },
            None => {},
        }
        assert(self.file < self.files.len());
        let next = Build {
            stage: Stage::Ready,
            pending,
            metadata: None,
            file: self.file + 1,
            ..self
        };
        proof {
            let target = BuildView {
                pending: before.pending.push(before.metadata->0),
                metadata: None,
                file: before.file + 1,
                ..before
            };
            assert(next@ == (BuildView { stage: Stage::Ready, ..target }));
            lemma_stage_free(target, Stage::Ready);
        }
        next.work()
    }

    /// Takes in the rendered index of the current page.
    fn listing_rendered(self, html: String) -> (r: (Build, Request))
        requires
            self@.on_listing(),
        ensures
            (r.0@, r.1@) == self@.listing_rendered(html@),
    {
        proof {
            use_type_invariant(&self);
            lemma_plan_valid(self.config.pages@, self.task as int);
        }
        let path = match self.tasks[self.task] {
            Task::Listing { page } => index_path(self.config.pages[page].get_name()),
            Task::Entry { .. } => String::new(),
        };
        let mut files: Vec<OutputFile> = Vec::new();
        files.push(OutputFile { path, content: html });
        assert(file_views(files@) =~= seq![OutputFileView { path: path@, content: html@ }]);
        (Build { stage: Stage::ListingWritten, ..self }, Request::Write(files))
    }

    /// Tells the build the answer to what it has asked for, and returns the
    /// build with what it asks for next. The first thing to tell a build is
    /// `Reply::Start`.
    pub fn step(self, reply: Reply) -> (r: (Build, Request))
        ensures
            (r.0@, r.1@) == self@.next(reply@),
            r.0@.wf(),
    {
        proof {
            use_type_invariant(&self);
        }
        let ghost before = self@;
        let r = match (self.stage, reply) {
            (Stage::Finished, _) | (Stage::Failed, _) => (self, Request::Failed(ParseFilesError::OutOfTurn)),
            (_, Reply::Failed(error)) => self.fail(error),
            (Stage::Ready, Reply::Start) => self.dispatch(),
            (Stage::Listing, Reply::Listing(listing)) => {
                let files = get_markdown_paths(&listing);
                let next = Build { stage: Stage::Ready, files, file: 0, ..self };
                proof {
                    let target = BuildView {
                        files: markdown_files(dir_views(listing@)),
                        file: 0,
                        ..before
                    };
                    assert(next@ == (BuildView { stage: Stage::Ready, ..target }));
                    lemma_stage_free(target, Stage::Ready);
                }
                next.work()
            },
            (Stage::Source, Reply::Text(markdown)) => self.source_read(markdown),
            (Stage::FrontMatter, Reply::Metadata(metadata)) => self.decoded(metadata),
            (Stage::Rendered, Reply::Rendered { page, feed }) => self.rendered(page, feed),
            (Stage::EntryWritten, Reply::Done) => self.entry_written(),
            (Stage::ListingPage, Reply::Text(html)) => self.listing_rendered(html),
            (Stage::ListingWritten, Reply::Done) => {
                assert(self.task < self.tasks.len());
                let next = Build { stage: Stage::Ready, task: self.task + 1, ..self };
                proof {
                    let target = BuildView { task: before.task + 1, ..before };
                    assert(next@ == (BuildView { stage: Stage::Ready, ..target }));
                    lemma_stage_free(target, Stage::Ready);
                }
                next.dispatch()
            },
            (Stage::FeedWritten, Reply::Done) => {
                assert(self.feed < self.feeds.len());
                let next = Build { stage: Stage::Ready, feed: self.feed + 1, ..self };
                proof {
                    let target = BuildView { feed: before.feed + 1, ..before };
                    assert(next@ == (BuildView { stage: Stage::Ready, ..target }));
                    lemma_stage_free(target, Stage::Ready);
                }
                next.dispatch()
            },
            _ => self.fail(ParseFilesError::OutOfTurn),
        };
        proof {
            use_type_invariant(&r.0);
        }
        r
    }
}

} // verus!