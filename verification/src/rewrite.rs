//! The rewriter: a walk over the events of one document that captures the
//! front matter, folds every fenced code block and every heading into one
//! piece of raw HTML, and passes everything else on.

use vstd::prelude::*;
use vstd::string::*;
use crate::codeblock::{block_close, block_open, code_text_html, is_diff, lines_state, push_code_text, FoldState};
use crate::error::{Fault, ParseFilesError};
use crate::heading::{heading_html, render_heading};
use crate::markdown::{emitted_views, event_views, markdown_stream, read_markdown, readings_of, rendered_html, site_extensions, write_html, Emitted, EmittedView, EventKind, Reading, SourceEvent, SourceEventView};
use crate::site::Config;
use crate::text::{option_text, push_str, split_lines, string_of};

verus! {

/// Where the walk stands after some events.
pub struct Scan {
    /// The text of the front matter, once a front matter block has held one.
    pub front_matter: Option<Seq<char>>,
    /// A front matter block is open.
    pub in_metadata: bool,
    /// A fenced code block is open.
    pub in_code: bool,
    /// A heading is open.
    pub in_heading: bool,
    /// Where the lines of code blocks stand with respect to foldable regions.
    pub fold: FoldState,
    /// The language tag of the last fenced code block that was opened.
    pub lang: Option<Seq<char>>,
    /// The HTML of the open code block so far.
    pub code: Seq<char>,
    /// The text of the open heading so far.
    pub heading: Seq<char>,
    /// The rewritten stream so far.
    pub out: Seq<EmittedView>,
}

/// The walk before the first event.
pub open spec fn scan_start() -> Scan {
    Scan {
        front_matter: None,
        in_metadata: false,
        in_code: false,
        in_heading: false,
        fold: FoldState { folded: false, summary: false },
        lang: None,
        code: Seq::empty(),
        heading: Seq::empty(),
        out: Seq::empty(),
    }
}

/// What a run of text does to the walk.
pub open spec fn scan_text(s: Scan, text: Seq<char>, raw: EmittedView) -> Scan {
    Scan {
        front_matter: if s.in_metadata {
            Some(text)
        } else {
            s.front_matter
        },
        code: if s.in_code {
            code_text_html(s.code, text, is_diff(s.lang), s.fold)
        } else {
            s.code
        },
        fold: if s.in_code {
            lines_state(split_lines(text), s.fold)
        } else {
            s.fold
        },
        heading: if s.in_heading {
            s.heading + text
        } else {
            s.heading
        },
        out: if !s.in_code && !s.in_heading {
            s.out.push(raw)
        } else {
            s.out
        },
        ..s
    }
}

/// What one event does to the walk; `None` where the event ends a heading
/// for which no address can be made.
pub open spec fn scan_step(s: Scan, event: SourceEventView, base: Seq<char>, page_path: Seq<char>) -> Option<
    Scan,
> {
    let forward = EmittedView::Forward(event.raw);
    match event.kind {
        Reading::MetadataStart => Some(Scan { in_metadata: true, out: s.out.push(forward), ..s }),
        Reading::MetadataEnd => Some(Scan { in_metadata: false, out: s.out.push(forward), ..s }),
        Reading::Code(text) => Some(
            if s.in_heading {
                Scan { heading: s.heading + text, ..s }
            } else {
                Scan { out: s.out.push(forward), ..s }
            },
        ),
        Reading::Text(text) => Some(scan_text(s, text, forward)),
        Reading::FencedCodeStart(lang) => Some(
            Scan { lang: Some(lang), in_code: true, code: s.code + block_open(), ..s },
        ),
        Reading::CodeBlockEnd => Some(
            Scan {
                out: s.out.push(
                    EmittedView::Html(
                        if s.in_code {
                            s.code + block_close()
                        } else {
                            s.code
                        },
                    ),
                ),
                code: Seq::empty(),
                in_code: false,
                ..s
            },
        ),
        Reading::HeadingStart => Some(Scan { in_heading: true, ..s }),
        Reading::HeadingEnd(level) => match heading_html(level, s.heading, base, page_path) {
            Some(html) => Some(
                Scan {
                    out: s.out.push(EmittedView::Html(html)),
                    heading: Seq::empty(),
                    in_heading: false,
                    ..s
                },
            ),
            None => None,
        },
        Reading::Other => Some(Scan { out: s.out.push(forward), ..s }),
    }
}

/// The walk after `events`; `None` once a step has failed.
pub open spec fn scan(events: Seq<SourceEventView>, base: Seq<char>, page_path: Seq<char>) -> Option<
    Scan,
>
    decreases events.len(),
{
    if events.len() == 0 {
        Some(scan_start())
    } else {
        match scan(events.drop_last(), base, page_path) {
            Some(s) => scan_step(s, events.last(), base, page_path),
            None => None,
        }
    }
}

/// The rewritten form of one document.
pub struct PuggleParser {
    /// The text of the front matter, if the document has any.
    pub front_matter: Option<String>,
    /// The rewritten stream.
    pub events: Vec<Emitted>,
}

impl PuggleParser {
    /// Whether this is the outcome of the walk `s`.
    pub open spec fn is_outcome_of(self, s: Scan) -> bool {
        &&& option_text(self.front_matter) == s.front_matter
        &&& emitted_views(self.events@) == s.out
    }
}

/// The walk as the rewriter holds it while it runs.
struct Walk {
    front_matter: Option<String>,
    in_metadata: bool,
    in_code: bool,
    in_heading: bool,
    fold: FoldState,
    lang: Option<String>,
    code: Vec<char>,
    heading: String,
    out: Vec<Emitted>,
}

impl View for Walk {
    type V = Scan;

    closed spec fn view(&self) -> Scan {
        Scan {
            front_matter: option_text(self.front_matter),
            in_metadata: self.in_metadata,
            in_code: self.in_code,
            in_heading: self.in_heading,
            fold: self.fold,
            lang: option_text(self.lang),
            code: self.code@,
            heading: self.heading@,
            out: emitted_views(self.out@),
        }
    }
}

/// Whether a language tag is the one of a diff.
fn lang_is_diff(lang: &Option<String>) -> (b: bool)
    ensures
        b == is_diff(option_text(*lang)),
{
    match lang {
        Some(tag) => {
            let diff = "diff".to_owned();
            *tag == diff
        },
        None => false,
    }
}

impl Walk {
    fn new() -> (w: Walk)
        ensures
            w@ == scan_start(),
    {
        let w = Walk {
            front_matter: None,
            in_metadata: false,
            in_code: false,
            in_heading: false,
            fold: FoldState { folded: false, summary: false },
            lang: None,
            code: Vec::new(),
            heading: String::new(),
            out: Vec::new(),
        };
        assert(emitted_views(w.out@) == Seq::<EmittedView>::empty());
        w
    }

    fn emit(&mut self, item: Emitted)
        ensures
            final(self)@ == (Scan { out: old(self)@.out.push(item@), ..old(self)@ }),
    {
        self.out.push(item);
        assert(emitted_views(self.out@) == emitted_views(old(self).out@).push(item@));
    }

    /// Takes one event in. On failure the walk is left as it was.
    fn step(&mut self, event: SourceEvent, base: &str, page_path: &str) -> (ok: bool)
        ensures
            ok == scan_step(old(self)@, event@, base@, page_path@).is_some(),
            ok ==> final(self)@ == scan_step(old(self)@, event@, base@, page_path@).unwrap(),
    {
        let SourceEvent { kind, raw } = event;
        match kind {
            EventKind::MetadataStart => {
                self.in_metadata = true;
                self.emit(Emitted::Forward(raw));
            },
            EventKind::MetadataEnd => {
                self.in_metadata = false;
                self.emit(Emitted::Forward(raw));
            },
            EventKind::Code(text) => {
                if self.in_heading {
                    self.heading.append(text.as_str());
                } else {
                    self.emit(Emitted::Forward(raw));
                }
            },
            EventKind::Text(text) => {
                if self.in_code {
                    let diff = lang_is_diff(&self.lang);
                    push_code_text(&mut self.code, text.as_str(), diff, &mut self.fold);
                }
                if self.in_heading {
                    self.heading.append(text.as_str());
                }
                if !self.in_code && !self.in_heading {
                    self.emit(Emitted::Forward(raw));
                }
                if self.in_metadata {
                    self.front_matter = Some(text);
                }
            },
            EventKind::FencedCodeStart(lang) => {
                self.lang = Some(lang);
                self.in_code = true;
                push_str(&mut self.code, "<pre><code>");
            },
            EventKind::CodeBlockEnd => {
                if self.in_code {
                    push_str(&mut self.code, "</code></pre>");
                }
                let html = string_of(&self.code, 0, self.code.len());
                assert(html@ == self.code@);
                self.code.clear();
                self.in_code = false;
                self.emit(Emitted::Html(html));
            },
            EventKind::HeadingStart => {
                self.in_heading = true;
            },
            EventKind::HeadingEnd(level) => {
                match render_heading(level, self.heading.as_str(), base, page_path) {
                    Some(html) => {
                        self.heading = String::new();
                        self.in_heading = false;
                        self.emit(Emitted::Html(html));
                    },
                    None => {
                        return false;
                    },
                }
            },
            EventKind::Other => {
                self.emit(Emitted::Forward(raw));
            },
        }
        true
    }
}

/// Rewrites the events of one document. `page_path` is the path of the
/// document's page below the base address of the site, and is what the links
/// of headings point to. The rewriting fails, with
/// `ParseFilesError::Address`, exactly where the walk does.
pub fn parse(config: &Config, events: Vec<SourceEvent>, page_path: &str) -> (r: Result<
    PuggleParser,
    ParseFilesError,
>)
    ensures
        match scan(event_views(events@), config.base_url@, page_path@) {
            Some(s) => r is Ok && r->Ok_0.is_outcome_of(s),
            None => r is Err && r->Err_0@ == Fault::Address(page_path@),
        },
{
    let mut walk = Walk::new();
    let ghost source = events@;
    let ghost all = event_views(source);
    assert(all.take(0) == Seq::<SourceEventView>::empty());
    for event in it: events.into_iter()
        invariant
            it.seq() == source,
            all == event_views(source),
            scan(all.take(it.index()), config.base_url@, page_path@) == Some(walk@),
    {
        let ghost done = it.index();
        let ok = walk.step(event, config.base_url.as_str(), page_path);
        proof {
            assert(all.take(done + 1).drop_last() == all.take(done));
            assert(all.take(done + 1).last() == all[done]);
            if !ok {
                lemma_scan_fails_on(all, done + 1, config.base_url@, page_path@);
            }
        }
        if !ok {
            return Err(ParseFilesError::Address(page_path.to_owned()));
        }
    }
    assert(all.take(all.len() as int) == all);
    Ok(PuggleParser { front_matter: walk.front_matter, events: walk.out })
}

/// The body of a document: the text of its front matter, if it has any, and
/// the rest as HTML.
pub struct Partial {
    pub front_matter: Option<String>,
    pub html: String,
}

/// The mathematical content of a `Partial`.
pub struct PartialView {
    pub front_matter: Option<Seq<char>>,
    pub html: Seq<char>,
}

impl View for Partial {
    type V = PartialView;

    open spec fn view(&self) -> PartialView {
        PartialView { front_matter: option_text(self.front_matter), html: self.html@ }
    }
}

/// The body of the Markdown document `markdown`, which belongs to the page
/// at `page_path` of a site at `base`: the events of the document are
/// rewritten, and the rewritten stream is written out as HTML. `None` where
/// the rewriting fails.
pub open spec fn partial_of(markdown: Seq<char>, base: Seq<char>, page_path: Seq<char>) -> Option<
    PartialView,
> {
    match scan(readings_of(markdown_stream(markdown, site_extensions())), base, page_path) {
        Some(walk) => Some(
            PartialView { front_matter: walk.front_matter, html: rendered_html(walk.out) },
        ),
        None => None,
    }
}

/// Turns a Markdown document into its body. Fails, with
/// `ParseFilesError::Address`, exactly where the rewriting does.
pub fn rewrite_markdown(config: &Config, markdown: &str, page_path: &str) -> (r: Result<
    Partial,
    ParseFilesError,
>)
    ensures
        match partial_of(markdown@, config.base_url@, page_path@) {
            Some(partial) => r is Ok && r->Ok_0@ == partial,
            None => r is Err && r->Err_0@ == Fault::Address(page_path@),
        },
{
    let events = read_markdown(markdown);
    match parse(config, events, page_path) {
        Err(error) => Err(error),
        Ok(rewritten) => {
            let html = write_html(rewritten.events);
            Ok(Partial { front_matter: rewritten.front_matter, html })
        },
    }
}

/// A walk that has failed on the first `n` events fails on all of them.
proof fn lemma_scan_fails_on(events: Seq<SourceEventView>, n: int, base: Seq<char>, page_path: Seq<char>)
    requires
        0 <= n <= events.len(),
        scan(events.take(n), base, page_path) is None,
    ensures
        scan(events, base, page_path) is None,
    decreases events.len() - n,
{
    if n < events.len() {
        assert(events.take(n + 1).drop_last() == events.take(n));
        lemma_scan_fails_on(events, n + 1, base, page_path);
    } else {
        assert(events.take(n) == events);
    }
}

} // verus!
