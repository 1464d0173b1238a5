//! Markdown as a stream of events. The `pulldown_cmark` crate reads the text
//! and writes the HTML; between the two the library looks at each event and
//! decides what becomes of it.

use vstd::prelude::*;
use pulldown_cmark::{CodeBlockKind, MetadataBlockKind, Tag, TagEnd};
use crate::heading::HeadingLevel;

verus! {

#[verifier::external_type_specification]
#[verifier::external_body]
pub struct ExRawEvent<'a>(pulldown_cmark::Event<'a>);

/// An event as `pulldown_cmark` hands it out, holding no borrowed text.
pub type RawEvent = pulldown_cmark::Event<'static>;

/// The Markdown extensions that the reader can be asked to understand.
#[derive(Clone, Copy, Debug, PartialEq, Eq, Structural)]
pub struct Extensions {
    pub footnotes: bool,
    pub strikethrough: bool,
    pub tasklists: bool,
    pub smart_punctuation: bool,
    pub yaml_metadata_blocks: bool,
    pub math: bool,
    pub gfm: bool,
    pub superscript: bool,
    pub subscript: bool,
    pub wikilinks: bool,
}

/// What an event is, as far as the library tells events apart.
#[derive(Clone, Copy, Debug, PartialEq, Eq, Structural)]
pub enum Shape {
    MetadataStart,
    MetadataEnd,
    Text,
    Code,
    FencedCodeStart,
    CodeBlockEnd,
    HeadingStart,
    HeadingEnd,
    Other,
}

/// The events that `pulldown_cmark` reads from a text, with the given
/// extensions switched on and no others.
pub uninterp spec fn markdown_stream(text: Seq<char>, extensions: Extensions) -> Seq<RawEvent>;

/// The shape of an event.
pub uninterp spec fn shape_of(raw: RawEvent) -> Shape;

/// The text that an event carries: the content of a text or inline code
/// event, the language tag of the start of a fenced code block, and the empty
/// text for every other event.
pub uninterp spec fn text_of(raw: RawEvent) -> Seq<char>;

/// The level that the end of a heading carries, and `H1` for every other
/// event.
pub uninterp spec fn level_of(raw: RawEvent) -> HeadingLevel;

/// Runs `pulldown_cmark::Parser::new_ext` over `text`, with exactly the
/// extensions of `extensions` set in its options, and collects the events,
/// each made independent of `text` by `Event::into_static`.
#[verifier::external_body]
pub(crate) fn read_events(text: &str, extensions: &Extensions) -> (events: Vec<RawEvent>)
    ensures
        events@ == markdown_stream(text@, *extensions),
{
    let mut o = pulldown_cmark::Options::empty();
    o.set(pulldown_cmark::Options::ENABLE_FOOTNOTES, extensions.footnotes);
    o.set(pulldown_cmark::Options::ENABLE_STRIKETHROUGH, extensions.strikethrough);
    o.set(pulldown_cmark::Options::ENABLE_TASKLISTS, extensions.tasklists);
    o.set(pulldown_cmark::Options::ENABLE_SMART_PUNCTUATION, extensions.smart_punctuation);
    o.set(pulldown_cmark::Options::ENABLE_YAML_STYLE_METADATA_BLOCKS, extensions.yaml_metadata_blocks);
    o.set(pulldown_cmark::Options::ENABLE_MATH, extensions.math);
    o.set(pulldown_cmark::Options::ENABLE_GFM, extensions.gfm);
    o.set(pulldown_cmark::Options::ENABLE_SUPERSCRIPT, extensions.superscript);
    o.set(pulldown_cmark::Options::ENABLE_SUBSCRIPT, extensions.subscript);
    o.set(pulldown_cmark::Options::ENABLE_WIKILINKS, extensions.wikilinks);
    pulldown_cmark::Parser::new_ext(text, o).map(|e| e.into_static()).collect()
}

/// Tells the variants of `pulldown_cmark::Event` apart.
#[verifier::external_body]
pub(crate) fn shape(raw: &RawEvent) -> (s: Shape)
    ensures
        s == shape_of(*raw),
{
    match raw {
        RawEvent::Start(Tag::MetadataBlock(MetadataBlockKind::YamlStyle)) => Shape::MetadataStart,
        RawEvent::End(TagEnd::MetadataBlock(MetadataBlockKind::YamlStyle)) => Shape::MetadataEnd,
        RawEvent::Text(_) => Shape::Text,
        RawEvent::Code(_) => Shape::Code,
        RawEvent::Start(Tag::CodeBlock(CodeBlockKind::Fenced(_))) => Shape::FencedCodeStart,
        RawEvent::End(TagEnd::CodeBlock) => Shape::CodeBlockEnd,
        RawEvent::Start(Tag::Heading { .. }) => Shape::HeadingStart,
        RawEvent::End(TagEnd::Heading(_)) => Shape::HeadingEnd,
        _ => Shape::Other,
    }
}

/// Copies out the text that an event carries.
#[verifier::external_body]
pub(crate) fn text(raw: &RawEvent) -> (t: String)
    ensures
        t@ == text_of(*raw),
{
    match raw {
        RawEvent::Text(t) => t.to_string(),
        RawEvent::Code(t) => t.to_string(),
        RawEvent::Start(Tag::CodeBlock(CodeBlockKind::Fenced(t))) => t.to_string(),
        _ => String::new(),
    }
}

/// Reads the level off the end of a heading.
#[verifier::external_body]
pub(crate) fn level(raw: &RawEvent) -> (l: HeadingLevel)
    ensures
        l == level_of(*raw),
{
    match raw {
        RawEvent::End(TagEnd::Heading(pulldown_cmark::HeadingLevel::H2)) => HeadingLevel::H2,
        RawEvent::End(TagEnd::Heading(pulldown_cmark::HeadingLevel::H3)) => HeadingLevel::H3,
        RawEvent::End(TagEnd::Heading(pulldown_cmark::HeadingLevel::H4)) => HeadingLevel::H4,
        RawEvent::End(TagEnd::Heading(pulldown_cmark::HeadingLevel::H5)) => HeadingLevel::H5,
        RawEvent::End(TagEnd::Heading(pulldown_cmark::HeadingLevel::H6)) => HeadingLevel::H6,
        _ => HeadingLevel::H1,
    }
}

/// What the library has read of one event.
pub enum EventKind {
    /// The start of a YAML front matter block.
    MetadataStart,
    /// The end of a YAML front matter block.
    MetadataEnd,
    /// A run of text.
    Text(String),
    /// An inline code span.
    Code(String),
    /// The start of a fenced code block, with its language tag.
    FencedCodeStart(String),
    /// The end of a code block, fenced or indented.
    CodeBlockEnd,
    /// The start of a heading.
    HeadingStart,
    /// The end of a heading of the given level.
    HeadingEnd(HeadingLevel),
    /// Any other event.
    Other,
}

/// An event of the stream: the event itself, and what the library has read
/// of it.
pub struct SourceEvent {
    pub kind: EventKind,
    pub raw: RawEvent,
}

/// The mathematical content of an `EventKind`.
pub enum Reading {
    MetadataStart,
    MetadataEnd,
    Text(Seq<char>),
    Code(Seq<char>),
    FencedCodeStart(Seq<char>),
    CodeBlockEnd,
    HeadingStart,
    HeadingEnd(HeadingLevel),
    Other,
}

/// The mathematical content of a `SourceEvent`.
pub struct SourceEventView {
    pub kind: Reading,
    pub raw: RawEvent,
}

impl View for EventKind {
    type V = Reading;

    open spec fn view(&self) -> Reading {
        match self {
            EventKind::MetadataStart => Reading::MetadataStart,
            EventKind::MetadataEnd => Reading::MetadataEnd,
            EventKind::Text(text) => Reading::Text(text@),
            EventKind::Code(text) => Reading::Code(text@),
            EventKind::FencedCodeStart(lang) => Reading::FencedCodeStart(lang@),
            EventKind::CodeBlockEnd => Reading::CodeBlockEnd,
            EventKind::HeadingStart => Reading::HeadingStart,
            EventKind::HeadingEnd(level) => Reading::HeadingEnd(*level),
            EventKind::Other => Reading::Other,
        }
    }
}

impl View for SourceEvent {
    type V = SourceEventView;

    open spec fn view(&self) -> SourceEventView {
        SourceEventView { kind: self.kind@, raw: self.raw }
    }
}

/// The events of a stream, each by its content.
pub open spec fn event_views(events: Seq<SourceEvent>) -> Seq<SourceEventView> {
    Seq::new(events.len(), |i: int| events[i]@)
}

/// What the library reads of `raw`.
pub open spec fn reading_of(raw: RawEvent) -> Reading {
    match shape_of(raw) {
        Shape::MetadataStart => Reading::MetadataStart,
        Shape::MetadataEnd => Reading::MetadataEnd,
        Shape::Text => Reading::Text(text_of(raw)),
        Shape::Code => Reading::Code(text_of(raw)),
        Shape::FencedCodeStart => Reading::FencedCodeStart(text_of(raw)),
        Shape::CodeBlockEnd => Reading::CodeBlockEnd,
        Shape::HeadingStart => Reading::HeadingStart,
        Shape::HeadingEnd => Reading::HeadingEnd(level_of(raw)),
        Shape::Other => Reading::Other,
    }
}

/// The stream that reading each event of `raws` gives.
pub open spec fn readings_of(raws: Seq<RawEvent>) -> Seq<SourceEventView> {
    Seq::new(raws.len(), |i: int| SourceEventView { kind: reading_of(raws[i]), raw: raws[i] })
}

impl SourceEvent {
    /// Reads an event of `pulldown_cmark`.
    pub fn read(raw: RawEvent) -> (event: SourceEvent)
        ensures
            event@ == (SourceEventView { kind: reading_of(raw), raw }),
    {
        let kind = match shape(&raw) {
            Shape::MetadataStart => EventKind::MetadataStart,
            Shape::MetadataEnd => EventKind::MetadataEnd,
            Shape::Text => EventKind::Text(text(&raw)),
            Shape::Code => EventKind::Code(text(&raw)),
            Shape::FencedCodeStart => EventKind::FencedCodeStart(text(&raw)),
            Shape::CodeBlockEnd => EventKind::CodeBlockEnd,
            Shape::HeadingStart => EventKind::HeadingStart,
            Shape::HeadingEnd => EventKind::HeadingEnd(level(&raw)),
            Shape::Other => EventKind::Other,
        };
        SourceEvent { kind, raw }
    }
}

/// The extensions with which the documents of a site are read.
pub open spec fn site_extensions() -> Extensions {
    Extensions {
        footnotes: true,
        strikethrough: true,
        tasklists: true,
        smart_punctuation: true,
        yaml_metadata_blocks: true,
        math: true,
        gfm: true,
        superscript: true,
        subscript: true,
        wikilinks: true,
    }
}

/// Reads a Markdown document into its stream of events.
pub fn read_markdown(markdown: &str) -> (events: Vec<SourceEvent>)
    ensures
        event_views(events@) == readings_of(markdown_stream(markdown@, site_extensions())),
{
    let extensions = Extensions {
        footnotes: true,
        strikethrough: true,
        tasklists: true,
        smart_punctuation: true,
        yaml_metadata_blocks: true,
        math: true,
        gfm: true,
        superscript: true,
        subscript: true,
        wikilinks: true,
    };
    let raws = read_events(markdown, &extensions);
    let ghost all = raws@;
    let mut events: Vec<SourceEvent> = Vec::new();
    for raw in it: raws.into_iter()
        invariant
            it.seq() == all,
            events@.len() == it.index(),
            event_views(events@) == readings_of(all.take(it.index())),
    {
        let ghost done = it.index();
        let ghost before = events@;
        assert(0 <= done < all.len() && raw == all[done]);
        let event = SourceEvent::read(raw);
        events.push(event);
        assert forall|i: int| 0 <= i < events@.len() implies event_views(events@)[i]
            == readings_of(all.take(done + 1))[i] by {
            if i < done {
                assert(event_views(before)[i] == readings_of(all.take(done))[i]);
                assert(events@[i] == before[i]);
            }
        }
        assert(event_views(events@) == readings_of(all.take(done + 1)));
    }
    assert(all.take(all.len() as int) == all);
    events
}

/// One event of the rewritten stream.
pub enum Emitted {
    /// An event of the source, passed on as it came.
    Forward(RawEvent),
    /// Raw HTML that the library has written in place of one or more events.
    Html(String),
}

/// The mathematical content of an `Emitted`.
pub enum EmittedView {
    Forward(RawEvent),
    Html(Seq<char>),
}

impl View for Emitted {
    type V = EmittedView;

    open spec fn view(&self) -> EmittedView {
        match self {
            Emitted::Forward(raw) => EmittedView::Forward(*raw),
            Emitted::Html(html) => EmittedView::Html(html@),
        }
    }
}

/// The items of a rewritten stream, each by its content.
pub open spec fn emitted_views(items: Seq<Emitted>) -> Seq<EmittedView> {
    Seq::new(items.len(), |i: int| items[i]@)
}

/// The HTML that `pulldown_cmark` writes for a stream of events, a raw HTML
/// event standing for each `Html` item.
pub uninterp spec fn rendered_html(items: Seq<EmittedView>) -> Seq<char>;

/// Hands the events to `pulldown_cmark::html::push_html`, each `Html` item
/// as an `Event::Html` with the same text, and returns what it has written.
#[verifier::external_body]
pub(crate) fn write_html(items: Vec<Emitted>) -> (html: String)
    ensures
        html@ == rendered_html(emitted_views(items@)),
{
    let events = items.into_iter().map(|item| match item {
        Emitted::Forward(raw) => raw,
        Emitted::Html(html) => RawEvent::Html(html.into()),
    });
    let mut html = String::new();
    pulldown_cmark::html::push_html(&mut html, events);
    html
}

} // verus!
