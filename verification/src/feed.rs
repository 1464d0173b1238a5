//! RSS feeds: the item of an entry, the items that a page has gathered, and
//! the channel that is made of them.

use vstd::prelude::*;
use vstd::string::*;
use crate::error::{Fault, ParseFilesError};
use crate::metadata::{as_rfc2822, rfc3339_as_rfc2822, Metadata, MetadataView};
use crate::site::Config;
use crate::text::{copy_option, option_text};
use crate::weburl::{join, joined_url};

verus! {

/// One item of a feed.
#[derive(Debug)]
pub struct RssItem {
    pub title: String,
    pub author: Option<String>,
    pub content: String,
    pub description: Option<String>,
    pub link: String,
    /// The publication date, as RFC 2822 writes it.
    pub pub_date: Option<String>,
    pub guid: String,
    pub guid_is_permalink: bool,
}

/// The mathematical content of an `RssItem`.
pub struct RssItemView {
    pub title: Seq<char>,
    pub author: Option<Seq<char>>,
    pub content: Seq<char>,
    pub description: Option<Seq<char>>,
    pub link: Seq<char>,
    pub pub_date: Option<Seq<char>>,
    pub guid: Seq<char>,
    pub guid_is_permalink: bool,
}

impl View for RssItem {
    type V = RssItemView;

    open spec fn view(&self) -> RssItemView {
        RssItemView {
            title: self.title@,
            author: option_text(self.author),
            content: self.content@,
            description: option_text(self.description),
            link: self.link@,
            pub_date: option_text(self.pub_date),
            guid: self.guid@,
            guid_is_permalink: self.guid_is_permalink,
        }
    }
}

/// The items of a list, each by its content.
pub open spec fn item_views(items: Seq<RssItem>) -> Seq<RssItemView> {
    Seq::new(items.len(), |i: int| items[i]@)
}

/// What a page has gathered for its feed.
#[derive(Debug)]
pub struct RssFeed {
    /// The title of the feed, where the page names one.
    pub name: Option<String>,
    pub description: Option<String>,
    pub items: Vec<RssItem>,
}

/// The mathematical content of an `RssFeed`.
pub struct RssFeedView {
    pub name: Option<Seq<char>>,
    pub description: Option<Seq<char>>,
    pub items: Seq<RssItemView>,
}

impl View for RssFeed {
    type V = RssFeedView;

    open spec fn view(&self) -> RssFeedView {
        RssFeedView {
            name: option_text(self.name),
            description: option_text(self.description),
            items: item_views(self.items@),
        }
    }
}

/// An RSS 2.0 channel with an Atom link to itself.
#[derive(Debug)]
pub struct Channel {
    pub title: String,
    pub link: String,
    pub description: String,
    pub language: String,
    /// The `rel` of the Atom link.
    pub atom_rel: String,
    /// The `href` of the Atom link.
    pub atom_href: String,
    pub items: Vec<RssItem>,
}

/// The mathematical content of a `Channel`.
pub struct ChannelView {
    pub title: Seq<char>,
    pub link: Seq<char>,
    pub description: Seq<char>,
    pub language: Seq<char>,
    pub atom_rel: Seq<char>,
    pub atom_href: Seq<char>,
    pub items: Seq<RssItemView>,
}

impl View for Channel {
    type V = ChannelView;

    open spec fn view(&self) -> ChannelView {
        ChannelView {
            title: self.title@,
            link: self.link@,
            description: self.description@,
            language: self.language@,
            atom_rel: self.atom_rel@,
            atom_href: self.atom_href@,
            items: item_views(self.items@),
        }
    }
}

#[verifier::external_type_specification]
#[verifier::external_body]
pub struct ExOutsideItem(rss::Item);

/// The item of the `rss` crate that holds what `item` holds, and nothing
/// else.
pub uninterp spec fn outside_item(item: RssItemView) -> rss::Item;

/// The items of the `rss` crate for a list of items.
pub open spec fn outside_items(items: Seq<RssItemView>) -> Seq<rss::Item> {
    Seq::new(items.len(), |i: int| outside_item(items[i]))
}

/// The XML that the `rss` crate writes for a channel with the title, link,
/// description, language and Atom link of `channel` and with the items
/// `items`.
pub uninterp spec fn channel_xml(channel: ChannelView, items: Seq<rss::Item>) -> Seq<char>;

/// Builds an `rss::Item` with `rss::ItemBuilder`: each field of `item` goes
/// to the field of the same name, the guid and its permalink flag into an
/// `rss::Guid`.
#[verifier::external_body]
pub(crate) fn to_outside_item(item: &RssItem) -> (r: rss::Item)
    ensures
        r == outside_item(item@),
{
    rss::ItemBuilder::default()
        .title(item.title.clone())
        .author(item.author.clone())
        .content(item.content.clone())
        .description(item.description.clone())
        .link(item.link.clone())
        .pub_date(item.pub_date.clone())
        .guid(rss::Guid { value: item.guid.clone(), permalink: item.guid_is_permalink })
        .build()
}

/// Builds an `rss::Channel` with `rss::ChannelBuilder` from the fields of
/// `channel` other than its items, and from `items`, and writes it out as
/// XML with `to_string`.
#[verifier::external_body]
pub(crate) fn write_channel(channel: &Channel, items: Vec<rss::Item>) -> (xml: String)
    ensures
        xml@ == channel_xml(channel@, items@),
{
    let link = rss::extension::atom::Link {
        rel: channel.atom_rel.clone(),
        href: channel.atom_href.clone(),
        ..Default::default()
    };
    rss::ChannelBuilder::default()
        .title(channel.title.clone())
        .link(channel.link.clone())
        .description(channel.description.clone())
        .items(items)
        .language(channel.language.clone())
        .atom_ext(Some(rss::extension::atom::AtomExtension { links: vec![link] }))
        .build()
        .to_string()
}

/// The publication date of an entry created at `created_at`: `Ok(None)`
/// without a creation time, and an error for a creation time that cannot be
/// written as RFC 2822.
pub open spec fn publication_date(created_at: Option<Seq<char>>) -> Result<Option<Seq<char>>, ()> {
    match created_at {
        None => Ok(None),
        Some(timestamp) => match rfc3339_as_rfc2822(timestamp) {
            Some(date) => Ok(Some(date)),
            None => Err(()),
        },
    }
}

/// The item of the entry with metadata `m`, for a site at `base`, with
/// `content` as what the reader of the feed sees. The link of the item is
/// the file name of the entry resolved against `base`, and so is its guid,
/// which is no permalink.
pub open spec fn rss_item_of(base: Seq<char>, m: MetadataView, content: Seq<char>) -> Result<
    RssItemView,
    Fault,
> {
    match joined_url(base, m.file_name) {
        None => Err(Fault::Address(m.file_name)),
        Some(link) => match publication_date(m.created_at) {
            Err(_) => Err(Fault::Timestamp(m.file_name)),
            Ok(pub_date) => Ok(
                RssItemView {
                    title: m.title,
                    author: m.author_email,
                    content,
                    description: m.summary,
                    link,
                    pub_date,
                    guid: link,
                    guid_is_permalink: false,
                },
            ),
        },
    }
}

/// The channel of the feed `feed` of the page `page`, for a site at `base`.
pub open spec fn channel_of(feed: RssFeedView, page: Seq<char>, base: Seq<char>) -> ChannelView {
    ChannelView {
        title: match feed.name {
            Some(name) => name,
            None => page,
        },
        link: base,
        description: match feed.description {
            Some(description) => description,
            None => Seq::empty(),
        },
        language: "en"@,
        atom_rel: "self"@,
        atom_href: base,
        items: feed.items,
    }
}

/// The feed `feed` of the page `page`, for a site at `base`, as XML.
pub open spec fn feed_xml(feed: RssFeedView, page: Seq<char>, base: Seq<char>) -> Seq<char> {
    channel_xml(channel_of(feed, page, base), outside_items(feed.items))
}

/// What `r` holds, by content.
pub open spec fn item_result(r: Result<RssItem, ParseFilesError>) -> Result<RssItemView, Fault> {
    match r {
        Ok(item) => Ok(item@),
        Err(e) => Err(e@),
    }
}

/// Makes the feed item of an entry. `html` is the body of the entry with its
/// template expressions expanded.
pub fn generate_rss_item(config: &Config, metadata: &Metadata, html: String) -> (r: Result<
    RssItem,
    ParseFilesError,
>)
    ensures
        item_result(r) == rss_item_of(config.base_url@, metadata@, html@),
{
    let link = match join(config.base_url.as_str(), metadata.file_name.as_str()) {
        Some(link) => link,
        None => {
            return Err(ParseFilesError::Address(metadata.file_name.clone()));
        },
    };
    let pub_date = match &metadata.created_at {
        None => None,
        Some(timestamp) => match as_rfc2822(timestamp.as_str()) {
            Some(date) => Some(date),
            None => {
                return Err(ParseFilesError::Timestamp(metadata.file_name.clone()));
            },
        },
    };
    Ok(
        RssItem {
            title: metadata.title.clone(),
            author: copy_option(&metadata.author_email),
            content: html,
            description: copy_option(&metadata.summary),
            guid: link.clone(),
            link,
            pub_date,
            guid_is_permalink: false,
        },
    )
}

impl RssItem {
    /// A copy of this item.
    pub fn duplicate(&self) -> (copy: RssItem)
        ensures
            copy@ == self@,
    {
        RssItem {
            title: self.title.clone(),
            author: copy_option(&self.author),
            content: self.content.clone(),
            description: copy_option(&self.description),
            link: self.link.clone(),
            pub_date: copy_option(&self.pub_date),
            guid: self.guid.clone(),
            guid_is_permalink: self.guid_is_permalink,
        }
    }
}

/// A copy of a list of items.
pub fn copy_items(items: &Vec<RssItem>) -> (copy: Vec<RssItem>)
    ensures
        item_views(copy@) == item_views(items@),
{
    let mut copy: Vec<RssItem> = Vec::new();
    let mut i: usize = 0;
    while i < items.len()
        invariant
            0 <= i <= items@.len(),
            copy@.len() == i,
            forall|j: int| 0 <= j < i ==> copy@[j]@ == items@[j]@,
        decreases items@.len() - i,
    {
        copy.push(items[i].duplicate());
        i += 1;
    }
    assert(item_views(copy@) =~= item_views(items@));
    copy
}

impl Channel {
    /// Writes the channel out as the XML of an RSS feed.
    pub fn to_xml(&self) -> (xml: String)
        ensures
            xml@ == channel_xml(self@, outside_items(self@.items)),
    {
        let mut items: Vec<rss::Item> = Vec::new();
        let mut i: usize = 0;
        while i < self.items.len()
            invariant
                0 <= i <= self.items@.len(),
                items@.len() == i,
                forall|j: int| 0 <= j < i ==> items@[j] == outside_item(self.items@[j]@),
            decreases self.items@.len() - i,
        {
            items.push(to_outside_item(&self.items[i]));
            i += 1;
        }
        assert(items@ =~= outside_items(self@.items));
        write_channel(self, items)
    }
}

impl RssFeed {
    /// The channel of this feed, for the page `page` of a site at `base`:
    /// titled by the feed's name or else by the page, in English, linking
    /// to the site and to itself at `base`, with the items in their order.
    pub fn channel(&self, page: &str, base: &str) -> (channel: Channel)
        ensures
            channel@ == channel_of(self@, page@, base@),
    {
        Channel {
            title: match &self.name {
                Some(name) => name.clone(),
                None => page.to_owned(),
            },
            link: base.to_owned(),
            description: match &self.description {
                Some(description) => description.clone(),
                None => String::new(),
            },
            language: "en".to_owned(),
            atom_rel: "self".to_owned(),
            atom_href: base.to_owned(),
            items: copy_items(&self.items),
        }
    }
}

} // verus!
