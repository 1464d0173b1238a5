//! What the build gathers page by page: the listing index, which maps the
//! name of a page to the metadata of its entries, and the feeds.

use vstd::prelude::*;
use crate::feed::{item_views, RssFeed, RssFeedView, RssItem, RssItemView};
use crate::metadata::{metadata_views, Metadata, MetadataView};
use crate::text::{copy_option, option_text};

verus! {

/// The entries of one page, as listing templates see them.
#[derive(Debug)]
pub struct Listing {
    pub name: String,
    pub entries: Vec<Metadata>,
}

/// The listing index: the pages in the order in which they were first
/// recorded, each name once.
#[derive(Debug)]
pub struct ListingIndex {
    pub pages: Vec<Listing>,
}

/// The feed of one page.
#[derive(Debug)]
pub struct PageFeed {
    pub page: String,
    pub feed: RssFeed,
}

pub type IndexView = Seq<(Seq<char>, Seq<MetadataView>)>;

pub type FeedsView = Seq<(Seq<char>, RssFeedView)>;

impl View for ListingIndex {
    type V = IndexView;

    open spec fn view(&self) -> IndexView {
        Seq::new(
            self.pages@.len(),
            |i: int| (self.pages@[i].name@, metadata_views(self.pages@[i].entries@)),
        )
    }
}

/// The feeds of a list, each with its page, by content.
pub open spec fn feed_views(feeds: Seq<PageFeed>) -> FeedsView {
    Seq::new(feeds.len(), |i: int| (feeds[i].page@, feeds[i].feed@))
}

/// The names under which an index or a list of feeds holds something.
pub open spec fn names_of<T>(list: Seq<(Seq<char>, T)>) -> Seq<Seq<char>> {
    Seq::new(list.len(), |i: int| list[i].0)
}

/// What an index or a list of feeds holds under `name`.
pub open spec fn lookup<T>(list: Seq<(Seq<char>, T)>, name: Seq<char>) -> Option<T> {
    match names_of(list).index_of_first(name) {
        Some(at) => Some(list[at].1),
        None => None,
    }
}

/// The index with `entries` as the entries of the page `name`: in the place
/// of what the page had before, or else at the end.
pub open spec fn index_with(index: IndexView, name: Seq<char>, entries: Seq<MetadataView>) -> IndexView {
    match names_of(index).index_of_first(name) {
        Some(at) => index.update(at, (name, entries)),
        None => index.push((name, entries)),
    }
}

/// The feeds after the page `page` has handed in `items`: they follow the
/// items that the feed of the page holds, or else start a feed with the
/// given title and description at the end.
pub open spec fn feeds_with(
    feeds: FeedsView,
    page: Seq<char>,
    name: Option<Seq<char>>,
    description: Option<Seq<char>>,
    items: Seq<RssItemView>,
) -> FeedsView {
    match names_of(feeds).index_of_first(page) {
        Some(at) => feeds.update(
            at,
            (page, RssFeedView { items: feeds[at].1.items + items, ..feeds[at].1 }),
        ),
        None => feeds.push((page, RssFeedView { name, description, items })),
    }
}

/// A copy of a list of metadata.
pub fn copy_metadata(list: &Vec<Metadata>) -> (copy: Vec<Metadata>)
    ensures
        metadata_views(copy@) == metadata_views(list@),
{
    let mut copy: Vec<Metadata> = Vec::new();
    let mut i: usize = 0;
    while i < list.len()
        invariant
            0 <= i <= list@.len(),
            copy@.len() == i,
            forall|j: int| 0 <= j < i ==> copy@[j]@ == list@[j]@,
        decreases list@.len() - i,
    {
        copy.push(list[i].duplicate());
        i += 1;
    }
    assert(metadata_views(copy@) =~= metadata_views(list@));
    copy
}

impl ListingIndex {
    /// The index of a site of which nothing has been built.
    pub fn new() -> (index: ListingIndex)
        ensures
            index@ == Seq::<(Seq<char>, Seq<MetadataView>)>::empty(),
    {
        let index = ListingIndex { pages: Vec::new() };
        assert(index@ =~= Seq::<(Seq<char>, Seq<MetadataView>)>::empty());
        index
    }

    /// Where the page `name` stands in the index, if it does.
    fn position(&self, name: &String) -> (at: Option<usize>)
        ensures
            match at {
                Some(i) => names_of(self@).index_of_first(name@) == Some(i as int) && i
                    < self.pages@.len(),
                None => names_of(self@).index_of_first(name@) is None,
            },
    {
        let ghost names = names_of(self@);
        let mut i: usize = 0;
        while i < self.pages.len()
            invariant
                0 <= i <= self.pages@.len(),
                names == names_of(self@),
                names.len() == self.pages@.len(),
                forall|j: int| 0 <= j < i ==> names[j] != name@,
            decreases self.pages@.len() - i,
        {
            if self.pages[i].name == *name {
                proof {
                    assert(names[i as int] == name@);
                    assert(names.contains(name@));
                    names.index_of_first_ensures(name@);
                }
                return Some(i);
            }
            i += 1;
        }
        proof {
            names.index_of_first_ensures(name@);
        }
        None
    }

    /// Makes `entries` the entries of the page `name`.
    pub fn set(&mut self, name: &str, entries: Vec<Metadata>)
        ensures
            final(self)@ == index_with(old(self)@, name@, metadata_views(entries@)),
    {
        let name = name.to_owned();
        match self.position(&name) {
            Some(at) => {
                self.pages.set(at, Listing { name, entries });
                assert(self@ =~= old(self)@.update(at as int, (name@, metadata_views(entries@))));
            },
            None => {
                self.pages.push(Listing { name, entries });
                assert(self@ =~= old(self)@.push((name@, metadata_views(entries@))));
            },
        }
    }
}

/// Where the feed of the page `page` stands in `feeds`, if there is one.
fn feed_position(feeds: &Vec<PageFeed>, page: &String) -> (at: Option<usize>)
    ensures
        match at {
            Some(i) => names_of(feed_views(feeds@)).index_of_first(page@) == Some(i as int) && i
                < feeds@.len() && feeds@[i as int].page@ == page@,
            None => names_of(feed_views(feeds@)).index_of_first(page@) is None,
        },
{
    let ghost names = names_of(feed_views(feeds@));
    let mut i: usize = 0;
    while i < feeds.len()
        invariant
            0 <= i <= feeds@.len(),
            names == names_of(feed_views(feeds@)),
            names.len() == feeds@.len(),
            forall|j: int| 0 <= j < i ==> names[j] != page@,
        decreases feeds@.len() - i,
    {
        if feeds[i].page == *page {
            proof {
                assert(names[i as int] == page@);
                assert(names.contains(page@));
                names.index_of_first_ensures(page@);
            }
            return Some(i);
        }
        i += 1;
    }
    proof {
        names.index_of_first_ensures(page@);
    }
    None
}

/// Hands the items of `items` over to the feed of the page `page`, and
/// leaves `items` empty. Where the page has no feed yet, one is started
/// with the title `name` and the description `description`.
pub fn add_to_feed(
    feeds: &mut Vec<PageFeed>,
    page: &str,
    name: &Option<String>,
    description: &Option<String>,
    items: &mut Vec<RssItem>,
)
    ensures
        feed_views(final(feeds)@) == feeds_with(
            feed_views(old(feeds)@),
            page@,
            option_text(*name),
            option_text(*description),
            item_views(old(items)@),
        ),
        final(items)@.len() == 0,
{
    let page = page.to_owned();
    let ghost handed = item_views(items@);
    match feed_position(feeds, &page) {
        Some(at) => {
            let ghost before = feeds@[at as int].feed@;
            let mut slot = feeds.remove(at);
            slot.feed.items.append(items);
            assert(item_views(slot.feed.items@) =~= before.items + handed);
            feeds.insert(at, slot);
            assert(feeds@.len() == old(feeds)@.len());
            assert(forall|j: int| 0 <= j < feeds@.len() && j != at ==> feeds@[j] == old(feeds)@[j]);
            assert(feed_views(feeds@) =~= feed_views(old(feeds)@).update(
                at as int,
                (page@, RssFeedView { items: before.items + handed, ..before }),
            ));
        },
        None => {
            let mut taken: Vec<RssItem> = Vec::new();
            taken.append(items);
            assert(item_views(taken@) =~= handed);
            let feed = RssFeed {
                name: copy_option(name),
                description: copy_option(description),
                items: taken,
            };
            feeds.push(PageFeed { page, feed });
            assert(feed_views(feeds@) =~= feed_views(old(feeds)@).push(
                (
                    page@,
                    RssFeedView {
                        name: option_text(*name),
                        description: option_text(*description),
                        items: handed,
                    },
                ),
            ));
        },
    }
}

} // verus!
