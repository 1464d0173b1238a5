//! What holds of the library as a whole, beyond what each function says of
//! itself.

use vstd::prelude::*;
use crate::builder::{BuildView, ReplyView, RequestView, Stage};
use crate::codeblock::{code_block_html, is_diff, FoldState};
use crate::heading::{heading_href, heading_html, linked_heading, lowercased, slug_of, trimmed, HeadingLevel};
use crate::text::hyphenate;
use crate::listing::{index_with, lookup, names_of, IndexView};
use crate::metadata::MetadataView;
use crate::output::{alias_file, entry_files, index_file, page_path_of, redirect_stub, OutputFileView};
use crate::plan::{entry_tasks, lemma_entry_tasks_follow, lemma_plan_valid};
use crate::site::{Config, Page};

verus! {

/// Between the same two texts, different texts make different texts.
proof fn lemma_middle_differs(before: Seq<char>, a: Seq<char>, b: Seq<char>, after: Seq<char>)
    requires
        a != b,
    ensures
        before + a + after != before + b + after,
{
    let x = before + a + after;
    let y = before + b + after;
    if x == y {
        assert(a.len() == b.len()) by {
            assert(x.len() == before.len() + a.len() + after.len());
            assert(y.len() == before.len() + b.len() + after.len());
        }
        assert forall|i: int| 0 <= i < a.len() implies a[i] == b[i] by {
            assert(x[before.len() + i] == a[i]);
            assert(y[before.len() + i] == b[i]);
        }
        assert(a =~= b);
    }
}

/// An entry gets one page of its own: the first of its files is the page of
/// the entry, at `<page>/<stem>/index.html`, and holds the rendered HTML; and
/// as long as no alias is the stem itself, no other file of the entry has
/// that path.
pub proof fn law_entry_page_once(
    page: Seq<char>,
    stem: Seq<char>,
    title: Seq<char>,
    aliases: Seq<Seq<char>>,
    html: Seq<char>,
)
    requires
        forall|i: int| 0 <= i < aliases.len() ==> aliases[i] != stem,
    ensures
        entry_files(page, stem, title, aliases, html).len() == 1 + aliases.len(),
        entry_files(page, stem, title, aliases, html)[0] == (OutputFileView {
            path: index_file(page_path_of(page, stem)),
            content: html,
        }),
        forall|j: int|
            0 < j < entry_files(page, stem, title, aliases, html).len() ==> (#[trigger] entry_files(
                page,
                stem,
                title,
                aliases,
                html,
            )[j]).path != index_file(page_path_of(page, stem)),
{
    let files = entry_files(page, stem, title, aliases, html);
    assert forall|j: int| 0 < j < files.len() implies (#[trigger] files[j]).path != index_file(
        page_path_of(page, stem),
    ) by {
        let alias = aliases[j - 1];
        assert(files[j] == alias_file(page, stem, title, alias));
        lemma_middle_differs(page + "/"@, alias, stem, "/index.html"@);
        assert(index_file(page_path_of(page, alias)) == (page + "/"@) + alias + "/index.html"@);
        assert(index_file(page_path_of(page, stem)) == (page + "/"@) + stem + "/index.html"@);
    }
}

/// Every alias of an entry gets a stub: the files of the entry hold, for
/// the alias at position `i`, a file at `<page>/<alias>/index.html` whose
/// content is the redirect stub with the title of the entry and the path
/// `<page>/<stem>` of its page. Without aliases the entry has its page and
/// nothing else.
pub proof fn law_alias_stubs(
    page: Seq<char>,
    stem: Seq<char>,
    title: Seq<char>,
    aliases: Seq<Seq<char>>,
    html: Seq<char>,
    i: int,
)
    requires
        0 <= i < aliases.len(),
    ensures
        entry_files(page, stem, title, aliases, html)[1 + i] == (OutputFileView {
            path: index_file(page_path_of(page, aliases[i])),
            content: redirect_stub(title, page_path_of(page, stem)),
        }),
        entry_files(page, stem, title, Seq::empty(), html).len() == 1,
{
}

/// The files that the build hands out for an entry are the files of the
/// entry: when the build is told the rendered page of the current entry and
/// does not fail, it asks for exactly these to be written.
pub proof fn law_entry_files_requested(s: BuildView, html: Seq<char>, feed: Option<Seq<char>>)
    requires
        s.wf(),
        s.stage == Stage::Rendered,
        !(s.next(ReplyView::Rendered { page: html, feed }).1 is Failed),
    ensures
        s.next(ReplyView::Rendered { page: html, feed }).1 == RequestView::Write(s.outputs(html)),
        s.next(ReplyView::Rendered { page: html, feed }).0.stage == Stage::EntryWritten,
{
}

/// A build stays well formed: the build of a site is well formed before it
/// is started, and whatever a well-formed build is told, it is well formed
/// afterwards.
pub proof fn law_build_stays_well_formed(config: Config, s: BuildView, reply: ReplyView)
    requires
        s.wf(),
    ensures
        BuildView::start(config).wf(),
        s.next(reply).0.wf(),
{
    assert(config.pages@.len() == config.pages.len());
    lemma_next_keeps_wf(s, reply);
}

/// What `dispatch` leads to is well formed.
proof fn lemma_dispatch_keeps_wf(s: BuildView)
    requires
        s.pages.len() <= usize::MAX,
        0 <= s.task <= s.tasks().len(),
        0 <= s.feed <= s.feeds.len(),
        0 <= s.file,
    ensures
        s.dispatch().0.wf(),
{
    if s.task < s.tasks().len() {
        lemma_plan_valid(s.pages, s.task);
    }
}

/// What `work` leads to is well formed.
proof fn lemma_work_keeps_wf(s: BuildView)
    requires
        s.pages.len() <= usize::MAX,
        s.on_entry(),
        0 <= s.feed <= s.feeds.len(),
        0 <= s.file,
    ensures
        s.work().0.wf(),
{
    if !(s.file < s.files.len()) {
        s.feeds_grow();
        lemma_dispatch_keeps_wf(BuildView { task: s.task + 1, ..s.close_entry() });
    }
}

/// What `next` leads to is well formed.
proof fn lemma_next_keeps_wf(s: BuildView, reply: ReplyView)
    requires
        s.wf(),
    ensures
        s.next(reply).0.wf(),
{
    if s.stage == Stage::Finished || s.stage == Stage::Failed || reply is Failed {
    } else {
        match (s.stage, reply) {
            (Stage::Ready, ReplyView::Start) => {
                lemma_dispatch_keeps_wf(s);
            },
            (Stage::Listing, ReplyView::Listing(listing)) => {
                lemma_work_keeps_wf(
                    BuildView { files: crate::paths::markdown_files(listing), file: 0, ..s },
                );
            },
            (Stage::EntryWritten, ReplyView::Done) => {
                lemma_work_keeps_wf(
                    BuildView {
                        pending: s.pending.push(s.metadata->0),
                        metadata: None,
                        file: s.file + 1,
                        ..s
                    },
                );
            },
            (Stage::ListingWritten, ReplyView::Done) => {
                lemma_dispatch_keeps_wf(BuildView { task: s.task + 1, ..s });
            },
            (Stage::FeedWritten, ReplyView::Done) => {
                lemma_dispatch_keeps_wf(BuildView { feed: s.feed + 1, ..s });
            },
            _ => {},
        }
    }
}

/// No entry is written without its files: whenever a run has brought the
/// build to wait for word that the files of an entry are written, the last
/// thing it was told was the rendered page of that entry, and what it asked
/// for then was the files of the entry, in their order.
pub proof fn law_written_entries_had_their_files(config: Config, replies: Seq<ReplyView>)
    requires
        replies.len() > 0,
        run(config, replies).stage == Stage::EntryWritten,
    ensures
        replies.last() is Rendered,
        run(config, replies.drop_last()).stage == Stage::Rendered,
        run(config, replies.drop_last()).next(replies.last()).1 == RequestView::Write(
            run(config, replies.drop_last()).outputs(replies.last()->Rendered_page),
        ),
{
    let before = run(config, replies.drop_last());
    let reply = replies.last();
    assert(run(config, replies) == before.next(reply).0);
    if before.stage == Stage::Rendered && reply is Rendered {
    } else {
        lemma_dispatch_never_waits_for_a_write(before);
        lemma_dispatch_never_waits_for_a_write(BuildView { task: before.task + 1, ..before });
        lemma_dispatch_never_waits_for_a_write(BuildView { feed: before.feed + 1, ..before });
        match reply {
            ReplyView::Listing(listing) => {
                lemma_work_never_waits_for_a_write(
                    BuildView { files: crate::paths::markdown_files(listing), file: 0, ..before },
                );
            },
            ReplyView::Done => {
                lemma_work_never_waits_for_a_write(
                    BuildView {
                        pending: before.pending.push(before.metadata->0),
                        metadata: None,
                        file: before.file + 1,
                        ..before
                    },
                );
            },
            _ => {},
        }
    }
}

/// Turning to a task never leaves the build waiting for the files of an
/// entry to be written.
proof fn lemma_dispatch_never_waits_for_a_write(s: BuildView)
    ensures
        s.dispatch().0.stage != Stage::EntryWritten,
{
}

/// Going on with a source never leaves the build waiting for the files of
/// an entry to be written.
proof fn lemma_work_never_waits_for_a_write(s: BuildView)
    ensures
        s.work().0.stage != Stage::EntryWritten,
{
    lemma_dispatch_never_waits_for_a_write(BuildView { task: s.task + 1, ..s.close_entry() });
}

/// What an index holds under a name after the name has been set, and that
/// every other name holds what it held.
pub proof fn law_index_with(index: IndexView, name: Seq<char>, entries: Seq<MetadataView>, other: Seq<char>)
    ensures
        lookup(index_with(index, name, entries), name) == Some(entries),
        other != name ==> lookup(index_with(index, name, entries), other) == lookup(index, other),
{
    let names = names_of(index);
    let after = index_with(index, name, entries);
    let names_after = names_of(after);
    names.index_of_first_ensures(name);
    names.index_of_first_ensures(other);
    names_after.index_of_first_ensures(name);
    names_after.index_of_first_ensures(other);
    match names.index_of_first(name) {
        Some(at) => {
            assert(names_after =~= names);
        },
        None => {
            assert(names_after =~= names.push(name));
            assert(names_after[names.len() as int] == name);
            assert(names_after.contains(name));
            let found = names_after.index_of_first(name)->0;
            if found < names.len() {
                assert(names[found] == name);
                assert(names.contains(name));
            }
            if other != name {
                if names_after.contains(other) {
                    let k = names_after.index_of_first(other)->0;
                    assert(k < names.len());
                    assert(names[k] == other);
                    assert(names.contains(other));
                    let j = names.index_of_first(other)->0;
                    assert(names_after[j] == other);
                    if j < k {
                        assert(names_after[j] != other);
                    }
                    if k < j {
                        assert(names[k] != other);
                    }
                } else {
                    if names.contains(other) {
                        let j = names.index_of_first(other)->0;
                        assert(names_after[j] == other);
                    }
                }
            }
        },
    }
}

/// A written entry joins the entries of its page: when the build is told
/// that the files of the current entry are written, and the current source
/// has further files, the metadata of the entry is the last of the entries
/// of the page, behind those that were there.
pub proof fn law_written_entry_is_kept(s: BuildView)
    requires
        s.wf(),
        s.stage == Stage::EntryWritten,
        s.file + 1 < s.files.len(),
    ensures
        s.next(ReplyView::Done).0.pending == s.pending.push(s.metadata->0),
        s.next(ReplyView::Done).0.index == s.index,
{
}

/// The listing index takes in every entry: when the build is told that the
/// files of the last entry of a source are written, the index holds, under
/// the name of the page, the entries of the page that were written before
/// and the one just written, in that order; and what it holds under every
/// other name stays.
pub proof fn law_index_holds_written_entries(s: BuildView, other: Seq<char>)
    requires
        s.wf(),
        s.stage == Stage::EntryWritten,
        s.file + 1 >= s.files.len(),
    ensures
        lookup(s.next(ReplyView::Done).0.index, s.page().name@) == Some(
            s.pending.push(s.metadata->0),
        ),
        other != s.page().name@ ==> lookup(s.next(ReplyView::Done).0.index, other) == lookup(
            s.index,
            other,
        ),
{
    let written = BuildView {
        pending: s.pending.push(s.metadata->0),
        metadata: None,
        file: s.file + 1,
        ..s
    };
    assert(written.page() == s.page());
    let closed = BuildView { task: written.task + 1, ..written.close_entry() };
    assert(s.next(ReplyView::Done) == closed.dispatch());
    assert(closed.dispatch().0.index == closed.index);
    law_index_with(s.index, s.page().name@, written.pending, other);
}

/// The index of a page is rendered after the entries: in the plan every
/// source of entries stands before every index, and while the build works
/// on an index the listing index does not change.
pub proof fn law_listings_see_the_whole_index(s: BuildView, reply: ReplyView, i: int, j: int)
    requires
        s.wf(),
        0 <= i < s.tasks().len(),
        0 <= j < s.tasks().len(),
        s.tasks()[i] is Entry,
        s.tasks()[j] is Listing,
    ensures
        i < j,
        s.stage == Stage::ListingPage || s.stage == Stage::ListingWritten ==> s.next(reply).0.index
            == s.index,
{
    lemma_plan_valid(s.pages, i);
    lemma_plan_valid(s.pages, j);
}

/// The build after it has been told `replies`, one after the other.
pub open spec fn run(config: Config, replies: Seq<ReplyView>) -> BuildView
    decreases replies.len(),
{
    if replies.len() == 0 {
        BuildView::start(config)
    } else {
        run(config, replies.drop_last()).next(replies.last()).0
    }
}

/// The entries that a run has written: for each, the position of its page
/// among the pages of the site and its metadata, in the order in which the
/// build was told that their files were written.
pub open spec fn written_entries(config: Config, replies: Seq<ReplyView>) -> Seq<(int, MetadataView)>
    decreases replies.len(),
{
    if replies.len() == 0 {
        Seq::empty()
    } else {
        let before = run(config, replies.drop_last());
        let log = written_entries(config, replies.drop_last());
        if before.stage == Stage::EntryWritten && replies.last() is Done {
            log.push((before.tasks()[before.task]->Entry_page as int, before.metadata->0))
        } else {
            log
        }
    }
}

/// The metadata of the entries of `log` that belong to the page at
/// position `page`, in their order.
pub open spec fn entries_of_page(log: Seq<(int, MetadataView)>, page: int) -> Seq<MetadataView>
    decreases log.len(),
{
    if log.len() == 0 {
        Seq::empty()
    } else if log.last().0 == page {
        entries_of_page(log.drop_last(), page).push(log.last().1)
    } else {
        entries_of_page(log.drop_last(), page)
    }
}

/// Whether no two pages with entries have the same name.
pub open spec fn page_names_differ(pages: Seq<Page>) -> bool {
    forall|i: int, j: int|
        0 <= i < j < pages.len() && pages[i] is WithEntries && pages[j] is WithEntries
            ==> pages[i].name() != pages[j].name()
}

/// Whether the build is at work on a source of entries.
spec fn in_source(stage: Stage) -> bool {
    stage == Stage::Listing || stage == Stage::Source || stage == Stage::FrontMatter || stage
        == Stage::Rendered || stage == Stage::EntryWritten
}

/// The position of the page that the build is at work on, or, past the
/// first pass, the number of pages.
spec fn reached(s: BuildView) -> int {
    if s.on_entry() {
        s.tasks()[s.task]->Entry_page as int
    } else {
        s.pages.len() as int
    }
}

/// What the index of `s` holds for the page at `page`, in view of `log`.
spec fn page_listed(s: BuildView, log: Seq<(int, MetadataView)>, page: int) -> bool {
    entries_of_page(log, page).len() > 0 ==> lookup(s.index, s.pages[page].name()) == Some(
        entries_of_page(log, page),
    )
}

/// What links a build to the entries that were written on the way to it.
spec fn linked(s: BuildView, log: Seq<(int, MetadataView)>) -> bool {
    s.stage == Stage::Failed || {
        &&& s.wf()
        &&& page_names_differ(s.pages)
        &&& s.stage == Stage::Ready ==> log.len() == 0 && s.pending.len() == 0
        &&& forall|k: int|
            0 <= k < log.len() ==> 0 <= (#[trigger] log[k]).0 < s.pages.len() && log[k].0 <= reached(
                s,
            ) && s.pages[log[k].0] is WithEntries
        &&& in_source(s.stage) ==> entries_of_page(log, reached(s)) == s.pending
        &&& forall|page: int|
            0 <= page < s.pages.len() && s.pages[page] is WithEntries && (in_source(s.stage)
                ==> page != reached(s)) ==> #[trigger] page_listed(s, log, page)
    }
}

/// A page beyond every page of the log has no entries in it.
proof fn lemma_no_entries_yet(log: Seq<(int, MetadataView)>, bound: int, page: int)
    requires
        forall|k: int| 0 <= k < log.len() ==> (#[trigger] log[k]).0 <= bound,
        bound < page,
    ensures
        entries_of_page(log, page) == Seq::<MetadataView>::empty(),
    decreases log.len(),
{
    if log.len() > 0 {
        assert(log.last() == log[log.len() - 1]);
        assert forall|k: int| 0 <= k < log.drop_last().len() implies (#[trigger] log.drop_last()[k]).0
            <= bound by {
            assert(log.drop_last()[k] == log[k]);
        }
        lemma_no_entries_yet(log.drop_last(), bound, page);
    }
}

/// The link holds when a build past its first pass turns to its task.
proof fn lemma_linked_past_entries(s: BuildView, log: Seq<(int, MetadataView)>)
    requires
        s.pages.len() <= usize::MAX,
        page_names_differ(s.pages),
        0 <= s.task <= s.tasks().len(),
        0 <= s.feed <= s.feeds.len(),
        0 <= s.file,
        !s.on_entry(),
        forall|k: int|
            0 <= k < log.len() ==> 0 <= (#[trigger] log[k]).0 < s.pages.len()
                && s.pages[log[k].0] is WithEntries,
        forall|page: int|
            0 <= page < s.pages.len() && s.pages[page] is WithEntries ==> #[trigger] page_listed(
                s,
                log,
                page,
            ),
    ensures
        linked(s.dispatch().0, log),
{
    let t = s.dispatch().0;
    lemma_dispatch_keeps_wf(s);
    if s.task < s.tasks().len() {
        lemma_plan_valid(s.pages, s.task);
    }
    assert(t.index == s.index);
    assert(t.tasks() == s.tasks());
    assert(!t.on_entry());
    assert(!in_source(t.stage));
    assert(reached(t) == s.pages.len());
    assert forall|page: int|
        0 <= page < t.pages.len() && t.pages[page] is WithEntries implies #[trigger] page_listed(
        t,
        log,
        page,
    ) by {
        assert(page_listed(s, log, page));
    }
}

/// The link holds when a build turns to a source of entries, given that
/// the log has nothing of the page of the source unless the source is a
/// later one of the page that the entries of `s.pending` belong to.
proof fn lemma_linked_into_source(s: BuildView, log: Seq<(int, MetadataView)>)
    requires
        s.pages.len() <= usize::MAX,
        page_names_differ(s.pages),
        s.on_entry(),
        0 <= s.feed <= s.feeds.len(),
        0 <= s.file,
        forall|k: int|
            0 <= k < log.len() ==> 0 <= (#[trigger] log[k]).0 < s.pages.len() && log[k].0 <= reached(
                s,
            ) && s.pages[log[k].0] is WithEntries,
        s.tasks()[s.task]->Entry_entry == 0 ==> entries_of_page(log, reached(s)) == Seq::<
            MetadataView,
        >::empty(),
        s.tasks()[s.task]->Entry_entry != 0 ==> entries_of_page(log, reached(s)) == s.pending,
        forall|page: int|
            0 <= page < s.pages.len() && s.pages[page] is WithEntries && page != reached(s)
                ==> #[trigger] page_listed(s, log, page),
    ensures
        linked(s.dispatch().0, log),
{
    let t = s.dispatch().0;
    lemma_plan_valid(s.pages, s.task);
    lemma_dispatch_keeps_wf(s);
    if t.stage != Stage::Failed {
        assert(t.task == s.task);
        assert(t.tasks() == s.tasks());
        assert(t.index == s.index);
        assert(reached(t) == reached(s));
        assert(in_source(t.stage));
        assert forall|page: int|
            0 <= page < t.pages.len() && t.pages[page] is WithEntries && page != reached(t)
                implies #[trigger] page_listed(t, log, page) by {
            assert(page_listed(s, log, page));
        }
    }
}

/// The link holds when a build goes on with its source.
proof fn lemma_linked_work(s: BuildView, log: Seq<(int, MetadataView)>)
    requires
        s.pages.len() <= usize::MAX,
        page_names_differ(s.pages),
        s.on_entry(),
        0 <= s.feed <= s.feeds.len(),
        0 <= s.file,
        forall|k: int|
            0 <= k < log.len() ==> 0 <= (#[trigger] log[k]).0 < s.pages.len() && log[k].0 <= reached(
                s,
            ) && s.pages[log[k].0] is WithEntries,
        entries_of_page(log, reached(s)) == s.pending,
        forall|page: int|
            0 <= page < s.pages.len() && s.pages[page] is WithEntries && page != reached(s)
                ==> #[trigger] page_listed(s, log, page),
    ensures
        linked(s.work().0, log),
{
    let here = reached(s);
    lemma_plan_valid(s.pages, s.task);
    lemma_work_keeps_wf(s);
    if s.file < s.files.len() {
        let t = s.start_file().0;
        if t.stage != Stage::Failed {
            assert(t.tasks() == s.tasks());
            assert(reached(t) == here);
            assert forall|page: int|
                0 <= page < t.pages.len() && t.pages[page] is WithEntries && page != reached(t)
                    implies #[trigger] page_listed(t, log, page) by {
                assert(page_listed(s, log, page));
            }
        }
    } else {
        let closed = BuildView { task: s.task + 1, ..s.close_entry() };
        let name = s.page().name@;
        assert(s.pages[here].name() == name);
        assert(closed.tasks() == s.tasks());
        s.feeds_grow();
        // What the index holds once the source is closed.
        assert forall|page: int|
            0 <= page < s.pages.len() && s.pages[page] is WithEntries implies #[trigger] page_listed(
            closed,
            log,
            page,
        ) by {
            law_index_with(s.index, name, s.pending, s.pages[page].name());
            if page != here {
                assert(page_listed(s, log, page));
                if page < here {
                    assert(s.pages[page].name() != s.pages[here].name());
                } else {
                    assert(s.pages[here].name() != s.pages[page].name());
                }
            }
        }
        if closed.on_entry() {
            lemma_plan_valid(s.pages, s.task + 1);
            lemma_entry_tasks_follow(s.pages, s.task);
            assert(closed.tasks()[closed.task] == entry_tasks(s.pages)[s.task + 1]);
            assert(s.tasks()[s.task] == entry_tasks(s.pages)[s.task]);
            let there = reached(closed);
            if there > here {
                lemma_no_entries_yet(log, here, there);
            }
            lemma_linked_into_source(closed, log);
        } else {
            lemma_linked_past_entries(closed, log);
        }
    }
}

/// The log after the build `s`, with the log `log` behind it, has been told
/// `reply`.
spec fn log_after(s: BuildView, log: Seq<(int, MetadataView)>, reply: ReplyView) -> Seq<
    (int, MetadataView),
> {
    if s.stage == Stage::EntryWritten && reply is Done {
        log.push((s.tasks()[s.task]->Entry_page as int, s.metadata->0))
    } else {
        log
    }
}

/// The link holds from one build to the next.
proof fn lemma_linked_next(s: BuildView, log: Seq<(int, MetadataView)>, reply: ReplyView)
    requires
        linked(s, log),
    ensures
        linked(s.next(reply).0, log_after(s, log, reply)),
{
    let t = s.next(reply).0;
    let after = log_after(s, log, reply);
    if s.stage == Stage::Finished || s.stage == Stage::Failed || reply is Failed {
    } else {
        lemma_next_keeps_wf(s, reply);
        if s.task < s.tasks().len() {
            lemma_plan_valid(s.pages, s.task);
        }
        match (s.stage, reply) {
            (Stage::Ready, ReplyView::Start) => {
                assert(log =~= Seq::<(int, MetadataView)>::empty());
                assert(s.pending =~= Seq::<MetadataView>::empty());
                if s.on_entry() {
                    lemma_linked_into_source(s, log);
                } else {
                    lemma_linked_past_entries(s, log);
                }
            },
            (Stage::Listing, ReplyView::Listing(listing)) => {
                let u = BuildView { files: crate::paths::markdown_files(listing), file: 0, ..s };
                assert(reached(u) == reached(s));
                assert forall|page: int|
                    0 <= page < u.pages.len() && u.pages[page] is WithEntries && page != reached(u)
                        implies #[trigger] page_listed(u, log, page) by {
                    assert(page_listed(s, log, page));
                }
                lemma_linked_work(u, log);
            },
            (Stage::Source, ReplyView::Text(markdown)) => {
                lemma_linked_same_place(s, t, log);
            },
            (Stage::FrontMatter, ReplyView::Metadata(metadata)) => {
                lemma_linked_same_place(s, t, log);
            },
            (Stage::Rendered, ReplyView::Rendered { page, feed }) => {
                lemma_linked_same_place(s, t, log);
            },
            (Stage::EntryWritten, ReplyView::Done) => {
                let here = reached(s);
                let u = BuildView {
                    pending: s.pending.push(s.metadata->0),
                    metadata: None,
                    file: s.file + 1,
                    ..s
                };
                assert(reached(u) == here);
                assert(after.drop_last() =~= log);
                assert(after.last() == (here, s.metadata->0));
                assert forall|k: int| 0 <= k < after.len() implies 0 <= (#[trigger] after[k]).0
                    < u.pages.len() && after[k].0 <= reached(u) && u.pages[after[k].0] is WithEntries by {
                    if k < log.len() {
                        assert(after[k] == log[k]);
                    }
                }
                assert forall|page: int|
                    0 <= page < u.pages.len() && u.pages[page] is WithEntries && page != reached(u)
                        implies #[trigger] page_listed(u, after, page) by {
                    assert(page_listed(s, log, page));
                    assert(entries_of_page(after, page) == entries_of_page(log, page));
                }
                lemma_linked_work(u, after);
            },
            (Stage::ListingPage, ReplyView::Text(html)) => {
                lemma_linked_same_place(s, t, log);
            },
            (Stage::ListingWritten, ReplyView::Done) => {
                let u = BuildView { task: s.task + 1, ..s };
                if u.task < u.tasks().len() {
                    lemma_plan_valid(s.pages, u.task);
                }
                assert forall|page: int|
                    0 <= page < u.pages.len() && u.pages[page] is WithEntries
                        implies #[trigger] page_listed(u, log, page) by {
                    assert(page_listed(s, log, page));
                }
                lemma_linked_past_entries(u, log);
            },
            (Stage::FeedWritten, ReplyView::Done) => {
                let u = BuildView { feed: s.feed + 1, ..s };
                assert forall|page: int|
                    0 <= page < u.pages.len() && u.pages[page] is WithEntries
                        implies #[trigger] page_listed(u, log, page) by {
                    assert(page_listed(s, log, page));
                }
                lemma_linked_past_entries(u, log);
            },
            _ => {},
        }
    }
}

/// The link holds from a build to one that stands at the same task with
/// the same index and the same entries of its page.
proof fn lemma_linked_same_place(s: BuildView, t: BuildView, log: Seq<(int, MetadataView)>)
    requires
        linked(s, log),
        s.stage != Stage::Failed,
        s.stage != Stage::Ready,
        t.stage == Stage::Failed || {
            &&& t.wf()
            &&& t.pages == s.pages
            &&& t.task == s.task
            &&& t.index == s.index
            &&& t.pending == s.pending
            &&& t.stage != Stage::Ready
            &&& in_source(t.stage) == in_source(s.stage)
        },
    ensures
        linked(t, log),
{
    if t.stage != Stage::Failed {
        assert(t.tasks() == s.tasks());
        assert(reached(t) == reached(s));
        assert forall|page: int|
            0 <= page < t.pages.len() && t.pages[page] is WithEntries && (in_source(t.stage)
                ==> page != reached(t)) implies #[trigger] page_listed(t, log, page) by {
            assert(page_listed(s, log, page));
        }
    }
}

/// The link holds along every run of a site whose pages with entries have
/// different names.
proof fn lemma_linked_run(config: Config, replies: Seq<ReplyView>)
    requires
        page_names_differ(config.pages@),
    ensures
        linked(run(config, replies), written_entries(config, replies)),
    decreases replies.len(),
{
    if replies.len() == 0 {
        assert(config.pages@.len() == config.pages.len());
    } else {
        lemma_linked_run(config, replies.drop_last());
        lemma_linked_next(
            run(config, replies.drop_last()),
            written_entries(config, replies.drop_last()),
            replies.last(),
        );
    }
}

/// The listing index that a listing template sees holds every entry that
/// was written: in a site whose pages with entries have different names,
/// whenever a run has come to the point where the index of a page is
/// rendered, the listing index holds, under the name of each page of which
/// an entry was written, the metadata of all the written entries of that
/// page, in the order in which they were written.
pub proof fn law_listing_index_holds_every_entry(config: Config, replies: Seq<ReplyView>, page: int)
    requires
        page_names_differ(config.pages@),
        run(config, replies).stage == Stage::ListingPage,
        0 <= page < config.pages@.len(),
        config.pages@[page] is WithEntries,
        entries_of_page(written_entries(config, replies), page).len() > 0,
    ensures
        lookup(run(config, replies).index, config.pages@[page].name()) == Some(
            entries_of_page(written_entries(config, replies), page),
        ),
{
    lemma_linked_run(config, replies);
    lemma_run_keeps_pages(config, replies);
    let s = run(config, replies);
    assert(page_listed(s, written_entries(config, replies), page));
}

/// A run does not change the pages of its site.
proof fn lemma_run_keeps_pages(config: Config, replies: Seq<ReplyView>)
    ensures
        run(config, replies).pages == config.pages@,
    decreases replies.len(),
{
    if replies.len() > 0 {
        lemma_run_keeps_pages(config, replies.drop_last());
        lemma_next_keeps_pages(run(config, replies.drop_last()), replies.last());
    }
}

/// A build does not change the pages of its site.
proof fn lemma_next_keeps_pages(s: BuildView, reply: ReplyView)
    ensures
        s.next(reply).0.pages == s.pages,
{
}

/// The `id` of a heading is the slug of its text: a heading below the
/// first level, where it can be written at all, is the linked heading with
/// the slug of the text as `id`, around the text as it is, with the address
/// of the heading in its link.
pub proof fn law_heading_id_is_slug(
    level: HeadingLevel,
    text: Seq<char>,
    base: Seq<char>,
    page_path: Seq<char>,
)
    requires
        level != HeadingLevel::H1,
        heading_html(level, text, base, page_path) is Some,
    ensures
        heading_href(base, page_path, slug_of(text)) is Some,
        heading_html(level, text, base, page_path) == Some(
            linked_heading(
                level.tag(),
                slug_of(text),
                heading_href(base, page_path, slug_of(text))->0,
                text,
            ),
        ),
{
}

/// A text is its own slug where each step of making a slug leaves it alone:
/// a text without spaces that is in lowercase and has no whitespace at its
/// ends.
pub proof fn law_slug_of_a_finished_slug(text: Seq<char>)
    requires
        !text.contains(' '),
        lowercased(text) == text,
        trimmed(text) == text,
    ensures
        slug_of(text) == text,
{
    assert forall|i: int| 0 <= i < text.len() implies text[i] != ' ' by {
        if text[i] == ' ' {
            assert(text.contains(' '));
        }
    }
    assert(hyphenate(text) =~= text);
}

/// A first-level heading has no link and no `id`, whatever the site.
pub proof fn law_first_level_heading_is_plain(text: Seq<char>, base: Seq<char>, page_path: Seq<char>)
    ensures
        heading_html(HeadingLevel::H1, text, base, page_path) == Some("<h1>"@ + text + "</h1>"@),
{
}

/// The HTML of a code block is a matter of its text, its language and the
/// state of the folds alone: the same three give the same HTML.
pub proof fn law_code_block_deterministic(
    text: Seq<char>,
    lang: Option<Seq<char>>,
    st: FoldState,
    text_again: Seq<char>,
    lang_again: Option<Seq<char>>,
    st_again: FoldState,
)
    requires
        text == text_again,
        lang == lang_again,
        st == st_again,
    ensures
        code_block_html(text, is_diff(lang), st) == code_block_html(
            text_again,
            is_diff(lang_again),
            st_again,
        ),
{
}

/// The Unix times follow the timestamps: in metadata whose derived fields
/// agree with its timestamps, a Unix time is there exactly when its
/// timestamp is, and is the seconds of that timestamp.
pub proof fn law_unix_times_follow_timestamps(m: MetadataView)
    requires
        m.timestamps_agree(),
    ensures
        m.created_at is Some <==> m.unix_created_at is Some,
        m.updated_at is Some <==> m.unix_updated_at is Some,
        m.created_at is Some ==> m.unix_created_at == crate::metadata::rfc3339_epoch_seconds(
            m.created_at->0,
        ),
        m.updated_at is Some ==> m.unix_updated_at == crate::metadata::rfc3339_epoch_seconds(
            m.updated_at->0,
        ),
{
}

} // verus!
