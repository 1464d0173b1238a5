//! The order of the work of a build: first every source of entries, page by
//! page, then the index of every page.

use vstd::prelude::*;
use crate::site::{Entry, Page};

verus! {

/// One piece of the work.
#[derive(Clone, Copy, Debug, PartialEq, Eq, Structural)]
pub enum Task {
    /// All the entries of the source `entry` of the page `page`.
    Entry { page: usize, entry: usize },
    /// The index of the page `page`.
    Listing { page: usize },
}

/// The tasks that the page at position `at` adds to the first pass: one
/// for each of its sources, in their order, and none for a page without
/// entries.
pub open spec fn page_tasks(at: int, page: Page) -> Seq<Task> {
    match page {
        Page::WithEntries(with) => Seq::new(
            with.entries@.len(),
            |e: int| Task::Entry { page: at as usize, entry: e as usize },
        ),
        Page::Standalone(_) => Seq::empty(),
    }
}

/// The first pass: the sources of the pages, in the order of the pages.
pub open spec fn entry_tasks(pages: Seq<Page>) -> Seq<Task>
    decreases pages.len(),
{
    if pages.len() == 0 {
        Seq::empty()
    } else {
        entry_tasks(pages.drop_last()) + page_tasks(pages.len() - 1, pages.last())
    }
}

/// The second pass: the index of every page, in the order of the pages.
pub open spec fn listing_tasks(pages: Seq<Page>) -> Seq<Task> {
    Seq::new(pages.len(), |p: int| Task::Listing { page: p as usize })
}

/// The whole work.
pub open spec fn plan_of(pages: Seq<Page>) -> Seq<Task> {
    entry_tasks(pages) + listing_tasks(pages)
}

/// Whether a task speaks of a page, and of a source, that `pages` has.
pub open spec fn task_valid(pages: Seq<Page>, task: Task) -> bool {
    match task {
        Task::Entry { page, entry } => {
            &&& page < pages.len()
            &&& pages[page as int] matches Page::WithEntries(with)
            &&& entry < with.entries@.len()
        },
        Task::Listing { page } => page < pages.len(),
    }
}

/// Every task of the first pass is a valid `Entry` task.
pub proof fn lemma_entry_tasks_valid(pages: Seq<Page>, i: int)
    requires
        pages.len() <= usize::MAX,
        0 <= i < entry_tasks(pages).len(),
    ensures
        entry_tasks(pages)[i] is Entry,
        task_valid(pages, entry_tasks(pages)[i]),
    decreases pages.len(),
{
    let head = entry_tasks(pages.drop_last());
    if i < head.len() {
        lemma_entry_tasks_valid(pages.drop_last(), i);
        let task = head[i];
        assert(pages.drop_last()[task->Entry_page as int] == pages[task->Entry_page as int]);
    } else {
        let with = pages.last()->WithEntries_0;
        assert(with.entries@.len() == with.entries.len());
    }
}

/// In the first pass a task is followed by the next source of the same
/// page, or else by the first source of a later page.
pub proof fn lemma_entry_tasks_follow(pages: Seq<Page>, i: int)
    requires
        pages.len() <= usize::MAX,
        0 <= i,
        i + 1 < entry_tasks(pages).len(),
    ensures
        ({
            let here = entry_tasks(pages)[i];
            let there = entry_tasks(pages)[i + 1];
            ||| there->Entry_page == here->Entry_page && there->Entry_entry == here->Entry_entry + 1
            ||| there->Entry_page > here->Entry_page && there->Entry_entry == 0
        }),
    decreases pages.len(),
{
    let head = entry_tasks(pages.drop_last());
    let with = pages.last()->WithEntries_0;
    if i + 1 < head.len() {
        lemma_entry_tasks_follow(pages.drop_last(), i);
    } else if i < head.len() {
        lemma_entry_tasks_valid(pages.drop_last(), i);
        assert(with.entries@.len() == with.entries.len());
    } else {
        assert(with.entries@.len() == with.entries.len());
    }
}

/// Every task of the plan is valid; the tasks of the first pass come
/// first, and the others are `Listing` tasks.
pub proof fn lemma_plan_valid(pages: Seq<Page>, i: int)
    requires
        pages.len() <= usize::MAX,
        0 <= i < plan_of(pages).len(),
    ensures
        task_valid(pages, plan_of(pages)[i]),
        i < entry_tasks(pages).len() <==> plan_of(pages)[i] is Entry,
{
    if i < entry_tasks(pages).len() {
        lemma_entry_tasks_valid(pages, i);
    }
}

/// Lays out the work for `pages`.
pub fn plan(pages: &Vec<Page>) -> (tasks: Vec<Task>)
    ensures
        tasks@ == plan_of(pages@),
{
    let mut tasks: Vec<Task> = Vec::new();
    let mut p: usize = 0;
    assert(pages@.take(0) =~= Seq::<Page>::empty());
    while p < pages.len()
        invariant
            0 <= p <= pages@.len(),
            tasks@ == entry_tasks(pages@.take(p as int)),
        decreases pages@.len() - p,
    {
        let ghost before = tasks@;
        assert(pages@.take(p + 1).drop_last() =~= pages@.take(p as int));
        assert(pages@.take(p + 1).last() == pages@[p as int]);
        match &pages[p] {
            Page::WithEntries(with) => {
                let mut e: usize = 0;
                while e < with.entries.len()
                    invariant
                        0 <= e <= with.entries@.len(),
                        pages@[p as int] == Page::WithEntries(*with),
                        tasks@ == before + page_tasks(p as int, pages@[p as int]).take(e as int),
                    decreases with.entries@.len() - e,
                {
                    tasks.push(Task::Entry { page: p, entry: e });
                    e += 1;
                }
                assert(page_tasks(p as int, pages@[p as int]).take(e as int) =~= page_tasks(
                    p as int,
                    pages@[p as int],
                ));
            },
            Page::Standalone(_) => {
                assert(tasks@ =~= before + page_tasks(p as int, pages@[p as int]));
            },
        }
        p += 1;
    }
    assert(pages@.take(pages@.len() as int) =~= pages@);
    let ghost first = tasks@;
    let mut q: usize = 0;
    while q < pages.len()
        invariant
            0 <= q <= pages@.len(),
            tasks@ == first + listing_tasks(pages@).take(q as int),
        decreases pages@.len() - q,
    {
        tasks.push(Task::Listing { page: q });
        q += 1;
    }
    assert(listing_tasks(pages@).take(q as int) =~= listing_tasks(pages@));
    tasks
}

} // verus!
