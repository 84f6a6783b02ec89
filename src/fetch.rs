use vstd::prelude::*;
use crate::codec::Page;
use crate::error::AkcClientError;

verus! {

/// How many items each page request asks for.
pub const PAGE_SIZE: u32 = 100;

// ---------------------------------------------------------------------------
// Sequential strategy: one page at a time until a short page comes back.

/// A sequential fetch in progress: the offset of the page to ask for next and
/// the items collected so far.
#[derive(Debug)]
pub struct SequentialFetch<T> {
    pub offset: u32,
    pub collected: Vec<T>,
}

/// What a sequential fetch does after a page arrives.
#[derive(Debug)]
pub enum SequentialStep<T> {
    /// Ask for the next page.
    Next(SequentialFetch<T>),
    /// The collection is complete.
    Done(Vec<T>),
    /// The fetch is abandoned with this error; no partial result is kept.
    Failed(AkcClientError),
}

/// The abstract effect of one page on a sequential fetch.
pub enum Advance<T> {
    Continue { offset: int, collected: Seq<T> },
    Complete(Seq<T>),
    Overflow,
}

/// A page whose count falls short of the page size is the last one; after a
/// full page the offset moves on by a page, as long as it fits in a `u32`.
pub open spec fn sequential_advance<T>(offset: int, collected: Seq<T>, items: Seq<T>, count: int) -> Advance<T> {
    if count < PAGE_SIZE {
        Advance::Complete(collected + items)
    } else if offset + PAGE_SIZE <= u32::MAX {
        Advance::Continue { offset: offset + PAGE_SIZE, collected: collected + items }
    } else {
        Advance::Overflow
    }
}

/// The error for a collection whose next offset no longer fits in a `u32`.
pub open spec fn offset_overflow(e: AkcClientError) -> bool {
    e is InternalError && e->InternalError_0@ == "collection offset out of range"@
}

impl<T> SequentialFetch<T> {
    /// A fetch that starts at offset 0 with nothing collected.
    pub fn new() -> (r: Self)
        ensures
            r.offset == 0,
            r.collected@ == Seq::<T>::empty(),
    {
        SequentialFetch { offset: 0, collected: Vec::new() }
    }

    /// Takes in the answer to the request at `self.offset`.
    pub fn receive(self, reply: Result<Page<T>, AkcClientError>) -> (r: SequentialStep<T>)
        ensures
            match reply {
                Err(e) => r == SequentialStep::<T>::Failed(e),
                Ok(p) => match sequential_advance(
                    self.offset as int,
                    self.collected@,
                    p.items@,
                    p.count as int,
                ) {
                    Advance::Complete(all) => r is Done && r->Done_0@ == all,
                    Advance::Continue { offset, collected } => {
                        &&& r is Next
                        &&& r->Next_0.offset == offset
                        &&& r->Next_0.collected@ == collected
                    },
                    Advance::Overflow => r is Failed && offset_overflow(r->Failed_0),
                },
            },
    {
        match reply {
            Err(e) => SequentialStep::Failed(e),
            Ok(page) => {
                let mut collected = self.collected;
                let mut items = page.items;
                collected.append(&mut items);
                if page.count < PAGE_SIZE {
                    SequentialStep::Done(collected)
                } else if self.offset <= u32::MAX - PAGE_SIZE {
                    SequentialStep::Next(SequentialFetch { offset: self.offset + PAGE_SIZE, collected })
                } else {
                    SequentialStep::Failed(
                        AkcClientError::InternalError(String::from_str("collection offset out of range")),
                    )
                }
            },
        }
    }
}

// ---------------------------------------------------------------------------
// Parallel strategy: the first page alone, then all the others at once.

/// The offsets of the pages to ask for once the first page reported `total`.
pub open spec fn parallel_offsets(total: int) -> Seq<int> {
    Seq::new((total / PAGE_SIZE as int) as nat, |k: int| (k + 1) * PAGE_SIZE)
}

/// All sequences of `ss`, one after the other.
pub open spec fn concat_all<T>(ss: Seq<Seq<T>>) -> Seq<T>
    decreases ss.len(),
{
    if ss.len() == 0 {
        Seq::empty()
    } else {
        concat_all(ss.drop_last()) + ss.last()
    }
}

/// The items of each successful page, in order.
pub open spec fn items_of<T>(pages: Seq<Result<Page<T>, AkcClientError>>) -> Seq<Seq<T>> {
    Seq::new(
        pages.len(),
        |i: int|
            match pages[i] {
                Ok(p) => p.items@,
                Err(_) => Seq::empty(),
            },
    )
}

/// The first failed page, in request order.
pub open spec fn first_error<T>(pages: Seq<Result<Page<T>, AkcClientError>>) -> Option<AkcClientError>
    decreases pages.len(),
{
    if pages.len() == 0 {
        None
    } else {
        match first_error(pages.drop_last()) {
            Some(e) => Some(e),
            None => match pages.last() {
                Err(e) => Some(e),
                Ok(_) => None,
            },
        }
    }
}

/// A parallel fetch whose first page has arrived.
#[derive(Debug)]
pub struct ParallelFetch<T> {
    /// The items of the first page.
    pub first: Vec<T>,
    /// The offsets of the remaining pages, to be asked for concurrently.
    pub offsets: Vec<u32>,
}

impl<T> ParallelFetch<T> {
    /// Takes in the answer to the first request (offset 0) and plans the
    /// others from the total it reports.
    pub fn start(reply: Result<Page<T>, AkcClientError>) -> (r: Result<ParallelFetch<T>, AkcClientError>)
        ensures
            match reply {
                Err(e) => r == Err::<ParallelFetch<T>, AkcClientError>(e),
                Ok(p) => {
                    &&& r is Ok
                    &&& r->Ok_0.first@ == p.items@
                    &&& r->Ok_0.offsets@.len() == parallel_offsets(p.total as int).len()
                    &&& forall|k: int|
                        0 <= k < r->Ok_0.offsets@.len() ==> #[trigger] r->Ok_0.offsets@[k] as int
                            == parallel_offsets(p.total as int)[k]
                },
            },
    {
        match reply {
            Err(e) => Err(e),
            Ok(page) => {
                let pages = page.total / PAGE_SIZE;
                let mut offsets: Vec<u32> = Vec::new();
                let mut k: u32 = 0;
                while k < pages
                    invariant
                        pages == page.total / PAGE_SIZE,
                        k <= pages,
                        offsets@.len() == k,
                        forall|m: int| 0 <= m < k ==> #[trigger] offsets@[m] as int == (m + 1) * PAGE_SIZE,
                    decreases pages - k,
                {
                    assert((k + 1) * PAGE_SIZE <= page.total);
                    offsets.push((k + 1) * PAGE_SIZE);
                    k = k + 1;
                }
                Ok(ParallelFetch { first: page.items, offsets })
            },
        }
    }

    /// Puts the collection together from the answers to `self.offsets`, in
    /// request order: the first page's items, then each page's items; or the
    /// first error in request order.
    pub fn finish(self, pages: Vec<Result<Page<T>, AkcClientError>>) -> (r: Result<Vec<T>, AkcClientError>)
        ensures
            match first_error(pages@) {
                Some(e) => r == Err::<Vec<T>, AkcClientError>(e),
                None => r is Ok && r->Ok_0@ == self.first@ + concat_all(items_of(pages@)),
            },
    {
        let mut acc = self.first;
        let mut queue = pages;
        let ghost all = queue@;
        let mut rest: Vec<Result<Page<T>, AkcClientError>> = Vec::new();
        // Walk the answers front to back; `rest` holds them reversed.
        let mut i: usize = queue.len();
        while i > 0
            invariant
                all == pages@,
                queue@ == all.take(i as int),
                rest@.len() == all.len() - i,
                forall|m: int| 0 <= m < rest@.len() ==> #[trigger] rest@[m] == all[all.len() - 1 - m],
            decreases i,
        {
            let p = queue.pop().unwrap();
            rest.push(p);
            i = i - 1;
            assert(queue@ =~= all.take(i as int));
        }
        let n = rest.len();
        let mut done: usize = 0;
        while done < n
            invariant
                all == pages@,
                n == all.len(),
                done <= n,
                rest@.len() == n - done,
                forall|m: int| 0 <= m < rest@.len() ==> #[trigger] rest@[m] == all[all.len() - 1 - m],
                first_error(all.take(done as int)) is None,
                acc@ == self.first@ + concat_all(items_of(all.take(done as int))),
            decreases n - done,
        {
            let p = rest.pop().unwrap();
            assert(p == all[done as int]);
            let ghost before = all.take(done as int);
            let ghost after = all.take(done + 1);
            assert(after.drop_last() =~= before);
            assert(items_of(after).drop_last() =~= items_of(before));
            match p {
                Err(e) => {
                    assert(first_error(all) == Some(e)) by {
                        lemma_first_error_prefix(all, done as int + 1);
                    }
                    return Err(e);
                },
                Ok(page) => {
                    let mut items = page.items;
                    acc.append(&mut items);
                },
            }
            done = done + 1;
        }
        assert(all.take(n as int) =~= all);
        Ok(acc)
    }
}

/// When a prefix of the answers already holds an error, that error is the
/// first one of all the answers.
proof fn lemma_first_error_prefix<T>(pages: Seq<Result<Page<T>, AkcClientError>>, k: int)
    requires
        0 <= k <= pages.len(),
        first_error(pages.take(k)) is Some,
    ensures
        first_error(pages) == first_error(pages.take(k)),
    decreases pages.len() - k,
{
    if k < pages.len() {
        assert(pages.take(k + 1).drop_last() =~= pages.take(k));
        lemma_first_error_prefix(pages, k + 1);
    } else {
        assert(pages.take(k) =~= pages);
    }
}

// ---------------------------------------------------------------------------
// Both strategies against a remote that serves a fixed collection faithfully.

/// The page that a faithful remote serves for the collection `c` at `offset`:
/// up to a page size of items from there, and a count equal to their number.
pub open spec fn served_page<T>(c: Seq<T>, offset: int) -> Seq<T> {
    if offset >= c.len() {
        Seq::empty()
    } else if offset + PAGE_SIZE <= c.len() {
        c.subrange(offset, offset + PAGE_SIZE)
    } else {
        c.subrange(offset, c.len() as int)
    }
}

/// The sequential strategy run from `offset` with `collected` in hand against
/// a faithful remote for `c`: what it returns, and how many requests it makes.
pub open spec fn sequential_run<T>(c: Seq<T>, offset: int, collected: Seq<T>) -> (Seq<T>, nat)
    decreases c.len() - offset,
{
    let page = served_page(c, offset);
    match sequential_advance(offset, collected, page, page.len() as int) {
        Advance::Complete(all) => (all, 1nat),
        Advance::Continue { offset: next, collected: acc } => if offset < next <= c.len() {
            let rest = sequential_run(c, next, acc);
            (rest.0, rest.1 + 1)
        } else {
            (acc, 1nat)
        },
        Advance::Overflow => (collected, 1nat),
    }
}

/// The parallel strategy against a faithful remote for `c`: the first page,
/// then the pages at the offsets planned from the total it reports; what it
/// returns, and how many requests it makes.
pub open spec fn parallel_run<T>(c: Seq<T>) -> (Seq<T>, nat) {
    let offsets = parallel_offsets(c.len() as int);
    (
        served_page(c, 0) + concat_all(Seq::new(offsets.len(), |k: int| served_page(c, offsets[k]))),
        1 + offsets.len(),
    )
}

proof fn lemma_sequential_from<T>(c: Seq<T>, offset: int)
    requires
        c.len() <= u32::MAX,
        0 <= offset <= c.len(),
        offset % (PAGE_SIZE as int) == 0,
    ensures
        sequential_run(c, offset, c.take(offset)) == (c, ((c.len() - offset) / PAGE_SIZE as int + 1) as nat),
    decreases c.len() - offset,
{
    let page = served_page(c, offset);
    if offset + PAGE_SIZE <= c.len() {
        assert(page.len() == PAGE_SIZE);
        assert(c.take(offset) + page =~= c.take(offset + PAGE_SIZE));
        lemma_sequential_from(c, offset + PAGE_SIZE);
    } else {
        assert(page.len() < PAGE_SIZE);
        assert(c.take(offset) + page =~= c);
    }
}

/// The sequential strategy returns the whole collection, in order, after
/// `T / P + 1` requests: one per full page, and the short (possibly empty)
/// page that ends it.
pub proof fn sequential_fetch_returns_collection<T>(c: Seq<T>)
    requires
        c.len() <= u32::MAX,
    ensures
        sequential_run(c, 0, Seq::empty()) == (c, (c.len() as int / PAGE_SIZE as int + 1) as nat),
{
    assert(c.take(0) =~= Seq::<T>::empty());
    lemma_sequential_from(c, 0);
}

/// When the collection size is not a multiple of the page size, the
/// sequential strategy makes exactly `ceil(T / P)` requests.
pub proof fn sequential_fetch_request_count<T>(c: Seq<T>)
    requires
        c.len() <= u32::MAX,
        c.len() as int % (PAGE_SIZE as int) != 0,
    ensures
        sequential_run(c, 0, Seq::empty()).1 == (c.len() as int + PAGE_SIZE as int - 1) / PAGE_SIZE as int,
{
    sequential_fetch_returns_collection(c);
}

proof fn lemma_parallel_prefix<T>(c: Seq<T>, m: int)
    requires
        c.len() <= u32::MAX,
        0 <= m <= c.len() as int / PAGE_SIZE as int,
    ensures
        served_page(c, 0) + concat_all(
            Seq::new(m as nat, |k: int| served_page(c, parallel_offsets(c.len() as int)[k])),
        ) == c.take(
            if (m + 1) * PAGE_SIZE <= c.len() {
                (m + 1) * PAGE_SIZE
            } else {
                c.len() as int
            },
        ),
    decreases m,
{
    let offsets = parallel_offsets(c.len() as int);
    let pages = Seq::new(m as nat, |k: int| served_page(c, offsets[k]));
    if m == 0 {
        assert(concat_all(pages) =~= Seq::<T>::empty());
        if PAGE_SIZE <= c.len() {
            assert(served_page(c, 0) =~= c.take(PAGE_SIZE as int));
        } else {
            assert(served_page(c, 0) =~= c.take(c.len() as int));
        }
        assert(served_page(c, 0) + concat_all(pages) =~= served_page(c, 0));
    } else {
        lemma_parallel_prefix(c, m - 1);
        let shorter = Seq::new((m - 1) as nat, |k: int| served_page(c, offsets[k]));
        assert(pages.drop_last() =~= shorter);
        assert(offsets[m - 1] == m * PAGE_SIZE);
        assert(m * PAGE_SIZE <= c.len());
        let last = served_page(c, m * PAGE_SIZE);
        assert(pages.last() == last);
        if (m + 1) * PAGE_SIZE <= c.len() {
            assert(c.take(m * PAGE_SIZE) + last =~= c.take((m + 1) * PAGE_SIZE));
        } else {
            assert(c.take(m * PAGE_SIZE) + last =~= c.take(c.len() as int));
        }
        assert(served_page(c, 0) + concat_all(pages) =~= served_page(c, 0) + concat_all(shorter)
            + last);
    }
}

/// The parallel strategy returns the whole collection, in order, after
/// `1 + floor(T / P)` requests.
pub proof fn parallel_fetch_returns_collection<T>(c: Seq<T>)
    requires
        c.len() <= u32::MAX,
    ensures
        parallel_run(c) == (c, (1 + c.len() as int / PAGE_SIZE as int) as nat),
{
    let n = c.len() as int / PAGE_SIZE as int;
    lemma_parallel_prefix(c, n);
    assert(c.take(c.len() as int) =~= c);
}

/// Both strategies return the same sequence.
pub proof fn fetch_strategies_agree<T>(c: Seq<T>)
    requires
        c.len() <= u32::MAX,
    ensures
        sequential_run(c, 0, Seq::empty()).0 == parallel_run(c).0,
{
    sequential_fetch_returns_collection(c);
    parallel_fetch_returns_collection(c);
}

} // verus!
