//! The pagination state machine.
//!
//! One machine stands for one lazily produced sequence of items.  The machine
//! never performs a fetch itself: when it needs a page it hands the consumer a
//! [`Step::Fetch`] carrying the page size and the offset, the consumer
//! performs the call and gives the outcome back through [`Paginator::provide`].
//! Ghost history fields record every fetch issued, every page received and
//! every item handed out, so the engine's guarantees — ordering, offset
//! advancement, termination, error short-circuiting — are stated and proved
//! over the whole history.

use vstd::prelude::*;

verus! {

/// One server-delivered batch of results plus a continuation indicator.
pub struct Page<T> {
    /// The payload of this page, in server order.
    pub items: Vec<T>,
    /// Present exactly when another page exists.  Its contents (a marker or a
    /// URL) are not interpreted by the engine.
    pub next: Option<String>,
}

/// What the consumer must do next to advance the sequence.
pub enum Step<T, E> {
    /// The next item of the sequence.
    Item(T),
    /// The last fetch failed; this error is the final element of the sequence.
    Error(E),
    /// Perform one page fetch with exactly these arguments and hand the
    /// outcome to [`Paginator::provide`].
    Fetch { page_size: u32, offset: u32 },
    /// The sequence is exhausted; nothing further will ever be produced.
    Done,
}

/// The total number of items across a sequence of pages.
pub open spec fn total_len<T>(pages: Seq<Seq<T>>) -> int
    decreases pages.len(),
{
    if pages.len() == 0 {
        0
    } else {
        total_len(pages.drop_last()) + pages.last().len()
    }
}

/// The concatenation of pages in fetch order: page by page, and within each
/// page in server order.
pub open spec fn concat_all<T>(pages: Seq<Seq<T>>) -> Seq<T>
    decreases pages.len(),
{
    if pages.len() == 0 {
        Seq::empty()
    } else {
        concat_all(pages.drop_last()) + pages.last()
    }
}

proof fn lemma_total_len_push<T>(pages: Seq<Seq<T>>, page: Seq<T>)
    ensures
        total_len(pages.push(page)) == total_len(pages) + page.len(),
{
    assert(pages.push(page).drop_last() =~= pages);
    assert(pages.push(page).last() =~= page);
}

proof fn lemma_concat_all_push<T>(pages: Seq<Seq<T>>, page: Seq<T>)
    ensures
        concat_all(pages.push(page)) == concat_all(pages) + page,
{
    assert(pages.push(page).drop_last() =~= pages);
    assert(pages.push(page).last() =~= page);
}

/// The pagination state machine: one machine per produced sequence.
///
/// The exec fields are the live state; the `Ghost` fields are the history the
/// engine's guarantees are stated over.  The well-formedness predicate
/// [`Paginator::wf`] ties the two together and every operation preserves it.
pub struct Paginator<T, E> {
    /// The number of items requested per page, fixed at construction.
    pub page_size: u32,
    /// The cursor: how many items have been fetched so far, and therefore the
    /// offset of the next fetch.
    pub offset: u32,
    /// The items of the current page not yet handed out, in server order.
    pub buffer: Vec<T>,
    /// Whether a further fetch is owed once `buffer` drains.  True at
    /// construction (the first page is always fetched) and thereafter exactly
    /// when the last page's `next` marker was present.
    pub more: bool,
    /// A fetch failure that has not yet been handed out.
    pub pending_error: Option<E>,
    /// The sequence is exhausted: every later step is [`Step::Done`].
    pub done: bool,
    /// History: the offset of each fetch whose outcome has been provided.
    pub fetches: Ghost<Seq<u32>>,
    /// History: the items of each successfully fetched page, in fetch order.
    pub pages: Ghost<Seq<Seq<T>>>,
    /// History: every item handed out so far, in order.
    pub yielded: Ghost<Seq<T>>,
    /// History: whether a fetch has failed.
    pub failed: Ghost<bool>,
}

impl<T, E> Paginator<T, E> {
    /// The machine's invariant, established by [`paginate`] and preserved by
    /// every operation.
    pub open spec fn wf(self) -> bool {
        // Items handed out, followed by the items still buffered, are exactly
        // the fetched pages concatenated in order.
        &&& self.yielded@ + self.buffer@ == concat_all(self.pages@)
        // The cursor counts the items fetched so far.
        &&& self.offset as int == total_len(self.pages@)
        // Each page answers one fetch; a failed fetch answers the last one.
        &&& self.fetches@.len() == self.pages@.len() + (if self.failed@ {
            1int
        } else {
            0int
        })
        // Fetch k was issued at the offset reached after the first k pages.
        &&& forall|k: int|
            0 <= k < self.fetches@.len() ==> (#[trigger] self.fetches@[k]) as int == total_len(
                self.pages@.take(k),
            )
        // An error waiting to be handed out came from a failed fetch.
        &&& self.pending_error is Some ==> self.failed@ && !self.done
        // After a failure nothing is buffered and no fetch is owed.
        &&& self.failed@ ==> self.buffer@.len() == 0 && !self.more
        // A failure whose error was already handed out ended the sequence.
        &&& self.failed@ && self.pending_error is None ==> self.done
        // An exhausted machine holds nothing back.
        &&& self.done ==> self.buffer@.len() == 0 && self.pending_error is None && !self.more
    }

    /// A machine as [`paginate`] returns it: cursor at zero, nothing fetched,
    /// nothing handed out, first fetch owed.
    pub open spec fn is_fresh(self, page_size: u32) -> bool {
        &&& self.page_size == page_size
        &&& self.offset == 0
        &&& self.buffer@ == Seq::<T>::empty()
        &&& self.more
        &&& self.pending_error is None
        &&& !self.done
        &&& self.fetches@ == Seq::<u32>::empty()
        &&& self.pages@ == Seq::<Seq<T>>::empty()
        &&& self.yielded@ == Seq::<T>::empty()
        &&& !self.failed@
    }

    /// The machine is waiting for a fetch outcome: nothing is buffered, no
    /// error is pending, the sequence is not exhausted, and a page is owed.
    pub open spec fn needs_fetch(self) -> bool {
        &&& !self.done
        &&& self.pending_error is None
        &&& self.buffer@.len() == 0
        &&& self.more
    }
}

/// Exactly how one call of [`Paginator::advance`] changes the machine and
/// which step it hands out.  The four arms are mutually exclusive on a
/// well-formed machine, so the step — and, for [`Step::Item`] and
/// [`Step::Error`], the value it carries — is fully determined by the state.
pub open spec fn advance_transition<T, E>(
    pre: Paginator<T, E>,
    post: Paginator<T, E>,
    step: Step<T, E>,
) -> bool {
    &&& post.page_size == pre.page_size
    &&& post.offset == pre.offset
    &&& post.fetches@ == pre.fetches@
    &&& post.pages@ == pre.pages@
    &&& post.failed@ == pre.failed@
    &&& match step {
        Step::Item(t) => {
            &&& pre.buffer@.len() > 0
            &&& t == pre.buffer@[0]
            &&& post.buffer@ == pre.buffer@.drop_first()
            &&& post.yielded@ == pre.yielded@.push(t)
            &&& post.more == pre.more
            &&& post.pending_error == pre.pending_error
            &&& post.done == pre.done
        },
        Step::Error(e) => {
            &&& pre.pending_error == Some(e)
            &&& post.pending_error is None
            &&& post.done
            &&& post.buffer@ == pre.buffer@
            &&& post.more == pre.more
            &&& post.yielded@ == pre.yielded@
        },
        Step::Fetch { page_size, offset } => {
            &&& pre.needs_fetch()
            &&& page_size == pre.page_size
            &&& offset == pre.offset
            &&& post == pre
        },
        Step::Done => {
            &&& pre.pending_error is None
            &&& pre.buffer@.len() == 0
            &&& !pre.more
            &&& post.done
            &&& post.buffer@ == pre.buffer@
            &&& post.pending_error is None
            &&& post.more == pre.more
            &&& post.yielded@ == pre.yielded@
        },
    }
}

/// Exactly how one call of [`Paginator::provide`] changes the machine: the
/// fetch just answered is recorded at the pre-state cursor, and the outcome
/// either buffers the page's items and advances the cursor, or parks the
/// error as the sequence's final element.
pub open spec fn provide_transition<T, E>(
    pre: Paginator<T, E>,
    post: Paginator<T, E>,
    fetched: Result<Page<T>, E>,
) -> bool {
    &&& post.page_size == pre.page_size
    &&& post.yielded@ == pre.yielded@
    &&& post.fetches@ == pre.fetches@.push(pre.offset)
    &&& !post.done
    &&& match fetched {
        Result::Ok(page) => {
            &&& post.buffer@ == page.items@
            &&& post.offset as int == pre.offset as int + page.items@.len()
            &&& post.more == (page.next is Some)
            &&& post.pages@ == pre.pages@.push(page.items@)
            &&& !post.failed@
            &&& post.pending_error is None
        },
        Result::Err(e) => {
            &&& post.pending_error == Some(e)
            &&& post.failed@
            &&& post.pages@ == pre.pages@
            &&& post.offset == pre.offset
            &&& post.buffer@.len() == 0
            &&& !post.more
        },
    }
}

impl<T, E> Paginator<T, E> {
    /// Hands out the next element of the sequence, or says what the consumer
    /// must do to obtain it.
    ///
    /// On a well-formed machine the answer is determined: an exhausted
    /// machine answers [`Step::Done`]; a parked fetch failure is handed out
    /// once as [`Step::Error`] and exhausts the sequence; a buffered item is
    /// handed out as [`Step::Item`]; otherwise either a fetch is owed and
    /// [`Step::Fetch`] names its arguments without changing the state, or the
    /// last page was final and the sequence ends cleanly.
    pub fn advance(&mut self) -> (step: Step<T, E>)
        requires
            old(self).wf(),
        ensures
            final(self).wf(),
            advance_transition(*old(self), *final(self), step),
    {
        if self.done {
            Step::Done
        } else if self.pending_error.is_some() {
            let e = self.pending_error.take().unwrap();
            self.done = true;
            Step::Error(e)
        } else if self.buffer.len() > 0 {
            let t = self.buffer.remove(0);
            self.yielded = Ghost(self.yielded@.push(t));
            proof {
                assert(old(self).buffer@.remove(0) =~= old(self).buffer@.drop_first());
                assert(self.yielded@ + self.buffer@ =~= old(self).yielded@ + old(self).buffer@);
            }
            Step::Item(t)
        } else if self.more {
            Step::Fetch { page_size: self.page_size, offset: self.offset }
        } else {
            self.done = true;
            Step::Done
        }
    }

    /// Accepts the outcome of the one fetch the machine asked for.
    ///
    /// On success the page's items are buffered for handing out, the cursor
    /// advances by exactly the number of items received (not by the nominal
    /// page size), and a further fetch is owed exactly when the page's `next`
    /// marker is present.  On failure the error is parked as the sequence's
    /// final element; the failed page contributes no items.
    pub fn provide(&mut self, fetched: Result<Page<T>, E>)
        requires
            old(self).wf(),
            old(self).needs_fetch(),
            fetched matches Ok(page) ==> old(self).offset + page.items@.len() <= u32::MAX,
        ensures
            final(self).wf(),
            provide_transition(*old(self), *final(self), fetched),
    {
        self.fetches = Ghost(self.fetches@.push(self.offset));
        match fetched {
            Ok(page) => {
                let Page { items, next } = page;
                let n = items.len();
                self.buffer = items;
                self.offset = self.offset + (n as u32);
                self.more = next.is_some();
                self.pages = Ghost(self.pages@.push(self.buffer@));
                proof {
                    lemma_total_len_push(old(self).pages@, self.buffer@);
                    lemma_concat_all_push(old(self).pages@, self.buffer@);
                    assert(old(self).yielded@ + old(self).buffer@ =~= old(self).yielded@);
                    assert(self.yielded@ + self.buffer@ =~= concat_all(self.pages@));
                    assert forall|k: int|
                        0 <= k < self.fetches@.len() implies (#[trigger] self.fetches@[k]) as int
                        == total_len(self.pages@.take(k)) by {
                        if k < old(self).fetches@.len() {
                            assert(self.pages@.take(k) =~= old(self).pages@.take(k));
                        } else {
                            assert(self.fetches@[k] == old(self).offset);
                            assert(self.pages@.take(k) =~= old(self).pages@);
                        }
                    }
                }
            },
            Err(e) => {
                self.pending_error = Some(e);
                self.more = false;
                self.failed = Ghost(true);
                proof {
                    assert forall|k: int|
                        0 <= k < self.fetches@.len() implies (#[trigger] self.fetches@[k]) as int
                        == total_len(self.pages@.take(k)) by {
                        if k < old(self).fetches@.len() {
                            assert(self.pages@.take(k) =~= old(self).pages@.take(k));
                        } else {
                            assert(self.fetches@[k] == old(self).offset);
                            assert(self.pages@.take(k) =~= old(self).pages@);
                        }
                    }
                }
            },
        }
    }
}

/// A pagination state machine together with the opaque context value that the
/// consumer passes to every fetch call.
///
/// The engine never reads or replaces the context: every operation leaves it
/// exactly as [`paginate_with_ctx`] stored it, so [`ContextPaginator::context`]
/// answers the same value before every fetch of the sequence's lifetime.
pub struct ContextPaginator<Ctx, T, E> {
    /// The context handed to [`paginate_with_ctx`], never replaced afterwards.
    pub ctx: Ctx,
    /// The pagination state machine proper.
    pub state: Paginator<T, E>,
}

impl<Ctx, T, E> ContextPaginator<Ctx, T, E> {
    /// As [`Paginator::advance`]; the context is left untouched.
    pub fn advance(&mut self) -> (step: Step<T, E>)
        requires
            old(self).state.wf(),
        ensures
            final(self).state.wf(),
            final(self).ctx == old(self).ctx,
            advance_transition(old(self).state, final(self).state, step),
    {
        self.state.advance()
    }

    /// As [`Paginator::provide`]; the context is left untouched.
    pub fn provide(&mut self, fetched: Result<Page<T>, E>)
        requires
            old(self).state.wf(),
            old(self).state.needs_fetch(),
            fetched matches Ok(page) ==> old(self).state.offset + page.items@.len() <= u32::MAX,
        ensures
            final(self).state.wf(),
            final(self).ctx == old(self).ctx,
            provide_transition(old(self).state, final(self).state, fetched),
    {
        self.state.provide(fetched)
    }

    /// The context to pass to the fetch call: always the value given at
    /// construction, unchanged for the sequence's whole lifetime.
    pub fn context(&self) -> (c: &Ctx)
        ensures
            *c == self.ctx,
    {
        &self.ctx
    }
}

/// Creates a fresh pagination sequence whose fetches are made with a shared
/// context value.
///
/// The machine itself is exactly the one [`paginate`] creates; the context is
/// stored beside it, handed out unchanged by [`ContextPaginator::context`] for
/// every fetch, and never touched by any operation.
pub fn paginate_with_ctx<Ctx, T, E>(ctx: Ctx, page_size: u32) -> (p: ContextPaginator<Ctx, T, E>)
    ensures
        p.state.wf(),
        p.state.is_fresh(page_size),
        p.ctx == ctx,
{
    ContextPaginator { ctx, state: paginate(page_size) }
}

/// Creates a fresh pagination sequence that will request `page_size` items
/// per fetch, starting at offset 0.
///
/// Each call produces an independent machine in the one fully determined
/// initial state (see [`crate::laws::lemma_idempotent_construction`]):
/// consuming one sequence cannot affect another.
pub fn paginate<T, E>(page_size: u32) -> (p: Paginator<T, E>)
    ensures
        p.wf(),
        p.is_fresh(page_size),
{
    let p = Paginator {
        page_size,
        offset: 0,
        buffer: Vec::new(),
        more: true,
        pending_error: None,
        done: false,
        fetches: Ghost(Seq::empty()),
        pages: Ghost(Seq::empty()),
        yielded: Ghost(Seq::empty()),
        failed: Ghost(false),
    };
    proof {
        assert(p.yielded@ + p.buffer@ =~= concat_all(p.pages@));
    }
    p
}

} // verus!
