//! The engine's guarantees, stated in one place.
//!
//! Each proof function below states one guarantee of the pagination engine
//! over the machine's ghost history — the fetches issued, the pages received
//! and the items handed out — and proves it from the machine's invariant and
//! its transition relations alone.

use vstd::prelude::*;

use crate::engine::{advance_transition, concat_all, total_len, Paginator, Step};

verus! {

/// The concatenation of any pages holds exactly their total number of items.
proof fn lemma_concat_all_len<T>(pages: Seq<Seq<T>>)
    ensures
        concat_all(pages).len() == total_len(pages),
    decreases pages.len(),
{
    if pages.len() > 0 {
        lemma_concat_all_len(pages.drop_last());
    }
}

/// Ordering: the items handed out so far, followed by the items still
/// buffered, are exactly the fetched pages concatenated in fetch order —
/// page by page, and within each page in server order.  In particular, once
/// the machine is exhausted the whole produced sequence is that
/// concatenation, with one element per item fetched, for any number of pages
/// and any item counts.
pub proof fn lemma_ordering<T, E>(p: Paginator<T, E>)
    requires
        p.wf(),
    ensures
        p.yielded@ + p.buffer@ == concat_all(p.pages@),
        p.yielded@.len() + p.buffer@.len() == total_len(p.pages@),
        p.done ==> p.yielded@ == concat_all(p.pages@),
{
    lemma_concat_all_len(p.pages@);
    if p.done {
        assert(p.yielded@ + p.buffer@ =~= p.yielded@);
    }
}

/// Offset advancement: the offset passed to fetch k+1 is the total number of
/// items returned by fetches 1..k — not k times the nominal page size, since
/// a short page advances the cursor only by the items it actually held.
pub proof fn lemma_offset_advancement<T, E>(p: Paginator<T, E>, k: int)
    requires
        p.wf(),
        0 <= k < p.fetches@.len(),
    ensures
        p.fetches@[k] as int == total_len(p.pages@.take(k)),
{
}

/// Termination: once a page whose `next` marker is absent has been received
/// without any fetch having failed, the fetch count stands at the page count
/// for good — no later step asks for a fetch or hands out an error — and as
/// soon as the buffered items have been handed out the sequence ends cleanly
/// with the items of exactly those pages.
pub proof fn lemma_termination<T, E>(p: Paginator<T, E>, q: Paginator<T, E>, step: Step<T, E>)
    requires
        p.wf(),
        !p.more,
        !p.failed@,
        advance_transition(p, q, step),
    ensures
        p.fetches@.len() == p.pages@.len(),
        !(step is Fetch),
        !(step is Error),
        !q.more,
        !q.failed@,
        p.buffer@.len() == 0 ==> (step is Done && q.done && q.yielded@ == concat_all(q.pages@)),
{
    if p.buffer@.len() == 0 {
        assert(p.yielded@ + p.buffer@ =~= p.yielded@);
    }
}

/// Idempotent construction: two machines built with the same page size are
/// equal in every respect — same cursor, same empty history.  Each machine is
/// exclusively owned by its consumer, so consuming one cannot affect the
/// offset or the results of the other.
pub proof fn lemma_idempotent_construction<T, E>(
    p: Paginator<T, E>,
    q: Paginator<T, E>,
    page_size: u32,
)
    requires
        p.is_fresh(page_size),
        q.is_fresh(page_size),
    ensures
        p.page_size == q.page_size,
        p.offset == q.offset,
        p.buffer@ == q.buffer@,
        p.more == q.more,
        p.pending_error == q.pending_error,
        p.done == q.done,
        p.fetches@ == q.fetches@,
        p.pages@ == q.pages@,
        p.yielded@ == q.yielded@,
        p.failed@ == q.failed@,
{
}

/// Error short-circuit: once a fetch has failed, the machine hands out no
/// further item and asks for no further fetch.  The items handed out are
/// exactly those of the pages received before the failure; the parked error
/// is handed out exactly once, as the sequence's final element, and every
/// step after it is `Done`.
pub proof fn lemma_error_short_circuit<T, E>(
    p: Paginator<T, E>,
    q: Paginator<T, E>,
    step: Step<T, E>,
)
    requires
        p.wf(),
        p.failed@,
        advance_transition(p, q, step),
    ensures
        !(step is Item),
        !(step is Fetch),
        q.failed@,
        q.yielded@ == p.yielded@,
        p.yielded@ == concat_all(p.pages@),
        p.pending_error matches Some(e) ==> (step == Step::<T, E>::Error(e) && q.done
            && q.pending_error is None),
        p.pending_error is None ==> step is Done,
{
    assert(p.yielded@ + p.buffer@ =~= p.yielded@);
}

} // verus!
