//! An automatic pagination engine.
//!
//! A paginated API hands out results one page at a time: each fetch takes a
//! page size and an offset and returns up to `page_size` items together with a
//! marker saying whether more pages exist.  This crate turns such a
//! page-oriented fetch capability into an item-oriented sequence, advancing
//! the offset automatically and stopping when the server signals the end.
//!
//! The engine is an explicit state machine: [`engine::Paginator`] (and its
//! context-carrying companion [`engine::ContextPaginator`]) decides at every
//! step whether the next element is a buffered item, a pending error, the end
//! of the sequence, or a fetch that the consumer must perform.  The consumer
//! performs the fetch — which may be asynchronous, retried, authenticated,
//! whatever the transport needs — and hands the outcome back.  Every decision
//! the machine makes is verified; the fetch itself stays with the caller.

pub mod engine;
pub mod laws;

pub use engine::{paginate, paginate_with_ctx, ContextPaginator, Page, Paginator, Step};
