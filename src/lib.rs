//! Load measurement by pending requests: a decorator that counts the
//! requests in flight to an endpoint, and one that applies it to every
//! endpoint that discovery announces.
mod count;
mod discover;
mod instrument;
mod ledger;
mod pending;

pub use count::{pending_of_refs, Count, Handle, RefCount};
pub use discover::{decorates, Change, WithPendingRequests};
pub use instrument::{Instrument, NoInstrument, PassThrough};
pub use pending::{InstrumentFuture, PendingRequests};
pub use ledger::{
    after, completions, dispatches, enabled, lemma_cancel_is_resolve, lemma_fresh_load_is_zero,
    lemma_load_is_dispatches_minus_completions, lemma_retained_handles_stay_pending,
    lemma_settled_load_is_zero, live_after, load_after, possible, refs_after, Live, Step,
};
