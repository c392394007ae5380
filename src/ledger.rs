use vstd::prelude::*;

use crate::count::pending_of_refs;

verus! {

// A model of the counting discipline on one endpoint's cell. The contracts of
// `PendingRequests::dispatch`, `InstrumentFuture::complete` and `Handle` say
// which handles are made on the decorator's cell and when they leave a
// completion; how many references are alive at a given moment is counted by
// `Arc` at run time, which no contract here can see. So the laws below hold of
// this model, and are not proved of the value that `load` reads.

/// What can happen to the work on one decorated endpoint.
pub enum Step {
    /// A request is dispatched: a handle is made and attached to it.
    Dispatch,
    /// A pending completion resolves and its result is instrumented.
    Resolve,
    /// A pending completion is dropped before it resolves.
    Cancel,
    /// The caller drops a handle that instrumentation handed out.
    Release,
}

/// The handles alive on an endpoint's cell: those attached to completions
/// still in flight, and those that instrumentation handed to the caller.
pub struct Live {
    /// Handles attached to completions that have not resolved.
    pub in_flight: nat,
    /// Handles that instrumentation handed out and the caller still holds.
    pub retained: nat,
}

/// Whether `step` can happen when `live` handles are alive.
pub open spec fn enabled(live: Live, step: Step) -> bool {
    match step {
        Step::Dispatch => true,
        Step::Resolve | Step::Cancel => live.in_flight > 0,
        Step::Release => live.retained > 0,
    }
}

/// The handles alive after `step`. `retains` tells whether instrumentation
/// hands the handle out on resolution (pass-through) or drops it (no-op).
pub open spec fn after(live: Live, step: Step, retains: bool) -> Live {
    match step {
        Step::Dispatch => Live { in_flight: live.in_flight + 1, retained: live.retained },
        Step::Resolve => Live {
            in_flight: (live.in_flight - 1) as nat,
            retained: if retains { live.retained + 1 } else { live.retained },
        },
        Step::Cancel => Live { in_flight: (live.in_flight - 1) as nat, retained: live.retained },
        Step::Release => Live { in_flight: live.in_flight, retained: (live.retained - 1) as nat },
    }
}

/// The handles alive after `steps`, on a freshly decorated endpoint.
pub open spec fn live_after(steps: Seq<Step>, retains: bool) -> Live
    decreases steps.len(),
{
    if steps.len() == 0 {
        Live { in_flight: 0, retained: 0 }
    } else {
        after(live_after(steps.drop_last(), retains), steps.last(), retains)
    }
}

/// Whether every step of `steps` can happen where it stands.
pub open spec fn possible(steps: Seq<Step>, retains: bool) -> bool
    decreases steps.len(),
{
    steps.len() == 0 || (possible(steps.drop_last(), retains) && enabled(
        live_after(steps.drop_last(), retains),
        steps.last(),
    ))
}

/// The live references to the cell after `steps`: the decorator's own and
/// one per live handle.
pub open spec fn refs_after(steps: Seq<Step>, retains: bool) -> nat {
    1 + live_after(steps, retains).in_flight + live_after(steps, retains).retained
}

/// The load that the model gives after `steps`: what `load` reads when the
/// cell's references are those the model counts.
pub open spec fn load_after(steps: Seq<Step>, retains: bool) -> nat {
    pending_of_refs(refs_after(steps, retains))
}

/// How many steps of `steps` are `Dispatch`.
pub open spec fn dispatches(steps: Seq<Step>) -> nat
    decreases steps.len(),
{
    if steps.len() == 0 {
        0
    } else {
        dispatches(steps.drop_last()) + if steps.last() is Dispatch { 1nat } else { 0nat }
    }
}

/// How many steps of `steps` end a pending request: `Resolve` or `Cancel`.
pub open spec fn completions(steps: Seq<Step>) -> nat
    decreases steps.len(),
{
    if steps.len() == 0 {
        0
    } else {
        completions(steps.drop_last()) + if steps.last() is Resolve || steps.last() is Cancel {
            1nat
        } else {
            0nat
        }
    }
}

/// With no-op instrumentation, the load after `dispatches` dispatches and
/// `completions` completions (resolved or dropped) is their difference,
/// whatever their order.
pub proof fn lemma_load_is_dispatches_minus_completions(steps: Seq<Step>)
    requires
        possible(steps, false),
    ensures
        completions(steps) <= dispatches(steps),
        load_after(steps, false) == dispatches(steps) - completions(steps),
        live_after(steps, false).retained == 0,
    decreases steps.len(),
{
    if steps.len() > 0 {
        lemma_load_is_dispatches_minus_completions(steps.drop_last());
    }
}

/// Dropping a pending completion lowers the load by one, exactly as its
/// resolution does under no-op instrumentation.
pub proof fn lemma_cancel_is_resolve(steps: Seq<Step>)
    requires
        possible(steps, false),
        live_after(steps, false).in_flight > 0,
    ensures
        possible(steps.push(Step::Cancel), false),
        possible(steps.push(Step::Resolve), false),
        load_after(steps.push(Step::Cancel), false) == load_after(steps.push(Step::Resolve), false),
        load_after(steps.push(Step::Cancel), false) + 1 == load_after(steps, false),
{
    lemma_load_is_dispatches_minus_completions(steps);
    assert(steps.push(Step::Cancel).drop_last() == steps);
    assert(steps.push(Step::Resolve).drop_last() == steps);
}

/// With no-op instrumentation, once every dispatched request has resolved or
/// been dropped, the load is back to zero.
pub proof fn lemma_settled_load_is_zero(steps: Seq<Step>)
    requires
        possible(steps, false),
        completions(steps) == dispatches(steps),
    ensures
        load_after(steps, false) == 0,
{
    lemma_load_is_dispatches_minus_completions(steps);
}

/// With pass-through instrumentation, a resolution leaves the load as it
/// was: the handle has only moved to the caller. Each handle the caller
/// releases lowers the load by one.
pub proof fn lemma_retained_handles_stay_pending(steps: Seq<Step>)
    requires
        possible(steps, true),
    ensures
        live_after(steps, true).in_flight > 0 ==> load_after(steps.push(Step::Resolve), true)
            == load_after(steps, true),
        live_after(steps, true).retained > 0 ==> load_after(steps.push(Step::Release), true) + 1
            == load_after(steps, true),
{
    assert(steps.push(Step::Resolve).drop_last() == steps);
    assert(steps.push(Step::Release).drop_last() == steps);
}

/// A freshly decorated endpoint has no load.
pub proof fn lemma_fresh_load_is_zero(retains: bool)
    ensures
        load_after(Seq::<Step>::empty(), retains) == 0,
{
}

} // verus!
