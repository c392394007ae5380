use vstd::prelude::*;

verus! {

/// What happens to a completed unit of work: the handle that kept it pending
/// and the result of the work go in, what the caller observes comes out.
/// This is invoked exactly once per dispatched request, on completion,
/// whether the work succeeded or failed.
pub trait Instrument<H, V> {
    type Output;

    /// How `out` relates to the handle and the value it was made from. A
    /// strategy that states nothing leaves it at `true`.
    open spec fn instruments(handle: H, value: V, out: Self::Output) -> bool {
        true
    }

    fn instrument(handle: H, value: V) -> (out: Self::Output)
        ensures
            Self::instruments(handle, value, out),
    ;
}

/// Releases the handle as soon as the work completes, so that a request is
/// pending exactly from dispatch to completion. The value passes unchanged.
#[derive(Clone, Copy, Debug, Default)]
pub struct NoInstrument;

impl<H, V> Instrument<H, V> for NoInstrument {
    type Output = V;

    open spec fn instruments(handle: H, value: V, out: V) -> bool {
        out == value
    }

    fn instrument(handle: H, value: V) -> (out: V) {
        value
    }
}

/// Hands the handle out together with the value, so that the request stays
/// pending until the caller releases the handle.
#[derive(Clone, Copy, Debug, Default)]
pub struct PassThrough;

impl<H, V> Instrument<H, V> for PassThrough {
    type Output = (H, V);

    open spec fn instruments(handle: H, value: V, out: (H, V)) -> bool {
        out == (handle, value)
    }

    fn instrument(handle: H, value: V) -> (out: (H, V)) {
        (handle, value)
    }
}

} // verus!
