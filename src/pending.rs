use std::marker::PhantomData;
use vstd::prelude::*;

use crate::count::{Count, Handle, RefCount};
use crate::instrument::{Instrument, NoInstrument};

verus! {

/// Decorates an endpoint with a load metric: the number of its requests that
/// are currently pending. `M` decides when a request stops being pending.
pub struct PendingRequests<S, M = NoInstrument> {
    service: S,
    ref_count: RefCount,
    dispatched: Ghost<nat>,
    _p: PhantomData<M>,
}

impl<S> PendingRequests<S, NoInstrument> {
    /// Decorates `service`, which then has no request pending.
    pub fn new(service: S) -> (r: Self)
        ensures
            r.inner() == service,
            r.dispatched() == 0,
    {
        PendingRequests {
            service,
            ref_count: RefCount::new(),
            dispatched: Ghost(0),
            _p: PhantomData,
        }
    }

    /// The same decorator, with its load determined by the instrumentation
    /// strategy `M`.
    pub fn with_instrument<M>(self) -> (r: PendingRequests<S, M>)
        ensures
            r.inner() == self.inner(),
            r.cell() == self.cell(),
            r.dispatched() == self.dispatched(),
    {
        PendingRequests {
            service: self.service,
            ref_count: self.ref_count,
            dispatched: self.dispatched,
            _p: PhantomData,
        }
    }
}

impl<S, M> PendingRequests<S, M> {
    /// The decorated endpoint.
    pub closed spec fn inner(self) -> S {
        self.service
    }

    /// How many requests have been dispatched through this decorator.
    pub closed spec fn dispatched(self) -> nat {
        self.dispatched@
    }

    /// The identity of the counter cell whose references this decorator
    /// counts: its own and those of the handles it issued.
    pub closed spec fn cell(self) -> int {
        self.ref_count.id()
    }

    fn handle(&self) -> (r: Handle)
        ensures
            r.cell() == self.cell(),
    {
        Handle::new(&self.ref_count)
    }

    /// The number of requests currently pending: the handles alive on this
    /// decorator's cell (`cell`). The count is read from `Arc` at run time,
    /// so only its bound is stated.
    pub fn load(&self) -> (r: Count)
        ensures
            r.0 < usize::MAX,
    {
        self.ref_count.pending()
    }

    /// The decorated endpoint.
    pub fn service(&self) -> (r: &S)
        ensures
            *r == self.inner(),
    {
        &self.service
    }

    /// The decorated endpoint, to ask it for readiness or hand it a request.
    pub fn service_mut(&mut self) -> (r: &mut S)
        ensures
            *r == old(self).inner(),
    {
        &mut self.service
    }

    /// Attaches a fresh handle to `future`, the completion that the
    /// decorated endpoint returned for a request: the request is pending
    /// until the result is instrumented, or the completion is dropped.
    pub fn dispatch<F>(&mut self, future: F) -> (r: InstrumentFuture<F, M, Handle>)
        ensures
            r.inner() == future,
            r.held() matches Some(h) && h.cell() == old(self).cell(),
            final(self).inner() == old(self).inner(),
            final(self).cell() == old(self).cell(),
            final(self).dispatched() == old(self).dispatched() + 1,
    {
        let handle = self.handle();
        self.dispatched = Ghost(self.dispatched@ + 1);
        InstrumentFuture::new(handle, future)
    }
}

/// A request's completion together with the handle that keeps the request
/// pending. When the completion resolves, `M` decides what becomes of the
/// handle.
#[derive(Debug)]
pub struct InstrumentFuture<F, M, H> {
    future: F,
    handle: Option<H>,
    _p: PhantomData<M>,
}

impl<F, M, H> InstrumentFuture<F, M, H> {
    /// The wrapped completion.
    pub closed spec fn inner(self) -> F {
        self.future
    }

    /// The handle, while the completion has not yet been instrumented.
    pub closed spec fn held(self) -> Option<H> {
        self.handle
    }

    /// Whether the completion still holds its handle.
    pub open spec fn is_pending(self) -> bool {
        self.held() is Some
    }

    /// Wraps `future`, holding `handle` until it resolves.
    pub fn new(handle: H, future: F) -> (r: Self)
        ensures
            r.inner() == future,
            r.held() == Some(handle),
    {
        InstrumentFuture { future, handle: Some(handle), _p: PhantomData }
    }

    /// Whether the result has not yet been handed out.
    pub fn pending(&self) -> (r: bool)
        ensures
            r == self.is_pending(),
    {
        self.handle.is_some()
    }

    /// The wrapped completion, to be polled.
    pub fn future_mut(&mut self) -> (r: &mut F)
        ensures
            *r == old(self).inner(),
    {
        &mut self.future
    }

    /// Instruments `result`, what the wrapped completion resolved to. A
    /// value goes to `M` with the handle; an error passes unchanged and the
    /// handle is released. Either way the handle leaves the completion.
    pub fn complete<T, E>(&mut self, result: Result<T, E>) -> (r: Result<M::Output, E>) where
        M: Instrument<H, T>,
        requires
            old(self).is_pending(),
        ensures
            !final(self).is_pending(),
            final(self).inner() == old(self).inner(),
            match result {
                Ok(v) => r matches Ok(out) && M::instruments(old(self).held().unwrap(), v, out),
                Err(e) => r == Err::<M::Output, E>(e),
            },
    {
        let handle = self.handle.take().unwrap();
        match result {
            Ok(v) => Ok(M::instrument(handle, v)),
            Err(e) => Err(e),
        }
    }
}

} // verus!
