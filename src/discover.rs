use std::marker::PhantomData;
use vstd::prelude::*;

use crate::instrument::NoInstrument;
use crate::pending::PendingRequests;

verus! {

/// One change to the set of discovered endpoints.
#[derive(Debug)]
pub enum Change<K, V> {
    /// The endpoint `V` joins the set under the key `K`.
    Insert(K, V),
    /// The endpoint under the key `K` leaves the set.
    Remove(K),
}

/// Decorates every endpoint that a discovery stream announces with
/// `PendingRequests`, instrumented by `M`.
#[derive(Debug)]
pub struct WithPendingRequests<D, M = NoInstrument> {
    discover: D,
    _p: PhantomData<M>,
}

impl<D> WithPendingRequests<D, NoInstrument> {
    /// Wraps the discovery stream `discover`.
    pub fn new(discover: D) -> (r: Self)
        ensures
            r.inner() == discover,
    {
        WithPendingRequests { discover, _p: PhantomData }
    }

    /// The same stream, whose endpoints are instrumented by `M`.
    pub fn instrument<M>(self) -> (r: WithPendingRequests<D, M>)
        ensures
            r.inner() == self.inner(),
    {
        WithPendingRequests { discover: self.discover, _p: PhantomData }
    }
}

/// Whether `out` is `change` with a newly inserted endpoint decorated: the
/// same variant and key, and for an insertion a decorator around the same
/// endpoint through which nothing has been dispatched yet. That its cell is
/// a fresh one is `Arc::new`'s to ensure and is not stated here.
pub open spec fn decorates<K, S, M>(change: Change<K, S>, out: Change<K, PendingRequests<S, M>>) -> bool {
    match change {
        Change::Insert(k, s) => match out {
            Change::Insert(k2, p) => k2 == k && p.inner() == s && p.dispatched() == 0,
            Change::Remove(_) => false,
        },
        Change::Remove(k) => out == Change::<K, PendingRequests<S, M>>::Remove(k),
    }
}

impl<D, M> WithPendingRequests<D, M> {
    /// The wrapped discovery stream.
    pub closed spec fn inner(self) -> D {
        self.discover
    }

    /// The wrapped discovery stream, to be polled.
    pub fn discover_mut(&mut self) -> (r: &mut D)
        ensures
            *r == old(self).inner(),
    {
        &mut self.discover
    }

    /// Decorates the endpoint of an insertion; passes a removal unchanged.
    pub fn decorate<K, S>(change: Change<K, S>) -> (r: Change<K, PendingRequests<S, M>>)
        ensures
            decorates(change, r),
    {
        match change {
            Change::Insert(k, svc) => Change::Insert(k, PendingRequests::new(svc).with_instrument()),
            Change::Remove(k) => Change::Remove(k),
        }
    }

    /// Transforms what one poll of the wrapped stream gave: a change that is
    /// ready (`Some`) is decorated, one not yet ready (`None`) stays so, and
    /// a discovery error passes unchanged.
    pub fn poll_change<K, S, E>(polled: Result<Option<Change<K, S>>, E>) -> (r: Result<
        Option<Change<K, PendingRequests<S, M>>>,
        E,
    >)
        ensures
            match polled {
                Ok(Some(change)) => r matches Ok(Some(out)) && decorates(change, out),
                Ok(None) => r matches Ok(None),
                Err(e) => r == Err::<Option<Change<K, PendingRequests<S, M>>>, E>(e),
            },
    {
        match polled {
            Ok(Some(change)) => Ok(Some(Self::decorate(change))),
            Ok(None) => Ok(None),
            Err(e) => Err(e),
        }
    }
}

} // verus!
