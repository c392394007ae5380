use std::sync::Arc;
use vstd::prelude::*;

verus! {

/// The load that a cell read as `refs` live references stands for: every
/// reference but the decorator's own, and never less than zero.
pub open spec fn pending_of_refs(refs: nat) -> nat {
    if refs == 0 {
        0
    } else {
        (refs - 1) as nat
    }
}

/// The number of currently pending requests to one endpoint.
#[derive(Clone, Copy, Debug, Default, PartialEq, Eq, Structural, PartialOrd, Ord)]
pub struct Count(pub usize);

impl Count {
    /// The load for a cell whose live references number `refs`.
    pub fn from_ref_count(refs: usize) -> (r: Count)
        ensures
            r.0 == pending_of_refs(refs as nat),
    {
        if refs == 0 {
            Count(0)
        } else {
            Count(refs - 1)
        }
    }

    /// The number of pending requests.
    pub fn value(&self) -> (r: usize)
        ensures
            r == self.0,
    {
        self.0
    }
}

/// Relies on `Arc::strong_count`: the number of strong pointers to the
/// allocation, of which `a` itself is one.
#[verifier::external_body]
fn strong_count(a: &Arc<()>) -> (r: usize)
    ensures
        r >= 1,
{
    Arc::strong_count(a)
}

/// Relies on `Arc::clone`: a new strong pointer to the same allocation.
#[verifier::external_body]
fn share(a: &Arc<()>) -> (r: Arc<()>) {
    Arc::clone(a)
}

/// A shared cell whose live references are counted atomically: one held by
/// the decorator of an endpoint, one by each live `Handle`. The ghost value
/// names the cell, so that contracts can say which references share it.
pub struct RefCount(Arc<()>, Ghost<int>);

impl RefCount {
    /// The identity of the cell this value refers to.
    pub closed spec fn id(self) -> int {
        self.1@
    }

    /// A fresh cell, with the new value as its only reference.
    pub fn new() -> (r: RefCount) {
        RefCount(Arc::new(()), Ghost(arbitrary()))
    }

    /// One more reference to the same cell.
    pub fn share(&self) -> (r: RefCount)
        ensures
            r.id() == self.id(),
    {
        RefCount(share(&self.0), Ghost(self.1@))
    }

    /// The number of live references to the cell, `self` included.
    pub fn ref_count(&self) -> (r: usize)
        ensures
            r >= 1,
    {
        strong_count(&self.0)
    }

    /// The load that the cell stands for: its live references but the
    /// decorator's own. The count is read from the runtime at the moment of
    /// the call, so only its bound is stated here; `Count::from_ref_count`
    /// states the conversion exactly.
    pub fn pending(&self) -> (r: Count)
        ensures
            r.0 < usize::MAX,
    {
        let refs = self.ref_count();
        Count::from_ref_count(refs)
    }
}

/// One unit of outstanding work: while it is alive, it holds one reference
/// to the cell of the endpoint that issued it. Dropping it releases the
/// reference.
pub struct Handle(RefCount);

impl Handle {
    /// The identity of the cell this handle holds a reference to.
    pub closed spec fn cell(self) -> int {
        self.0.id()
    }

    /// A handle on the cell `cell` refers to.
    pub fn new(cell: &RefCount) -> (r: Handle)
        ensures
            r.cell() == cell.id(),
    {
        Handle(cell.share())
    }
}

} // verus!
