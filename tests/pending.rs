use futures::future::{self, FutureResult};
use futures::{Async, Future};
use pending_requests::{
    Change, Count, Handle, Instrument, InstrumentFuture, NoInstrument, PassThrough,
    PendingRequests, RefCount, WithPendingRequests,
};

struct Svc;

fn call<M>(svc: &mut PendingRequests<Svc, M>) -> InstrumentFuture<FutureResult<(), ()>, M, Handle> {
    svc.dispatch(future::ok(()))
}

fn wait<M>(mut rsp: InstrumentFuture<FutureResult<(), ()>, M, Handle>) -> Result<M::Output, ()>
where
    M: Instrument<Handle, ()>,
{
    let result = match rsp.future_mut().poll() {
        Ok(Async::Ready(v)) => Ok(v),
        Ok(Async::NotReady) => panic!("an immediate completion is always ready"),
        Err(e) => Err(e),
    };
    rsp.complete(result)
}

#[test]
fn default() {
    let mut svc = PendingRequests::new(Svc);
    assert_eq!(svc.load(), Count(0));

    let rsp0 = call(&mut svc);
    assert_eq!(svc.load(), Count(1));

    let rsp1 = call(&mut svc);
    assert_eq!(svc.load(), Count(2));

    let () = wait(rsp0).unwrap();
    assert_eq!(svc.load(), Count(1));

    let () = wait(rsp1).unwrap();
    assert_eq!(svc.load(), Count(0));
}

struct IntoHandle;

impl Instrument<Handle, ()> for IntoHandle {
    type Output = Handle;

    fn instrument(i: Handle, (): ()) -> Handle {
        i
    }
}

#[test]
fn instrumented() {
    let mut svc = PendingRequests::new(Svc).with_instrument::<IntoHandle>();
    assert_eq!(svc.load(), Count(0));

    let rsp = call(&mut svc);
    assert_eq!(svc.load(), Count(1));
    let i0 = wait(rsp).unwrap();
    assert_eq!(svc.load(), Count(1));

    let rsp = call(&mut svc);
    assert_eq!(svc.load(), Count(2));
    let i1 = wait(rsp).unwrap();
    assert_eq!(svc.load(), Count(2));

    drop(i1);
    assert_eq!(svc.load(), Count(1));

    drop(i0);
    assert_eq!(svc.load(), Count(0));
}

#[test]
fn pass_through_retains_handles_until_released() {
    let mut svc = PendingRequests::new(Svc).with_instrument::<PassThrough>();
    let rsp0 = call(&mut svc);
    let rsp1 = call(&mut svc);
    let (h0, ()) = wait(rsp0).unwrap();
    let (h1, ()) = wait(rsp1).unwrap();
    assert_eq!(svc.load(), Count(2));
    drop(h0);
    assert_eq!(svc.load(), Count(1));
    drop(h1);
    assert_eq!(svc.load(), Count(0));
}

#[test]
fn cancelled_completion_releases_its_handle() {
    let mut svc = PendingRequests::new(Svc);
    let rsp0 = call(&mut svc);
    let rsp1 = call(&mut svc);
    assert_eq!(svc.load(), Count(2));
    drop(rsp0);
    assert_eq!(svc.load(), Count(1));
    let () = wait(rsp1).unwrap();
    assert_eq!(svc.load(), Count(0));
}

#[test]
fn dispatches_minus_completions_in_any_order() {
    let mut svc = PendingRequests::new(Svc);
    let mut open = Vec::new();
    for _ in 0..5 {
        open.push(call(&mut svc));
    }
    assert_eq!(svc.load(), Count(5));
    let last = open.pop().unwrap();
    let first = open.remove(0);
    let () = wait(last).unwrap();
    drop(first);
    assert_eq!(svc.load(), Count(3));
    for rsp in open {
        let () = wait(rsp).unwrap();
    }
    assert_eq!(svc.load(), Count(0));
}

#[test]
fn error_passes_through_and_releases_the_handle() {
    let mut svc = PendingRequests::new(Svc);
    let mut rsp: InstrumentFuture<FutureResult<u32, &str>, NoInstrument, Handle> =
        svc.dispatch(future::err("unreachable backend"));
    assert_eq!(svc.load(), Count(1));
    assert!(rsp.pending());
    let result = match rsp.future_mut().poll() {
        Ok(Async::Ready(v)) => Ok(v),
        Ok(Async::NotReady) => panic!("an immediate completion is always ready"),
        Err(e) => Err(e),
    };
    assert_eq!(rsp.complete(result), Err("unreachable backend"));
    assert!(!rsp.pending());
    assert_eq!(svc.load(), Count(0));
    drop(rsp);
    assert_eq!(svc.load(), Count(0));
}

#[test]
fn value_passes_through_no_instrument() {
    let mut rsp: InstrumentFuture<(), NoInstrument, u8> = InstrumentFuture::new(7u8, ());
    assert_eq!(rsp.complete(Ok::<u32, ()>(41)), Ok(41));
    let out: (u8, &str) = <PassThrough as Instrument<u8, &str>>::instrument(9, "body");
    assert_eq!(out, (9, "body"));
}

#[test]
fn count_from_ref_count() {
    assert_eq!(Count::from_ref_count(0), Count(0));
    assert_eq!(Count::from_ref_count(1), Count(0));
    assert_eq!(Count::from_ref_count(4), Count(3));
    assert_eq!(Count::from_ref_count(usize::MAX), Count(usize::MAX - 1));
    assert!(Count(1) < Count(2));
    assert_eq!(Count(5).value(), 5);
}

#[test]
fn ref_count_follows_shares() {
    let cell = RefCount::new();
    assert_eq!(cell.ref_count(), 1);
    assert_eq!(cell.pending(), Count(0));
    let a = cell.share();
    let h = Handle::new(&cell);
    assert_eq!(cell.ref_count(), 3);
    assert_eq!(cell.pending(), Count(2));
    drop(a);
    drop(h);
    assert_eq!(cell.ref_count(), 1);
}

#[test]
fn insert_is_decorated_with_no_load() {
    let change: Change<&str, Svc> = Change::Insert("a", Svc);
    match WithPendingRequests::<(), PassThrough>::decorate(change) {
        Change::Insert(k, p) => {
            assert_eq!(k, "a");
            assert_eq!(p.load(), Count(0));
        }
        Change::Remove(_) => panic!("an insertion stays an insertion"),
    }
}

#[test]
fn remove_is_forwarded_unchanged() {
    let change: Change<u32, Svc> = Change::Remove(17);
    match WithPendingRequests::<(), NoInstrument>::decorate(change) {
        Change::Remove(k) => assert_eq!(k, 17),
        Change::Insert(..) => panic!("a removal stays a removal"),
    }
}

#[test]
fn poll_change_keeps_errors_and_readiness() {
    let err: Result<Option<Change<u32, Svc>>, &str> = Err("discovery failed");
    assert!(matches!(
        WithPendingRequests::<(), NoInstrument>::poll_change(err),
        Err("discovery failed")
    ));
    let not_ready: Result<Option<Change<u32, Svc>>, &str> = Ok(None);
    assert!(matches!(
        WithPendingRequests::<(), NoInstrument>::poll_change(not_ready),
        Ok(None)
    ));
    let ready: Result<Option<Change<u32, Svc>>, &str> = Ok(Some(Change::Insert(3, Svc)));
    match WithPendingRequests::<(), NoInstrument>::poll_change(ready) {
        Ok(Some(Change::Insert(3, p))) => assert_eq!(p.load(), Count(0)),
        _ => panic!("a ready insertion is decorated"),
    }
}

#[test]
fn wrapped_stream_is_kept() {
    let mut d = WithPendingRequests::new(5u8).instrument::<PassThrough>();
    assert_eq!(*d.discover_mut(), 5);
    let mut svc = PendingRequests::new(Svc);
    let _ = svc.service();
    let _ = svc.service_mut();
}
