use send_wrapper::{AccessAction, DropAction, Fault, SendWrapper, ThreadId};
use std::cell::Cell;
use std::collections::VecDeque;
use std::rc::Rc;

/// A payload that records how many times its destructor ran.
struct Counted {
    hits: Rc<Cell<usize>>,
}

impl Drop for Counted {
    fn drop(&mut self) {
        self.hits.set(self.hits.get() + 1);
    }
}

#[test]
fn test_valid() {
    let here = ThreadId { id: 1 };
    let elsewhere = ThreadId { id: 2 };
    let w = SendWrapper::new(5usize, here);
    assert!(w.valid(here));
    assert!(!w.valid(elsewhere));
}

#[test]
fn test_deref() {
    let here = ThreadId { id: 1 };
    let w = SendWrapper::new(42, here);
    assert_eq!(*w.get(here), 42);
    // Reading again is fine: access does not consume anything.
    assert_eq!(*w.get(here), 42);
    assert_eq!(*w.try_get(here).unwrap(), 42);
}

#[test]
fn test_owner_recorded() {
    let here = ThreadId { id: 9 };
    let w = SendWrapper::new("payload", here);
    assert_eq!(w.owner(), here);
    assert_eq!(w.access_action(here), AccessAction::Grant);
}

#[test]
fn test_cross_thread_access_refused() {
    let here = ThreadId { id: 1 };
    let elsewhere = ThreadId { id: 2 };
    let w = SendWrapper::new(42, here);
    assert!(w.try_get(elsewhere).is_none());
    assert_eq!(
        w.access_action(elsewhere),
        AccessAction::Raise(Fault::CrossThreadAccess)
    );
    // Unlike destruction, access is refused on every thread other than the
    // owner, with no further condition.
    let third = ThreadId { id: 3 };
    assert_eq!(
        w.access_action(third),
        AccessAction::Raise(Fault::CrossThreadAccess)
    );
}

#[test]
fn test_get_mut_round_trip() {
    let here = ThreadId { id: 4 };
    let mut w = SendWrapper::new(42, here);
    *w.get_mut(here) = 7;
    assert_eq!(*w.get(here), 7);
    // Writing never rebinds the wrapper to another thread.
    assert!(w.valid(here));
    assert!(!w.valid(ThreadId { id: 5 }));
}

#[test]
fn test_owner_drop_frees_exactly_once() {
    let here = ThreadId { id: 1 };
    let hits: Rc<Cell<usize>> = Rc::new(Cell::new(0));
    let w = SendWrapper::new(
        Counted {
            hits: Rc::clone(&hits),
        },
        here,
    );
    assert_eq!(w.drop_action(here, false), DropAction::FreePayload);
    assert_eq!(w.drop_action(here, true), DropAction::FreePayload);
    let payload = w.into_inner(here);
    assert_eq!(hits.get(), 0);
    drop(payload);
    assert_eq!(hits.get(), 1);
}

#[test]
fn test_cross_thread_drop_refused() {
    let here = ThreadId { id: 1 };
    let elsewhere = ThreadId { id: 2 };
    let hits: Rc<Cell<usize>> = Rc::new(Cell::new(0));
    let w = SendWrapper::new(
        Counted {
            hits: Rc::clone(&hits),
        },
        here,
    );
    assert_eq!(
        w.drop_action(elsewhere, false),
        DropAction::Raise(Fault::CrossThreadDestruction)
    );
    // The payload's destructor has not run on account of the verdict.
    assert_eq!(hits.get(), 0);
}

#[test]
fn test_cross_thread_drop_while_unwinding_is_silent() {
    let here = ThreadId { id: 1 };
    let elsewhere = ThreadId { id: 2 };
    let w = SendWrapper::new(42, here);
    assert_eq!(w.drop_action(elsewhere, true), DropAction::LeakSilently);
}

#[test]
fn test_messages() {
    assert_eq!(
        Fault::CrossThreadAccess.message(),
        "accessed wrapped value from a thread different from the one it was created on"
    );
    assert_eq!(
        Fault::CrossThreadDestruction.message(),
        "dropped wrapped value from a thread different from the one it was created on"
    );
}

#[test]
fn test_transfer_round_trip() {
    // Built on thread 1, queued away, inspected (but never dereferenced)
    // while resident elsewhere, queued back, then read and destroyed on
    // thread 1: the residency in between causes no failure.
    let here = ThreadId { id: 1 };
    let elsewhere = ThreadId { id: 2 };
    let w = SendWrapper::new(42, here);

    let mut queue: VecDeque<SendWrapper<i32>> = VecDeque::new();
    queue.push_back(w);
    let held = queue.pop_front().unwrap();
    // On the non-owning thread the wrapper is inert: only moving it on is
    // possible; an attempted read must be refused.
    assert!(held.try_get(elsewhere).is_none());
    assert_eq!(
        held.access_action(elsewhere),
        AccessAction::Raise(Fault::CrossThreadAccess)
    );
    queue.push_back(held);
    let back = queue.pop_front().unwrap();

    assert!(back.valid(here));
    assert_eq!(*back.get(here), 42);
    assert_eq!(back.drop_action(here, false), DropAction::FreePayload);
    assert_eq!(back.into_inner(here), 42);
}
