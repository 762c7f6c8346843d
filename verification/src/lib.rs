//! A thread-confinement wrapper.
//!
//! `SendWrapper<T>` owns a single heap-allocated value and records the
//! identity of the thread that created it. The wrapper itself may be moved
//! freely between threads, but the payload may be read, written or released
//! only by the owning thread. Thread identity is handled as a plain,
//! comparable value (`ThreadId`); the surrounding runtime queries the current
//! thread and hands the identifier in, and carries out the verdicts
//! (`AccessAction`, `DropAction`) that the guarded operations return.

use vstd::prelude::*;

verus! {

/// An opaque, comparable, globally-unique identifier for a thread,
/// captured once when a wrapper is constructed and never recomputed.
#[derive(Clone, Copy, PartialEq, Eq, Structural, Debug)]
pub struct ThreadId {
    pub id: u64,
}

/// The two kinds of contract violation. Both mark programmer misuse and are
/// unrecoverable by design: the offending thread's unit of work is meant to
/// terminate, not to retry.
#[derive(Clone, Copy, PartialEq, Eq, Structural, Debug)]
pub enum Fault {
    /// A read or write was attempted from a non-owning thread.
    CrossThreadAccess,
    /// The wrapper was destroyed from a non-owning thread.
    CrossThreadDestruction,
}

impl Fault {
    /// The diagnostic text naming the violation.
    pub open spec fn spec_message(self) -> Seq<char> {
        match self {
            Fault::CrossThreadAccess => "accessed wrapped value from a thread different from the one it was created on"@,
            Fault::CrossThreadDestruction => "dropped wrapped value from a thread different from the one it was created on"@,
        }
    }

    /// Diagnostic message for this violation, for the runtime to report when
    /// it raises the fault.
    pub fn message(&self) -> (m: &'static str)
        ensures
            m@ == self.spec_message(),
    {
        match self {
            Fault::CrossThreadAccess => "accessed wrapped value from a thread different from the one it was created on",
            Fault::CrossThreadDestruction => "dropped wrapped value from a thread different from the one it was created on",
        }
    }
}

/// Verdict on an attempted read or write of the payload.
#[derive(Clone, Copy, PartialEq, Eq, Structural, Debug)]
pub enum AccessAction {
    /// The caller is the owning thread: hand out the reference.
    Grant,
    /// A non-owning thread asked: fail fatally with this fault.
    Raise(Fault),
}

/// Verdict on destruction of the wrapper.
#[derive(Clone, Copy, PartialEq, Eq, Structural, Debug)]
pub enum DropAction {
    /// Same-thread drop: run the payload's destructor and free the
    /// allocation. This is the only verdict that frees the payload.
    FreePayload,
    /// Cross-thread drop with no failure already in progress: raise this
    /// fault; the payload is deliberately leaked, never freed off-thread.
    Raise(Fault),
    /// Cross-thread drop while a failure is already propagating: raise no
    /// second fault, and again leak the payload.
    LeakSilently,
}

/// What an access attempt by thread `current` on a wrapper owned by thread
/// `owner` must do. Unlike destruction, access never looks at whether a
/// failure is already propagating: it is refused unconditionally.
pub open spec fn spec_access_action(owner: u64, current: u64) -> AccessAction {
    if owner == current {
        AccessAction::Grant
    } else {
        AccessAction::Raise(Fault::CrossThreadAccess)
    }
}

/// What destruction by thread `current` of a wrapper owned by thread `owner`
/// must do, given whether a failure is already propagating on `current`.
pub open spec fn spec_drop_action(owner: u64, current: u64, unwinding: bool) -> DropAction {
    if owner == current {
        DropAction::FreePayload
    } else if !unwinding {
        DropAction::Raise(Fault::CrossThreadDestruction)
    } else {
        DropAction::LeakSilently
    }
}

/// A container that lets a value be moved between threads while forbidding
/// every access to it from any thread other than the one that created the
/// wrapper.
pub struct SendWrapper<T> {
    data: Box<T>,
    owner: ThreadId,
}

impl<T> SendWrapper<T> {
    /// The wrapped value.
    pub closed spec fn value(self) -> T {
        *self.data
    }

    /// The identity of the owning (creating) thread.
    pub closed spec fn owner_id(self) -> u64 {
        self.owner.id
    }

    /// True exactly when a thread with identity `current` is the owning
    /// thread — the only thread ever permitted to touch the payload.
    pub open spec fn spec_valid(self, current: ThreadId) -> bool {
        self.owner_id() == current.id
    }

    /// Create a wrapper around `data`, owned by the calling thread, whose
    /// identity the runtime passes in as `current`.
    pub fn new(data: T, current: ThreadId) -> (w: SendWrapper<T>)
        ensures
            w.value() == data,
            w.owner_id() == current.id,
    {
        SendWrapper { data: Box::new(data), owner: current }
    }

    /// Pure check: is the thread with identity `current` the owner?
    /// Safe to call with any identity.
    pub fn valid(&self, current: ThreadId) -> (b: bool)
        ensures
            b == self.spec_valid(current),
    {
        self.owner.id == current.id
    }

    /// The recorded owner identity.
    pub fn owner(&self) -> (t: ThreadId)
        ensures
            t.id == self.owner_id(),
    {
        self.owner
    }

    /// Guarded read access. Only the owning thread may call this; the
    /// reference handed out is exactly the wrapped value, with no copying.
    pub fn get(&self, current: ThreadId) -> (r: &T)
        requires
            self.spec_valid(current),
        ensures
            *r == self.value(),
    {
        &*self.data
    }

    /// Read access for callers who want to branch instead of fail: `Some`
    /// exactly when `current` is the owning thread.
    pub fn try_get(&self, current: ThreadId) -> (r: Option<&T>)
        ensures
            r is Some <==> self.spec_valid(current),
            r matches Some(v) ==> *v == self.value(),
    {
        if self.valid(current) {
            Some(&*self.data)
        } else {
            None
        }
    }

    /// Guarded write access. Only the owning thread may call this; the owner
    /// identity is untouched, and the payload becomes whatever the caller
    /// writes through the returned reference.
    pub fn get_mut(&mut self, current: ThreadId) -> (r: &mut T)
        requires
            old(self).spec_valid(current),
        ensures
            *r == old(self).value(),
            final(self).owner_id() == old(self).owner_id(),
            final(self).value() == *final(r),
    {
        &mut *self.data
    }

    /// The verdict on an access attempt by thread `current`: granted for the
    /// owner, a fatal `CrossThreadAccess` for every other thread.
    pub fn access_action(&self, current: ThreadId) -> (a: AccessAction)
        ensures
            a == spec_access_action(self.owner_id(), current.id),
    {
        if self.valid(current) {
            AccessAction::Grant
        } else {
            AccessAction::Raise(Fault::CrossThreadAccess)
        }
    }

    /// The verdict on destroying this wrapper from thread `current`, given
    /// whether a failure is already propagating there: free on the owning
    /// thread; otherwise raise `CrossThreadDestruction` — suppressed, with
    /// the payload still leaked, when already unwinding.
    pub fn drop_action(&self, current: ThreadId, unwinding: bool) -> (a: DropAction)
        ensures
            a == spec_drop_action(self.owner_id(), current.id, unwinding),
    {
        if self.valid(current) {
            DropAction::FreePayload
        } else if !unwinding {
            DropAction::Raise(Fault::CrossThreadDestruction)
        } else {
            DropAction::LeakSilently
        }
    }

    /// Same-thread destruction: consume the wrapper and hand the payload
    /// back, releasing the heap allocation. Ownership makes the release
    /// happen exactly once; only the owning thread may call this.
    pub fn into_inner(self, current: ThreadId) -> (v: T)
        requires
            self.spec_valid(current),
        ensures
            v == self.value(),
    {
        *self.data
    }
}

/// A wrapper created on thread `a` answers the validity check positively on
/// `a` alone: on any other thread `b` the check is negative.
pub proof fn lemma_valid_only_on_owner<T>(w: SendWrapper<T>, a: ThreadId, b: ThreadId)
    requires
        w.owner_id() == a.id,
        a.id != b.id,
    ensures
        w.spec_valid(a),
        !w.spec_valid(b),
{
}

/// On the owning thread access is always granted, so a freshly created
/// wrapper read on its creating thread hands back exactly the value it was
/// built from.
pub proof fn lemma_owner_access_granted<T>(w: SendWrapper<T>, t: ThreadId)
    requires
        w.owner_id() == t.id,
    ensures
        w.spec_valid(t),
        spec_access_action(w.owner_id(), t.id) == AccessAction::Grant,
{
}

/// Access from a non-owning thread is refused with `CrossThreadAccess`,
/// always: no circumstance (in particular no unwinding state) suppresses it.
pub proof fn lemma_cross_thread_access_refused<T>(w: SendWrapper<T>, t: ThreadId)
    requires
        w.owner_id() != t.id,
    ensures
        !w.spec_valid(t),
        spec_access_action(w.owner_id(), t.id) == AccessAction::Raise(Fault::CrossThreadAccess),
{
}

/// Same-thread destruction frees the payload, whether or not a failure is
/// already propagating on the destroying thread.
pub proof fn lemma_owner_drop_frees(owner: u64, unwinding: bool)
    ensures
        spec_drop_action(owner, owner, unwinding) == DropAction::FreePayload,
{
}

/// Cross-thread destruction never frees the payload: with no failure in
/// progress it raises `CrossThreadDestruction`; while already unwinding it
/// is silently skipped. Either way the payload is leaked, not freed.
pub proof fn lemma_cross_thread_drop_leaks(owner: u64, current: u64, unwinding: bool)
    requires
        owner != current,
    ensures
        spec_drop_action(owner, current, unwinding) != DropAction::FreePayload,
        !unwinding ==> spec_drop_action(owner, current, unwinding) == DropAction::Raise(
            Fault::CrossThreadDestruction,
        ),
        unwinding ==> spec_drop_action(owner, current, unwinding) == DropAction::LeakSilently,
{
}

/// The verdicts depend only on the stored owner identity and the thread that
/// asks: two wrappers with the same owner are treated alike on every thread,
/// however either one has travelled in between.
pub proof fn lemma_residency_irrelevant<T>(w1: SendWrapper<T>, w2: SendWrapper<T>, t: ThreadId, unwinding: bool)
    requires
        w1.owner_id() == w2.owner_id(),
    ensures
        w1.spec_valid(t) == w2.spec_valid(t),
        spec_access_action(w1.owner_id(), t.id) == spec_access_action(w2.owner_id(), t.id),
        spec_drop_action(w1.owner_id(), t.id, unwinding) == spec_drop_action(
            w2.owner_id(),
            t.id,
            unwinding,
        ),
{
}

} // verus!
