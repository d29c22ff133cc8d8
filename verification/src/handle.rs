//! Guarded handles: exclusive, serialised and revocable access to long-lived
//! resources that concurrent callers name by number.
//!
//! A [`Registry`] keeps one slot per handle it ever gave out. A slot holds
//! its resource, or is held by the one operation that acquired it, or was
//! released for good. Handles are never given out twice, so a released
//! handle stays released.

use vstd::prelude::*;

use crate::error::{
    ErrorKind, NativeError, GQL_TRANSPORT_NOT_FOUND, KEY_STORE_NOT_FOUND, TON_WALLET_NOT_FOUND,
    UNSIGNED_MESSAGE_NOT_FOUND,
};

verus! {

/// The sort of resource that a registry guards. It decides the detail text
/// of the error for a handle whose resource is gone.
#[derive(Clone, Copy, Debug, PartialEq, Eq, Structural)]
pub enum ResourceKind {
    Wallet,
    Transport,
    KeyStore,
    Message,
}

impl ResourceKind {
    /// The detail text of the "not found" error for this sort of resource.
    pub open spec fn not_found_text(self) -> Seq<char> {
        match self {
            ResourceKind::Wallet => TON_WALLET_NOT_FOUND@,
            ResourceKind::Transport => GQL_TRANSPORT_NOT_FOUND@,
            ResourceKind::KeyStore => KEY_STORE_NOT_FOUND@,
            ResourceKind::Message => UNSIGNED_MESSAGE_NOT_FOUND@,
        }
    }

    /// The "not found" error for this sort of resource.
    pub fn not_found(self) -> (e: NativeError)
        ensures
            e@.kind == ErrorKind::HandleNotFound,
            e@.info == self.not_found_text(),
    {
        match self {
            ResourceKind::Wallet => NativeError::new(ErrorKind::HandleNotFound, TON_WALLET_NOT_FOUND),
            ResourceKind::Transport => NativeError::new(
                ErrorKind::HandleNotFound,
                GQL_TRANSPORT_NOT_FOUND,
            ),
            ResourceKind::KeyStore => NativeError::new(ErrorKind::HandleNotFound, KEY_STORE_NOT_FOUND),
            ResourceKind::Message => NativeError::new(
                ErrorKind::HandleNotFound,
                UNSIGNED_MESSAGE_NOT_FOUND,
            ),
        }
    }
}

/// What the slot behind a handle holds.
pub enum Slot<T> {
    /// The resource is here, free for the next acquirer.
    Available(T),
    /// One operation has the resource and has not restored it yet.
    Held,
    /// The resource was discarded; the handle is dead.
    Released,
}

/// The answer to an attempt that may have to wait for another operation.
#[derive(Debug)]
pub enum Attempt<T> {
    /// The attempt was served.
    Done(T),
    /// The handle is held by another operation: suspend, and try again
    /// once that operation has restored it.
    Wait,
}

/// The slot that `handle` names in `slots`, if it names one.
pub open spec fn names_slot<T>(slots: Seq<Slot<T>>, handle: u64) -> bool {
    (handle as int) < slots.len()
}

/// Whether operations on `handle` find a resource that is free.
pub open spec fn is_available<T>(slots: Seq<Slot<T>>, handle: u64) -> bool {
    names_slot(slots, handle) && slots[handle as int] is Available
}

/// Whether `handle` is held by an operation.
pub open spec fn is_held<T>(slots: Seq<Slot<T>>, handle: u64) -> bool {
    names_slot(slots, handle) && slots[handle as int] is Held
}

/// Whether `handle` was released.
pub open spec fn is_released<T>(slots: Seq<Slot<T>>, handle: u64) -> bool {
    names_slot(slots, handle) && slots[handle as int] is Released
}

/// The resource that waits behind an available handle.
pub open spec fn resource_of<T>(slots: Seq<Slot<T>>, handle: u64) -> T
    recommends
        is_available(slots, handle),
{
    slots[handle as int]->Available_0
}

/// One request to a registry.
pub enum Op<T> {
    /// Take the resource out for one operation.
    Acquire(u64),
    /// Put the resource back for the next acquirer.
    Restore(u64, T),
    /// Discard the resource for good.
    Release(u64),
    /// Look at the resource without taking it out.
    Inspect(u64),
    /// Give a new resource a handle.
    Register(T),
}

/// What a registry answers to one request.
pub enum Reply<T> {
    /// The resource, handed to the acquirer.
    Granted(T),
    /// The resource, shown to the caller; it stays in its slot.
    Shown(T),
    /// The handle is held: wait and try again.
    Wait,
    /// The handle names no resource.
    NotFound,
    /// The resource is back in its slot.
    Restored,
    /// The resource was not taken back: nobody holds this handle.
    Refused(T),
    /// The resource is discarded.
    Released,
    /// The new resource has this handle.
    Registered(u64),
}

/// The slots after one request.
pub open spec fn slots_after<T>(slots: Seq<Slot<T>>, op: Op<T>) -> Seq<Slot<T>> {
    match op {
        Op::Acquire(h) => if is_available(slots, h) {
            slots.update(h as int, Slot::Held)
        } else {
            slots
        },
        Op::Restore(h, t) => if is_held(slots, h) {
            slots.update(h as int, Slot::Available(t))
        } else {
            slots
        },
        Op::Release(h) => if is_available(slots, h) {
            slots.update(h as int, Slot::Released)
        } else {
            slots
        },
        Op::Inspect(_) => slots,
        Op::Register(t) => slots.push(Slot::Available(t)),
    }
}

/// The answer to one request.
pub open spec fn reply_to<T>(slots: Seq<Slot<T>>, op: Op<T>) -> Reply<T> {
    match op {
        Op::Acquire(h) => if is_available(slots, h) {
            Reply::Granted(resource_of(slots, h))
        } else if is_held(slots, h) {
            Reply::Wait
        } else {
            Reply::NotFound
        },
        Op::Restore(h, t) => if is_held(slots, h) {
            Reply::Restored
        } else {
            Reply::Refused(t)
        },
        Op::Release(h) => if is_available(slots, h) {
            Reply::Released
        } else if is_held(slots, h) {
            Reply::Wait
        } else {
            Reply::NotFound
        },
        Op::Inspect(h) => if is_available(slots, h) {
            Reply::Shown(resource_of(slots, h))
        } else if is_held(slots, h) {
            Reply::Wait
        } else {
            Reply::NotFound
        },
        Op::Register(_) => Reply::Registered(slots.len() as u64),
    }
}

/// The slots after a run of requests, served one after another.
pub open spec fn slots_after_all<T>(slots: Seq<Slot<T>>, ops: Seq<Op<T>>) -> Seq<Slot<T>>
    decreases ops.len(),
{
    if ops.len() == 0 {
        slots
    } else {
        slots_after(slots_after_all(slots, ops.drop_last()), ops.last())
    }
}

/// The answer to request number `i` of a run.
pub open spec fn reply_in_run<T>(slots: Seq<Slot<T>>, ops: Seq<Op<T>>, i: int) -> Reply<T>
    recommends
        0 <= i < ops.len(),
{
    reply_to(slots_after_all(slots, ops.take(i)), ops[i])
}

/// Whether an acquirer's answer carries this outcome of the registry.
pub open spec fn carries<T>(
    r: Attempt<Result<T, NativeError>>,
    reply: Reply<T>,
    kind: ResourceKind,
) -> bool {
    match reply {
        Reply::Granted(t) => r == Attempt::Done(Ok::<T, NativeError>(t)),
        Reply::Shown(t) => r == Attempt::Done(Ok::<T, NativeError>(t)),
        Reply::Wait => r is Wait,
        Reply::NotFound => r matches Attempt::Done(Err(e)) && e@.kind == ErrorKind::HandleNotFound
            && e@.info == kind.not_found_text(),
        _ => false,
    }
}

/// A table of guarded resources of one sort, named by handles.
pub struct Registry<T> {
    slots: Vec<Slot<T>>,
    kind: ResourceKind,
}

impl<T> View for Registry<T> {
    type V = Seq<Slot<T>>;

    closed spec fn view(&self) -> Seq<Slot<T>> {
        self.slots@
    }
}

impl<T> Registry<T> {
    /// The sort of resource that this registry guards.
    pub closed spec fn kind(&self) -> ResourceKind {
        self.kind
    }

    /// A registry without any handle.
    pub fn new(kind: ResourceKind) -> (r: Registry<T>)
        ensures
            r@.len() == 0,
            r.kind() == kind,
    {
        Registry { slots: Vec::new(), kind }
    }

    /// The number of handles given out so far.
    pub fn len(&self) -> (n: usize)
        ensures
            n == self@.len(),
    {
        self.slots.len()
    }

    /// Gives `resource` a handle of its own. The handle is the number of
    /// handles given out before, so no handle is ever given out twice.
    pub fn register(&mut self, resource: T) -> (handle: u64)
        ensures
            final(self).kind() == old(self).kind(),
            final(self)@ == slots_after(old(self)@, Op::Register(resource)),
            Reply::<T>::Registered(handle) == reply_to(old(self)@, Op::Register(resource)),
            is_available(final(self)@, handle),
            resource_of(final(self)@, handle) == resource,
    {
        let handle: u64 = self.slots.len() as u64;
        self.slots.push(Slot::Available(resource));
        handle
    }

    /// Takes the resource out for one operation.
    ///
    /// A free resource is handed over and the handle becomes held. A held
    /// handle answers [`Attempt::Wait`]. A handle that was released, or
    /// never given out, answers the "not found" error, now and ever after.
    pub fn acquire(&mut self, handle: u64) -> (r: Attempt<Result<T, NativeError>>)
        ensures
            final(self).kind() == old(self).kind(),
            final(self)@ == slots_after(old(self)@, Op::Acquire(handle)),
            carries(r, reply_to(old(self)@, Op::Acquire(handle)), old(self).kind()),
    {
        if handle >= self.slots.len() as u64 {
            return Attempt::Done(Err(self.kind.not_found()));
        }
        let i: usize = handle as usize;
        match &self.slots[i] {
            Slot::Held => {
                return Attempt::Wait;
            },
            Slot::Released => {
                return Attempt::Done(Err(self.kind.not_found()));
            },
            Slot::Available(_) => {},
        }
        let mut taken: Slot<T> = Slot::Held;
        core::mem::swap(&mut self.slots[i], &mut taken);
        match taken {
            Slot::Available(resource) => Attempt::Done(Ok(resource)),
            _ => Attempt::Wait,
        }
    }

    /// Puts `resource` back behind a held handle, free for the next
    /// acquirer, and answers `None`. Where nobody holds the handle, the
    /// registry stays as it is and the resource comes back in `Some`.
    pub fn restore(&mut self, handle: u64, resource: T) -> (left: Option<T>)
        ensures
            final(self).kind() == old(self).kind(),
            final(self)@ == slots_after(old(self)@, Op::Restore(handle, resource)),
            left is None <==> reply_to(old(self)@, Op::Restore(handle, resource)) is Restored,
            left matches Some(t) ==> t == resource,
    {
        if handle >= self.slots.len() as u64 {
            return Some(resource);
        }
        let i: usize = handle as usize;
        match &self.slots[i] {
            Slot::Held => {},
            _ => {
                return Some(resource);
            },
        }
        self.slots[i] = Slot::Available(resource);
        None
    }

    /// Discards the resource for good: every later operation on the handle
    /// answers "not found". A held handle answers [`Attempt::Wait`], and one
    /// that names no resource answers the "not found" error.
    pub fn release(&mut self, handle: u64) -> (r: Attempt<Result<(), NativeError>>)
        ensures
            final(self).kind() == old(self).kind(),
            final(self)@ == slots_after(old(self)@, Op::Release(handle)),
            match reply_to(old(self)@, Op::Release(handle)) {
                Reply::Released => r matches Attempt::Done(Ok(_)),
                Reply::Wait => r is Wait,
                _ => r matches Attempt::Done(Err(e)) && e@.kind == ErrorKind::HandleNotFound
                    && e@.info == old(self).kind().not_found_text(),
            },
    {
        if handle >= self.slots.len() as u64 {
            return Attempt::Done(Err(self.kind.not_found()));
        }
        let i: usize = handle as usize;
        match &self.slots[i] {
            Slot::Held => {
                return Attempt::Wait;
            },
            Slot::Released => {
                return Attempt::Done(Err(self.kind.not_found()));
            },
            Slot::Available(_) => {},
        }
        self.slots[i] = Slot::Released;
        Attempt::Done(Ok(()))
    }

    /// Shows the resource without taking it out. The answers are those of
    /// [`Registry::acquire`], and the registry stays as it is.
    pub fn inspect(&self, handle: u64) -> (r: Attempt<Result<&T, NativeError>>)
        ensures
            match reply_to(self@, Op::Inspect(handle)) {
                Reply::Shown(t) => r matches Attempt::Done(Ok(shown)) && *shown == t,
                Reply::Wait => r is Wait,
                _ => r matches Attempt::Done(Err(e)) && e@.kind == ErrorKind::HandleNotFound
                    && e@.info == self.kind().not_found_text(),
            },
    {
        if handle >= self.slots.len() as u64 {
            return Attempt::Done(Err(self.kind.not_found()));
        }
        let i: usize = handle as usize;
        match &self.slots[i] {
            Slot::Held => Attempt::Wait,
            Slot::Released => Attempt::Done(Err(self.kind.not_found())),
            Slot::Available(resource) => Attempt::Done(Ok(resource)),
        }
    }
}

/// Whether an answer is the "not found" error of this sort of resource.
pub open spec fn is_not_found<R>(r: Attempt<Result<R, NativeError>>, kind: ResourceKind) -> bool {
    r matches Attempt::Done(Err(e)) && e@.kind == ErrorKind::HandleNotFound && e@.info
        == kind.not_found_text()
}

/// Whether `r` answers a look at the resource behind `handle`: where the
/// resource is free, a value of which `holds` is true together with the
/// resource; where the handle is held, [`Attempt::Wait`]; else the "not
/// found" error.
pub open spec fn inspects<T, R>(
    r: Attempt<Result<R, NativeError>>,
    slots: Seq<Slot<T>>,
    handle: u64,
    kind: ResourceKind,
    holds: spec_fn(T, R) -> bool,
) -> bool {
    match reply_to(slots, Op::<T>::Inspect(handle)) {
        Reply::Shown(t) => r matches Attempt::Done(Ok(v)) && holds(t, v),
        Reply::Wait => r is Wait,
        _ => is_not_found(r, kind),
    }
}

/// Takes two resources out for one operation, both or neither.
///
/// The first handle is tried first, and its answer comes first: where it
/// names no resource or is held, that is the answer and nothing changes.
/// Where the second handle names no resource or is held, the first
/// resource is put back before that is answered, so that nothing changes
/// either. Only where both are free both are handed over and both handles
/// become held.
pub fn acquire_pair<A, B>(
    first: &mut Registry<A>,
    first_handle: u64,
    second: &mut Registry<B>,
    second_handle: u64,
) -> (r: Attempt<Result<(A, B), NativeError>>)
    ensures
        final(first).kind() == old(first).kind(),
        final(second).kind() == old(second).kind(),
        ({
            let a = reply_to(old(first)@, Op::<A>::Acquire(first_handle));
            let b = reply_to(old(second)@, Op::<B>::Acquire(second_handle));
            if a is Granted && b is Granted {
                &&& r == Attempt::Done(Ok::<(A, B), NativeError>((a->Granted_0, b->Granted_0)))
                &&& final(first)@ == slots_after(old(first)@, Op::<A>::Acquire(first_handle))
                &&& final(second)@ == slots_after(old(second)@, Op::<B>::Acquire(second_handle))
            } else {
                &&& final(first)@ == old(first)@
                &&& final(second)@ == old(second)@
                &&& if a is Wait {
                    r is Wait
                } else if a is NotFound {
                    is_not_found(r, old(first).kind())
                } else if b is Wait {
                    r is Wait
                } else {
                    is_not_found(r, old(second).kind())
                }
            }
        }),
{
    let one = match first.acquire(first_handle) {
        Attempt::Done(Ok(one)) => one,
        Attempt::Done(Err(e)) => {
            return Attempt::Done(Err(e));
        },
        Attempt::Wait => {
            return Attempt::Wait;
        },
    };
    match second.acquire(second_handle) {
        Attempt::Done(Ok(two)) => Attempt::Done(Ok((one, two))),
        Attempt::Done(Err(e)) => {
            let left = first.restore(first_handle, one);
            assert(first@ =~= old(first)@);
            Attempt::Done(Err(e))
        },
        Attempt::Wait => {
            let left = first.restore(first_handle, one);
            assert(first@ =~= old(first)@);
            Attempt::Wait
        },
    }
}

/// Puts two resources back behind their handles, each as
/// [`Registry::restore`] does.
pub fn restore_pair<A, B>(
    first: &mut Registry<A>,
    first_handle: u64,
    one: A,
    second: &mut Registry<B>,
    second_handle: u64,
    two: B,
)
    ensures
        final(first).kind() == old(first).kind(),
        final(second).kind() == old(second).kind(),
        final(first)@ == slots_after(old(first)@, Op::Restore(first_handle, one)),
        final(second)@ == slots_after(old(second)@, Op::Restore(second_handle, two)),
{
    let left = first.restore(first_handle, one);
    let left = second.restore(second_handle, two);
}

/// Whether a request names `handle`.
pub open spec fn names<T>(op: Op<T>, handle: u64) -> bool {
    match op {
        Op::Acquire(h) => h == handle,
        Op::Restore(h, _) => h == handle,
        Op::Release(h) => h == handle,
        Op::Inspect(h) => h == handle,
        Op::Register(_) => false,
    }
}

/// Whether an answer lets its caller at the resource: it hands the
/// resource out, shows it, or discards it.
pub open spec fn reaches_resource<T>(reply: Reply<T>) -> bool {
    reply is Granted || reply is Shown || reply is Released
}

proof fn lemma_run_step<T>(slots: Seq<Slot<T>>, ops: Seq<Op<T>>, m: int)
    requires
        0 <= m < ops.len(),
    ensures
        slots_after_all(slots, ops.take(m + 1)) == slots_after(
            slots_after_all(slots, ops.take(m)),
            ops[m],
        ),
{
    assert(ops.take(m + 1).drop_last() == ops.take(m));
    assert(ops.take(m + 1).last() == ops[m]);
}

proof fn lemma_released_stays<T>(slots: Seq<Slot<T>>, handle: u64, ops: Seq<Op<T>>)
    requires
        is_released(slots, handle),
    ensures
        is_released(slots_after_all(slots, ops), handle),
    decreases ops.len(),
{
    if ops.len() > 0 {
        lemma_released_stays(slots, handle, ops.drop_last());
    }
}

/// A served release leaves the handle released.
pub proof fn lemma_release_releases<T>(slots: Seq<Slot<T>>, handle: u64)
    requires
        reply_to(slots, Op::<T>::Release(handle)) is Released,
    ensures
        is_released(slots_after(slots, Op::<T>::Release(handle)), handle),
{
}

/// A released handle stays released through every run of requests, and
/// each request of the run that names it finds no resource: acquiring,
/// releasing and inspecting answer "not found", and a restore is refused.
pub proof fn lemma_release_is_permanent<T>(slots: Seq<Slot<T>>, handle: u64, ops: Seq<Op<T>>)
    requires
        is_released(slots, handle),
    ensures
        is_released(slots_after_all(slots, ops), handle),
        forall|i: int|
            0 <= i < ops.len() && names(#[trigger] ops[i], handle) ==> {
                let reply = reply_in_run(slots, ops, i);
                if ops[i] is Restore {
                    reply is Refused
                } else {
                    reply is NotFound
                }
            },
{
    lemma_released_stays(slots, handle, ops);
    assert forall|i: int| 0 <= i < ops.len() && names(#[trigger] ops[i], handle) implies {
        let reply = reply_in_run(slots, ops, i);
        if ops[i] is Restore {
            reply is Refused
        } else {
            reply is NotFound
        }
    } by {
        lemma_released_stays(slots, handle, ops.take(i));
    }
}

proof fn lemma_held_until_restored<T>(
    slots: Seq<Slot<T>>,
    ops: Seq<Op<T>>,
    handle: u64,
    m: int,
    j: int,
)
    requires
        0 <= m <= j <= ops.len(),
        is_held(slots_after_all(slots, ops.take(m)), handle),
    ensures
        is_held(slots_after_all(slots, ops.take(j)), handle) || exists|k: int|
            m <= k < j && #[trigger] ops[k] is Restore && names(ops[k], handle) && reply_in_run(
                slots,
                ops,
                k,
            ) is Restored,
    decreases j - m,
{
    if m < j {
        lemma_run_step(slots, ops, m);
        if ops[m] is Restore && names(ops[m], handle) {
            assert(reply_in_run(slots, ops, m) is Restored);
        } else {
            lemma_held_until_restored(slots, ops, handle, m + 1, j);
        }
    }
}

/// Access to one handle is exclusive: after the registry has handed the
/// resource out, no request gets at it (none is granted or shown it, and
/// none discards it) before a restore of that handle was taken.
pub proof fn lemma_access_is_exclusive<T>(
    slots: Seq<Slot<T>>,
    ops: Seq<Op<T>>,
    handle: u64,
    i: int,
    j: int,
)
    requires
        0 <= i < j < ops.len(),
        ops[i] == Op::<T>::Acquire(handle),
        reply_in_run(slots, ops, i) is Granted,
        names(ops[j], handle),
        reaches_resource(reply_in_run(slots, ops, j)),
    ensures
        exists|k: int|
            i < k < j && #[trigger] ops[k] is Restore && names(ops[k], handle) && reply_in_run(
                slots,
                ops,
                k,
            ) is Restored,
{
    lemma_run_step(slots, ops, i);
    lemma_held_until_restored(slots, ops, handle, i + 1, j);
}

/// Taking a free resource out and putting the same resource back leaves
/// the registry as it was.
pub proof fn lemma_restore_undoes_acquire<T>(slots: Seq<Slot<T>>, handle: u64)
    requires
        is_available(slots, handle),
    ensures
        slots_after(
            slots_after(slots, Op::<T>::Acquire(handle)),
            Op::Restore(handle, resource_of(slots, handle)),
        ) == slots,
{
    assert(slots_after(
        slots_after(slots, Op::<T>::Acquire(handle)),
        Op::Restore(handle, resource_of(slots, handle)),
    ) =~= slots);
}

/// An acquirer is handed what the last taken restore put back: where a
/// restore is taken and no later request of the run names the handle, the
/// next acquire is granted the restored resource.
pub proof fn lemma_grant_sees_last_restore<T>(
    slots: Seq<Slot<T>>,
    ops: Seq<Op<T>>,
    handle: u64,
    resource: T,
    k: int,
)
    requires
        0 <= k < ops.len(),
        ops[k] == Op::Restore(handle, resource),
        reply_in_run(slots, ops, k) is Restored,
        forall|n: int| k < n < ops.len() ==> !names(#[trigger] ops[n], handle),
    ensures
        reply_to(slots_after_all(slots, ops), Op::<T>::Acquire(handle)) == Reply::Granted(resource),
    decreases ops.len() - k,
{
    if k == ops.len() - 1 {
        assert(ops.take(k) == ops.drop_last());
    } else {
        let shorter = ops.drop_last();
        assert(shorter.take(k) == ops.take(k));
        lemma_grant_sees_last_restore(slots, shorter, handle, resource, k);
        assert(!names(ops[ops.len() - 1], handle));
    }
}

} // verus!
