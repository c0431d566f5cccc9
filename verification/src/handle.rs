use vstd::prelude::*;
use std::rc::Rc;

verus! {

/// An opaque reference to a fully general operation object that lives
/// outside this library.
///
/// The object itself is owned and interpreted elsewhere; this library treats
/// a handle as an immutable identity token.  Besides the token, a handle
/// carries a shared lease: every reference to one object holds a clone of the
/// same lease, so the object's owner can observe, by counting the lease's
/// outstanding clones, that each acquired reference was released exactly
/// once.  Equality, copying and materialization of the object behind a handle
/// are performed outside this library; the protocols here only decide which
/// handles must be consulted.
#[derive(Debug)]
pub struct ManagedHandle {
    token: u64,
    lease: Rc<u64>,
}

/// Relies on std's `Rc::clone`: the new reference shares the same
/// allocation, so it carries the same value.
#[verifier::external_body]
fn lease_clone(lease: &Rc<u64>) -> (r: Rc<u64>)
    ensures
        r == *lease,
{
    Rc::clone(lease)
}

impl ManagedHandle {
    /// The identity of the external object this handle refers to.
    pub closed spec fn spec_token(self) -> u64 {
        self.token
    }

    /// Take a reference to the external object identified by `token`,
    /// holding a clone of the object's lease.
    pub fn acquire(token: u64, lease: Rc<u64>) -> (h: ManagedHandle)
        ensures
            h.spec_token() == token,
    {
        ManagedHandle { token, lease }
    }

    /// The identity of the external object this handle refers to.
    pub fn token(&self) -> (t: u64)
        ensures
            t == self.spec_token(),
    {
        self.token
    }

    /// A further reference to the same external object.
    pub fn clone_ref(&self) -> (h: ManagedHandle)
        ensures
            h == *self,
    {
        ManagedHandle { token: self.token, lease: lease_clone(&self.lease) }
    }

    /// Whether two handles refer to the same external object.
    pub fn same_object(&self, other: &ManagedHandle) -> (r: bool)
        ensures
            r == (self.spec_token() == other.spec_token()),
    {
        self.token == other.token
    }
}

/// The settled value of a write-once slot after one write attempt: the
/// first successful write wins and every later attempt is silently
/// discarded, so a reader only ever observes the slot empty or holding the
/// first settled handle.
pub open spec fn spec_settled(
    slot: Option<ManagedHandle>,
    built: ManagedHandle,
) -> Option<ManagedHandle> {
    if slot is Some {
        slot
    } else {
        Some(built)
    }
}

/// One write attempt always leaves the slot settled.
pub proof fn lemma_settle_settles(slot: Option<ManagedHandle>, built: ManagedHandle)
    ensures
        spec_settled(slot, built) is Some,
{
}

/// When two write attempts race on one slot — including a re-entrant
/// attempt that starts before the first completes — the attempt that
/// settles the empty slot first wins, the later handle is discarded, and
/// every observer thereafter sees the one winning handle.
pub proof fn lemma_first_write_wins(first: ManagedHandle, second: ManagedHandle)
    ensures
        spec_settled(spec_settled(None::<ManagedHandle>, first), second) == Some(first),
{
}

/// A write-once slot for a lazily materialized handle.  The slot starts
/// empty and is settled by the first write; later writes are silently
/// discarded rather than blocking, precisely because a materialization may
/// re-enter and attempt to settle the same slot again before the first
/// attempt returns.
#[derive(Debug)]
pub struct OnceHandle {
    slot: Option<ManagedHandle>,
}

impl OnceHandle {
    /// The settled handle, if the slot has been written.
    pub closed spec fn spec_get(self) -> Option<ManagedHandle> {
        self.slot
    }

    /// An empty slot.
    pub fn new() -> (r: OnceHandle)
        ensures
            r.spec_get() is None,
    {
        OnceHandle { slot: None }
    }

    /// The settled handle, or nothing if the slot is still empty; a reader
    /// never observes anything in between.
    pub fn get(&self) -> (r: Option<&ManagedHandle>)
        ensures
            match r {
                Some(h) => self.spec_get() == Some(*h),
                None => self.spec_get() is None,
            },
    {
        self.slot.as_ref()
    }

    /// Offer a handle to the slot.  The first successful write wins: a
    /// settled slot is left exactly as it is and the offered handle is
    /// discarded.  The caller's own handle is handed back either way.
    pub fn settle(&mut self, built: ManagedHandle) -> (r: ManagedHandle)
        ensures
            final(self).spec_get() == spec_settled(old(self).spec_get(), built),
            r == built,
    {
        if self.slot.is_none() {
            self.slot = Some(built.clone_ref());
        }
        built
    }

    /// An equal slot, holding a further reference to the same settled
    /// handle if there is one.
    pub fn clone_cell(&self) -> (r: OnceHandle)
        ensures
            r == *self,
    {
        OnceHandle {
            slot: match &self.slot {
                Some(h) => Some(h.clone_ref()),
                None => None,
            },
        }
    }
}

} // verus!
