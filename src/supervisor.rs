//! The process supervisor: the single slot that holds the handle of the
//! running backend, so that the shutdown path can find it and kill it.
use vstd::prelude::*;

verus! {

/// The slot after `h` is stored: it replaces whatever was held.
pub open spec fn stored<H>(slot: Option<H>, h: H) -> Option<H> {
    Some(h)
}

/// What a take does to the slot: the handle handed out, and the slot left.
pub open spec fn taken<H>(slot: Option<H>) -> (Option<H>, Option<H>) {
    (slot, None)
}

/// The slot after storing each handle of `hs` in turn.
pub open spec fn stored_all<H>(slot: Option<H>, hs: Seq<H>) -> Option<H>
    decreases hs.len(),
{
    if hs.len() == 0 {
        slot
    } else {
        stored(stored_all(slot, hs.drop_last()), hs.last())
    }
}

/// Owner of at most one backend handle.
///
/// The supervisor places no bound on the handle type, so it has no way to
/// signal a process itself: a handle it drops is dropped unsignalled, and a
/// handle is killed only by whoever takes it out.
pub struct Supervisor<H> {
    handle: Option<H>,
}

impl<H> View for Supervisor<H> {
    type V = Option<H>;

    closed spec fn view(&self) -> Option<H> {
        self.handle
    }
}

impl<H> Supervisor<H> {
    /// A supervisor that holds no handle.
    pub fn new() -> (s: Self)
        ensures
            s@ is None,
    {
        Supervisor { handle: None }
    }

    /// Stores `h`, replacing the handle held before. The replaced handle is
    /// dropped; no termination signal is sent to its process.
    pub fn store(&mut self, h: H)
        ensures
            final(self)@ == stored(old(self)@, h),
    {
        self.handle = Some(h);
    }

    /// Takes the held handle out, leaving none, so that the caller can kill
    /// its process once it no longer needs the supervisor. With no handle held
    /// this returns `None` and changes nothing.
    pub fn take(&mut self) -> (r: Option<H>)
        ensures
            (r, final(self)@) == taken(old(self)@),
    {
        self.handle.take()
    }

    /// Whether a handle is held.
    pub fn has_handle(&self) -> (r: bool)
        ensures
            r == self@ is Some,
    {
        self.handle.is_some()
    }

    /// The held handle, if any.
    pub fn handle(&self) -> (r: Option<&H>)
        ensures
            r == match self@ {
                Some(h) => Some(&h),
                None => None::<&H>,
            },
    {
        self.handle.as_ref()
    }
}

/// Last write wins: after any nonempty sequence of stores the supervisor
/// holds the handle stored last, whatever it held before.
pub proof fn lemma_last_store_wins<H>(slot: Option<H>, hs: Seq<H>)
    requires
        hs.len() > 0,
    ensures
        stored_all(slot, hs) == Some(hs.last()),
{
}

/// Taking twice in a row: the first take hands out the held handle, if any,
/// and leaves the slot empty; the second hands out nothing and changes
/// nothing.
pub proof fn lemma_take_twice<H>(slot: Option<H>)
    ensures
        taken(slot).0 == slot,
        taken(slot).1 is None,
        taken(taken(slot).1) == (None::<H>, None::<H>),
{
}

/// Taking from an empty slot, as on a new supervisor, hands out nothing and
/// leaves the slot empty.
pub proof fn lemma_take_empty<H>()
    ensures
        taken(None::<H>) == (None::<H>, None::<H>),
{
}

} // verus!
