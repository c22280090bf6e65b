use crate::error::Error;
use vstd::prelude::*;

verus! {

/// The exclusive holder of the resource that a handle's operations work on.
///
/// An operation checks the resource out, which leaves the slot busy, and
/// checks it back in when it is done. While the slot is busy, a second
/// check-out fails with [`Error::Busy`]: at most one operation is in flight
/// per handle.
#[derive(Debug)]
pub struct Slot<T> {
    resource: Option<T>,
}

impl<T> Slot<T> {
    /// The resource that the slot holds while idle; `None` while busy.
    pub closed spec fn held(&self) -> Option<T> {
        self.resource
    }

    pub open spec fn spec_is_busy(&self) -> bool {
        self.held() is None
    }

    /// What a check-out returns, and what the slot holds after it, given what
    /// it held before.
    pub open spec fn spec_check_out(held: Option<T>) -> (Result<T, Error>, Option<T>) {
        match held {
            Some(t) => (Ok(t), None),
            None => (Err(Error::Busy), None),
        }
    }

    /// An idle slot that holds `resource`.
    pub fn new(resource: T) -> (r: Self)
        ensures
            r.held() == Some(resource),
    {
        Slot { resource: Some(resource) }
    }

    /// Whether an operation has the resource checked out.
    pub fn is_busy(&self) -> (r: bool)
        ensures
            r == self.spec_is_busy(),
    {
        self.resource.is_none()
    }

    /// Takes the resource for one operation.
    ///
    /// On an idle slot this returns the resource and leaves the slot busy;
    /// on a busy slot it fails with [`Error::Busy`] and changes nothing.
    pub fn check_out(&mut self) -> (r: Result<T, Error>)
        ensures
            (r, final(self).held()) == Self::spec_check_out(old(self).held()),
    {
        match self.resource.take() {
            Some(t) => Ok(t),
            None => Err(Error::Busy),
        }
    }

    /// Puts the resource back when the operation that took it is done,
    /// whether it succeeded or failed.
    pub fn check_in(&mut self, resource: T)
        requires
            old(self).spec_is_busy(),
        ensures
            final(self).held() == Some(resource),
    {
        self.resource = Some(resource);
    }
}

/// A check-out of an idle slot hands out its resource and leaves the slot
/// busy; a second check-out before the resource comes back fails with the
/// busy error and leaves the slot busy still.
pub proof fn lemma_second_operation_is_busy<T>(t: T)
    ensures
        Slot::<T>::spec_check_out(Some(t)) == (Ok::<T, Error>(t), None::<T>),
        Slot::<T>::spec_check_out(Slot::<T>::spec_check_out(Some(t)).1) == (
            Err::<T, Error>(Error::Busy),
            None::<T>,
        ),
{
}

} // verus!
