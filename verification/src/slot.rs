use vstd::prelude::*;

use crate::error::DaemonError;

verus! {

/// Exclusive storage for at most one live session.
///
/// The slot is the only holder of the session. It starts full, is emptied
/// exactly once (`Some` to `None` is irreversible: nothing refills it), and
/// records whether a previous holder of the guard terminated abnormally, in
/// which case every later acquisition surfaces a recoverable error rather
/// than propagating the termination.
pub struct HandleSlot<S> {
    session: Option<S>,
    poisoned: bool,
}

impl<S> HandleSlot<S> {
    /// The session currently stored, if any.
    pub closed spec fn stored(self) -> Option<S> {
        self.session
    }

    /// Whether a previous holder of the guard terminated abnormally.
    pub closed spec fn is_poisoned(self) -> bool {
        self.poisoned
    }

    /// A fresh slot holding the given session, with a clean guard.
    pub fn new(session: S) -> (r: Self)
        ensures
            r.stored() == Some(session),
            !r.is_poisoned(),
    {
        HandleSlot { session: Some(session), poisoned: false }
    }

    /// Checks the guard before any access: succeeds on a clean guard; on a
    /// guard whose previous holder terminated abnormally it returns a
    /// recoverable `Unexpected` error instead.
    pub fn acquire(&self) -> (r: Result<(), DaemonError>)
        ensures
            r is Ok <==> !self.is_poisoned(),
            r matches Err(e) ==> e is Unexpected,
    {
        if self.poisoned {
            Err(DaemonError::Unexpected(
                "Daemon panic: a previous holder of the guard panicked".to_owned(),
            ))
        } else {
            Ok(())
        }
    }

    /// Removes and returns ownership of the session, leaving the slot
    /// empty; on an already empty slot it returns `None` and is a no-op.
    pub fn take(&mut self) -> (r: Option<S>)
        ensures
            r == old(self).stored(),
            final(self).stored() is None,
            final(self).is_poisoned() == old(self).is_poisoned(),
            old(self).stored() is None ==> *final(self) == *old(self),
    {
        self.session.take()
    }

    /// Lends the stored session without removing it.
    pub fn peek(&self) -> (r: Option<&S>)
        ensures
            r matches Some(s) ==> self.stored() == Some(*s),
            r is None <==> self.stored() is None,
    {
        self.session.as_ref()
    }

    /// Records that a holder of the guard terminated abnormally while
    /// holding it. The stored session, if any, is kept but stays out of
    /// reach: `acquire` refuses every later access.
    pub fn mark_poisoned(&mut self)
        ensures
            final(self).stored() == old(self).stored(),
            final(self).is_poisoned(),
    {
        self.poisoned = true;
    }
}

} // verus!
