use vstd::prelude::*;

verus! {

/// The release state that every GPU-backed object carries. Its handles are never
/// freed on drop, since that needs the device; they must be released explicitly,
/// once, and an object dropped unreleased is a leak.
#[derive(Debug)]
pub struct ReleaseGuard {
    destroyed: bool,
}

/// What an explicit release found.
#[derive(Clone, Copy, Debug, PartialEq, Eq)]
pub enum ReleaseOutcome {
    /// The object was live: its handles are to be freed now.
    Released,
    /// The object was released before: nothing is freed, and the second release is
    /// a logic error to report.
    AlreadyReleased,
}

impl ReleaseGuard {
    pub fn new() -> (r: Self)
        ensures
            !r.is_destroyed(),
    {
        ReleaseGuard { destroyed: false }
    }

    pub closed spec fn destroyed_spec(&self) -> bool {
        self.destroyed
    }

    #[verifier::when_used_as_spec(destroyed_spec)]
    pub fn is_destroyed(&self) -> (r: bool)
        ensures
            r == self.destroyed_spec(),
    {
        self.destroyed
    }

    /// Marks the object released; says whether it was live.
    pub fn destroy(&mut self) -> (r: ReleaseOutcome)
        ensures
            final(self).is_destroyed(),
            r == if old(self).is_destroyed() { ReleaseOutcome::AlreadyReleased } else { ReleaseOutcome::Released },
    {
        if self.destroyed {
            ReleaseOutcome::AlreadyReleased
        } else {
            self.destroyed = true;
            ReleaseOutcome::Released
        }
    }

    /// Whether dropping the object now would leak its handles.
    pub fn is_leaked(&self) -> (r: bool)
        ensures
            r == !self.is_destroyed(),
    {
        !self.destroyed
    }
}

} // verus!
