use vstd::prelude::*;

verus! {

/// Guards the one recording that may be active at a time.
pub struct AppState {
    pub active: bool,
}

/// Whether a start request is refused: a recording is already active.
pub open spec fn start_refused(s: AppState) -> bool {
    s.active
}

/// The controller after a stop request: never active.
pub open spec fn after_stop(s: AppState) -> AppState {
    AppState { active: false }
}

impl AppState {
    /// A controller with no active recording.
    pub fn new() -> (r: Self)
        ensures
            !r.active,
    {
        AppState { active: false }
    }

    /// Claims the recording slot, or refuses with `"Already recording"` when a
    /// recording is active.
    pub fn begin_recording(&mut self) -> (r: Result<(), String>)
        ensures
            start_refused(*old(self)) ==> r is Err && r->Err_0@ == "Already recording"@
                && *final(self) == *old(self),
            !start_refused(*old(self)) ==> r is Ok && final(self).active,
    {
        if self.active {
            Err(String::from_str("Already recording"))
        } else {
            self.active = true;
            Ok(())
        }
    }

    /// Releases the recording slot; returns whether a recording was active, that
    /// is whether there is anything to tear down.
    pub fn stop(&mut self) -> (r: bool)
        ensures
            r == old(self).active,
            *final(self) == after_stop(*old(self)),
    {
        let was = self.active;
        self.active = false;
        was
    }

    pub fn is_active(&self) -> (r: bool)
        ensures
            r == self.active,
    {
        self.active
    }
}

/// Stopping an inactive controller changes nothing and reports nothing to tear
/// down, however often it is repeated.
pub proof fn lemma_stop_inactive_is_noop(s: AppState)
    requires
        !s.active,
    ensures
        after_stop(s) == s,
        after_stop(after_stop(s)) == s,
        !after_stop(s).active,
{
}

} // verus!
