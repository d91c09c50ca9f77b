//! Muting system audio while recording, and undoing only a mute the app
//! made itself.
use vstd::prelude::*;

verus! {

/// Remembers whether the app muted the system audio.
pub struct MuteTracker {
    did_mute: bool,
}

impl View for MuteTracker {
    type V = bool;

    /// Whether the app muted the system and has not restored it yet.
    closed spec fn view(&self) -> bool {
        self.did_mute
    }
}

impl MuteTracker {
    /// Nothing muted yet.
    pub fn new() -> (t: Self)
        ensures
            !t@,
    {
        MuteTracker { did_mute: false }
    }

    /// Whether to mute the system now: only when muting is wanted and the
    /// system is not muted already (`already_muted`, read only when muting is
    /// wanted). A mute made here is remembered.
    pub fn mute_if_needed(&mut self, should_mute: bool, already_muted: bool) -> (mute: bool)
        ensures
            mute == (should_mute && !already_muted),
            final(self)@ == (old(self)@ || mute),
    {
        if !should_mute {
            return false;
        }
        if !already_muted {
            self.did_mute = true;
            return true;
        }
        false
    }

    /// Whether to unmute the system now: exactly when the app muted it and has
    /// not restored it since. Afterwards nothing is remembered.
    pub fn restore(&mut self) -> (unmute: bool)
        ensures
            unmute == old(self)@,
            !final(self)@,
    {
        let unmute = self.did_mute;
        self.did_mute = false;
        unmute
    }
}

} // verus!
