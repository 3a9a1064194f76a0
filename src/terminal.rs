//! Terminal mode guard: raw mode for the session, and exactly one
//! restoration of the captured configuration.
use vstd::prelude::*;

verus! {

/// The attributes of a terminal configuration that the session reads.
#[derive(Clone, Copy, Debug)]
pub struct TermConfig {
    pub iflag: u32,
    pub oflag: u32,
    pub cflag: u32,
    pub lflag: u32,
    pub cc: [u8; 32],
}

/// `cfg` with the local-mode bits in `disable` cleared and every other
/// attribute kept.
pub open spec fn raw_of(cfg: TermConfig, disable: u32) -> TermConfig {
    TermConfig { lflag: cfg.lflag & !disable, ..cfg }
}

/// The raw-mode configuration derived from `cfg`: the local-mode bits in
/// `disable` (line buffering and echo) are cleared, nothing else changes.
pub fn raw_mode(cfg: &TermConfig, disable: u32) -> (r: TermConfig)
    ensures
        r == raw_of(*cfg, disable),
{
    TermConfig { lflag: cfg.lflag & !disable, ..*cfg }
}

/// Holds the configuration captured when the session starts and hands it back
/// exactly once.
pub struct TerminalGuard<S> {
    snapshot: S,
    released: bool,
}

impl<S: Copy> TerminalGuard<S> {
    pub closed spec fn snapshot(&self) -> S {
        self.snapshot
    }

    pub closed spec fn is_released(&self) -> bool {
        self.released
    }

    pub closed spec fn spec_acquire(current: S) -> TerminalGuard<S> {
        TerminalGuard { snapshot: current, released: false }
    }

    /// The guard after a release, and what that release hands back.
    pub closed spec fn spec_release(self) -> (TerminalGuard<S>, Option<S>) {
        if self.released {
            (self, None)
        } else {
            (TerminalGuard { released: true, ..self }, Some(self.snapshot))
        }
    }

    /// Captures `current` verbatim.
    pub fn acquire(current: S) -> (r: TerminalGuard<S>)
        ensures
            r == Self::spec_acquire(current),
            r.snapshot() == current,
            !r.is_released(),
    {
        TerminalGuard { snapshot: current, released: false }
    }

    /// The configuration to reapply: the captured one on the first call,
    /// `None` on every later call.
    pub fn release(&mut self) -> (r: Option<S>)
        ensures
            (*final(self), r) == old(self).spec_release(),
            final(self).snapshot() == old(self).snapshot(),
            final(self).is_released(),
            old(self).is_released() ==> r is None,
            !old(self).is_released() ==> r == Some(old(self).snapshot()),
    {
        if self.released {
            None
        } else {
            self.released = true;
            Some(self.snapshot)
        }
    }

    pub fn released(&self) -> (r: bool)
        ensures
            r == self.is_released(),
    {
        self.released
    }
}

/// Capturing a configuration, entering raw mode and releasing the guard gives
/// back the captured configuration bit for bit, whatever it was; a second
/// release gives nothing back. Raw mode itself differs from the capture in the
/// local-mode flags alone.
pub proof fn lemma_snapshot_round_trip(cfg: TermConfig, disable: u32)
    ensures
        ({
            let g = TerminalGuard::<TermConfig>::spec_acquire(cfg);
            let (g1, first) = g.spec_release();
            let (_, second) = g1.spec_release();
            first == Some(cfg) && second is None
        }),
        raw_of(cfg, disable) == (TermConfig { lflag: raw_of(cfg, disable).lflag, ..cfg }),
{
}

} // verus!
