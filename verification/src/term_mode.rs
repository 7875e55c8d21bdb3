//! The terminal input mode lifecycle. The mode fields the program touches
//! — canonical line buffering and keystroke echo — are captured once at
//! startup, switched off for raw editing, and restored exactly once at
//! shutdown, on every exit path. The surrounding binary applies the modes
//! this guard hands out to the device; the guard decides what is set and
//! guarantees that the first release hands back exactly what was captured.

use vstd::prelude::*;

verus! {

/// The terminal input mode fields the program manages: canonical line
/// buffering and keystroke echo.
#[derive(Clone, Copy, PartialEq, Eq, Structural, Debug)]
pub struct TermMode {
    pub canonical: bool,
    pub echo: bool,
}

/// The raw editing mode: keystrokes delivered immediately, unbuffered and
/// unechoed.
pub open spec fn raw_mode() -> TermMode {
    TermMode { canonical: false, echo: false }
}

/// A capability holding the mode captured before raw mode was entered.
/// Releasing it restores that mode exactly once: every exit path routes
/// through `release`, and only the first one is handed the mode to set.
pub struct ModeGuard {
    original: TermMode,
    restored: bool,
}

impl ModeGuard {
    /// The mode captured at startup.
    pub closed spec fn original(&self) -> TermMode {
        self.original
    }

    /// Whether the captured mode has been handed back already.
    pub closed spec fn restored(&self) -> bool {
        self.restored
    }

    /// Captures the original mode and hands out the raw mode to set on the
    /// device.
    pub fn enter_raw(original: TermMode) -> (r: (ModeGuard, TermMode))
        ensures
            r.0.original() == original,
            !r.0.restored(),
            r.1 == raw_mode(),
    {
        (ModeGuard { original, restored: false }, TermMode { canonical: false, echo: false })
    }

    /// The mode to set on the way out: the first release — whichever exit
    /// path gets there first — is handed exactly the mode captured at
    /// startup, the same canonical and echo settings; every later release
    /// is handed nothing, so restoration happens exactly once.
    pub fn release(&mut self) -> (m: Option<TermMode>)
        ensures
            final(self).original() == old(self).original(),
            final(self).restored(),
            !old(self).restored() ==> m == Some(old(self).original()),
            old(self).restored() ==> m is None,
    {
        if self.restored {
            None
        } else {
            self.restored = true;
            Some(self.original)
        }
    }
}

} // verus!
