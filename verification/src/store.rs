//! The state store: the active mode and the pending-transition slot.

use vstd::prelude::*;

verus! {

/// The three phases governing which behavior groups may run.
///
/// Exactly one mode is active at any instant. `Loading` is the initial
/// mode; after load completion the controller cycles between `Running`
/// and `Paused` indefinitely.
#[derive(Clone, Copy, PartialEq, Eq, Hash, Debug, Structural)]
pub enum Mode {
    Loading,
    Running,
    Paused,
}

/// What a commit does, given the mode and the pending slot it starts
/// from: the `(from, to)` edge it applies, or nothing when the slot is
/// empty or already holds the active mode.
pub open spec fn commit_transition(cur: Mode, pend: Option<Mode>) -> Option<(Mode, Mode)> {
    match pend {
        Some(to) => if to != cur {
            Some((cur, to))
        } else {
            None
        },
        None => None,
    }
}

/// The mode that is active after a commit from `cur` with slot `pend`.
pub open spec fn mode_after_commit(cur: Mode, pend: Option<Mode>) -> Mode {
    match commit_transition(cur, pend) {
        Some(edge) => edge.1,
        None => cur,
    }
}

/// Owns `current`, the active mode, and `pending`, the single
/// pending-transition slot.
///
/// The slot holds at most one request: a later request in the same tick
/// overwrites an earlier one (last write wins). A commit drains the slot,
/// so a request is never applied twice.
pub struct ModeStore {
    current: Mode,
    pending: Option<Mode>,
}

impl ModeStore {
    /// The active mode, for use in contracts.
    pub closed spec fn cur(&self) -> Mode {
        self.current
    }

    /// The pending-transition slot, for use in contracts.
    pub closed spec fn pend(&self) -> Option<Mode> {
        self.pending
    }

    /// A fresh store: the controller always starts in `Loading` with an
    /// empty pending slot.
    pub fn new() -> (s: Self)
        ensures
            s.cur() == Mode::Loading,
            s.pend() is None,
    {
        ModeStore { current: Mode::Loading, pending: None }
    }

    /// The active mode.
    pub fn current(&self) -> (m: Mode)
        ensures
            m == self.cur(),
    {
        self.current
    }

    /// Records `to` as the pending request, overwriting any earlier
    /// request. The active mode is untouched: only a commit, at the tick
    /// boundary, can change it.
    pub fn request_transition(&mut self, to: Mode)
        ensures
            final(self).cur() == old(self).cur(),
            final(self).pend() == Some(to),
    {
        self.pending = Some(to);
    }

    /// Applies the pending request, if any. When the slot holds a mode
    /// other than the active one, the active mode becomes that mode and
    /// the applied `(from, to)` edge is returned so the caller can fire
    /// the exit bindings of `from` followed by the enter bindings of
    /// `to`, in that order. Otherwise no edge is returned. The slot is
    /// drained either way, so no request is ever read twice.
    pub fn commit(&mut self) -> (edge: Option<(Mode, Mode)>)
        ensures
            edge == commit_transition(old(self).cur(), old(self).pend()),
            final(self).cur() == mode_after_commit(old(self).cur(), old(self).pend()),
            final(self).pend() is None,
    {
        let taken = self.pending;
        self.pending = None;
        match taken {
            Some(to) => {
                if to != self.current {
                    let from = self.current;
                    self.current = to;
                    Some((from, to))
                } else {
                    None
                }
            },
            None => None,
        }
    }
}

} // verus!
