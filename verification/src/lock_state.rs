use vstd::prelude::*;

verus! {

/// Whether the backing artifact of a store holds ciphertext or plaintext.
#[derive(Clone, Copy, Debug, PartialEq, Eq, Structural)]
pub enum LockState {
    Locked,
    Unlocked,
}

impl LockState {
    /// The state that a probe of the artifact's header stands for: a header
    /// that was found means ciphertext, anything else (no header, no
    /// artifact, a probe that failed) means plaintext.
    pub fn from_header_probe(header_present: Option<bool>) -> (state: LockState)
        ensures
            state == Self::probed(header_present),
    {
        match header_present {
            Some(true) => LockState::Locked,
            _ => LockState::Unlocked,
        }
    }

    /// The state that a probe's result stands for.
    pub open spec fn probed(header_present: Option<bool>) -> LockState {
        if header_present == Some(true) {
            LockState::Locked
        } else {
            LockState::Unlocked
        }
    }

    /// Whether documents can be neither written nor read in this state.
    pub fn is_locked(&self) -> (locked: bool)
        ensures
            locked == (*self == LockState::Locked),
    {
        match self {
            LockState::Locked => true,
            LockState::Unlocked => false,
        }
    }
}

} // verus!
