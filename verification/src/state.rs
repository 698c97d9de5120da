//! How a backdrop follows the activation of its window.

use vstd::prelude::*;

verus! {

/// Whether the backdrop looks active or inactive.
#[derive(Clone, Copy, Debug, PartialEq, Eq, Structural)]
pub enum NSVisualEffectState {
    /// The backdrop looks active while its window is active.
    FollowsWindowActiveState,
    /// The backdrop always looks active.
    Active,
    /// The backdrop always looks inactive.
    Inactive,
}

impl NSVisualEffectState {
    /// The integer by which AppKit knows this state.
    pub open spec fn spec_code(self) -> u64 {
        match self {
            NSVisualEffectState::FollowsWindowActiveState => 0,
            NSVisualEffectState::Active => 1,
            NSVisualEffectState::Inactive => 2,
        }
    }

    /// The integer by which AppKit knows this state.
    #[verifier::when_used_as_spec(spec_code)]
    pub fn code(self) -> (c: u64)
        ensures
            c == self.spec_code(),
    {
        match self {
            NSVisualEffectState::FollowsWindowActiveState => 0,
            NSVisualEffectState::Active => 1,
            NSVisualEffectState::Inactive => 2,
        }
    }
}

} // verus!
