//! How much of the setting is checked before the player starts.

use vstd::prelude::*;

verus! {

/// Check at init whether all musics are fine; otherwise playing a music
/// that cannot be read may fail later.
#[derive(Debug, Clone, Copy, PartialEq, Eq, Structural)]
pub enum CheckLevel {
    /// always check all musics
    Always,
    /// check all musics in debug builds only
    Debug,
    /// do not check musics
    Never,
}

impl CheckLevel {
    /// Whether musics are to be checked, in a build that is a debug build
    /// exactly when `debug_build` holds.
    pub open spec fn checks(self, debug_build: bool) -> bool {
        match self {
            CheckLevel::Always => true,
            CheckLevel::Debug => debug_build,
            CheckLevel::Never => false,
        }
    }

    /// Decide whether musics are checked; `debug_build` tells whether the
    /// running program was built with debug assertions.
    pub fn check(&self, debug_build: bool) -> (res: bool)
        ensures
            res == self.checks(debug_build),
    {
        match *self {
            CheckLevel::Always => true,
            CheckLevel::Never => false,
            CheckLevel::Debug => debug_build,
        }
    }
}

/// `Always` checks the musics in every build, `Never` in none, and `Debug`
/// exactly in debug builds.
pub proof fn lemma_check_levels(debug_build: bool)
    ensures
        CheckLevel::Always.checks(debug_build),
        !CheckLevel::Never.checks(debug_build),
        CheckLevel::Debug.checks(debug_build) == debug_build,
{
}

} // verus!
