//! Whether diagnostic output may be emitted: only when the operator's
//! environment toggle is set and the host did not pass the silent flag.
//! Reading the environment and writing to the console are the caller's
//! business; this module only decides.

use vstd::prelude::*;

use crate::codes::PAM_SILENT;

verus! {

/// A diagnostic is emitted exactly when the operator toggle is set and the
/// host's silent bit is clear.
pub open spec fn emits(env_toggle_set: bool, flags: u32) -> bool {
    env_toggle_set && flags & PAM_SILENT == 0
}

/// Decides whether a diagnostic message may be emitted for this call:
/// never when the host set the silent bit in `flags`, and never when the
/// operator's environment toggle is unset.
pub fn should_emit(env_toggle_set: bool, flags: u32) -> (r: bool)
    ensures
        r == emits(env_toggle_set, flags),
        flags & PAM_SILENT != 0 ==> !r,
        !env_toggle_set ==> !r,
{
    env_toggle_set && flags & PAM_SILENT == 0
}

} // verus!
