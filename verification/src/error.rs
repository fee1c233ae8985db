//! The ways in which one bridged call can fail.

use vstd::prelude::*;

verus! {

/// Why a call could not be completed. None of these is recoverable for the
/// call in which it occurs: there is no fallback location and no retry.
#[derive(Clone, Copy, Debug, PartialEq, Eq, Structural)]
pub enum BridgeError {
    /// The location of the running executable could not be determined.
    Environment,
    /// The running executable's path has no parent directory.
    Path,
    /// The interpreter process could not be started.
    ProcessLaunch,
}

} // verus!
