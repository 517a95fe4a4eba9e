//! The search-path lookup.

use vstd::prelude::*;

verus! {

/// Whether `command` resolves to an executable, as `which::which` finds.
///
/// `which::which` walks the directories of the search path (or takes a
/// path with a separator as it stands) and returns the first regular file
/// that the current user may execute, else an error. The answer depends on
/// the environment and on the disk at the moment of the call, so nothing
/// is promised of it: callers are proved for either answer.
#[verifier::external_body]
pub(crate) fn command_exists(command: &str) -> (found: bool) {
    which::which(command).is_ok()
}

} // verus!
