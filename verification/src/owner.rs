//! The user that owns the process.

use vstd::prelude::*;

verus! {

/// The user name of the process owner. Calls `whoami::username`, which asks
/// the operating system and falls back to a fixed name where that fails;
/// nothing is claimed of the name.
#[verifier::external_body]
pub(crate) fn username() -> (user: String) {
    whoami::username()
}

} // verus!
