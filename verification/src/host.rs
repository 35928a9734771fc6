//! The name of the machine the agent runs on.

use vstd::prelude::*;

verus! {

/// Calls `gethostname::gethostname` and turns the name into a `String`.
///
/// Trusted, and nothing is promised of the result: the name belongs to the
/// machine and may change between two calls. `None` stands for a name that is
/// not valid Unicode.
#[verifier::external_body]
pub(crate) fn host_name() -> Option<String> {
    gethostname::gethostname().into_string().ok()
}

} // verus!
