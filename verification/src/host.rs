//! What only the machine that runs the watcher can tell: who the user is.

use vstd::prelude::*;

verus! {

/// Calls `dirs::home_dir` and renders the path it returns as text.
///
/// Nothing is claimed of the result: it depends on the user's environment and
/// account, and is absent where neither names a home directory.
#[verifier::external_body]
pub(crate) fn home_directory() -> (home: Option<String>) {
    match dirs::home_dir() {
        Some(path) => Some(format!("{}", path.display())),
        None => None,
    }
}

} // verus!
