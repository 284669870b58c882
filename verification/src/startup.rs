//! The run-at-login decision. Reading and writing the registry entry is
//! platform work; this module decides when the entry must be written.

use vstd::prelude::*;

verus! {

/// On startup the application registers itself to run at login unless it
/// already is: given whether the run-at-login entry is currently present,
/// decides whether it must be written now.
pub fn ensure_startup_enabled(currently_enabled: bool) -> (enable: bool)
    ensures
        enable == !currently_enabled,
{
    !currently_enabled
}

} // verus!
