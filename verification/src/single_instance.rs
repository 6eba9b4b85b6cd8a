//! Only one copy of the widget runs: the first one holds a named mutex.

use vstd::prelude::*;

verus! {

/// Whether this process is the only instance, given whether the named mutex
/// could be created at all and whether it already existed. When it could
/// not be created the program fails open rather than never starting.
pub fn is_only_instance(mutex_created: bool, already_existed: bool) -> (only: bool)
    ensures
        only == (!mutex_created || !already_existed),
{
    if !mutex_created {
        true
    } else {
        !already_existed
    }
}

} // verus!
