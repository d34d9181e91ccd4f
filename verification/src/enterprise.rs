//! Enterprise features.
use vstd::prelude::*;

verus! {

/// Whether enterprise features are on; in this module they always are.
pub fn is_enterprise_enabled() -> (r: bool)
    ensures
        r,
{
    true
}

} // verus!
