//! Fresh opaque identifiers for resources and widgets.

use vstd::prelude::*;

verus! {

/// Relies on uuid's `Uuid::new_v4` and its `Display` rendering: a random
/// version-4 UUID in the documented 36-character hyphenated form.  The
/// value is random, so nothing is promised of its content.
#[verifier::external_body]
pub(crate) fn fresh_id() -> (r: String)
    ensures
        r@.len() == 36,
{
    uuid::Uuid::new_v4().to_string()
}

} // verus!
