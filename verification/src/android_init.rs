//! The handshake that registers the platform context.

use vstd::prelude::*;

verus! {

/// Idempotency guard: registration happens before any caller gets here, so
/// there is nothing to check and nothing to do.
pub fn assert_registered() {
}

} // verus!
