use vstd::prelude::*;

verus! {

/// Relies on turbo_genesis_sdk::random::u32: one draw from the host's random
/// source. Nothing is known of the value, so nothing is promised.
#[verifier::external_body]
pub(crate) fn draw() -> (r: u32) {
    turbo_genesis_sdk::random::u32()
}

} // verus!
