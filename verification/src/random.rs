use vstd::prelude::*;

verus! {

/// Draws one `u16` from `rand::random`, which samples the thread-local
/// generator. Nothing is claimed of the value: every `u16` may come back, and
/// two calls may differ.
#[verifier::external_body]
pub(crate) fn random_u16() -> (raw: u16) {
    rand::random::<u16>()
}

} // verus!
