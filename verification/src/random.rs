use vstd::prelude::*;

verus! {

/// `rand::random::<u8>()`: a byte from the thread-local generator (`rand::rng().random()`).
/// Nothing is stated of its value, which rests on chance. It panics only if the operating
/// system cannot seed the generator, which no precondition can rule out.
#[verifier::external_body]
pub(crate) fn random_byte() -> u8 {
    rand::random::<u8>()
}

} // verus!
