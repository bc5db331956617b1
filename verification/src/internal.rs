use vstd::prelude::*;

verus! {

/// Conversion from the four validated payload bytes of one bus transaction
/// to a typed reading.
pub trait FromRaw: Sized {
    fn raw_to_reading(bytes: [u8; 4]) -> Self;
}

} // verus!
