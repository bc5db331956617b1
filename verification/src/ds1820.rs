use vstd::prelude::*;

use crate::convert_signed;
use crate::internal::FromRaw;
use crate::temperature_of;

verus! {

/// One decoded sensor reading: temperature in whole degrees (sign-magnitude
/// source encoding, so the value lies in -127..=127) and relative humidity
/// as a whole percentage.
#[derive(Clone, Copy, Debug, PartialEq, Eq, Structural)]
pub struct Reading {
    pub temperature: i8,
    pub relative_humidity: u8,
}

/// The reading that a four-byte payload denotes: humidity is the first byte
/// unchanged, temperature is the sign-magnitude decoding of the third byte.
/// The second and fourth bytes carry decimal fractions that this reading
/// type does not use.
pub open spec fn reading_of(bytes: Seq<u8>) -> Reading
    recommends
        bytes.len() == 4,
{
    Reading { temperature: temperature_of(bytes[2]) as i8, relative_humidity: bytes[0] }
}

impl FromRaw for Reading {
    /// Pure decoder: the result is a function of the payload bytes alone.
    fn raw_to_reading(bytes: [u8; 4]) -> (r: Reading)
        ensures
            r.relative_humidity == bytes@[0],
            r.temperature as int == temperature_of(bytes@[2]),
            r == reading_of(bytes@),
    {
        let rh = bytes[0];
        let temp_signed = bytes[2];
        let (signed, magnitude) = convert_signed(temp_signed);
        let temp: i8 = if signed {
            -(magnitude as i8)
        } else {
            magnitude as i8
        };
        Reading { temperature: temp, relative_humidity: rh }
    }
}

impl crate::Ds1820Reading for Reading {

}

/// Decoding is a pure function of the payload: any two results that decode
/// the same byte sequence are the same reading, so decoding twice changes
/// nothing.
pub proof fn lemma_decode_deterministic(bytes: Seq<u8>, r1: Reading, r2: Reading)
    requires
        r1 == reading_of(bytes),
        r2 == reading_of(bytes),
    ensures
        r1 == r2,
{
}

} // verus!
