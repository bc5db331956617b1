//! Driver for a single-wire temperature/humidity sensor in the DS1820/DHT
//! family: a bit-banged, half-duplex one-wire bus transaction engine plus a
//! pure decoder from the raw payload to a typed reading.

use vstd::prelude::*;

pub mod ds1820;
pub mod internal;
pub mod onewire;

pub use internal::FromRaw;
pub use onewire::Delay;
pub use onewire::Ds1820Error;
pub use onewire::InputOutputPin;

verus! {

/// A reading type that one bus transaction can produce: performs the timed
/// transaction and hands the validated payload to the type's own decoder.
pub trait Ds1820Reading: internal::FromRaw + Sized {
    /// Runs one full transaction on the given capabilities and decodes the
    /// validated four-byte payload; any transaction failure is passed through
    /// unchanged.
    fn read<D: Delay, P: InputOutputPin<E>, E>(delay: &mut D, pin: &mut P) -> Result<
        Self,
        Ds1820Error<E>,
    > {
        match onewire::read_raw(delay, pin) {
            Ok(bytes) => Ok(Self::raw_to_reading(bytes)),
            Err(e) => Err(e),
        }
    }
}

/// Sign bit of a sign-magnitude encoded byte: the high bit, set means negative.
pub open spec fn sign_of(b: u8) -> bool {
    b >= 0x80
}

/// Magnitude of a sign-magnitude encoded byte: the low seven bits.
pub open spec fn magnitude_of(b: u8) -> u8 {
    (b % 0x80) as u8
}

/// Temperature denoted by a sign-magnitude encoded byte: the magnitude,
/// negated when the sign bit is set.
pub open spec fn temperature_of(b: u8) -> int {
    if sign_of(b) {
        -(magnitude_of(b) as int)
    } else {
        magnitude_of(b) as int
    }
}

/// Sign-magnitude law: for every magnitude below 128 and either sign bit,
/// the byte assembled as the sign bit in the high position or-ed with the
/// magnitude decodes to the magnitude itself when the sign bit is clear, and
/// to its negation when the sign bit is set.
pub proof fn lemma_sign_magnitude(s: bool, m: u8)
    requires
        m < 128,
    ensures
        temperature_of(
            if s {
                m | 0x80
            } else {
                m
            },
        ) == if s {
            -(m as int)
        } else {
            m as int
        },
{
    if s {
        assert(m < 128 ==> ((m | 0x80) >= 0x80 && (m | 0x80) % 0x80 == m)) by (bit_vector);
    } else {
        assert(m < 128 ==> (m % 0x80 == m)) by (bit_vector);
    }
}

/// Splits a sign-magnitude encoded byte into its sign bit and its magnitude.
pub fn convert_signed(signed: u8) -> (r: (bool, u8))
    ensures
        r.0 == sign_of(signed),
        r.1 == magnitude_of(signed),
        r.1 < 0x80,
{
    let sign = signed & 0x80 != 0;
    let magnitude = signed & 0x7F;
    proof {
        assert((signed & 0x80 != 0) == (signed >= 0x80)) by (bit_vector);
        assert(signed & 0x7F == signed % 0x80) by (bit_vector);
    }
    (sign, magnitude)
}

} // verus!
