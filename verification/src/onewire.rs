//! One-wire transaction engine: bus reset, presence handshake, timed bit
//! slots, byte assembly and checksum validation over two capability
//! interfaces, a delay provider and a GPIO line.
//!
//! Bit sampling strategy: fixed-offset level sample. After the rising edge
//! that starts a slot's value phase the engine waits `SAMPLE_OFFSET_US`
//! microseconds and reads the line; the sensor holds the line high well past
//! that offset for a one bit and has already released it for a zero bit.

use vstd::prelude::*;

verus! {

/// Blocking wait capability with microsecond granularity; over-waiting is
/// tolerated by the protocol, so no upper bound is demanded of implementers.
pub trait Delay {
    fn delay_us(&mut self, us: u32);

    fn delay_ms(&mut self, ms: u32);
}

/// Single GPIO line capability: drive low, release (or drive) high, and
/// sample the current logic level. Each operation reports a hardware fault
/// through `E`.
pub trait InputOutputPin<E> {
    fn set_low(&mut self) -> Result<(), E>;

    fn set_high(&mut self) -> Result<(), E>;

    fn read_level(&mut self) -> Result<bool, E>;
}

/// Failure of one bus transaction.
pub enum Ds1820Error<E> {
    /// The sensor did not produce an expected level transition within its
    /// timing window, or never signalled presence.
    Timeout,
    /// All forty bits arrived but the fifth byte did not equal the modular
    /// sum of the first four.
    ChecksumMismatch,
    /// A bus line capability operation failed; carries the hardware error.
    BusFault(E),
}

/// How long the engine holds the line low to reset the sensor.
pub const RESET_LOW_MS: u32 = 18;

/// Settle time after releasing the line, before the presence window opens.
pub const RESET_RELEASE_US: u32 = 40;

/// Longest wait, in one-microsecond polls, for any expected level transition.
pub const TRANSITION_TIMEOUT_US: u32 = 100;

/// Offset from a slot's rising edge to the level sample that decides the bit.
pub const SAMPLE_OFFSET_US: u32 = 35;

/// The modular checksum the sensor appends: the low byte of the sum of the
/// four payload bytes.
pub open spec fn checksum_of(bytes: Seq<u8>) -> u8
    recommends
        bytes.len() == 4,
{
    ((bytes[0] + bytes[1] + bytes[2] + bytes[3]) % 256) as u8
}

/// Numeric value of one bit.
pub open spec fn bit_value(b: bool) -> int {
    if b {
        1
    } else {
        0
    }
}

/// Value of a byte assembled most-significant-bit first from eight samples.
pub open spec fn byte_of_bits(bits: Seq<bool>) -> int
    recommends
        bits.len() == 8,
{
    bit_value(bits[0]) * 128 + bit_value(bits[1]) * 64 + bit_value(bits[2]) * 32 + bit_value(
        bits[3],
    ) * 16 + bit_value(bits[4]) * 8 + bit_value(bits[5]) * 4 + bit_value(bits[6]) * 2 + bit_value(
        bits[7],
    )
}

/// Assembles eight line samples into a byte, most significant bit first.
pub fn assemble_byte(bits: &Vec<bool>) -> (b: u8)
    requires
        bits@.len() == 8,
    ensures
        b as int == byte_of_bits(bits@),
{
    let b0: u8 = if bits[0] { 128 } else { 0 };
    let b1: u8 = if bits[1] { 64 } else { 0 };
    let b2: u8 = if bits[2] { 32 } else { 0 };
    let b3: u8 = if bits[3] { 16 } else { 0 };
    let b4: u8 = if bits[4] { 8 } else { 0 };
    let b5: u8 = if bits[5] { 4 } else { 0 };
    let b6: u8 = if bits[6] { 2 } else { 0 };
    let b7: u8 = if bits[7] { 1 } else { 0 };
    b0 + b1 + b2 + b3 + b4 + b5 + b6 + b7
}

/// Computes the expected checksum of the four payload bytes.
pub fn compute_checksum(bytes: &[u8; 5]) -> (c: u8)
    ensures
        c == checksum_of(bytes@.take(4)),
{
    let sum: u32 = bytes[0] as u32 + bytes[1] as u32 + bytes[2] as u32 + bytes[3] as u32;
    let c: u8 = (sum % 256) as u8;
    proof {
        let t = bytes@.take(4);
        assert(t[0] == bytes@[0] && t[1] == bytes@[1] && t[2] == bytes@[2] && t[3] == bytes@[3]);
    }
    c
}

/// Checksum gate of the transaction: succeeds with the four payload bytes
/// exactly when the fifth byte equals their modular sum, and classifies any
/// mismatch as `ChecksumMismatch`.
pub fn validate_payload<E>(bytes: &[u8; 5]) -> (r: Result<[u8; 4], Ds1820Error<E>>)
    ensures
        r is Ok <==> bytes@[4] == checksum_of(bytes@.take(4)),
        r matches Ok(p) ==> p@ =~= bytes@.take(4),
        r matches Err(e) ==> e is ChecksumMismatch,
{
    let expected = compute_checksum(bytes);
    if bytes[4] == expected {
        let mut payload: [u8; 4] = [0u8; 4];
        payload[0] = bytes[0];
        payload[1] = bytes[1];
        payload[2] = bytes[2];
        payload[3] = bytes[3];
        Ok(payload)
    } else {
        Err(Ds1820Error::ChecksumMismatch)
    }
}

/// Polls the line once per microsecond until it reads `target`, for at most
/// `timeout_us` polls. Succeeds with the number of polls spent waiting;
/// otherwise classifies the failure as a timeout or a bus fault, never as a
/// checksum error.
fn wait_for_level<D: Delay, P: InputOutputPin<E>, E>(
    delay: &mut D,
    pin: &mut P,
    target: bool,
    timeout_us: u32,
) -> (r: Result<u32, Ds1820Error<E>>)
    ensures
        r matches Ok(t) ==> t <= timeout_us,
        r matches Err(e) ==> e is Timeout || e is BusFault,
{
    let mut elapsed: u32 = 0;
    while elapsed < timeout_us
        invariant
            elapsed <= timeout_us,
        decreases timeout_us - elapsed,
    {
        match pin.read_level() {
            Ok(level) => {
                if level == target {
                    return Ok(elapsed);
                }
            },
            Err(e) => {
                return Err(Ds1820Error::BusFault(e));
            },
        }
        delay.delay_us(1);
        elapsed = elapsed + 1;
    }
    Err(Ds1820Error::Timeout)
}

/// Reads one bit from its time slot: waits for the rising edge that opens the
/// value phase, samples the level `SAMPLE_OFFSET_US` later (high means one),
/// and for a one bit waits out the rest of the high phase. Fails only with a
/// timeout or a bus fault.
fn read_bit<D: Delay, P: InputOutputPin<E>, E>(delay: &mut D, pin: &mut P) -> (r: Result<
    bool,
    Ds1820Error<E>,
>)
    ensures
        r matches Err(e) ==> e is Timeout || e is BusFault,
{
    match wait_for_level(delay, pin, true, TRANSITION_TIMEOUT_US) {
        Ok(_) => (),
        Err(e) => {
            return Err(e);
        },
    }
    delay.delay_us(SAMPLE_OFFSET_US);
    let high = match pin.read_level() {
        Ok(level) => level,
        Err(e) => {
            return Err(Ds1820Error::BusFault(e));
        },
    };
    if high {
        match wait_for_level(delay, pin, false, TRANSITION_TIMEOUT_US) {
            Ok(_) => (),
            Err(e) => {
                return Err(e);
            },
        }
    }
    Ok(high)
}

/// Reads eight consecutive bit slots and assembles them most significant bit
/// first. Fails only with a timeout or a bus fault.
fn read_byte<D: Delay, P: InputOutputPin<E>, E>(delay: &mut D, pin: &mut P) -> (r: Result<
    u8,
    Ds1820Error<E>,
>)
    ensures
        r matches Err(e) ==> e is Timeout || e is BusFault,
{
    let mut bits: Vec<bool> = Vec::new();
    let mut i: usize = 0;
    while i < 8
        invariant
            bits@.len() == i,
            i <= 8,
        decreases 8 - i,
    {
        let bit = match read_bit(delay, pin) {
            Ok(b) => b,
            Err(e) => {
                return Err(e);
            },
        };
        bits.push(bit);
        i = i + 1;
    }
    Ok(assemble_byte(&bits))
}

/// Resets the bus and consumes the sensor's presence handshake: hold the line
/// low, release it, then require the presence pulse (low, then high) and the
/// falling edge that starts the first bit slot, each within its window.
/// Fails only with a timeout or a bus fault.
fn reset_and_presence<D: Delay, P: InputOutputPin<E>, E>(delay: &mut D, pin: &mut P) -> (r: Result<
    (),
    Ds1820Error<E>,
>)
    ensures
        r matches Err(e) ==> e is Timeout || e is BusFault,
{
    match pin.set_low() {
        Ok(_) => (),
        Err(e) => {
            return Err(Ds1820Error::BusFault(e));
        },
    }
    delay.delay_ms(RESET_LOW_MS);
    match pin.set_high() {
        Ok(_) => (),
        Err(e) => {
            return Err(Ds1820Error::BusFault(e));
        },
    }
    delay.delay_us(RESET_RELEASE_US);
    match wait_for_level(delay, pin, false, TRANSITION_TIMEOUT_US) {
        Ok(_) => (),
        Err(e) => {
            return Err(e);
        },
    }
    match wait_for_level(delay, pin, true, TRANSITION_TIMEOUT_US) {
        Ok(_) => (),
        Err(e) => {
            return Err(e);
        },
    }
    match wait_for_level(delay, pin, false, TRANSITION_TIMEOUT_US) {
        Ok(_) => (),
        Err(e) => {
            return Err(e);
        },
    }
    Ok(())
}

/// The timed half of a transaction: reset and presence handshake, then forty
/// bit slots assembled into five raw bytes (four payload bytes and the
/// checksum byte), not yet validated. Before the checksum gate the only
/// failures are a timeout or a bus fault, and a failed transaction yields no
/// partial frame.
pub fn read_frame<D: Delay, P: InputOutputPin<E>, E>(delay: &mut D, pin: &mut P) -> (r: Result<
    [u8; 5],
    Ds1820Error<E>,
>)
    ensures
        r matches Err(e) ==> e is Timeout || e is BusFault,
{
    match reset_and_presence(delay, pin) {
        Ok(_) => (),
        Err(e) => {
            return Err(e);
        },
    }
    let mut bytes: [u8; 5] = [0u8; 5];
    let mut i: usize = 0;
    while i < 5
        invariant
            i <= 5,
        decreases 5 - i,
    {
        let b = match read_byte(delay, pin) {
            Ok(b) => b,
            Err(e) => {
                return Err(e);
            },
        };
        bytes[i] = b;
        i = i + 1;
    }
    Ok(bytes)
}

/// One full transaction: the timed frame read followed by the checksum gate.
/// What the line delivers is up to the sensor, so the exact relation between
/// a frame and the result lives on `validate_payload`, which this function
/// applies to the frame it read: a transaction succeeds only when the fifth
/// byte equals the modular sum of the first four, and then returns those four
/// payload bytes.
pub fn read_raw<D: Delay, P: InputOutputPin<E>, E>(delay: &mut D, pin: &mut P) -> (r: Result<
    [u8; 4],
    Ds1820Error<E>,
>) {
    match read_frame(delay, pin) {
        Ok(frame) => validate_payload(&frame),
        Err(e) => Err(e),
    }
}

} // verus!
