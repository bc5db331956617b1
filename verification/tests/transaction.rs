use ds1820_driver::ds1820::Reading;
use ds1820_driver::onewire::read_frame;
use ds1820_driver::Delay;
use ds1820_driver::Ds1820Error;
use ds1820_driver::Ds1820Reading;
use ds1820_driver::InputOutputPin;

/// Delay double: the engine's waits are real time only on hardware, so the
/// simulation treats every wait as instantaneous.
struct NoopDelay;

impl Delay for NoopDelay {
    fn delay_us(&mut self, _us: u32) {}

    fn delay_ms(&mut self, _ms: u32) {}
}

/// Bus line double that plays back a canned sequence of levels, one per
/// sample, and then reports a fixed idle level forever.
struct ScriptedPin {
    script: Vec<bool>,
    pos: usize,
    idle: bool,
}

impl ScriptedPin {
    fn new(script: Vec<bool>, idle: bool) -> ScriptedPin {
        ScriptedPin {
            script,
            pos: 0,
            idle,
        }
    }
}

impl InputOutputPin<()> for ScriptedPin {
    fn set_low(&mut self) -> Result<(), ()> {
        Ok(())
    }

    fn set_high(&mut self) -> Result<(), ()> {
        Ok(())
    }

    fn read_level(&mut self) -> Result<bool, ()> {
        if self.pos < self.script.len() {
            let level = self.script[self.pos];
            self.pos += 1;
            Ok(level)
        } else {
            Ok(self.idle)
        }
    }
}

/// Bus line double whose operations fail at the hardware level.
struct BrokenPin;

impl InputOutputPin<u8> for BrokenPin {
    fn set_low(&mut self) -> Result<(), u8> {
        Err(7)
    }

    fn set_high(&mut self) -> Result<(), u8> {
        Err(7)
    }

    fn read_level(&mut self) -> Result<bool, u8> {
        Err(7)
    }
}

/// Levels the engine samples for one transaction that delivers `bytes`:
/// presence handshake (low, high, low), then per bit a rising edge, the
/// sampled value, and for a one bit the falling edge that ends its slot.
fn levels_for_frame(bytes: [u8; 5]) -> Vec<bool> {
    let mut levels = vec![false, true, false];
    for byte in bytes {
        for shift in (0..8).rev() {
            let bit = (byte >> shift) & 1 == 1;
            levels.push(true);
            levels.push(bit);
            if bit {
                levels.push(false);
            }
        }
    }
    levels
}

#[test]
fn end_to_end_canned_sequence_decodes() {
    let mut delay = NoopDelay;
    let mut pin = ScriptedPin::new(levels_for_frame([0x32, 0x00, 0x1B, 0x00, 0x4D]), true);
    let r = Reading::read(&mut delay, &mut pin);
    assert!(matches!(
        r,
        Ok(Reading {
            temperature: 27,
            relative_humidity: 50
        })
    ));
}

#[test]
fn end_to_end_flipped_bit_is_checksum_mismatch() {
    // One payload bit flipped (0x32 -> 0x33) without recomputing the checksum.
    let mut delay = NoopDelay;
    let mut pin = ScriptedPin::new(levels_for_frame([0x33, 0x00, 0x1B, 0x00, 0x4D]), true);
    let r = Reading::read(&mut delay, &mut pin);
    assert!(matches!(r, Err(Ds1820Error::ChecksumMismatch)));
}

#[test]
fn read_frame_returns_raw_bytes_unvalidated() {
    let mut delay = NoopDelay;
    let mut pin = ScriptedPin::new(levels_for_frame([0x33, 0x00, 0x1B, 0x00, 0x4D]), true);
    let r = read_frame(&mut delay, &mut pin);
    assert_eq!(r.ok(), Some([0x33, 0x00, 0x1B, 0x00, 0x4D]));
}

#[test]
fn no_presence_pulse_is_timeout() {
    // The line stays at its released-high idle level: no presence pulse ever.
    let mut delay = NoopDelay;
    let mut pin = ScriptedPin::new(Vec::new(), true);
    let r = Reading::read(&mut delay, &mut pin);
    assert!(matches!(r, Err(Ds1820Error::Timeout)));
}

#[test]
fn line_stuck_low_is_timeout() {
    // The presence pulse never ends: the expected rising edge never comes.
    let mut delay = NoopDelay;
    let mut pin = ScriptedPin::new(Vec::new(), false);
    let r = Reading::read(&mut delay, &mut pin);
    assert!(matches!(r, Err(Ds1820Error::Timeout)));
}

#[test]
fn silence_mid_transaction_is_timeout_without_partial_payload() {
    // The sensor answers the handshake and two slots, then goes silent.
    let mut levels = vec![false, true, false];
    levels.extend([true, false, true, true, false]);
    let mut delay = NoopDelay;
    let mut pin = ScriptedPin::new(levels, false);
    let r = Reading::read(&mut delay, &mut pin);
    assert!(matches!(r, Err(Ds1820Error::Timeout)));
}

#[test]
fn hardware_fault_is_bus_fault() {
    let mut delay = NoopDelay;
    let mut pin = BrokenPin;
    let r = Reading::read(&mut delay, &mut pin);
    assert!(matches!(r, Err(Ds1820Error::BusFault(7))));
}
